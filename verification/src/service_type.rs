//! The server's activity: idle, serving a real-time job, or serving a
//! non-real-time job.

use vstd::prelude::*;

verus! {

/// What the single server is doing at a given simulated instant.
#[derive(Clone, Copy, Debug, PartialEq, Eq, Structural)]
pub enum ServiceType {
    /// An RT job is in service.
    RealTime,
    /// An NRT job is in service.
    NonRealTime,
    /// The server is idle; no completion event is pending.
    Idle,
}

impl ServiceType {
    /// Short code for tabular rendering: 1 for RT service, 2 for NRT
    /// service, 0 for an idle server.
    pub fn code(&self) -> (c: u8)
        ensures
            c == 1 <==> self is RealTime,
            c == 2 <==> self is NonRealTime,
            c == 0 <==> self is Idle,
    {
        match self {
            ServiceType::RealTime => 1,
            ServiceType::NonRealTime => 2,
            ServiceType::Idle => 0,
        }
    }
}

} // verus!

//! Discrete-event simulator for a single-server preemptive-priority queue
//! with two traffic classes: real-time (RT) and non-real-time (NRT) jobs.
//!
//! Simulated time is measured in integer ticks; the caller picks the tick
//! resolution. The engine advances the state event by event and records one
//! snapshot per processed event, plus one initial snapshot.

pub mod service_type;
pub mod simulation_entry;
pub mod simulate;
pub mod laws;

//! The simulation state record: configured means, event clocks, queue
//! lengths, server activity, and the remaining time of a preempted NRT job.

use vstd::prelude::*;
use crate::service_type::ServiceType;

verus! {

/// Sentinel value of `scl` while the server is idle: no completion event is
/// pending, so the service clock is unreachable by the event selection.
pub const SCL_IDLE: u64 = u64::MAX;

/// Upper bound accepted for a configured mean or a run horizon, in ticks.
/// Keeping every duration at or below this bound keeps every clock sum the
/// engine forms well under `u64::MAX`, so the arithmetic never overflows and
/// a real clock never collides with the `SCL_IDLE` sentinel.
pub const MAX_TICKS: u64 = 0x1000_0000_0000_0000;

/// Rejected input, reported before a run starts.
#[derive(Clone, Copy, Debug, PartialEq, Eq, Structural)]
pub enum SimError {
    /// A supplied mean or horizon is zero or above `MAX_TICKS`.
    InvalidParameter,
}

/// The single mutable record of one simulation run. All times are in ticks.
///
/// Queue lengths are unsigned, so they can never go negative. `n_rt` and
/// `n_nonrt` count the jobs of each class that are present and waiting:
/// a job is counted from its arrival until it moves into service.
#[derive(Clone, Copy, Debug, PartialEq, Eq, Structural)]
pub struct Entry {
    /// Configured mean RT inter-arrival time (positive).
    pub rt_inter_interval: u64,
    /// Configured mean NRT inter-arrival time (positive).
    pub nrt_inter_interval: u64,
    /// Configured mean RT service time (positive).
    pub rt_service: u64,
    /// Configured mean NRT service time (positive).
    pub nrt_service: u64,
    /// Master clock: the simulated time of the last processed event.
    pub mc: u64,
    /// Time of the next RT arrival.
    pub rtcl: u64,
    /// Time of the next NRT arrival.
    pub non_rtcl: u64,
    /// Time of the next service completion; `SCL_IDLE` while the server is idle.
    pub scl: u64,
    /// RT jobs waiting (the one in service, if any, is not counted).
    pub n_rt: u64,
    /// NRT jobs waiting (the one in service, if any, is not counted).
    pub n_nonrt: u64,
    /// What the server is doing.
    pub s: ServiceType,
    /// Remaining service time saved when an NRT job was preempted;
    /// 0 means none pending.
    pub preempted_service_time: u64,
    /// Timing mode: true draws exponential durations, false uses the means.
    pub is_exponential: bool,
}

/// A configured mean or horizon the engine accepts: positive and small
/// enough that clock arithmetic cannot overflow.
pub open spec fn duration_valid(d: u64) -> bool {
    1 <= d <= MAX_TICKS
}

/// All four configured means are valid durations.
pub open spec fn params_valid(e: Entry) -> bool {
    &&& duration_valid(e.rt_inter_interval)
    &&& duration_valid(e.nrt_inter_interval)
    &&& duration_valid(e.rt_service)
    &&& duration_valid(e.nrt_service)
}

/// A record as it stands when a run is created and nothing has happened yet:
/// clocks at zero, no completion pending, empty queues, idle server.
pub open spec fn fresh_state(e: Entry) -> bool {
    &&& e.mc == 0
    &&& e.rtcl == 0
    &&& e.non_rtcl == 0
    &&& e.scl == SCL_IDLE
    &&& e.n_rt == 0
    &&& e.n_nonrt == 0
    &&& e.s is Idle
    &&& e.preempted_service_time == 0
}

impl Entry {
    /// Validating constructor: rejects a zero or oversized mean before the
    /// run starts, and otherwise hands back the fresh initial record.
    pub fn new(
        rt_inter_interval: u64,
        nrt_inter_interval: u64,
        rt_service: u64,
        nrt_service: u64,
        is_exponential: bool,
    ) -> (r: Result<Entry, SimError>)
        ensures
            r is Ok <==> duration_valid(rt_inter_interval) && duration_valid(nrt_inter_interval)
                && duration_valid(rt_service) && duration_valid(nrt_service),
            r is Err ==> r == Result::<Entry, SimError>::Err(SimError::InvalidParameter),
            r matches Ok(e) ==> e == (Entry {
                rt_inter_interval,
                nrt_inter_interval,
                rt_service,
                nrt_service,
                mc: 0,
                rtcl: 0,
                non_rtcl: 0,
                scl: SCL_IDLE,
                n_rt: 0,
                n_nonrt: 0,
                s: ServiceType::Idle,
                preempted_service_time: 0,
                is_exponential,
            }),
    {
        if rt_inter_interval < 1 || rt_inter_interval > MAX_TICKS
            || nrt_inter_interval < 1 || nrt_inter_interval > MAX_TICKS
            || rt_service < 1 || rt_service > MAX_TICKS
            || nrt_service < 1 || nrt_service > MAX_TICKS
        {
            return Err(SimError::InvalidParameter);
        }
        Ok(Entry {
            rt_inter_interval,
            nrt_inter_interval,
            rt_service,
            nrt_service,
            mc: 0,
            rtcl: 0,
            non_rtcl: 0,
            scl: SCL_IDLE,
            n_rt: 0,
            n_nonrt: 0,
            s: ServiceType::Idle,
            preempted_service_time: 0,
            is_exponential,
        })
    }
}

} // verus!

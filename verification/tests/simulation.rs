use priosim::service_type::ServiceType;
use priosim::simulation_entry::{Entry, SimError, MAX_TICKS, SCL_IDLE};
use priosim::simulate::{
    handle_arrival_nrt, handle_arrival_rt, handle_service_completion, next_event_time,
    nrt_completion, run, step,
};

fn fresh(rt_inter: u64, nrt_inter: u64, rt_svc: u64, nrt_svc: u64) -> Entry {
    Entry::new(rt_inter, nrt_inter, rt_svc, nrt_svc, false).unwrap()
}

fn snap(
    e: &Entry,
    mc: u64,
    rtcl: u64,
    non_rtcl: u64,
    scl: u64,
    n_rt: u64,
    n_nonrt: u64,
    s: ServiceType,
    preempted: u64,
) {
    assert_eq!(e.mc, mc);
    assert_eq!(e.rtcl, rtcl);
    assert_eq!(e.non_rtcl, non_rtcl);
    assert_eq!(e.scl, scl);
    assert_eq!(e.n_rt, n_rt);
    assert_eq!(e.n_nonrt, n_nonrt);
    assert_eq!(e.s, s);
    assert_eq!(e.preempted_service_time, preempted);
}

#[test]
fn new_rejects_invalid_parameters() {
    assert_eq!(Entry::new(0, 5, 2, 4, false), Err(SimError::InvalidParameter));
    assert_eq!(Entry::new(10, 0, 2, 4, false), Err(SimError::InvalidParameter));
    assert_eq!(Entry::new(10, 5, 0, 4, false), Err(SimError::InvalidParameter));
    assert_eq!(Entry::new(10, 5, 2, 0, true), Err(SimError::InvalidParameter));
    assert_eq!(
        Entry::new(MAX_TICKS + 1, 5, 2, 4, false),
        Err(SimError::InvalidParameter)
    );
    assert!(Entry::new(10, 5, 2, 4, false).is_ok());
    assert!(Entry::new(1, 1, 1, MAX_TICKS, true).is_ok());
}

#[test]
fn new_yields_fresh_state() {
    let e = fresh(10, 5, 2, 4);
    snap(&e, 0, 0, 0, SCL_IDLE, 0, 0, ServiceType::Idle, 0);
    assert_eq!(e.rt_inter_interval, 10);
    assert_eq!(e.nrt_inter_interval, 5);
    assert_eq!(e.rt_service, 2);
    assert_eq!(e.nrt_service, 4);
    assert!(!e.is_exponential);
}

#[test]
fn service_type_codes() {
    assert_eq!(ServiceType::Idle.code(), 0);
    assert_eq!(ServiceType::RealTime.code(), 1);
    assert_eq!(ServiceType::NonRealTime.code(), 2);
}

#[test]
fn next_event_ignores_service_clock_while_idle() {
    let mut e = fresh(10, 5, 2, 4);
    e.rtcl = 10;
    e.non_rtcl = 5;
    assert_eq!(next_event_time(&e), 5);
    e.s = ServiceType::NonRealTime;
    e.scl = 3;
    assert_eq!(next_event_time(&e), 3);
}

#[test]
fn nrt_arrival_starts_service_on_idle_server() {
    let mut e = fresh(10, 5, 2, 4);
    e.rtcl = 10;
    e.non_rtcl = 5;
    handle_arrival_nrt(&mut e, 5, 4);
    snap(&e, 5, 10, 10, 9, 0, 0, ServiceType::NonRealTime, 0);
}

#[test]
fn nrt_arrival_queues_behind_busy_server() {
    let mut e = fresh(10, 5, 2, 4);
    e.rtcl = 10;
    e.non_rtcl = 5;
    e.mc = 3;
    e.s = ServiceType::RealTime;
    e.scl = 6;
    handle_arrival_nrt(&mut e, 5, 4);
    snap(&e, 5, 10, 10, 6, 0, 1, ServiceType::RealTime, 0);
}

#[test]
fn rt_arrival_preempts_nrt_service() {
    let mut e = fresh(7, 2, 3, 4);
    e.mc = 6;
    e.rtcl = 7;
    e.non_rtcl = 8;
    e.n_nonrt = 1;
    e.s = ServiceType::NonRealTime;
    e.scl = 10;
    handle_arrival_rt(&mut e, 7, 3);
    // The NRT job had 3 ticks left; it returns to the queue and the RT job
    // runs at once.
    snap(&e, 7, 14, 8, 10, 0, 2, ServiceType::RealTime, 3);
}

#[test]
fn rt_arrival_queues_behind_rt_service() {
    let mut e = fresh(7, 2, 3, 4);
    e.mc = 5;
    e.rtcl = 7;
    e.non_rtcl = 8;
    e.s = ServiceType::RealTime;
    e.scl = 9;
    handle_arrival_rt(&mut e, 7, 3);
    snap(&e, 7, 14, 8, 9, 1, 0, ServiceType::RealTime, 0);
}

#[test]
fn completion_prefers_waiting_rt_job() {
    let mut e = fresh(7, 2, 3, 4);
    e.mc = 5;
    e.rtcl = 14;
    e.non_rtcl = 8;
    e.n_rt = 1;
    e.n_nonrt = 2;
    e.s = ServiceType::RealTime;
    e.scl = 6;
    handle_service_completion(&mut e, 3, 4);
    snap(&e, 6, 14, 8, 9, 0, 2, ServiceType::RealTime, 0);
}

#[test]
fn completion_resumes_preempted_remainder_and_resets_it() {
    let mut e = fresh(7, 2, 3, 4);
    e.mc = 8;
    e.rtcl = 14;
    e.non_rtcl = 12;
    e.n_nonrt = 2;
    e.s = ServiceType::RealTime;
    e.scl = 10;
    e.preempted_service_time = 3;
    handle_service_completion(&mut e, 3, 4);
    snap(&e, 10, 14, 12, 13, 0, 1, ServiceType::NonRealTime, 0);
}

#[test]
fn completion_with_empty_queues_idles_the_server() {
    let mut e = fresh(7, 2, 3, 4);
    e.mc = 5;
    e.rtcl = 14;
    e.non_rtcl = 12;
    e.s = ServiceType::NonRealTime;
    e.scl = 6;
    handle_service_completion(&mut e, 3, 4);
    snap(&e, 6, 14, 12, SCL_IDLE, 0, 0, ServiceType::Idle, 0);
}

#[test]
fn nrt_completion_uses_explicit_duration() {
    let mut e = fresh(7, 2, 3, 4);
    e.mc = 10;
    e.n_nonrt = 4;
    e.s = ServiceType::RealTime;
    e.scl = 10;
    nrt_completion(&mut e, 3);
    assert_eq!(e.scl, 13);
    assert_eq!(e.n_nonrt, 3);
    assert_eq!(e.s, ServiceType::NonRealTime);
}

#[test]
fn baseline_scenario_trace_prefix() {
    // rt_inter=10, nrt_inter=5, rt_service=2, nrt_service=4, horizon=200,
    // deterministic timing.
    let mut e = fresh(10, 5, 2, 4);
    let trace = run(&mut e, 200);

    // Initial snapshot: first arrivals scheduled one mean away, server idle.
    snap(&trace[0], 0, 10, 5, SCL_IDLE, 0, 0, ServiceType::Idle, 0);
    // First event at clock 5: NRT arrival, idle server starts it at once.
    snap(&trace[1], 5, 10, 10, 9, 0, 0, ServiceType::NonRealTime, 0);
    // Clock 9: NRT completion, server goes idle.
    snap(&trace[2], 9, 10, 10, SCL_IDLE, 0, 0, ServiceType::Idle, 0);
    // Clock 10: RT arrival finds the server idle and starts at once...
    snap(&trace[3], 10, 20, 10, 12, 0, 0, ServiceType::RealTime, 0);
    // ...and the simultaneous NRT arrival queues behind it.
    snap(&trace[4], 10, 20, 15, 12, 0, 1, ServiceType::RealTime, 0);
    // Clock 12: RT completion, the waiting NRT job starts fresh.
    snap(&trace[5], 12, 20, 15, 16, 0, 0, ServiceType::NonRealTime, 0);
    // Clock 15: NRT arrival queues.
    snap(&trace[6], 15, 20, 20, 16, 0, 1, ServiceType::NonRealTime, 0);
    // Clock 16: completion, next NRT job starts.
    snap(&trace[7], 16, 20, 20, 20, 0, 0, ServiceType::NonRealTime, 0);
    // Clock 20: RT arrival preempts the NRT job that started at the same
    // instant (remaining time 0), the preempted job returns to the queue.
    snap(&trace[8], 20, 30, 20, 22, 0, 1, ServiceType::RealTime, 0);
    snap(&trace[9], 20, 30, 25, 22, 0, 2, ServiceType::RealTime, 0);
    // Clock 22: RT completion, a queued NRT job starts fresh.
    snap(&trace[10], 22, 30, 25, 26, 0, 1, ServiceType::NonRealTime, 0);

    // The run stops at the horizon.
    assert!(e.mc <= 200);
    assert_eq!(trace.last().unwrap(), &e);
}

#[test]
fn preemption_scenario_trace() {
    // rt_inter=7, nrt_inter=2, rt_service=3, nrt_service=4, horizon=12:
    // the RT arrival at clock 7 preempts an NRT job with 3 ticks left.
    let mut e = fresh(7, 2, 3, 4);
    let trace = run(&mut e, 12);
    snap(&trace[0], 0, 7, 2, SCL_IDLE, 0, 0, ServiceType::Idle, 0);
    snap(&trace[1], 2, 7, 4, 6, 0, 0, ServiceType::NonRealTime, 0);
    snap(&trace[2], 4, 7, 6, 6, 0, 1, ServiceType::NonRealTime, 0);
    snap(&trace[3], 6, 7, 8, 6, 0, 2, ServiceType::NonRealTime, 0);
    snap(&trace[4], 6, 7, 8, 10, 0, 1, ServiceType::NonRealTime, 0);
    // RT arrival at 7 while serving NRT: preempted remainder 10 - 7 = 3.
    snap(&trace[5], 7, 14, 8, 10, 0, 2, ServiceType::RealTime, 3);
    // The remainder is kept through the next NRT arrival...
    snap(&trace[6], 8, 14, 10, 10, 0, 3, ServiceType::RealTime, 3);
    snap(&trace[7], 10, 14, 12, 10, 0, 4, ServiceType::RealTime, 3);
    // ...and consumed when the RT job completes: the preempted NRT job
    // resumes for exactly 3 ticks and the remainder resets to zero.
    snap(&trace[8], 10, 14, 12, 13, 0, 3, ServiceType::NonRealTime, 0);
    snap(&trace[9], 12, 14, 14, 13, 0, 4, ServiceType::NonRealTime, 0);
    assert_eq!(trace.len(), 10);
}

#[test]
fn step_emits_one_snapshot_per_due_event() {
    // From the scheduled initial state of the baseline parameters, one step
    // with the means as samples is the NRT arrival at clock 5.
    let mut e = fresh(10, 5, 2, 4);
    e.rtcl = 10;
    e.non_rtcl = 5;
    let snaps = step(&mut e, 10, 2, 5, 4, 2, 4);
    assert_eq!(snaps.len(), 1);
    snap(&snaps[0], 5, 10, 10, 9, 0, 0, ServiceType::NonRealTime, 0);
    assert_eq!(snaps[0], e);

    // An RT and an NRT arrival due at the same instant fire in that order
    // within one step.
    let mut d = fresh(10, 5, 2, 4);
    d.mc = 9;
    d.rtcl = 10;
    d.non_rtcl = 10;
    let snaps = step(&mut d, 10, 2, 5, 4, 2, 4);
    assert_eq!(snaps.len(), 2);
    snap(&snaps[0], 10, 20, 10, 12, 0, 0, ServiceType::RealTime, 0);
    snap(&snaps[1], 10, 20, 15, 12, 0, 1, ServiceType::RealTime, 0);
    assert_eq!(snaps[1], d);
}

#[test]
fn step_with_distinct_samples_uses_each_where_due() {
    // A completion due alone consumes only the completion samples.
    let mut e = fresh(10, 5, 2, 4);
    e.mc = 12;
    e.rtcl = 20;
    e.non_rtcl = 15;
    e.n_nonrt = 1;
    e.s = ServiceType::NonRealTime;
    e.scl = 14;
    let snaps = step(&mut e, 11, 3, 6, 7, 3, 7);
    assert_eq!(snaps.len(), 1);
    // The waiting NRT job starts with the fresh completion-side sample 7.
    snap(&snaps[0], 14, 20, 15, 21, 0, 0, ServiceType::NonRealTime, 0);
}

#[test]
fn clock_is_monotonic_across_snapshots() {
    let mut e = fresh(10, 5, 2, 4);
    let trace = run(&mut e, 200);
    for w in trace.windows(2) {
        assert!(w[0].mc <= w[1].mc);
    }
}

#[test]
fn idle_snapshots_are_consistent() {
    let mut e = fresh(3, 4, 2, 5);
    let trace = run(&mut e, 500);
    for s in &trace {
        if s.s == ServiceType::Idle {
            assert_eq!(s.n_rt, 0);
            assert_eq!(s.n_nonrt, 0);
            assert_eq!(s.scl, SCL_IDLE);
        }
        if s.s != ServiceType::Idle {
            assert_ne!(s.scl, SCL_IDLE);
        }
        // Queue lengths are unsigned and stay linearly bounded by the clock.
        assert!(s.n_rt + s.n_nonrt <= 2 * s.mc + 2);
    }
}

#[test]
fn deterministic_runs_are_reproducible() {
    let mut a = fresh(10, 5, 2, 4);
    let mut b = fresh(10, 5, 2, 4);
    let ta = run(&mut a, 200);
    let tb = run(&mut b, 200);
    assert_eq!(ta, tb);
    assert_eq!(a, b);
}

#[test]
fn run_terminates_with_bounded_trace() {
    let mut e = fresh(1, 1, 1, 1);
    let trace = run(&mut e, 50);
    assert!(trace.len() >= 1);
    assert!(trace.len() as u64 <= 1 + 3 * 50);

    let mut tiny = fresh(1, 1, 1, 1);
    let tt = run(&mut tiny, 1);
    // Initial snapshot, then the simultaneous RT and NRT arrivals at clock 1.
    snap(&tt[0], 0, 1, 1, SCL_IDLE, 0, 0, ServiceType::Idle, 0);
    snap(&tt[1], 1, 2, 1, 2, 0, 0, ServiceType::RealTime, 0);
    snap(&tt[2], 1, 2, 2, 2, 0, 1, ServiceType::RealTime, 0);
    assert_eq!(tt.len(), 3);
}

#[test]
fn horizon_cuts_off_late_events() {
    // First arrivals land past the horizon: only the initial snapshot.
    let mut e = fresh(100, 100, 2, 4);
    let trace = run(&mut e, 50);
    assert_eq!(trace.len(), 1);
    snap(&trace[0], 0, 100, 100, SCL_IDLE, 0, 0, ServiceType::Idle, 0);
}

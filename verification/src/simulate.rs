//! The event-scheduling engine: handlers for RT arrivals, NRT arrivals and
//! service completions, earliest-event selection, and the run loop.
//!
//! Each exec handler is pinned exactly to an open spec function over the
//! state record, so the whole deterministic run is a mathematical function
//! of the initial record and the horizon.

use vstd::prelude::*;
use crate::service_type::ServiceType;
use crate::simulation_entry::{Entry, SCL_IDLE, MAX_TICKS, params_valid, duration_valid, fresh_state};

verus! {

/// The smaller of two tick counts.
pub open spec fn min_u64(a: u64, b: u64) -> u64 {
    if a <= b { a } else { b }
}

/// Time of the next event: the earliest pending arrival, raced against the
/// pending completion only when the server is busy (an idle server has no
/// completion scheduled).
pub open spec fn next_time_spec(e: Entry) -> u64 {
    let a = min_u64(e.rtcl, e.non_rtcl);
    if e.s is Idle {
        a
    } else {
        min_u64(a, e.scl)
    }
}

/// Start (or resume) RT service at the current instant: schedule the
/// completion, move the first waiting RT job into service, mark the server.
pub open spec fn rt_start_spec(e: Entry, service_sample: u64) -> Entry {
    Entry {
        scl: (e.mc + service_sample) as u64,
        n_rt: (e.n_rt - 1) as u64,
        s: ServiceType::RealTime,
        ..e
    }
}

/// Start (or resume) NRT service at the current instant with an explicit
/// duration: either a fresh sampled service time or a saved preempted
/// remainder, chosen by the caller.
pub open spec fn nrt_start_spec(e: Entry, service_time: u64) -> Entry {
    Entry {
        scl: (e.mc + service_time) as u64,
        n_nonrt: (e.n_nonrt - 1) as u64,
        s: ServiceType::NonRealTime,
        ..e
    }
}

/// An RT arrival at time `e.rtcl`: advance the clock, schedule the next RT
/// arrival `inter_sample` later, queue the job; if it is the only RT job
/// present, an idle server starts it at once and a server busy with an NRT
/// job is preempted (the NRT job returns to the queue with its remaining
/// time saved), while a server already serving RT keeps running.
pub open spec fn rt_arrival_spec(e: Entry, inter_sample: u64, service_sample: u64) -> Entry {
    let e1 = Entry {
        mc: e.rtcl,
        rtcl: (e.rtcl + inter_sample) as u64,
        n_rt: (e.n_rt + 1) as u64,
        ..e
    };
    if e1.n_rt == 1 {
        match e1.s {
            ServiceType::Idle => rt_start_spec(e1, service_sample),
            ServiceType::NonRealTime => rt_start_spec(
                Entry {
                    preempted_service_time: (e1.scl - e1.mc) as u64,
                    n_nonrt: (e1.n_nonrt + 1) as u64,
                    ..e1
                },
                service_sample,
            ),
            ServiceType::RealTime => e1,
        }
    } else {
        e1
    }
}

/// An NRT arrival at time `e.non_rtcl`: advance the clock, queue the job,
/// schedule the next NRT arrival `inter_sample` later; an idle server starts
/// the job at once with the fresh `service_sample`, a busy server makes it
/// wait.
pub open spec fn nrt_arrival_spec(e: Entry, inter_sample: u64, service_sample: u64) -> Entry {
    let e1 = Entry {
        mc: e.non_rtcl,
        n_nonrt: (e.n_nonrt + 1) as u64,
        non_rtcl: (e.non_rtcl + inter_sample) as u64,
        ..e
    };
    if e1.s is Idle {
        nrt_start_spec(e1, service_sample)
    } else {
        e1
    }
}

/// A service completion at time `e.scl`: advance the clock; a waiting RT job
/// (strict priority) starts next, else a waiting NRT job starts — resuming
/// with the saved preempted remainder if one is pending, which is consumed
/// and reset to zero, or with the fresh `nrt_service_sample` otherwise —
/// and with both queues empty the server goes idle and the service clock
/// takes the `SCL_IDLE` sentinel.
pub open spec fn completion_spec(e: Entry, rt_service_sample: u64, nrt_service_sample: u64) -> Entry {
    let e1 = Entry { mc: e.scl, ..e };
    if e1.n_rt > 0 {
        rt_start_spec(e1, rt_service_sample)
    } else if e1.n_nonrt > 0 {
        if e1.preempted_service_time > 0 {
            nrt_start_spec(
                Entry { preempted_service_time: 0, ..e1 },
                e1.preempted_service_time,
            )
        } else {
            nrt_start_spec(e1, nrt_service_sample)
        }
    } else {
        Entry { s: ServiceType::Idle, scl: SCL_IDLE, ..e1 }
    }
}

/// Start/resume RT service, an internal helper of the engine: schedule the
/// completion `service_sample` ticks from now and move the job into service.
fn rt_completion(e: &mut Entry, service_sample: u64)
    requires
        old(e).n_rt >= 1,
        old(e).mc + service_sample < SCL_IDLE,
    ensures
        *final(e) == rt_start_spec(*old(e), service_sample),
{
    e.scl = e.mc + service_sample;
    e.n_rt = e.n_rt - 1;
    e.s = ServiceType::RealTime;
}

/// Start/resume NRT service with an explicit duration, so callers can pass
/// either a fresh sampled service time or a saved preempted remainder.
pub fn nrt_completion(e: &mut Entry, service_time: u64)
    requires
        old(e).n_nonrt >= 1,
        old(e).mc + service_time < SCL_IDLE,
    ensures
        *final(e) == nrt_start_spec(*old(e), service_time),
{
    e.scl = e.mc + service_time;
    e.n_nonrt = e.n_nonrt - 1;
    e.s = ServiceType::NonRealTime;
}

/// Handle the RT arrival due at `e.rtcl`. The caller supplies the next RT
/// inter-arrival duration and an RT service duration (used only when this
/// arrival starts service); in deterministic mode both are the configured
/// means.
pub fn handle_arrival_rt(e: &mut Entry, inter_sample: u64, service_sample: u64)
    requires
        old(e).mc <= old(e).rtcl,
        old(e).rtcl + inter_sample < SCL_IDLE,
        old(e).rtcl + service_sample < SCL_IDLE,
        old(e).n_rt < u64::MAX,
        old(e).n_nonrt < u64::MAX,
        old(e).s is NonRealTime ==> old(e).rtcl <= old(e).scl,
    ensures
        *final(e) == rt_arrival_spec(*old(e), inter_sample, service_sample),
{
    e.mc = e.rtcl;
    e.rtcl = e.mc + inter_sample;
    e.n_rt = e.n_rt + 1;
    if e.n_rt == 1 {
        match e.s {
            ServiceType::Idle => {
                rt_completion(e, service_sample);
            }
            ServiceType::NonRealTime => {
                e.preempted_service_time = e.scl - e.mc;
                e.n_nonrt = e.n_nonrt + 1;
                rt_completion(e, service_sample);
            }
            ServiceType::RealTime => {}
        }
    }
}

/// Handle the NRT arrival due at `e.non_rtcl`. The caller supplies the next
/// NRT inter-arrival duration and a fresh NRT service duration (used only
/// when the server is idle); in deterministic mode both are the configured
/// means.
pub fn handle_arrival_nrt(e: &mut Entry, inter_sample: u64, service_sample: u64)
    requires
        old(e).mc <= old(e).non_rtcl,
        old(e).non_rtcl + inter_sample < SCL_IDLE,
        old(e).non_rtcl + service_sample < SCL_IDLE,
        old(e).n_nonrt < u64::MAX,
    ensures
        *final(e) == nrt_arrival_spec(*old(e), inter_sample, service_sample),
{
    e.mc = e.non_rtcl;
    e.n_nonrt = e.n_nonrt + 1;
    e.non_rtcl = e.mc + inter_sample;
    if e.s == ServiceType::Idle {
        nrt_completion(e, service_sample);
    }
}

/// Handle the service completion due at `e.scl`. A waiting RT job has strict
/// priority for the freed server; else a waiting NRT job starts, resuming
/// with the saved preempted remainder (consumed and reset to zero) if one is
/// pending; else the server goes idle.
pub fn handle_service_completion(e: &mut Entry, rt_service_sample: u64, nrt_service_sample: u64)
    requires
        !(old(e).s is Idle),
        old(e).mc <= old(e).scl,
        old(e).scl + rt_service_sample < SCL_IDLE,
        old(e).scl + nrt_service_sample < SCL_IDLE,
        old(e).scl + old(e).preempted_service_time < SCL_IDLE,
    ensures
        *final(e) == completion_spec(*old(e), rt_service_sample, nrt_service_sample),
{
    e.mc = e.scl;
    if e.n_rt > 0 {
        rt_completion(e, rt_service_sample);
    } else if e.n_nonrt > 0 {
        if e.preempted_service_time > 0 {
            let remaining = e.preempted_service_time;
            e.preempted_service_time = 0;
            nrt_completion(e, remaining);
        } else {
            nrt_completion(e, nrt_service_sample);
        }
    } else {
        e.s = ServiceType::Idle;
        e.scl = SCL_IDLE;
    }
}

/// Time of the next event, as the run loop selects it.
pub fn next_event_time(e: &Entry) -> (t: u64)
    ensures
        t == next_time_spec(*e),
{
    let a = if e.rtcl <= e.non_rtcl { e.rtcl } else { e.non_rtcl };
    if e.s == ServiceType::Idle {
        a
    } else {
        if a <= e.scl { a } else { e.scl }
    }
}

/// Everything the engine keeps true of the state record between loop
/// iterations: valid parameters, a clock that never passed the horizon,
/// pending events strictly in the future and never further away than one
/// mean, a service clock at the idle sentinel exactly while the server is
/// idle, empty queues while idle, a saved preempted remainder never above
/// the mean NRT service time, and queue lengths linearly bounded by the
/// clock.
pub open spec fn run_inv(e: Entry, max_time: u64) -> bool {
    &&& params_valid(e)
    &&& max_time <= MAX_TICKS
    &&& e.mc <= max_time
    &&& e.mc < e.rtcl <= e.mc + e.rt_inter_interval
    &&& e.mc < e.non_rtcl <= e.mc + e.nrt_inter_interval
    &&& (e.s is Idle <==> e.scl == SCL_IDLE)
    &&& (e.s is Idle ==> e.n_rt == 0 && e.n_nonrt == 0)
    &&& (e.s is RealTime ==> e.mc < e.scl <= e.mc + e.rt_service)
    &&& (e.s is NonRealTime ==> e.mc < e.scl <= e.mc + e.nrt_service)
    &&& e.preempted_service_time <= e.nrt_service
    &&& e.n_rt + e.n_nonrt <= 2 * e.mc + 2
}

/// State after the RT-arrival step of one loop iteration with explicit
/// samples (fires only when the RT arrival clock is the next event time).
pub open spec fn step_e1(e: Entry, rt_inter: u64, rt_svc: u64) -> Entry {
    if e.rtcl == next_time_spec(e) {
        rt_arrival_spec(e, rt_inter, rt_svc)
    } else {
        e
    }
}

/// State after the NRT-arrival step of one loop iteration with explicit
/// samples.
pub open spec fn step_e2(e: Entry, rt_inter: u64, rt_svc: u64, nrt_inter: u64, nrt_svc: u64) -> Entry {
    let e1 = step_e1(e, rt_inter, rt_svc);
    if e1.non_rtcl == next_time_spec(e) {
        nrt_arrival_spec(e1, nrt_inter, nrt_svc)
    } else {
        e1
    }
}

/// State after one full loop iteration at the next event time, with explicit
/// samples for each duration the iteration might need: the RT arrival, the
/// NRT arrival and the service completion are checked in that fixed priority
/// order, so simultaneous events all fire at the same instant. The
/// completion is tested against the service clock as it stands after the
/// arrivals: a preemption at the same instant supersedes the completion that
/// had been pending.
pub open spec fn step_spec(
    e: Entry,
    rt_inter: u64,
    rt_svc: u64,
    nrt_inter: u64,
    nrt_svc: u64,
    cmp_rt_svc: u64,
    cmp_nrt_svc: u64,
) -> Entry {
    let e2 = step_e2(e, rt_inter, rt_svc, nrt_inter, nrt_svc);
    if !(e2.s is Idle) && e2.scl == next_time_spec(e) {
        completion_spec(e2, cmp_rt_svc, cmp_nrt_svc)
    } else {
        e2
    }
}

/// The snapshots one loop iteration with explicit samples emits: one per
/// handler that fired, in the fixed order RT arrival, NRT arrival, service
/// completion.
pub open spec fn step_snaps_spec(
    e: Entry,
    rt_inter: u64,
    rt_svc: u64,
    nrt_inter: u64,
    nrt_svc: u64,
    cmp_rt_svc: u64,
    cmp_nrt_svc: u64,
) -> Seq<Entry> {
    let t = next_time_spec(e);
    let e1 = step_e1(e, rt_inter, rt_svc);
    let e2 = step_e2(e, rt_inter, rt_svc, nrt_inter, nrt_svc);
    let s1 = if e.rtcl == t {
        seq![e1]
    } else {
        Seq::<Entry>::empty()
    };
    let s2 = if e1.non_rtcl == t {
        s1 + seq![e2]
    } else {
        s1
    };
    if !(e2.s is Idle) && e2.scl == t {
        s2 + seq![step_spec(e, rt_inter, rt_svc, nrt_inter, nrt_svc, cmp_rt_svc, cmp_nrt_svc)]
    } else {
        s2
    }
}

/// One deterministic loop iteration: every sample is the configured mean.
pub open spec fn batch_spec(e: Entry) -> Entry {
    step_spec(
        e,
        e.rt_inter_interval,
        e.rt_service,
        e.nrt_inter_interval,
        e.nrt_service,
        e.rt_service,
        e.nrt_service,
    )
}

/// The snapshots one deterministic loop iteration emits.
pub open spec fn batch_snaps_spec(e: Entry) -> Seq<Entry> {
    step_snaps_spec(
        e,
        e.rt_inter_interval,
        e.rt_service,
        e.nrt_inter_interval,
        e.nrt_service,
        e.rt_service,
        e.nrt_service,
    )
}

/// What holds of every snapshot a loop iteration at time `t` emits.
pub open spec fn snap_ok(x: Entry, t: u64) -> bool {
    &&& x.mc == t
    &&& (x.s is Idle ==> x.n_rt == 0 && x.n_nonrt == 0 && x.scl == SCL_IDLE)
    &&& x.n_rt + x.n_nonrt <= 2 * t + 2
}

/// One loop iteration preserves the run invariant, advances the clock to
/// exactly the next event time, and emits between one and three snapshots,
/// the last being the new state, all stamped with the event time and all
/// idle-consistent.
pub proof fn lemma_batch(e: Entry, max_time: u64)
    requires
        run_inv(e, max_time),
        e.mc < max_time,
        next_time_spec(e) <= max_time,
    ensures
        batch_spec(e).mc == next_time_spec(e),
        batch_spec(e).mc > e.mc,
        run_inv(batch_spec(e), max_time),
        1 <= batch_snaps_spec(e).len() <= 3,
        batch_snaps_spec(e)[batch_snaps_spec(e).len() - 1] == batch_spec(e),
        forall|i: int| 0 <= i < batch_snaps_spec(e).len()
            ==> snap_ok(#[trigger] batch_snaps_spec(e)[i], next_time_spec(e)),
        batch_spec(e).rt_inter_interval == e.rt_inter_interval,
        batch_spec(e).nrt_inter_interval == e.nrt_inter_interval,
        batch_spec(e).rt_service == e.rt_service,
        batch_spec(e).nrt_service == e.nrt_service,
        batch_spec(e).is_exponential == e.is_exponential,
{
    let t = next_time_spec(e);
    let e1 = step_e1(e, e.rt_inter_interval, e.rt_service);
    let e2 = step_e2(e, e.rt_inter_interval, e.rt_service, e.nrt_inter_interval, e.nrt_service);
    let e3 = batch_spec(e);
    assert(t > e.mc);
    assert(e1.mc == if e.rtcl == t { t } else { e.mc });
    assert(e2.mc == if e.rtcl == t || e.non_rtcl == t { t } else { e.mc });
    if e.rtcl != t && e.non_rtcl != t {
        assert(!(e.s is Idle) && e.scl == t);
        assert(e2 == e);
    }
    assert(e3.mc == t);
}

/// The whole deterministic run as a mathematical function: the snapshots
/// that the engine emits from state `e` until the next event would pass the
/// horizon. Empty once the clock or the next event passes the horizon (or
/// if the state is not a reachable engine state).
pub open spec fn det_trace(e: Entry, max_time: u64) -> Seq<Entry>
    decreases max_time - e.mc,
{
    if run_inv(e, max_time) && e.mc < max_time && next_time_spec(e) <= max_time {
        proof {
            lemma_batch(e, max_time);
        }
        batch_snaps_spec(e) + det_trace(batch_spec(e), max_time)
    } else {
        Seq::empty()
    }
}

/// The record as it stands when the run begins: the first RT and NRT
/// arrivals are scheduled one mean away from the creation instant.
pub open spec fn sched_spec(e: Entry) -> Entry {
    Entry {
        rtcl: (e.mc + e.rt_inter_interval) as u64,
        non_rtcl: (e.mc + e.nrt_inter_interval) as u64,
        ..e
    }
}

/// What `step` asks of its state record: pending events not in the past,
/// the sentinel exactly while idle, and clocks, remainder and queue lengths
/// small enough that one iteration cannot overflow. A fresh record with its
/// first arrivals scheduled satisfies it, and `step` preserves it whenever
/// the samples are valid durations, so a caller-driven loop can run on it.
pub open spec fn step_safe(e: Entry) -> bool {
    &&& e.mc <= e.rtcl <= 2 * MAX_TICKS
    &&& e.mc <= e.non_rtcl <= 2 * MAX_TICKS
    &&& (e.s is Idle <==> e.scl == SCL_IDLE)
    &&& (!(e.s is Idle) ==> e.mc <= e.scl <= 2 * MAX_TICKS)
    &&& e.preempted_service_time <= 2 * MAX_TICKS
    &&& e.n_rt < u64::MAX - 2
    &&& e.n_nonrt < u64::MAX - 2
}

/// Perform one loop iteration at the next event time, with every duration
/// the iteration might need supplied by the caller: the next RT and NRT
/// inter-arrival times, the service times used if an arrival starts service,
/// and the fresh service times used if the completion starts the next job.
/// In stochastic mode the caller draws them from an exponential
/// distribution; unused samples have no effect on the state. Returns the
/// emitted snapshots, one per handler that fired, the last one being the new
/// state, which carries the event time on its clock.
pub fn step(
    e: &mut Entry,
    rt_inter_sample: u64,
    rt_service_sample: u64,
    nrt_inter_sample: u64,
    nrt_service_sample: u64,
    cmp_rt_service_sample: u64,
    cmp_nrt_service_sample: u64,
) -> (snaps: Vec<Entry>)
    requires
        step_safe(*old(e)),
        duration_valid(rt_inter_sample),
        duration_valid(rt_service_sample),
        duration_valid(nrt_inter_sample),
        duration_valid(nrt_service_sample),
        duration_valid(cmp_rt_service_sample),
        duration_valid(cmp_nrt_service_sample),
    ensures
        *final(e) == step_spec(*old(e), rt_inter_sample, rt_service_sample, nrt_inter_sample,
            nrt_service_sample, cmp_rt_service_sample, cmp_nrt_service_sample),
        snaps@ == step_snaps_spec(*old(e), rt_inter_sample, rt_service_sample, nrt_inter_sample,
            nrt_service_sample, cmp_rt_service_sample, cmp_nrt_service_sample),
        snaps@.len() >= 1,
        snaps@[snaps@.len() - 1] == *final(e),
        final(e).mc == next_time_spec(*old(e)),
        final(e).mc >= old(e).mc,
{
    let ghost pre = *e;
    let mut snaps: Vec<Entry> = Vec::new();
    let t = next_event_time(e);
    let fire_rt = e.rtcl == t;
    let fire_nrt = e.non_rtcl == t;
    if fire_rt {
        handle_arrival_rt(e, rt_inter_sample, rt_service_sample);
        snaps.push(*e);
    }
    assert(*e == step_e1(pre, rt_inter_sample, rt_service_sample));
    if fire_nrt {
        handle_arrival_nrt(e, nrt_inter_sample, nrt_service_sample);
        snaps.push(*e);
    }
    assert(*e == step_e2(pre, rt_inter_sample, rt_service_sample, nrt_inter_sample,
        nrt_service_sample));
    if e.s != ServiceType::Idle && e.scl == t {
        handle_service_completion(e, cmp_rt_service_sample, cmp_nrt_service_sample);
        snaps.push(*e);
    }
    proof {
        if !fire_rt && !fire_nrt {
            assert(!(pre.s is Idle) && pre.scl == t);
        }
        assert(snaps@ =~= step_snaps_spec(pre, rt_inter_sample, rt_service_sample,
            nrt_inter_sample, nrt_service_sample, cmp_rt_service_sample, cmp_nrt_service_sample));
    }
    snaps
}

/// The full snapshot sequence of one run: the initial snapshot taken right
/// after the first arrivals are scheduled, then everything the loop emits.
pub open spec fn run_trace_spec(e: Entry, max_time: u64) -> Seq<Entry> {
    seq![sched_spec(e)] + det_trace(sched_spec(e), max_time)
}

/// Drive one run to the horizon in deterministic mode (every duration is
/// its configured mean) and return the emitted snapshots: one initial
/// snapshot taken after the first arrivals are scheduled, then one snapshot
/// per processed event. The returned sequence is pinned to `det_trace`, a
/// pure function of the initial record and the horizon, and its length is
/// bounded linearly in the horizon, so the loop terminates.
pub fn run(e: &mut Entry, max_time: u64) -> (trace: Vec<Entry>)
    requires
        fresh_state(*old(e)),
        params_valid(*old(e)),
        duration_valid(max_time),
        !old(e).is_exponential,
    ensures
        trace@ == run_trace_spec(*old(e), max_time),
        trace@.len() >= 1,
        trace@[0] == sched_spec(*old(e)),
        *final(e) == trace@[trace@.len() - 1],
        trace@.len() <= 1 + 3 * max_time,
{
    let ri = e.rt_inter_interval;
    let ni = e.nrt_inter_interval;
    e.rtcl = e.mc + ri;
    e.non_rtcl = e.mc + ni;
    let ghost e0 = *e;
    assert(e0 == sched_spec(*old(e)));
    let mut trace: Vec<Entry> = Vec::new();
    trace.push(*e);
    proof {
        assert(trace@ =~= seq![e0]);
        assert(seq![e0] + det_trace(e0, max_time) =~= trace@ + det_trace(e0, max_time));
    }
    while e.mc < max_time && next_event_time(e) <= max_time
        invariant
            run_inv(*e, max_time),
            trace@.len() >= 1,
            trace@[trace@.len() - 1] == *e,
            seq![e0] + det_trace(e0, max_time) == trace@ + det_trace(*e, max_time),
            trace@.len() <= 1 + 3 * e.mc,
        decreases max_time - e.mc,
    {
        let ghost pre = *e;
        let ghost trace_pre = trace@;
        proof {
            lemma_batch(pre, max_time);
        }
        let ri = e.rt_inter_interval;
        let rs = e.rt_service;
        let ni = e.nrt_inter_interval;
        let ns = e.nrt_service;
        let mut snaps = step(e, ri, rs, ni, ns, rs, ns);
        trace.append(&mut snaps);
        proof {
            assert(*e == batch_spec(pre));
            assert(trace@ == trace_pre + batch_snaps_spec(pre));
            assert(det_trace(pre, max_time)
                == batch_snaps_spec(pre) + det_trace(batch_spec(pre), max_time));
            assert(seq![e0] + det_trace(e0, max_time) =~= trace@ + det_trace(*e, max_time));
        }
    }
    proof {
        assert(det_trace(*e, max_time) =~= Seq::<Entry>::empty());
        assert(trace@ =~= seq![e0] + det_trace(e0, max_time));
        assert(trace@ == run_trace_spec(*old(e), max_time));
    }
    trace
}

} // verus!

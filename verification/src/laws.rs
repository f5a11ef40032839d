//! Engine-wide laws, proved once and for all over the deterministic trace
//! and the handler step functions.

use vstd::prelude::*;
use crate::simulation_entry::{Entry, SCL_IDLE, MAX_TICKS, params_valid, fresh_state, duration_valid};
use crate::simulate::{
    det_trace, batch_spec, batch_snaps_spec, next_time_spec, run_inv, sched_spec,
    run_trace_spec, rt_arrival_spec, nrt_arrival_spec, completion_spec, snap_ok, lemma_batch,
    step_spec, step_snaps_spec, step_safe,
};

verus! {

/// What holds of any single emitted snapshot: an idle server has empty
/// queues and the sentinel service clock, and the queue lengths (which are
/// unsigned, hence never negative) are linearly bounded by the clock.
pub open spec fn snapshot_ok(x: Entry) -> bool {
    &&& (x.s is Idle ==> x.n_rt == 0 && x.n_nonrt == 0 && x.scl == SCL_IDLE)
    &&& x.n_rt + x.n_nonrt <= 2 * x.mc + 2
}

/// Scheduling the first arrivals from a fresh record yields a state the run
/// invariant accepts.
pub proof fn lemma_sched_inv(e: Entry, max_time: u64)
    requires
        fresh_state(e),
        params_valid(e),
        duration_valid(max_time),
    ensures
        run_inv(sched_spec(e), max_time),
        sched_spec(e).mc == 0,
{
}

/// Induction over the trace: it is clock-monotone, every snapshot is
/// stamped strictly later than the starting clock and satisfies
/// `snapshot_ok`, and its length is at most three snapshots per tick left
/// until the horizon.
proof fn lemma_trace_props(e: Entry, max_time: u64)
    requires
        run_inv(e, max_time),
    ensures
        det_trace(e, max_time).len() <= 3 * (max_time - e.mc),
        forall|i: int| 0 <= i < det_trace(e, max_time).len()
            ==> (#[trigger] det_trace(e, max_time)[i]).mc > e.mc,
        forall|i: int| 0 <= i < det_trace(e, max_time).len()
            ==> snapshot_ok(#[trigger] det_trace(e, max_time)[i]),
        forall|i: int, j: int| 0 <= i <= j < det_trace(e, max_time).len()
            ==> (#[trigger] det_trace(e, max_time)[i]).mc
                <= (#[trigger] det_trace(e, max_time)[j]).mc,
    decreases max_time - e.mc,
{
    let tr = det_trace(e, max_time);
    if e.mc < max_time && next_time_spec(e) <= max_time {
        let t = next_time_spec(e);
        lemma_batch(e, max_time);
        let b = batch_spec(e);
        let snaps = batch_snaps_spec(e);
        let tail = det_trace(b, max_time);
        lemma_trace_props(b, max_time);
        assert(tr == snaps + tail);
        assert forall|i: int| 0 <= i < tr.len() implies (#[trigger] tr[i]).mc > e.mc
            && snapshot_ok(tr[i]) by {
            if i < snaps.len() {
                assert(snap_ok(snaps[i], t));
                assert(tr[i] == snaps[i]);
            } else {
                assert(tr[i] == tail[i - snaps.len()]);
                assert(tail[i - snaps.len()].mc > b.mc);
            }
        }
        assert forall|i: int, j: int| 0 <= i <= j < tr.len() implies (#[trigger] tr[i]).mc
            <= (#[trigger] tr[j]).mc by {
            if j < snaps.len() {
                assert(snap_ok(snaps[i], t) && snap_ok(snaps[j], t));
            } else if i < snaps.len() {
                assert(snap_ok(snaps[i], t));
                assert(tail[j - snaps.len()].mc > b.mc);
            } else {
                assert(tail[i - snaps.len()].mc <= tail[j - snaps.len()].mc);
            }
        }
    }
}

/// Monotonic clock: in the snapshot sequence of a run, every later snapshot
/// carries a clock at least as large as every earlier one.
pub proof fn lemma_clock_monotonic(e: Entry, max_time: u64)
    requires
        fresh_state(e),
        params_valid(e),
        duration_valid(max_time),
    ensures
        forall|i: int, j: int| 0 <= i <= j < run_trace_spec(e, max_time).len()
            ==> (#[trigger] run_trace_spec(e, max_time)[i]).mc
                <= (#[trigger] run_trace_spec(e, max_time)[j]).mc,
{
    lemma_sched_inv(e, max_time);
    lemma_trace_props(sched_spec(e), max_time);
    let tr = run_trace_spec(e, max_time);
    let tail = det_trace(sched_spec(e), max_time);
    assert forall|i: int, j: int| 0 <= i <= j < tr.len() implies (#[trigger] tr[i]).mc
        <= (#[trigger] tr[j]).mc by {
        if 1 <= i {
            assert(tr[i] == tail[i - 1] && tr[j] == tail[j - 1]);
        } else {
            assert(tr[i] == sched_spec(e));
            if 1 <= j {
                assert(tr[j] == tail[j - 1]);
                assert(tail[j - 1].mc > sched_spec(e).mc);
            }
        }
    }
}

/// Idle consistency and queue bounds: in every snapshot of a run, an idle
/// server coincides with two empty queues and the sentinel service clock;
/// and the queue lengths, unsigned by construction and hence never
/// negative, stay linearly bounded by the clock.
pub proof fn lemma_idle_consistency(e: Entry, max_time: u64)
    requires
        fresh_state(e),
        params_valid(e),
        duration_valid(max_time),
    ensures
        forall|i: int| 0 <= i < run_trace_spec(e, max_time).len()
            ==> snapshot_ok(#[trigger] run_trace_spec(e, max_time)[i]),
{
    lemma_sched_inv(e, max_time);
    lemma_trace_props(sched_spec(e), max_time);
    let tr = run_trace_spec(e, max_time);
    let tail = det_trace(sched_spec(e), max_time);
    assert forall|i: int| 0 <= i < tr.len() implies snapshot_ok(#[trigger] tr[i]) by {
        if 1 <= i {
            assert(tr[i] == tail[i - 1]);
        } else {
            assert(tr[i] == sched_spec(e));
        }
    }
}

/// Deterministic reproducibility: two runs in deterministic mode with
/// identical parameters and horizon produce identical snapshot sequences.
pub proof fn lemma_deterministic_reproducible(a: Entry, b: Entry, max_time: u64)
    requires
        fresh_state(a),
        fresh_state(b),
        !a.is_exponential,
        !b.is_exponential,
        a.rt_inter_interval == b.rt_inter_interval,
        a.nrt_inter_interval == b.nrt_inter_interval,
        a.rt_service == b.rt_service,
        a.nrt_service == b.nrt_service,
    ensures
        run_trace_spec(a, max_time) == run_trace_spec(b, max_time),
{
    assert(a == b);
}

/// RT priority: an RT arrival that finds the server serving an NRT job with
/// time still left preempts it at once — the server switches to RT service,
/// the NRT job returns to the queue, and its positive remaining time is
/// saved.
pub proof fn lemma_rt_priority(e: Entry, inter_sample: u64, service_sample: u64)
    requires
        e.s is NonRealTime,
        e.n_rt == 0,
        e.rtcl < e.scl < SCL_IDLE,
        e.n_nonrt < u64::MAX,
    ensures
        rt_arrival_spec(e, inter_sample, service_sample).s is RealTime,
        rt_arrival_spec(e, inter_sample, service_sample).preempted_service_time
            == e.scl - e.rtcl,
        rt_arrival_spec(e, inter_sample, service_sample).preempted_service_time > 0,
        rt_arrival_spec(e, inter_sample, service_sample).n_nonrt == e.n_nonrt + 1,
{
}

/// The saved preempted remainder survives unchanged through NRT arrivals,
/// through RT arrivals that do not preempt, and through completions handed
/// to a waiting RT job; the completion that finds no RT job waiting and a
/// positive remainder resumes the preempted NRT job for exactly that
/// remainder and resets it to zero.
pub proof fn lemma_preempted_remainder_lifecycle(
    e: Entry,
    inter_sample: u64,
    service_sample: u64,
)
    requires
        e.scl + e.preempted_service_time < SCL_IDLE,
        e.n_rt < u64::MAX,
        e.n_nonrt < u64::MAX,
    ensures
        nrt_arrival_spec(e, inter_sample, service_sample).preempted_service_time
            == e.preempted_service_time,
        !(e.s is NonRealTime) || e.n_rt > 0
            ==> rt_arrival_spec(e, inter_sample, service_sample).preempted_service_time
                == e.preempted_service_time,
        e.n_rt > 0
            ==> completion_spec(e, inter_sample, service_sample).preempted_service_time
                == e.preempted_service_time,
        e.n_rt == 0 && e.n_nonrt > 0 && e.preempted_service_time > 0 ==> {
            let after = completion_spec(e, inter_sample, service_sample);
            &&& after.s is NonRealTime
            &&& after.scl == e.scl + e.preempted_service_time
            &&& after.preempted_service_time == 0
        },
{
}

/// The states a caller-driven run (stochastic mode included) moves through:
/// like the deterministic run invariant, but with pending events at most one
/// maximal duration away instead of one configured mean, since a drawn
/// duration can exceed its mean. A fresh record with its first arrivals
/// scheduled no more than `MAX_TICKS` away satisfies it.
pub open spec fn step_inv(e: Entry) -> bool {
    &&& e.mc <= MAX_TICKS
    &&& e.mc < e.rtcl <= e.mc + MAX_TICKS
    &&& e.mc < e.non_rtcl <= e.mc + MAX_TICKS
    &&& (e.s is Idle <==> e.scl == SCL_IDLE)
    &&& (e.s is Idle ==> e.n_rt == 0 && e.n_nonrt == 0)
    &&& (!(e.s is Idle) ==> e.mc < e.scl <= e.mc + MAX_TICKS)
    &&& e.preempted_service_time <= MAX_TICKS
    &&& e.n_rt + e.n_nonrt <= 2 * e.mc + 2
}

/// Monotonic clock, idle consistency and bounded queues hold of every
/// sampled run, not only of the deterministic one: a state satisfying
/// `step_inv` meets `step`'s precondition, and whatever valid durations the
/// caller draws, one step preserves the invariant, advances the clock to
/// exactly the next event time, and stamps every emitted snapshot with that
/// time, idle-consistent and with bounded queues.
pub proof fn lemma_step_invariants(
    e: Entry,
    rt_inter: u64,
    rt_svc: u64,
    nrt_inter: u64,
    nrt_svc: u64,
    cmp_rt_svc: u64,
    cmp_nrt_svc: u64,
)
    requires
        step_inv(e),
        next_time_spec(e) <= MAX_TICKS,
        duration_valid(rt_inter),
        duration_valid(rt_svc),
        duration_valid(nrt_inter),
        duration_valid(nrt_svc),
        duration_valid(cmp_rt_svc),
        duration_valid(cmp_nrt_svc),
    ensures
        step_safe(e),
        step_inv(step_spec(e, rt_inter, rt_svc, nrt_inter, nrt_svc, cmp_rt_svc, cmp_nrt_svc)),
        step_spec(e, rt_inter, rt_svc, nrt_inter, nrt_svc, cmp_rt_svc, cmp_nrt_svc).mc
            == next_time_spec(e),
        step_spec(e, rt_inter, rt_svc, nrt_inter, nrt_svc, cmp_rt_svc, cmp_nrt_svc).mc > e.mc,
        forall|i: int| 0 <= i
            < step_snaps_spec(e, rt_inter, rt_svc, nrt_inter, nrt_svc, cmp_rt_svc,
                cmp_nrt_svc).len()
            ==> snap_ok(#[trigger] step_snaps_spec(e, rt_inter, rt_svc, nrt_inter, nrt_svc,
                cmp_rt_svc, cmp_nrt_svc)[i], next_time_spec(e)),
{
    let t = next_time_spec(e);
    let b = step_spec(e, rt_inter, rt_svc, nrt_inter, nrt_svc, cmp_rt_svc, cmp_nrt_svc);
    assert(t > e.mc);
    if e.rtcl != t && e.non_rtcl != t {
        assert(!(e.s is Idle) && e.scl == t);
    }
    assert(b.mc == t);
}

/// Termination: a run emits a finite snapshot sequence, at most one initial
/// snapshot plus three snapshots per tick of the horizon.
pub proof fn lemma_run_finite(e: Entry, max_time: u64)
    requires
        fresh_state(e),
        params_valid(e),
        duration_valid(max_time),
    ensures
        run_trace_spec(e, max_time).len() <= 1 + 3 * max_time,
{
    lemma_sched_inv(e, max_time);
    lemma_trace_props(sched_spec(e), max_time);
}

} // verus!

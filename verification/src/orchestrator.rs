//! The phases of one run, one after another. A phase that fails ends the run: what
//! would have followed is left out, but the background tasks are still stopped.

use vstd::prelude::*;

verus! {

/// A phase of a run.
#[derive(Debug, Clone, Copy, PartialEq, Eq, Structural)]
pub enum Phase {
    /// Keep the threads of the other node away from the scheduler, and reboot.
    Prepare,
    /// Get a session with the host.
    Connect,
    /// Read the topology, deal out the threads and plan the run.
    Allocate,
    /// Write the manifest into the results directory.
    Persist,
    /// Tune the host.
    Tune,
    /// Set up the throttle.
    Throttle,
    /// Set up the tiering strategy.
    Strategy,
    /// Wrap the workloads for timing and profiling.
    Wrap,
    /// Start the telemetry.
    Telemetry,
    /// Start the workloads.
    Launch,
    /// Attach the bandwidth sampler to the first workload.
    Sample,
    /// Await the workloads.
    Join,
    /// Keep the counters, stop the background tasks and say where the results are.
    Finalize,
    /// Stop the background tasks after a failure.
    Teardown,
    /// The run went well.
    Done,
    /// The run failed.
    Failed,
}

/// The place of a phase in the order of the phases.
pub open spec fn rank(p: Phase) -> nat {
    match p {
        Phase::Prepare => 0,
        Phase::Connect => 1,
        Phase::Allocate => 2,
        Phase::Persist => 3,
        Phase::Tune => 4,
        Phase::Throttle => 5,
        Phase::Strategy => 6,
        Phase::Wrap => 7,
        Phase::Telemetry => 8,
        Phase::Launch => 9,
        Phase::Sample => 10,
        Phase::Join => 11,
        Phase::Finalize => 12,
        Phase::Teardown => 13,
        Phase::Done => 14,
        Phase::Failed => 15,
    }
}

/// Whether the run is over in the phase `p`.
pub open spec fn is_over(p: Phase) -> bool {
    p == Phase::Done || p == Phase::Failed
}

/// The phase with which a run begins: the preparation where the other node is to be
/// isolated, else the connection.
pub open spec fn opening(isolate: bool) -> Phase {
    if isolate {
        Phase::Prepare
    } else {
        Phase::Connect
    }
}

/// The phase that follows the phase `p`, which went well or not. `sample` says whether
/// the bandwidth sampler was asked for.
pub open spec fn phase_after(p: Phase, ok: bool, sample: bool) -> Phase {
    match p {
        Phase::Done => Phase::Done,
        Phase::Failed => Phase::Failed,
        Phase::Teardown => Phase::Failed,
        _ => if !ok {
            Phase::Teardown
        } else {
            match p {
                Phase::Prepare => Phase::Connect,
                Phase::Connect => Phase::Allocate,
                Phase::Allocate => Phase::Persist,
                Phase::Persist => Phase::Tune,
                Phase::Tune => Phase::Throttle,
                Phase::Throttle => Phase::Strategy,
                Phase::Strategy => Phase::Wrap,
                Phase::Wrap => Phase::Telemetry,
                Phase::Telemetry => Phase::Launch,
                Phase::Launch => if sample {
                    Phase::Sample
                } else {
                    Phase::Join
                },
                Phase::Sample => Phase::Join,
                Phase::Join => Phase::Finalize,
                _ => Phase::Done,
            }
        },
    }
}

/// Gives the phase with which a run begins.
pub fn first_phase(isolate: bool) -> (r: Phase)
    ensures
        r == opening(isolate),
{
    if isolate {
        Phase::Prepare
    } else {
        Phase::Connect
    }
}

/// Gives the phase that follows the phase `p`, which went well or not.
pub fn next_phase(p: Phase, ok: bool, sample: bool) -> (r: Phase)
    ensures
        r == phase_after(p, ok, sample),
{
    match p {
        Phase::Done => Phase::Done,
        Phase::Failed => Phase::Failed,
        Phase::Teardown => Phase::Failed,
        _ => if !ok {
            Phase::Teardown
        } else {
            match p {
                Phase::Prepare => Phase::Connect,
                Phase::Connect => Phase::Allocate,
                Phase::Allocate => Phase::Persist,
                Phase::Persist => Phase::Tune,
                Phase::Tune => Phase::Throttle,
                Phase::Throttle => Phase::Strategy,
                Phase::Strategy => Phase::Wrap,
                Phase::Wrap => Phase::Telemetry,
                Phase::Telemetry => Phase::Launch,
                Phase::Launch => if sample {
                    Phase::Sample
                } else {
                    Phase::Join
                },
                Phase::Sample => Phase::Join,
                Phase::Join => Phase::Finalize,
                _ => Phase::Done,
            }
        },
    }
}

/// Tells whether the run is over.
pub fn run_is_over(p: Phase) -> (r: bool)
    ensures
        r == is_over(p),
{
    match p {
        Phase::Done => true,
        Phase::Failed => true,
        _ => false,
    }
}

/// The phases that a run goes through from the phase `p` on, where `outcomes` says of
/// each in turn whether it went well.
pub open spec fn trace(p: Phase, outcomes: Seq<bool>, sample: bool) -> Seq<Phase>
    decreases outcomes.len(),
{
    if outcomes.len() == 0 {
        seq![p]
    } else {
        seq![p] + trace(phase_after(p, outcomes.first(), sample), outcomes.drop_first(), sample)
    }
}

/// A run never goes back: each phase is followed by a later one, until it is over.
pub proof fn lemma_phases_advance(p: Phase, ok: bool, sample: bool)
    ensures
        !is_over(p) ==> rank(phase_after(p, ok, sample)) > rank(p),
        is_over(p) ==> phase_after(p, ok, sample) == p,
{
}

/// A phase that fails is followed by the teardown and then by the end of the run:
/// none of the phases that would have come is entered.
pub proof fn lemma_failure_tears_down(p: Phase, sample: bool, stopped: bool)
    requires
        !is_over(p),
        p != Phase::Teardown,
    ensures
        phase_after(p, false, sample) == Phase::Teardown,
        phase_after(Phase::Teardown, stopped, sample) == Phase::Failed,
{
}

/// A trace begins with the phase it starts from, and goes on as the trace from the
/// next phase does.
proof fn lemma_trace_index(p: Phase, outcomes: Seq<bool>, sample: bool, j: int)
    requires
        0 <= j <= outcomes.len(),
    ensures
        trace(p, outcomes, sample).len() == outcomes.len() + 1,
        trace(p, outcomes, sample)[0] == p,
        j > 0 ==> trace(p, outcomes, sample)[j] == trace(
            phase_after(p, outcomes.first(), sample),
            outcomes.drop_first(),
            sample,
        )[j - 1],
{
    lemma_trace_len(p, outcomes, sample);
    if outcomes.len() > 0 {
        lemma_trace_len(phase_after(p, outcomes.first(), sample), outcomes.drop_first(), sample);
    }
}

/// From a phase behind the launch on, no workload is started any more.
proof fn lemma_no_launch_later(p: Phase, outcomes: Seq<bool>, sample: bool, j: int)
    requires
        rank(p) > rank(Phase::Launch),
        0 <= j <= outcomes.len(),
    ensures
        trace(p, outcomes, sample)[j] != Phase::Launch,
    decreases outcomes.len(),
{
    lemma_trace_index(p, outcomes, sample, j);
    if j > 0 {
        let q = phase_after(p, outcomes.first(), sample);
        lemma_phases_advance(p, outcomes.first(), sample);
        lemma_no_launch_later(q, outcomes.drop_first(), sample, j - 1);
    }
}

/// The length of a trace.
proof fn lemma_trace_len(p: Phase, outcomes: Seq<bool>, sample: bool)
    ensures
        trace(p, outcomes, sample).len() == outcomes.len() + 1,
    decreases outcomes.len(),
{
    if outcomes.len() > 0 {
        lemma_trace_len(phase_after(p, outcomes.first(), sample), outcomes.drop_first(), sample);
    }
}

/// In a run that begins before the manifest is written, the workloads are started only
/// after the manifest was written, and written with success.
proof fn lemma_manifest_first_from(p: Phase, outcomes: Seq<bool>, sample: bool, j: int) -> (i: int)
    requires
        rank(p) <= rank(Phase::Persist),
        0 <= j <= outcomes.len(),
        trace(p, outcomes, sample)[j] == Phase::Launch,
    ensures
        0 <= i < j,
        trace(p, outcomes, sample)[i] == Phase::Persist,
        outcomes[i],
    decreases outcomes.len(),
{
    let rest = outcomes.drop_first();
    let q = phase_after(p, outcomes.first(), sample);
    lemma_trace_index(p, outcomes, sample, j);
    assert(j > 0);
    if !outcomes.first() {
        lemma_no_launch_later(q, rest, sample, j - 1);
        0
    } else if p == Phase::Persist {
        0
    } else {
        let i = lemma_manifest_first_from(q, rest, sample, j - 1);
        lemma_trace_index(p, outcomes, sample, i + 1);
        assert(outcomes[i + 1] == rest[i]);
        i + 1
    }
}

/// Whatever the outcomes of the phases, no workload is started before the manifest of
/// the run has been written: where a run reaches the launch, the writing of the
/// manifest came before it and went well.
pub proof fn lemma_manifest_precedes_launch(
    isolate: bool,
    outcomes: Seq<bool>,
    sample: bool,
    j: int,
)
    requires
        0 <= j <= outcomes.len(),
        trace(opening(isolate), outcomes, sample)[j] == Phase::Launch,
    ensures
        exists|i: int|
            0 <= i < j && #[trigger] trace(opening(isolate), outcomes, sample)[i] == Phase::Persist
                && outcomes[i],
{
    let i = lemma_manifest_first_from(opening(isolate), outcomes, sample, j);
}

} // verus!

//! The whole of one run, planned before anything is asked of the remote host: which
//! threads each workload gets, what each phase does, and how the workloads are started
//! and awaited.

use vstd::prelude::*;
use vstd::string::StringExecFns;
use crate::background::first_failed;
use crate::config::{
    demands, equal_share, proc_name, process_name, thread_demands, Config, Strategy,
    StrategyView, Workload,
};
use crate::cores::{
    all_ids, all_ids_string, allocate, allocation_of, lemma_allocation_partitions, outcome,
    parts, total, Allocation, AllocationView, ThreadOrder,
};
use crate::error::PlanError;
use crate::launch::{
    distinct_stems, handed_file, handed_files, handed_list, kind_file, launch_for, launch_of,
    lemma_launch_writes_to_its_file, lemma_output_files_differ, lemma_results_differ,
    lemma_usual_files_stay, output_file, output_list, outputs_of, plain_stems, usual_file,
    writes_to, Launch, LaunchView,
};
use crate::request::{selected, Selection};
use crate::orchestrator::Phase;
use crate::phases::{
    closing_plan, closing_steps, host_plan, host_steps, manifest_plan, manifest_steps,
    sampler_plan, sampler_steps, telemetry_plan, telemetry_steps,
};
use crate::prefix::{
    compose, composed, lemma_workload_files_differ, placement, placement_wrapper, stage,
    workload_file, workload_file_list, wrapper_views, Wrapper, WrapperView,
};
use crate::text::string_texts;
use crate::shell::{lenient, step_views, Command, CommandView, Step, StepView};
use crate::site::{Names, Site};
use crate::strategy::{strategy_plan, strategy_steps};
use crate::throttle::{throttle_plan, throttle_steps};

verus! {

/// The wrappers of workload `i`, which runs on the threads `set`, the outermost first:
/// timing, memory placement, pinning, counters, profile. Timing wraps every workload
/// for which it was asked; the store pins its processes by itself; counters and the
/// profile go with the first workload only.
pub open spec fn stages_of(
    cfg: Config,
    site: Site,
    names: Names,
    set: Seq<usize>,
    counters: Seq<char>,
    i: int,
) -> Seq<WrapperView> {
    stage(
        if cfg.time {
            Some(
                WrapperView::Time {
                    file: workload_file(site.result(names.time@), cfg.workloads@, i),
                },
            )
        } else {
            None
        },
    ) + stage(placement_wrapper(cfg.strategy@, site, i as nat)) + stage(
        if cfg.workloads@[i] is Redis {
            None
        } else {
            Some(WrapperView::Pin { cores: set })
        },
    ) + stage(
        if i == 0 && cfg.perf_stat {
            Some(WrapperView::Counters { text: counters })
        } else {
            None
        },
    ) + stage(
        if i == 0 && cfg.flame_graph {
            Some(WrapperView::Record)
        } else {
            None
        },
    )
}

/// The prefix of workload `i`.
pub open spec fn prefix_of(
    cfg: Config,
    site: Site,
    names: Names,
    set: Seq<usize>,
    counters: Seq<char>,
    i: int,
) -> Seq<char> {
    composed(stages_of(cfg, site, names, set, counters, i))
}

/// Lists the wrappers of workload `i`, the outermost first.
fn stages_for(
    cfg: &Config,
    site: &Site,
    names: &Names,
    set: &Vec<usize>,
    counters: &str,
    i: usize,
) -> (r: Vec<Wrapper>)
    requires
        i < cfg.workloads.len(),
    ensures
        wrapper_views(r@) == stages_of(*cfg, *site, *names, set@, counters@, i as int),
{
    let w = &cfg.workloads[i];
    let mut r: Vec<Wrapper> = Vec::new();
    if cfg.time {
        let stem = site.result_path(names.time.as_str());
        let files = workload_file_list(stem.as_str(), &cfg.workloads);
        assert(string_texts(files@)[i as int] == files@[i as int]@);
        r.push(Wrapper::Time { file: files[i].clone() });
    }
    if let Some(place) = placement(&cfg.strategy, site, i) {
        r.push(place);
    }
    match w {
        Workload::Redis { .. } => {},
        _ => {
            let mut cores: Vec<usize> = Vec::new();
            let mut k: usize = 0;
            while k < set.len()
                invariant
                    k <= set.len(),
                    cores@ == set@.take(k as int),
                decreases set.len() - k,
            {
                cores.push(set[k]);
                k = k + 1;
            }
            assert(set@.take(set.len() as int) == set@);
            r.push(Wrapper::Pin { cores });
        },
    }
    if i == 0 && cfg.perf_stat {
        r.push(Wrapper::Counters { text: String::from_str(counters) });
    }
    if i == 0 && cfg.flame_graph {
        r.push(Wrapper::Record);
    }
    assert(wrapper_views(r@) =~= stages_of(*cfg, *site, *names, set@, counters@, i as int));
    r
}

/// Writes the prefix of workload `i`.
fn prefix_for(
    cfg: &Config,
    site: &Site,
    names: &Names,
    set: &Vec<usize>,
    counters: &str,
    i: usize,
) -> (r: String)
    requires
        i < cfg.workloads.len(),
    ensures
        r@ == prefix_of(*cfg, *site, *names, set@, counters@, i as int),
{
    let stages = stages_for(cfg, site, names, set, counters, i);
    compose(&stages)
}

/// One thing to do while the workloads are awaited.
#[derive(Debug, Clone, PartialEq, Eq)]
pub enum JoinStep {
    /// Wait until this workload has finished.
    Wait { workload: usize },
    /// Kill the processes that this command names. That there are none left is no
    /// failure.
    Kill(Command),
}

/// A step of the awaiting as plain values.
pub enum JoinStepView {
    Wait { workload: usize },
    Kill(CommandView),
}

impl View for JoinStep {
    type V = JoinStepView;

    open spec fn view(&self) -> JoinStepView {
        match self {
            JoinStep::Wait { workload } => JoinStepView::Wait { workload: *workload },
            JoinStep::Kill(c) => JoinStepView::Kill(c@),
        }
    }
}

/// The command that kills the processes of the workload `w`.
pub open spec fn kill_of(w: Workload) -> JoinStepView {
    JoinStepView::Kill(lenient("sudo pkill "@ + process_name(w)))
}

/// How the workloads are awaited. The first workload decides when the run is over:
/// it is waited for first. Then the others are killed, where that was asked for;
/// then every one of them is waited for, so that none is left behind.
pub open spec fn join_plan(workloads: Seq<Workload>, kill: bool) -> Seq<JoinStepView> {
    if workloads.len() == 0 {
        Seq::empty()
    } else {
        seq![JoinStepView::Wait { workload: 0 }] + (if kill {
            Seq::new((workloads.len() - 1) as nat, |j: int| kill_of(workloads[j + 1]))
        } else {
            Seq::empty()
        }) + Seq::new(
            (workloads.len() - 1) as nat,
            |j: int| JoinStepView::Wait { workload: (j + 1) as usize },
        )
    }
}

/// The steps that a list holds.
pub open spec fn join_views(steps: Seq<JoinStep>) -> Seq<JoinStepView> {
    steps.map_values(|s: JoinStep| s@)
}

/// Plans how the workloads are awaited.
pub fn join_steps(workloads: &Vec<Workload>, kill: bool) -> (r: Vec<JoinStep>)
    ensures
        join_views(r@) == join_plan(workloads@, kill),
{
    let n = workloads.len();
    let mut steps: Vec<JoinStep> = Vec::new();
    if n == 0 {
        return steps;
    }
    steps.push(JoinStep::Wait { workload: 0 });
    let ghost head = seq![JoinStepView::Wait { workload: 0 }];
    let ghost kills = if kill {
        Seq::new((n - 1) as nat, |j: int| kill_of(workloads@[j + 1]))
    } else {
        Seq::empty()
    };
    if kill {
        let mut i: usize = 1;
        while i < n
            invariant
                1 <= i <= n,
                n == workloads.len(),
                kills == Seq::new((n - 1) as nat, |j: int| kill_of(workloads@[j + 1])),
                join_views(steps@) == head + kills.take(i - 1),
            decreases n - i,
        {
            let ghost before = join_views(steps@);
            let mut text = String::from_str("sudo pkill ");
            text.append(proc_name(&workloads[i]));
            steps.push(JoinStep::Kill(Command::new(text).allow_error()));
            assert(before.push(kills[i - 1]) =~= head + kills.take(i as int));
            i = i + 1;
        }
    }
    let ghost waits = Seq::new(
        (n - 1) as nat,
        |j: int| JoinStepView::Wait { workload: (j + 1) as usize },
    );
    let mut i: usize = 1;
    while i < n
        invariant
            1 <= i <= n,
            n == workloads.len(),
            waits == Seq::new(
                (n - 1) as nat,
                |j: int| JoinStepView::Wait { workload: (j + 1) as usize },
            ),
            join_views(steps@) == head + kills + waits.take(i - 1),
        decreases n - i,
    {
        let ghost before = join_views(steps@);
        steps.push(JoinStep::Wait { workload: i });
        assert(before.push(waits[i - 1]) =~= head + kills + waits.take(i as int));
        i = i + 1;
    }
    steps
}

/// The place in the plan at which workload `i` of `n` is waited for.
pub open spec fn wait_position(n: int, kill: bool, i: int) -> int {
    if i == 0 {
        0
    } else if kill {
        n - 1 + i
    } else {
        i
    }
}

/// Every workload is waited for, the first one before anything else is done. Where the
/// others are killed, each of them is killed after the first has finished and before
/// any of them is waited for; where they are not, nothing is killed, and every
/// workload runs to its end.
pub proof fn lemma_join_awaits_all(workloads: Seq<Workload>, kill: bool)
    requires
        workloads.len() >= 1,
        workloads.len() <= usize::MAX,
    ensures
        join_plan(workloads, kill).len() == (if kill {
            2 * workloads.len() - 1
        } else {
            workloads.len() as int
        }),
        forall|i: int|
            0 <= i < workloads.len() ==> join_plan(workloads, kill)[#[trigger] wait_position(
                workloads.len() as int,
                kill,
                i,
            )] == (JoinStepView::Wait { workload: i as usize }),
        kill ==> forall|i: int|
            1 <= i < workloads.len() ==> #[trigger] join_plan(workloads, kill)[i] == kill_of(
                workloads[i],
            ),
        !kill ==> forall|p: int|
            0 <= p < join_plan(workloads, kill).len() ==> #[trigger] join_plan(workloads, kill)[p]
                is Wait,
{
}

/// Tells which of the things that were awaited was the first to fail, if any did.
/// The list says of each whether it went well.
pub fn first_failure(outcomes: &Vec<bool>) -> (r: Option<usize>)
    ensures
        match r {
            Some(i) => i == first_failed(outcomes@) && i < outcomes.len(),
            None => first_failed(outcomes@) == outcomes.len(),
        },
{
    let n = outcomes.len();
    let mut i: usize = 0;
    assert(outcomes@.skip(0) == outcomes@);
    while i < n && outcomes[i]
        invariant
            i <= n,
            n == outcomes.len(),
            first_failed(outcomes@) == i + first_failed(outcomes@.skip(i as int)),
        decreases n - i,
    {
        assert(outcomes@.skip(i as int).drop_first() == outcomes@.skip(i + 1));
        i = i + 1;
    }
    if i < n {
        Some(i)
    } else {
        None
    }
}

/// What `first_failed` points at: the first outcome that is a failure, with nothing
/// but successes before it.
pub proof fn lemma_first_failed(outcomes: Seq<bool>)
    ensures
        0 <= first_failed(outcomes) <= outcomes.len(),
        first_failed(outcomes) < outcomes.len() ==> !outcomes[first_failed(outcomes)],
        forall|j: int| 0 <= j < first_failed(outcomes) ==> outcomes[j],
    decreases outcomes.len(),
{
    if outcomes.len() > 0 && outcomes.first() {
        let rest = outcomes.drop_first();
        lemma_first_failed(rest);
        assert forall|j: int| 0 <= j < first_failed(outcomes) implies outcomes[j] by {
            if j > 0 {
                assert(outcomes[j] == rest[j - 1]);
            }
        }
    }
}

/// Everything that one run does, phase by phase.
#[derive(Debug, Clone, PartialEq, Eq)]
pub struct Plan {
    /// The threads of each workload, and the reserve.
    pub allocation: Allocation,
    /// Writing the manifest, before any workload starts.
    pub manifest: Vec<Step>,
    /// Tuning the host.
    pub tuning: Vec<Step>,
    /// Setting up the throttle.
    pub throttle: Vec<Step>,
    /// Setting up the tiering strategy.
    pub strategy: Vec<Step>,
    /// The wrappers of each workload, the outermost first.
    pub wrappers: Vec<Vec<Wrapper>>,
    /// What stands in front of each workload's command line: its wrappers, composed.
    pub prefixes: Vec<String>,
    /// Starting the telemetry.
    pub telemetry: Vec<Step>,
    /// The stores whose data is loaded before the first workload is started, by their
    /// numbers and in the order in which they are loaded.
    pub preload: Vec<usize>,
    /// Starting each workload, in the order in which they were declared.
    pub launches: Vec<Launch>,
    /// The file into which each workload writes: the file of its kind, with a `2`
    /// behind it where the workload is delayed, and with the workload's number where a
    /// workload before it would write into the same file.
    pub outputs: Vec<String>,
    /// Attaching the bandwidth sampler, where it was asked for.
    pub sampler: Vec<Step>,
    /// Awaiting the workloads.
    pub join: Vec<JoinStep>,
    /// Closing the run, before the background tasks are stopped.
    pub closing: Vec<Step>,
    /// The path under which the results lie, which is printed when all went well.
    pub results: String,
}

/// A plan as plain values.
pub struct PlanView {
    pub allocation: AllocationView,
    pub manifest: Seq<StepView>,
    pub tuning: Seq<StepView>,
    pub throttle: Seq<StepView>,
    pub strategy: Seq<StepView>,
    pub wrappers: Seq<Seq<WrapperView>>,
    pub prefixes: Seq<Seq<char>>,
    pub telemetry: Seq<StepView>,
    pub preload: Seq<usize>,
    pub launches: Seq<LaunchView>,
    pub outputs: Seq<Seq<char>>,
    pub sampler: Seq<StepView>,
    pub join: Seq<JoinStepView>,
    pub closing: Seq<StepView>,
    pub results: Seq<char>,
}

impl View for Plan {
    type V = PlanView;

    open spec fn view(&self) -> PlanView {
        PlanView {
            allocation: self.allocation@,
            manifest: step_views(self.manifest@),
            tuning: step_views(self.tuning@),
            throttle: step_views(self.throttle@),
            strategy: step_views(self.strategy@),
            wrappers: self.wrappers@.map_values(|w: Vec<Wrapper>| wrapper_views(w@)),
            prefixes: self.prefixes@.map_values(|p: String| p@),
            telemetry: step_views(self.telemetry@),
            preload: self.preload@,
            launches: self.launches@.map_values(|l: Launch| l@),
            outputs: string_texts(self.outputs@),
            sampler: step_views(self.sampler@),
            join: join_views(self.join@),
            closing: step_views(self.closing@),
            results: self.results@,
        }
    }
}

/// Whether the phase `phase` consists of steps of the plan and of nothing else.
pub open spec fn is_stepwise(phase: Phase) -> bool {
    phase == Phase::Persist || phase == Phase::Tune || phase == Phase::Throttle || phase
        == Phase::Strategy || phase == Phase::Telemetry || phase == Phase::Sample
}

/// The steps of the plan `p` that the phase `phase` carries out. The last phase
/// carries out its steps and then stops the background tasks; the phases that are
/// more than steps have none here.
pub open spec fn steps_in(p: PlanView, phase: Phase) -> Seq<StepView> {
    match phase {
        Phase::Persist => p.manifest,
        Phase::Tune => p.tuning,
        Phase::Throttle => p.throttle,
        Phase::Strategy => p.strategy,
        Phase::Telemetry => p.telemetry,
        Phase::Sample => p.sampler,
        Phase::Finalize => p.closing,
        _ => Seq::empty(),
    }
}

impl Plan {
    /// Gives the steps that the phase `phase` carries out, where it has steps.
    pub fn steps(&self, phase: Phase) -> (r: Option<&Vec<Step>>)
        ensures
            match r {
                Some(steps) => (is_stepwise(phase) || phase == Phase::Finalize) && step_views(
                    steps@,
                ) == steps_in(self@, phase),
                None => !is_stepwise(phase) && phase != Phase::Finalize,
            },
    {
        match phase {
            Phase::Persist => Some(&self.manifest),
            Phase::Tune => Some(&self.tuning),
            Phase::Throttle => Some(&self.throttle),
            Phase::Strategy => Some(&self.strategy),
            Phase::Telemetry => Some(&self.telemetry),
            Phase::Sample => Some(&self.sampler),
            Phase::Finalize => Some(&self.closing),
            _ => None,
        }
    }
}

/// The wrappers of every workload, where `a` gives each its threads.
pub open spec fn wrappers_of(
    cfg: Config,
    site: Site,
    names: Names,
    a: AllocationView,
    counters: Seq<char>,
) -> Seq<Seq<WrapperView>> {
    Seq::new(
        cfg.workloads@.len(),
        |i: int| stages_of(cfg, site, names, a.sets[i], counters, i),
    )
}

/// The prefix of every workload, where `a` gives each its threads.
pub open spec fn prefixes_of(
    cfg: Config,
    site: Site,
    names: Names,
    a: AllocationView,
    counters: Seq<char>,
) -> Seq<Seq<char>> {
    Seq::new(
        cfg.workloads@.len(),
        |i: int| prefix_of(cfg, site, names, a.sets[i], counters, i),
    )
}

/// Whether `w` is a store whose data is loaded before any workload is started.
pub open spec fn loads_first(w: Workload) -> bool {
    w matches Workload::Redis { load_before_wklds, .. } && load_before_wklds
}

/// The numbers of the stores among `workloads` whose data is loaded before the first
/// workload is started, in the order of the workloads. The data of every other store
/// is loaded when the store's turn to start comes, after a pause.
pub open spec fn preloads_of(workloads: Seq<Workload>) -> Seq<usize>
    decreases workloads.len(),
{
    if workloads.len() == 0 {
        Seq::empty()
    } else if loads_first(workloads.last()) {
        preloads_of(workloads.drop_last()).push((workloads.len() - 1) as usize)
    } else {
        preloads_of(workloads.drop_last())
    }
}

/// Lists the stores whose data is loaded before the first workload is started.
pub fn preload_list(workloads: &Vec<Workload>) -> (r: Vec<usize>)
    ensures
        r@ == preloads_of(workloads@),
{
    let n = workloads.len();
    let mut r: Vec<usize> = Vec::new();
    let mut i: usize = 0;
    assert(workloads@.take(0) == Seq::<Workload>::empty());
    while i < n
        invariant
            i <= n,
            n == workloads.len(),
            r@ == preloads_of(workloads@.take(i as int)),
        decreases n - i,
    {
        assert(workloads@.take(i + 1).drop_last() == workloads@.take(i as int));
        match workloads[i] {
            Workload::Redis { load_before_wklds, .. } => {
                if load_before_wklds {
                    r.push(i);
                }
            },
            _ => {},
        }
        i = i + 1;
    }
    assert(workloads@.take(n as int) == workloads@);
    r
}

/// The stores that are loaded first are the stores that ask for it, each of them once
/// and in the order of the workloads.
pub proof fn lemma_preloads(workloads: Seq<Workload>)
    requires
        workloads.len() <= usize::MAX,
    ensures
        forall|i: int|
            0 <= i < workloads.len() && loads_first(workloads[i]) ==> preloads_of(
                workloads,
            ).contains(i as usize),
        forall|p: int|
            0 <= p < preloads_of(workloads).len() ==> (#[trigger] preloads_of(workloads)[p])
                < workloads.len() && loads_first(workloads[preloads_of(workloads)[p] as int]),
        forall|p: int, q: int|
            0 <= p < q < preloads_of(workloads).len() ==> #[trigger] preloads_of(workloads)[p]
                < #[trigger] preloads_of(workloads)[q],
    decreases workloads.len(),
{
    if workloads.len() > 0 {
        let front = workloads.drop_last();
        let n = (workloads.len() - 1) as int;
        lemma_preloads(front);
        let all = preloads_of(workloads);
        let before = preloads_of(front);
        assert forall|i: int| 0 <= i < workloads.len() && loads_first(workloads[i]) implies all.contains(
            i as usize,
        ) by {
            if i < n {
                assert(front[i] == workloads[i]);
                let p = choose|p: int| 0 <= p < before.len() && before[p] == i as usize;
                assert(all[p] == i as usize);
            } else {
                assert(all.last() == i as usize);
            }
        }
        assert forall|p: int| 0 <= p < all.len() implies (#[trigger] all[p]) < workloads.len()
            && loads_first(workloads[all[p] as int]) by {
            if p < before.len() {
                assert(all[p] == before[p]);
                assert(front[before[p] as int] == workloads[before[p] as int]);
            }
        }
        assert forall|p: int, q: int| 0 <= p < q < all.len() implies #[trigger] all[p]
            < #[trigger] all[q] by {
            assert(all[p] == before[p]);
            if q < before.len() {
                assert(all[q] == before[q]);
            }
        }
    }
}

/// How the first `k` workloads are started, or why the first of them that cannot be
/// started cannot.
pub open spec fn launches_of(
    cfg: Config,
    site: Site,
    names: Names,
    a: AllocationView,
    counters: Seq<char>,
    share: usize,
    k: nat,
) -> Result<Seq<LaunchView>, PlanError>
    decreases k,
{
    if k == 0 {
        Ok(Seq::empty())
    } else {
        match launches_of(cfg, site, names, a, counters, share, (k - 1) as nat) {
            Err(e) => Err(e),
            Ok(front) => match launch_of(
                cfg.workloads@[k - 1],
                (k - 1) as usize,
                share,
                a.sets[k - 1],
                prefix_of(cfg, site, names, a.sets[k - 1], counters, k - 1),
                handed_file(cfg.workloads@, site, names, k - 1),
                site,
            ) {
                Err(e) => Err(e),
                Ok(l) => Ok(front.push(l)),
            },
        }
    }
}

/// The plan of the run that `cfg` describes on a host laid out as `site`, or why there
/// is none.
///
/// `order` holds the usable threads of the local node in the order in which they are
/// handed out, `monitor` a thread of the remote node and `start` the address at which
/// the remote memory begins, each where it is known. `manifest` is the configuration
/// as text and `counters` the wrapper that counts events for the first workload.
///
/// The threads are dealt out first; a node that is too small ends the planning. The
/// strategy comes next with what it refuses, then the workloads in their order.
pub open spec fn run_plan(
    cfg: Config,
    site: Site,
    names: Names,
    manifest: Seq<char>,
    order: Seq<usize>,
    monitor: Option<usize>,
    start: Option<usize>,
    counters: Seq<char>,
) -> Result<PlanView, PlanError> {
    let share = equal_share(order.len() as usize, cfg.workloads@.len());
    match outcome(order, demands(cfg.workloads@, order.len() as usize)) {
        Err(e) => Err(PlanError::Allocation(e)),
        Ok(a) => match strategy_plan(
            cfg.strategy@,
            cfg.memlat,
            site,
            names,
            cfg.workloads@.len(),
            all_ids(a),
            start,
            monitor,
        ) {
            Err(e) => Err(e),
            Ok(strategy) => match launches_of(
                cfg,
                site,
                names,
                a,
                counters,
                share,
                cfg.workloads@.len(),
            ) {
                Err(e) => Err(e),
                Ok(launches) => Ok(
                    PlanView {
                        allocation: a,
                        manifest: manifest_plan(site, names, manifest),
                        tuning: host_plan(cfg.disable_thp, cfg.disable_aslr),
                        throttle: throttle_plan(cfg.throttle, site),
                        strategy,
                        wrappers: wrappers_of(cfg, site, names, a, counters),
                        prefixes: prefixes_of(cfg, site, names, a, counters),
                        telemetry: telemetry_plan(site, names, cfg.workloads@, cfg.meminfo),
                        preload: preloads_of(cfg.workloads@),
                        launches,
                        outputs: outputs_of(cfg.workloads@, site, names),
                        sampler: sampler_plan(site, names, cfg.workloads@, cfg.bwmon),
                        join: join_plan(cfg.workloads@, cfg.kill_after_first_done),
                        closing: closing_plan(
                            site,
                            names,
                            cfg.strategy@ is Cipp,
                            cfg.flame_graph,
                        ),
                        results: site.result(names.run@),
                    },
                ),
            },
        }
    }
}

/// Lists the wrappers of every workload.
fn wrapper_list(cfg: &Config, site: &Site, names: &Names, a: &Allocation, counters: &str) -> (r:
    Vec<Vec<Wrapper>>)
    requires
        a.sets.len() == cfg.workloads.len(),
    ensures
        r@.map_values(|w: Vec<Wrapper>| wrapper_views(w@)) == wrappers_of(
            *cfg,
            *site,
            *names,
            a@,
            counters@,
        ),
{
    let n = cfg.workloads.len();
    let mut r: Vec<Vec<Wrapper>> = Vec::new();
    let mut i: usize = 0;
    let ghost all = wrappers_of(*cfg, *site, *names, a@, counters@);
    while i < n
        invariant
            i <= n,
            n == cfg.workloads.len(),
            n == a.sets.len(),
            all == wrappers_of(*cfg, *site, *names, a@, counters@),
            r@.map_values(|w: Vec<Wrapper>| wrapper_views(w@)) == all.take(i as int),
        decreases n - i,
    {
        let stages = stages_for(cfg, site, names, &a.sets[i], counters, i);
        r.push(stages);
        assert(all.take(i + 1) =~= all.take(i as int).push(all[i as int]));
        i = i + 1;
    }
    r
}

/// Writes the prefix of every workload.
fn prefix_list(cfg: &Config, site: &Site, names: &Names, a: &Allocation, counters: &str) -> (r:
    Vec<String>)
    requires
        a.sets.len() == cfg.workloads.len(),
    ensures
        r@.map_values(|p: String| p@) == prefixes_of(*cfg, *site, *names, a@, counters@),
{
    let n = cfg.workloads.len();
    let mut r: Vec<String> = Vec::new();
    let mut i: usize = 0;
    let ghost all = prefixes_of(*cfg, *site, *names, a@, counters@);
    while i < n
        invariant
            i <= n,
            n == cfg.workloads.len(),
            n == a.sets.len(),
            all == prefixes_of(*cfg, *site, *names, a@, counters@),
            r@.map_values(|p: String| p@) == all.take(i as int),
        decreases n - i,
    {
        let p = prefix_for(cfg, site, names, &a.sets[i], counters, i);
        r.push(p);
        assert(all.take(i + 1) =~= all.take(i as int).push(all[i as int]));
        i = i + 1;
    }
    r
}

/// Says how every workload is started.
fn launch_list(
    cfg: &Config,
    site: &Site,
    names: &Names,
    a: &Allocation,
    counters: &str,
    share: usize,
) -> (r: Result<Vec<Launch>, PlanError>)
    requires
        a.sets.len() == cfg.workloads.len(),
    ensures
        match r {
            Ok(l) => launches_of(
                *cfg,
                *site,
                *names,
                a@,
                counters@,
                share,
                cfg.workloads@.len(),
            ) == Ok::<Seq<LaunchView>, PlanError>(l@.map_values(|l: Launch| l@)),
            Err(e) => launches_of(
                *cfg,
                *site,
                *names,
                a@,
                counters@,
                share,
                cfg.workloads@.len(),
            ) == Err::<Seq<LaunchView>, PlanError>(e),
        },
{
    let n = cfg.workloads.len();
    let handed = handed_list(&cfg.workloads, site, names);
    let mut r: Vec<Launch> = Vec::new();
    let mut i: usize = 0;
    assert(r@.map_values(|l: Launch| l@) =~= Seq::<LaunchView>::empty());
    while i < n
        invariant
            i <= n,
            n == cfg.workloads.len(),
            n == a.sets.len(),
            n == handed.len(),
            string_texts(handed@) == handed_files(cfg.workloads@, *site, *names),
            launches_of(*cfg, *site, *names, a@, counters@, share, i as nat) == Ok::<
                Seq<LaunchView>,
                PlanError,
            >(r@.map_values(|l: Launch| l@)),
        decreases n - i,
    {
        let ghost before = r@.map_values(|l: Launch| l@);
        let p = prefix_for(cfg, site, names, &a.sets[i], counters, i);
        assert(string_texts(handed@)[i as int] == handed@[i as int]@);
        match launch_for(
            &cfg.workloads[i],
            i,
            share,
            &a.sets[i],
            p.as_str(),
            handed[i].as_str(),
            site,
        ) {
            Ok(l) => {
                r.push(l);
                assert(r@.map_values(|l: Launch| l@) =~= before.push(l@));
            },
            Err(e) => {
                proof {
                    lemma_launches_fail_on(*cfg, *site, *names, a@, counters@, share, i + 1, n as int);
                }
                return Err(e);
            },
        }
        i = i + 1;
    }
    Ok(r)
}

/// Where the first `k` workloads cannot all be started, more of them cannot either,
/// and for the same reason.
proof fn lemma_launches_fail_on(
    cfg: Config,
    site: Site,
    names: Names,
    a: AllocationView,
    counters: Seq<char>,
    share: usize,
    k: int,
    n: int,
)
    requires
        0 <= k <= n,
        launches_of(cfg, site, names, a, counters, share, k as nat) is Err,
    ensures
        launches_of(cfg, site, names, a, counters, share, n as nat) == launches_of(
            cfg,
            site,
            names,
            a,
            counters,
            share,
            k as nat,
        ),
    decreases n - k,
{
    if k < n {
        lemma_launches_fail_on(cfg, site, names, a, counters, share, k, n - 1);
    }
}

/// Plans the run that `cfg` describes. Nothing is asked of the remote host here: what
/// is refused is refused before any command is handed out.
pub fn plan_run(
    cfg: &Config,
    site: &Site,
    names: &Names,
    manifest: &str,
    order: &ThreadOrder,
    monitor: Option<usize>,
    start: Option<usize>,
    counters: &str,
) -> (r: Result<Plan, PlanError>)
    ensures
        match r {
            Ok(p) => run_plan(*cfg, *site, *names, manifest@, order@, monitor, start, counters@)
                == Ok::<PlanView, PlanError>(p@),
            Err(e) => run_plan(*cfg, *site, *names, manifest@, order@, monitor, start, counters@)
                == Err::<PlanView, PlanError>(e),
        },
{
    let threads = order.len();
    let n = cfg.workloads.len();
    let share: usize = if n == 0 {
        0
    } else {
        threads / n
    };
    let wanted = thread_demands(&cfg.workloads, threads);
    let allocation = match allocate(order, &wanted) {
        Ok(a) => a,
        Err(e) => {
            return Err(PlanError::Allocation(e));
        },
    };
    let cores = all_ids_string(&allocation);
    let strategy = match strategy_steps(
        &cfg.strategy,
        cfg.memlat,
        site,
        names,
        n,
        cores.as_str(),
        start,
        monitor,
    ) {
        Ok(s) => s,
        Err(e) => {
            return Err(e);
        },
    };
    let launches = match launch_list(cfg, site, names, &allocation, counters, share) {
        Ok(l) => l,
        Err(e) => {
            return Err(e);
        },
    };
    let wrappers = wrapper_list(cfg, site, names, &allocation, counters);
    let prefixes = prefix_list(cfg, site, names, &allocation, counters);
    let adaptive = match cfg.strategy {
        Strategy::Cipp { .. } => true,
        _ => false,
    };
    Ok(
        Plan {
            allocation,
            manifest: manifest_steps(site, names, manifest),
            tuning: host_steps(cfg.disable_thp, cfg.disable_aslr),
            throttle: throttle_steps(&cfg.throttle, site),
            strategy,
            wrappers,
            prefixes,
            telemetry: telemetry_steps(site, names, &cfg.workloads, cfg.meminfo),
            preload: preload_list(&cfg.workloads),
            launches,
            outputs: output_list(&cfg.workloads, site, names),
            sampler: sampler_steps(site, names, &cfg.workloads, cfg.bwmon),
            join: join_steps(&cfg.workloads, cfg.kill_after_first_done),
            closing: closing_steps(site, names, adaptive, cfg.flame_graph),
            results: site.result_path(names.run.as_str()),
        },
    )
}

/// A node with fewer threads than the workloads ask for gets no plan, and so no
/// command: whatever the strategy, the throttle and the host.
pub proof fn lemma_small_node_plans_nothing(
    cfg: Config,
    site: Site,
    names: Names,
    manifest: Seq<char>,
    order: Seq<usize>,
    monitor: Option<usize>,
    start: Option<usize>,
    counters: Seq<char>,
)
    requires
        total(demands(cfg.workloads@, order.len() as usize)) > order.len(),
    ensures
        run_plan(cfg, site, names, manifest, order, monitor, start, counters) is Err,
        run_plan(cfg, site, names, manifest, order, monitor, start, counters)->Err_0 is Allocation,
{
}

/// Under the adaptive controller a run whose remote memory was not found gets no plan:
/// it ends before any workload is started.
pub proof fn lemma_adaptive_needs_remote_start(
    cfg: Config,
    site: Site,
    names: Names,
    manifest: Seq<char>,
    order: Seq<usize>,
    monitor: Option<usize>,
    counters: Seq<char>,
)
    requires
        cfg.strategy@ is Cipp,
    ensures
        run_plan(cfg, site, names, manifest, order, monitor, None, counters) is Err,
        total(demands(cfg.workloads@, order.len() as usize)) <= order.len() ==> run_plan(
            cfg,
            site,
            names,
            manifest,
            order,
            monitor,
            None,
            counters,
        ) == Err::<PlanView, PlanError>(PlanError::MissingRemoteStart),
{
}

/// Under the per-mount strategy a run that has not exactly one ratio for each workload
/// gets no plan, and so nothing is mounted.
pub proof fn lemma_ratio_mismatch_plans_nothing(
    cfg: Config,
    site: Site,
    names: Names,
    manifest: Seq<char>,
    order: Seq<usize>,
    monitor: Option<usize>,
    start: Option<usize>,
    counters: Seq<char>,
)
    requires
        cfg.strategy@ matches StrategyView::Bwmfs { ratios } && ratios.len() != cfg.workloads@.len(),
    ensures
        run_plan(cfg, site, names, manifest, order, monitor, start, counters) is Err,
{
}

/// Every plan gives each workload its set of threads, its prefix and its start, and
/// the sets part the threads of the node.
pub proof fn lemma_plan_covers_workloads(
    cfg: Config,
    site: Site,
    names: Names,
    manifest: Seq<char>,
    order: Seq<usize>,
    monitor: Option<usize>,
    start: Option<usize>,
    counters: Seq<char>,
)
    requires
        order.no_duplicates(),
        order.len() <= usize::MAX,
        run_plan(cfg, site, names, manifest, order, monitor, start, counters) is Ok,
    ensures
        ({
            let p = run_plan(cfg, site, names, manifest, order, monitor, start, counters)->Ok_0;
            &&& p.allocation.sets.len() == cfg.workloads@.len()
            &&& p.wrappers.len() == cfg.workloads@.len()
            &&& forall|i: int|
                0 <= i < p.prefixes.len() ==> #[trigger] p.prefixes[i] == composed(p.wrappers[i])
            &&& p.prefixes.len() == cfg.workloads@.len()
            &&& p.launches.len() == cfg.workloads@.len()
            &&& parts(p.allocation, order, demands(cfg.workloads@, order.len() as usize))
        }),
{
    let d = demands(cfg.workloads@, order.len() as usize);
    lemma_allocation_partitions(order, d);
    let a = allocation_of(order, d);
    let share = equal_share(order.len() as usize, cfg.workloads@.len());
    lemma_launches_len(cfg, site, names, a, counters, share, cfg.workloads@.len());
}

/// In every plan each workload writes into a file of its own, where the stems of the
/// files are plain: the plan names the file of each workload, the workload is started
/// so that it writes into that file, and no two workloads of the run have the same
/// file, whatever their kinds. The same holds of the files into which the workloads
/// are timed, whatever the files of the run are called.
pub proof fn lemma_outputs_are_distinct(
    cfg: Config,
    site: Site,
    names: Names,
    manifest: Seq<char>,
    order: Seq<usize>,
    monitor: Option<usize>,
    start: Option<usize>,
    counters: Seq<char>,
)
    requires
        plain_stems(names),
        run_plan(cfg, site, names, manifest, order, monitor, start, counters) is Ok,
    ensures
        ({
            let p = run_plan(cfg, site, names, manifest, order, monitor, start, counters)->Ok_0;
            &&& p.outputs.len() == cfg.workloads@.len()
            &&& p.launches.len() == cfg.workloads@.len()
            &&& forall|i: int|
                0 <= i < p.outputs.len() ==> writes_to(p.launches[i], #[trigger] p.outputs[i])
            &&& forall|i: int, j: int|
                0 <= i < p.outputs.len() && 0 <= j < p.outputs.len() && i != j
                    ==> #[trigger] p.outputs[i] != #[trigger] p.outputs[j]
            &&& forall|i: int, j: int|
                0 <= i < cfg.workloads@.len() && 0 <= j < cfg.workloads@.len() && i != j
                    ==> #[trigger] workload_file(site.result(names.time@), cfg.workloads@, i)
                    != #[trigger] workload_file(site.result(names.time@), cfg.workloads@, j)
        }),
{
    let p = run_plan(cfg, site, names, manifest, order, monitor, start, counters)->Ok_0;
    let a = p.allocation;
    let share = equal_share(order.len() as usize, cfg.workloads@.len());
    let n = cfg.workloads@.len();
    assert(n == cfg.workloads.len());
    lemma_launches_len(cfg, site, names, a, counters, share, n);
    assert forall|i: int| 0 <= i < p.outputs.len() implies writes_to(
        p.launches[i],
        #[trigger] p.outputs[i],
    ) by {
        lemma_launches_index(cfg, site, names, a, counters, share, n, i);
        lemma_launch_writes_to_its_file(
            cfg.workloads@[i],
            i as usize,
            share,
            a.sets[i],
            prefix_of(cfg, site, names, a.sets[i], counters, i),
            handed_file(cfg.workloads@, site, names, i),
            site,
        );
    }
    assert forall|i: int, j: int|
        0 <= i < p.outputs.len() && 0 <= j < p.outputs.len() && i != j implies #[trigger] p.outputs[i]
        != #[trigger] p.outputs[j] by {
        lemma_output_files_differ(cfg.workloads@, site, names, i, j);
    }
    assert forall|i: int, j: int|
        0 <= i < cfg.workloads@.len() && 0 <= j < cfg.workloads@.len() && i != j implies #[trigger] workload_file(
        site.result(names.time@),
        cfg.workloads@,
        i,
    ) != #[trigger] workload_file(site.result(names.time@), cfg.workloads@, j) by {
        lemma_workload_files_differ(site.result(names.time@), cfg.workloads@, i, j);
    }
}

/// In a run that can be selected every workload writes into the file of its kind, with
/// a `2` behind it where it is delayed, as long as the files of the kinds are called
/// differently and the second of two instances of one kind is delayed: the files of
/// such a run differ already and stay as they are.
pub proof fn lemma_selected_runs_keep_their_files(
    sel: Selection,
    site: Site,
    names: Names,
    i: int,
)
    requires
        distinct_stems(names),
        selected(sel) is Ok,
        0 <= i < selected(sel)->Ok_0.0.len(),
        sel matches Selection::DoubleMerci { delay, .. } ==> delay is Some,
        sel matches Selection::DoubleClover { delay, .. } ==> delay is Some,
    ensures
        output_file(selected(sel)->Ok_0.0, site, names, i) == usual_file(
            site,
            names,
            selected(sel)->Ok_0.0[i],
        ),
        handed_file(selected(sel)->Ok_0.0, site, names, i) == kind_file(
            site,
            names,
            selected(sel)->Ok_0.0[i],
        ),
{
    let workloads = selected(sel)->Ok_0.0;
    let stems = seq![
        names.merci@,
        names.gapbs@,
        names.gups@,
        names.clover@,
        names.ycsb@,
        names.stream@,
        names.spec@,
    ];
    assert(stems[0] != stems[1]);
    assert(stems[2] != stems[4]);
    if i == 1 {
        let first = workloads[0];
        let second = workloads[1];
        let file = kind_file(site, names, first);
        assert((file + seq!['2']).len() == file.len() + 1);
        lemma_results_differ(site, names.gapbs@, names.merci@);
        lemma_results_differ(site, names.gups@, names.ycsb@);
        assert(usual_file(site, names, first) != usual_file(site, names, second));
    }
    lemma_usual_files_stay(workloads, site, names, i);
}

/// Each of the first `k` workloads is started as it is started alone.
proof fn lemma_launches_index(
    cfg: Config,
    site: Site,
    names: Names,
    a: AllocationView,
    counters: Seq<char>,
    share: usize,
    k: nat,
    i: int,
)
    requires
        0 <= i < k,
        k <= cfg.workloads@.len(),
        launches_of(cfg, site, names, a, counters, share, k) is Ok,
    ensures
        launch_of(
            cfg.workloads@[i],
            i as usize,
            share,
            a.sets[i],
            prefix_of(cfg, site, names, a.sets[i], counters, i),
            handed_file(cfg.workloads@, site, names, i),
            site,
        ) == Ok::<LaunchView, PlanError>(
            launches_of(cfg, site, names, a, counters, share, k)->Ok_0[i],
        ),
    decreases k,
{
    lemma_launches_len(cfg, site, names, a, counters, share, (k - 1) as nat);
    if i < k - 1 {
        lemma_launches_index(cfg, site, names, a, counters, share, (k - 1) as nat, i);
    }
}

/// As many starts as workloads.
proof fn lemma_launches_len(
    cfg: Config,
    site: Site,
    names: Names,
    a: AllocationView,
    counters: Seq<char>,
    share: usize,
    k: nat,
)
    ensures
        launches_of(cfg, site, names, a, counters, share, k) matches Ok(l) ==> l.len() == k,
    decreases k,
{
    if k > 0 {
        lemma_launches_len(cfg, site, names, a, counters, share, (k - 1) as nat);
    }
}

} // verus!

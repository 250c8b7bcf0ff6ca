//! What each phase of a run asks of the remote host, apart from the strategy and the
//! throttle, which have files of their own.

use vstd::prelude::*;
use vstd::string::StringExecFns;
use crate::config::{proc_name, process_name, Workload};
use crate::prefix::{
    lemma_workload_files_differ, perf_record_file, workload_file, workload_file_list,
    workload_files,
};
use crate::shell::{
    escape_for_bash, escaped, no_steps, push_run, push_spawn, push_step, push_watch, running, spawning,
    step_views, watching, Step, StepView,
};
use crate::site::{Names, Site};
use crate::text::string_texts;

verus! {

/// The steps that put the manifest of the run into the results directory: make the
/// directory, then write the manifest, escaped for the shell, to its file.
pub open spec fn manifest_plan(site: Site, names: Names, manifest: Seq<char>) -> Seq<StepView> {
    seq![
        running("mkdir -p "@ + site.results_dir()),
        running("echo "@ + escaped(manifest) + " > "@ + site.result(names.params@)),
    ]
}

/// Plans the writing of the manifest, which is the configuration of the run as text.
pub fn manifest_steps(site: &Site, names: &Names, manifest: &str) -> (r: Vec<Step>)
    ensures
        step_views(r@) == manifest_plan(*site, *names, manifest@),
{
    let mut steps = no_steps();
    let mut make = String::from_str("mkdir -p ");
    let dir = site.results_path();
    make.append(dir.as_str());
    push_run(&mut steps, make);
    let mut write = String::from_str("echo ");
    let text = escape_for_bash(manifest);
    write.append(text.as_str());
    write.append(" > ");
    let file = site.result_path(names.params.as_str());
    write.append(file.as_str());
    push_run(&mut steps, write);
    steps
}

/// How transparent huge pages are set.
#[derive(Debug, Clone, Copy, PartialEq, Eq)]
pub struct HugePageSettings {
    /// When huge pages are used.
    pub enabled: &'static str,
    /// When memory is compacted to make them.
    pub defrag: &'static str,
    /// Whether the kernel's daemon compacts memory too: one or zero.
    pub khugepaged_defrag: usize,
    /// The milliseconds that the daemon waits after a failed allocation.
    pub alloc_sleep_ms: usize,
    /// The milliseconds that the daemon waits between two scans.
    pub scan_sleep_ms: usize,
}

/// The settings for huge pages that are on, or off.
pub fn huge_page_settings(on: bool) -> (r: HugePageSettings)
    ensures
        r.enabled@ == (if on {
            "always"@
        } else {
            "never"@
        }),
        r.defrag@ == r.enabled@,
        r.khugepaged_defrag == (if on {
            1usize
        } else {
            0usize
        }),
        r.alloc_sleep_ms == 1000,
        r.scan_sleep_ms == 1000,
{
    if on {
        HugePageSettings {
            enabled: "always",
            defrag: "always",
            khugepaged_defrag: 1,
            alloc_sleep_ms: 1000,
            scan_sleep_ms: 1000,
        }
    } else {
        HugePageSettings {
            enabled: "never",
            defrag: "never",
            khugepaged_defrag: 0,
            alloc_sleep_ms: 1000,
            scan_sleep_ms: 1000,
        }
    }
}

/// The steps that tune the host for the run: huge pages on unless they are disabled,
/// address randomisation on unless it is disabled, and every processor at full speed.
pub open spec fn host_plan(disable_thp: bool, disable_aslr: bool) -> Seq<StepView> {
    seq![
        StepView::HugePages { on: !disable_thp },
        StepView::Aslr { on: !disable_aslr },
        running(
            "echo performance | sudo tee /sys/devices/system/cpu/cpu*/cpufreq/scaling_governor"@,
        ),
    ]
}

/// Plans the tuning of the host for the run.
pub fn host_steps(disable_thp: bool, disable_aslr: bool) -> (r: Vec<Step>)
    ensures
        step_views(r@) == host_plan(disable_thp, disable_aslr),
{
    let mut steps = no_steps();
    push_step(&mut steps, Step::HugePages { on: !disable_thp });
    push_step(&mut steps, Step::Aslr { on: !disable_aslr });
    push_run(
        &mut steps,
        String::from_str(
            "echo performance | sudo tee /sys/devices/system/cpu/cpu*/cpufreq/scaling_governor",
        ),
    );
    steps
}

/// The command that prints how the memory of the process `process` is spread over the
/// nodes. Where several processes have the name, the one with the lowest id is meant:
/// the task is started beside the workload, not behind it, and finds its process anew
/// each time.
pub open spec fn breakdown_text(tools: Seq<char>, process: Seq<char>, file: Seq<char>) -> Seq<
    char,
> {
    "sudo "@ + tools + "/meminfo $(pgrep -x "@ + process
        + " | sort -n | head -n1) 0x100000000 0x1480000000 >> "@ + file
}

/// The file into which the memory breakdown of workload number `i` goes: the file of
/// its process, with its number behind it where a workload before it has the same
/// process.
pub open spec fn breakdown_file(site: Site, names: Names, workloads: Seq<Workload>, i: int) -> Seq<
    char,
> {
    workload_file(site.result(names.meminfo@), workloads, i)
}

/// The task that samples the memory breakdown of workload number `i` every five
/// seconds.
pub open spec fn breakdown_task(site: Site, names: Names, workloads: Seq<Workload>, i: int) -> StepView {
    watching(
        "meminfo"@,
        5,
        breakdown_text(
            site.tools_dir(),
            process_name(workloads[i]),
            breakdown_file(site, names, workloads, i),
        ),
        breakdown_file(site, names, workloads, i),
    )
}

/// Every task that samples a memory breakdown has a file of its own.
pub proof fn lemma_breakdown_files_differ(
    site: Site,
    names: Names,
    workloads: Seq<Workload>,
    i: int,
    j: int,
)
    requires
        0 <= i < workloads.len(),
        0 <= j < workloads.len(),
        i != j,
    ensures
        breakdown_file(site, names, workloads, i) != breakdown_file(site, names, workloads, j),
{
    lemma_workload_files_differ(site.result(names.meminfo@), workloads, i, j);
}

/// The task that samples the counters of page migration once a second.
pub open spec fn migration_task(site: Site, names: Names) -> StepView {
    watching(
        "pgmigrate"@,
        1,
        "cat /proc/vmstat | grep \"\\(pgmigrate_success\\|pgdemote\\)\" >> "@ + site.result(
            names.pgmigrate@,
        ),
        site.result(names.pgmigrate@),
    )
}

/// The telemetry of a run: the memory breakdown of each workload, where it was asked
/// for, and the counters of page migration always.
pub open spec fn telemetry_plan(
    site: Site,
    names: Names,
    workloads: Seq<Workload>,
    meminfo: bool,
) -> Seq<StepView> {
    (if meminfo {
        Seq::new(workloads.len(), |i: int| breakdown_task(site, names, workloads, i))
    } else {
        Seq::empty()
    }) + seq![migration_task(site, names)]
}

/// Plans the telemetry of a run.
pub fn telemetry_steps(site: &Site, names: &Names, workloads: &Vec<Workload>, meminfo: bool) -> (r:
    Vec<Step>)
    ensures
        step_views(r@) == telemetry_plan(*site, *names, workloads@, meminfo),
{
    let mut steps = no_steps();
    if meminfo {
        let n = workloads.len();
        let mut i: usize = 0;
        let ghost all = Seq::new(
            workloads@.len(),
            |i: int| breakdown_task(*site, *names, workloads@, i),
        );
        let stem = site.result_path(names.meminfo.as_str());
        let files = workload_file_list(stem.as_str(), workloads);
        while i < n
            invariant
                i <= n,
                n == workloads.len(),
                all == Seq::new(
                    workloads@.len(),
                    |i: int| breakdown_task(*site, *names, workloads@, i),
                ),
                files.len() == n,
                string_texts(files@) == workload_files(
                    site.result(names.meminfo@),
                    workloads@,
                ),
                step_views(steps@) == all.take(i as int),
            decreases n - i,
        {
            let name = proc_name(&workloads[i]);
            assert(string_texts(files@)[i as int] == files@[i as int]@);
            let file = files[i].clone();
            let mut cmd = String::from_str("sudo ");
            let tools = site.workspace_path("tools/");
            cmd.append(tools.as_str());
            cmd.append("/meminfo $(pgrep -x ");
            cmd.append(name);
            cmd.append(" | sort -n | head -n1) 0x100000000 0x1480000000 >> ");
            cmd.append(file.as_str());
            push_watch(&mut steps, "meminfo", 5, cmd, file);
            assert(step_views(steps@) == all.take(i + 1));
            i = i + 1;
        }
    }
    let file = site.result_path(names.pgmigrate.as_str());
    let mut cmd = String::from_str(
        "cat /proc/vmstat | grep \"\\(pgmigrate_success\\|pgdemote\\)\" >> ",
    );
    cmd.append(file.as_str());
    push_watch(&mut steps, "pgmigrate", 1, cmd, file);
    steps
}

/// The seconds that the first workload is given to come up before the bandwidth
/// sampler is attached to it.
pub open spec fn sampler_grace() -> Seq<char> {
    "sleep 10"@
}

/// The steps that attach the bandwidth sampler to the first workload, where there is
/// one and the sampler was asked for: it follows the bandwidth of the whole machine.
pub open spec fn sampler_plan(
    site: Site,
    names: Names,
    workloads: Seq<Workload>,
    bwmon: bool,
) -> Seq<StepView> {
    if bwmon && workloads.len() > 0 {
        seq![
            running(sampler_grace()),
            spawning(
                "sudo "@ + site.tools_dir() + "/bwmon 100 "@ + site.result(names.bwmon@)
                    + " $(pgrep -x "@ + process_name(workloads[0]) + ")"@,
            ),
        ]
    } else {
        Seq::empty()
    }
}

/// Plans the attaching of the bandwidth sampler.
pub fn sampler_steps(site: &Site, names: &Names, workloads: &Vec<Workload>, bwmon: bool) -> (r:
    Vec<Step>)
    ensures
        step_views(r@) == sampler_plan(*site, *names, workloads@, bwmon),
{
    let mut steps = no_steps();
    if bwmon && workloads.len() > 0 {
        push_run(&mut steps, String::from_str("sleep 10"));
        let mut cmd = String::from_str("sudo ");
        let tools = site.workspace_path("tools/");
        cmd.append(tools.as_str());
        cmd.append("/bwmon 100 ");
        let file = site.result_path(names.bwmon.as_str());
        cmd.append(file.as_str());
        cmd.append(" $(pgrep -x ");
        cmd.append(proc_name(&workloads[0]));
        cmd.append(")");
        push_spawn(&mut steps, cmd);
    }
    steps
}

/// The steps that close a run before the background tasks are stopped: keep the
/// kernel's counters, keep the state of the adaptive controller where it was at work,
/// and turn the recorded profile into a flame graph where one was recorded.
pub open spec fn closing_plan(
    site: Site,
    names: Names,
    adaptive: bool,
    flame_graph: bool,
) -> Seq<StepView> {
    seq![running("cat /proc/vmstat | tee "@ + site.result(names.vmstat@))] + (if adaptive {
        seq![
            running(
                "sudo "@ + site.damo_dir() + "/damo status | tee "@ + site.result(
                    names.damo_status@,
                ),
            ),
        ]
    } else {
        Seq::empty()
    }) + (if flame_graph {
        seq![
            running(
                "sudo perf script -i "@ + perf_record_file()
                    + " | ./FlameGraph/stackcollapse-perf.pl > /tmp/flamegraph"@,
            ),
            running(
                "./FlameGraph/flamegraph.pl /tmp/flamegraph > "@ + site.result(names.flame_graph@),
            ),
        ]
    } else {
        Seq::empty()
    })
}

/// Plans the closing of a run.
pub fn closing_steps(site: &Site, names: &Names, adaptive: bool, flame_graph: bool) -> (r: Vec<
    Step,
>)
    ensures
        step_views(r@) == closing_plan(*site, *names, adaptive, flame_graph),
{
    let mut steps = no_steps();
    let mut keep = String::from_str("cat /proc/vmstat | tee ");
    let vmstat = site.result_path(names.vmstat.as_str());
    keep.append(vmstat.as_str());
    push_run(&mut steps, keep);
    if adaptive {
        let mut status = String::from_str("sudo ");
        let damo = site.home_path("damo");
        status.append(damo.as_str());
        status.append("/damo status | tee ");
        let file = site.result_path(names.damo_status.as_str());
        status.append(file.as_str());
        push_run(&mut steps, status);
    }
    if flame_graph {
        let mut fold = String::from_str("sudo perf script -i ");
        fold.append("/tmp/perf.data");
        fold.append(" | ./FlameGraph/stackcollapse-perf.pl > /tmp/flamegraph");
        push_run(&mut steps, fold);
        let mut draw = String::from_str("./FlameGraph/flamegraph.pl /tmp/flamegraph > ");
        let file = site.result_path(names.flame_graph.as_str());
        draw.append(file.as_str());
        push_run(&mut steps, draw);
    }
    steps
}

} // verus!

//! Setting up the tiering strategy before any workload starts.

use vstd::prelude::*;
use vstd::string::StringExecFns;
use crate::config::{Strategy, StrategyView};
use crate::error::PlanError;
use crate::prefix::{mount_dir, mount_path};
use crate::shell::{
    no_steps, push_all, push_run, push_run_in, push_spawn, push_watch, running, running_in, spawning,
    step_views, watching, Step, StepView,
};
use crate::site::{Names, Site};
use crate::text::{decimal, push_decimal};
use crate::zoneinfo::PAGE_SIZE;

verus! {

/// Writing the number `value` to the kernel file `file`.
pub open spec fn write_number(value: nat, file: Seq<char>) -> Seq<char> {
    "echo "@ + decimal(value) + " | sudo tee "@ + file
}

/// Writes the command that writes `value` to the kernel file `file`.
pub fn write_number_command(value: u64, file: &str) -> (r: String)
    ensures
        r@ == write_number(value as nat, file@),
{
    let mut r = String::from_str("echo ");
    push_decimal(&mut r, value);
    r.append(" | sudo tee ");
    r.append(file);
    r
}

/// Building the kernel module `name` of the kernel tree and loading it.
pub open spec fn module_plan(site: Site, name: Seq<char>) -> Seq<StepView> {
    seq![
        running_in("make"@, site.in_kernel(name)),
        running("sudo insmod "@ + site.kernel_dir() + "/"@ + name + "/"@ + name + ".ko"@),
    ]
}

/// Plans the building and loading of the kernel module `name`.
fn module_steps(site: &Site, name: &str) -> (r: Vec<Step>)
    ensures
        step_views(r@) == module_plan(*site, name@),
{
    let mut steps = no_steps();
    let dir = site.kernel_file(name);
    push_run_in(&mut steps, String::from_str("make"), dir.as_str());
    let mut load = String::from_str("sudo insmod ");
    let kernel = site.kernel_path();
    load.append(kernel.as_str());
    load.append("/");
    load.append(name);
    load.append("/");
    load.append(name);
    load.append(".ko");
    push_run(&mut steps, load);
    steps
}

/// The steps by which the kernel balances memory between the nodes by itself: load the
/// module that initialises the tiers, switch swapping off, allow demotion, and set the
/// balancing mode to `mode`.
pub open spec fn balancing_plan(site: Site, mode: nat) -> Seq<StepView> {
    module_plan(site, "tierinit"@) + seq![
        running("swapoff -a"@),
        running("echo 1 | sudo tee /sys/kernel/mm/numa/demotion_enabled"@),
        running(write_number(mode, "/proc/sys/kernel/numa_balancing"@)),
    ]
}

/// Plans the kernel's own balancing in mode `mode`.
fn balancing_steps(site: &Site, mode: u64) -> (r: Vec<Step>)
    ensures
        step_views(r@) == balancing_plan(*site, mode as nat),
{
    let mut steps = module_steps(site, "tierinit");
    push_run(&mut steps, String::from_str("swapoff -a"));
    push_run(&mut steps, String::from_str("echo 1 | sudo tee /sys/kernel/mm/numa/demotion_enabled"));
    push_run(&mut steps, write_number_command(mode, "/proc/sys/kernel/numa_balancing"));
    steps
}

/// The background task that samples the latency of both nodes once a second into
/// `file`.
pub open spec fn latency_task(file: Seq<char>) -> StepView {
    watching("colloid_latency"@, 1, "cat /sys/kernel/colloid/latency >> "@ + file, file)
}

/// The command of the tool that measures latency from the thread `core` of the remote
/// node, whose memory begins at the page frame `pfn`.
pub open spec fn latency_tool(site: Site, core: usize, pfn: nat, file: Seq<char>) -> Seq<char> {
    "sudo taskset -c "@ + decimal(core as nat) + " "@ + site.tools_dir() + "/memlat "@ + decimal(
        pfn,
    ) + " 10 "@ + file
}

/// How latency is sampled while the second balancing mode is at work: by the tool
/// where it was asked for, else by a background task.
pub open spec fn latency_plan(
    site: Site,
    file: Seq<char>,
    tool: Option<(usize, usize)>,
) -> Seq<StepView> {
    match tool {
        Some((core, start)) => module_plan(site, "colloid-perf"@) + seq![
            spawning(latency_tool(site, core, start as nat / PAGE_SIZE as nat, file)),
        ],
        None => module_plan(site, "colloid-mon"@) + seq![latency_task(file)],
    }
}

/// Plans the sampling of latency.
fn latency_steps(site: &Site, file: &str, tool: Option<(usize, usize)>) -> (r: Vec<Step>)
    ensures
        step_views(r@) == latency_plan(*site, file@, tool),
{
    match tool {
        Some((core, start)) => {
            let mut steps = module_steps(site, "colloid-perf");
            let mut t = String::from_str("sudo taskset -c ");
            push_decimal(&mut t, core as u64);
            t.append(" ");
            let tools = site.workspace_path("tools/");
            t.append(tools.as_str());
            t.append("/memlat ");
            push_decimal(&mut t, (start / PAGE_SIZE) as u64);
            t.append(" 10 ");
            t.append(file);
            push_spawn(&mut steps, t);
            steps
        },
        None => {
            let mut steps = module_steps(site, "colloid-mon");
            let mut cmd = String::from_str("cat /sys/kernel/colloid/latency >> ");
            cmd.append(file);
            push_watch(&mut steps, "colloid_latency", 1, cmd, String::from_str(file));
            steps
        },
    }
}

/// The file that holds the weight of node `node` for the file system of workload `i`.
pub open spec fn mount_weight_file(i: nat, node: nat) -> Seq<char> {
    "/sys/fs/bwmmfs"@ + decimal(i + 1) + "/node"@ + decimal(node) + "/weight"@
}

/// The steps that give workload `i` its own file system with the weights `local` and
/// `remote`: make the directory, mount the file system there, hand it to the user, and
/// write the two weights.
pub open spec fn mount_plan(home: Seq<char>, i: nat, local: usize, remote: usize) -> Seq<StepView> {
    seq![
        running("mkdir -p "@ + mount_dir(home, i)),
        running("sudo mount -t BandwidthMMFS BandwidthMMFS "@ + mount_dir(home, i)),
        running("sudo chown -R $USER "@ + mount_dir(home, i)),
        running(write_number(local as nat, mount_weight_file(i, 0))),
        running(write_number(remote as nat, mount_weight_file(i, 1))),
    ]
}

/// The steps that mount one file system for each of `ratios`, in order.
pub open spec fn mounts_plan(home: Seq<char>, ratios: Seq<(usize, usize)>) -> Seq<StepView>
    decreases ratios.len(),
{
    if ratios.len() == 0 {
        Seq::empty()
    } else {
        mounts_plan(home, ratios.drop_last()) + mount_plan(
            home,
            (ratios.len() - 1) as nat,
            ratios.last().0,
            ratios.last().1,
        )
    }
}

/// The steps of the per-mount strategy: load the file system's module, switch the
/// memory manager that serves it on, and mount one file system for each ratio.
pub open spec fn bandwidth_fs_plan(site: Site, ratios: Seq<(usize, usize)>) -> Seq<StepView> {
    seq![
        running_in("make"@, site.in_kernel("BandwidthMMFS"@)),
        running("sudo insmod "@ + site.in_kernel("BandwidthMMFS"@) + "/bandwidth.ko"@),
        running("echo 1 | sudo tee /sys/kernel/mm/fbmm/state"@),
    ] + mounts_plan(site.home@, ratios)
}

/// Writes the file that holds the weight of a node for the file system of workload `i`.
fn mount_weight_path(i: usize, node: u64) -> (r: String)
    requires
        i < usize::MAX,
    ensures
        r@ == mount_weight_file(i as nat, node as nat),
{
    let mut r = String::from_str("/sys/fs/bwmmfs");
    push_decimal(&mut r, (i + 1) as u64);
    r.append("/node");
    push_decimal(&mut r, node);
    r.append("/weight");
    r
}

/// Plans the file system of workload `i`.
fn mount_steps(home: &str, i: usize, local: usize, remote: usize) -> (r: Vec<Step>)
    requires
        i < usize::MAX,
    ensures
        step_views(r@) == mount_plan(home@, i as nat, local, remote),
{
    let mut steps = no_steps();
    let dir = mount_path(home, i);
    let mut make = String::from_str("mkdir -p ");
    make.append(dir.as_str());
    push_run(&mut steps, make);
    let mut mount = String::from_str("sudo mount -t BandwidthMMFS BandwidthMMFS ");
    mount.append(dir.as_str());
    push_run(&mut steps, mount);
    let mut own = String::from_str("sudo chown -R $USER ");
    own.append(dir.as_str());
    push_run(&mut steps, own);
    let node0 = mount_weight_path(i, 0);
    push_run(&mut steps, write_number_command(local as u64, node0.as_str()));
    let node1 = mount_weight_path(i, 1);
    push_run(&mut steps, write_number_command(remote as u64, node1.as_str()));
    steps
}

/// Plans the per-mount strategy.
fn bandwidth_fs_steps(site: &Site, ratios: &Vec<(usize, usize)>) -> (r: Vec<Step>)
    ensures
        step_views(r@) == bandwidth_fs_plan(*site, ratios@),
{
    let mut steps = no_steps();
    let dir = site.kernel_file("BandwidthMMFS");
    push_run_in(&mut steps, String::from_str("make"), dir.as_str());
    let mut load = String::from_str("sudo insmod ");
    load.append(dir.as_str());
    load.append("/bandwidth.ko");
    push_run(&mut steps, load);
    push_run(&mut steps, String::from_str("echo 1 | sudo tee /sys/kernel/mm/fbmm/state"));
    let ghost head = step_views(steps@);
    let n = ratios.len();
    let mut i: usize = 0;
    while i < n
        invariant
            i <= n,
            n == ratios.len(),
            step_views(steps@) == head + mounts_plan(site.home@, ratios@.take(i as int)),
        decreases n - i,
    {
        assert(ratios@.take(i + 1).drop_last() == ratios@.take(i as int));
        let (local, remote) = ratios[i];
        let more = mount_steps(site.home.as_str(), i, local, remote);
        push_all(&mut steps, more);
        i = i + 1;
    }
    assert(ratios@.take(n as int) == ratios@);
    steps
}

/// The weight file of node `node` for interleaving.
pub open spec fn interleave_weight_file(node: nat) -> Seq<char> {
    "/sys/kernel/mm/mempolicy/weighted_interleave/node"@ + decimal(node)
}

/// The steps that set the interleaving weights of the two nodes.
pub open spec fn weights_plan(local: nat, remote: nat) -> Seq<StepView> {
    seq![
        running(write_number(local, interleave_weight_file(0))),
        running(write_number(remote, interleave_weight_file(1))),
    ]
}

/// Plans the setting of the interleaving weights.
fn weights_steps(local: u64, remote: u64) -> (r: Vec<Step>)
    ensures
        step_views(r@) == weights_plan(local as nat, remote as nat),
{
    let mut steps = no_steps();
    let mut node0 = String::from_str("/sys/kernel/mm/mempolicy/weighted_interleave/node");
    push_decimal(&mut node0, 0);
    push_run(&mut steps, write_number_command(local, node0.as_str()));
    let mut node1 = String::from_str("/sys/kernel/mm/mempolicy/weighted_interleave/node");
    push_decimal(&mut node1, 1);
    push_run(&mut steps, write_number_command(remote, node1.as_str()));
    steps
}

/// The name of the program that rewrites the weights while the run lasts.
pub open spec fn controller_name(total_bw: bool) -> Seq<char> {
    if total_bw {
        "cipp_total_bw"@
    } else {
        "cipp"@
    }
}

/// The steps of the adaptive controller: generate the daemon's configuration for the
/// remote memory that begins at `start`, start the daemon and pin it to `cores`, favour
/// the local node strongly until the controller knows better, switch the kernel's own
/// balancing off, and start the program that rewrites the weights from the bandwidth
/// it observes, its time series going to `series`.
pub open spec fn controller_plan(
    site: Site,
    total_bw: bool,
    start: usize,
    cores: Seq<char>,
    series: Seq<char>,
) -> Seq<StepView> {
    seq![
        running(
            "sudo "@ + site.damo_dir() + "/gen_interleave.py -o "@ + site.in_home("cipp.yaml"@)
                + " -a "@ + decimal(start as nat),
        ),
        running("sudo "@ + site.damo_dir() + "/damo start "@ + site.in_home("cipp.yaml"@)),
        running("sudo taskset -cp "@ + cores + " $(pgrep kdamond)"@),
    ] + weights_plan(100, 0) + seq![
        running(write_number(0, "/proc/sys/kernel/numa_balancing"@)),
        spawning(
            "sudo "@ + site.tools_dir() + "/"@ + controller_name(total_bw) + " 100 6000 30000 > "@
                + series,
        ),
    ]
}

/// Plans the adaptive controller.
fn controller_steps(site: &Site, total_bw: bool, start: usize, cores: &str, series: &str) -> (r:
    Vec<Step>)
    ensures
        step_views(r@) == controller_plan(*site, total_bw, start, cores@, series@),
{
    let mut steps = no_steps();
    let damo = site.home_path("damo");
    let yaml = site.home_path("cipp.yaml");
    let mut generate = String::from_str("sudo ");
    generate.append(damo.as_str());
    generate.append("/gen_interleave.py -o ");
    generate.append(yaml.as_str());
    generate.append(" -a ");
    push_decimal(&mut generate, start as u64);
    push_run(&mut steps, generate);
    let mut daemon = String::from_str("sudo ");
    daemon.append(damo.as_str());
    daemon.append("/damo start ");
    daemon.append(yaml.as_str());
    push_run(&mut steps, daemon);
    let mut pin = String::from_str("sudo taskset -cp ");
    pin.append(cores);
    pin.append(" $(pgrep kdamond)");
    push_run(&mut steps, pin);
    push_all(&mut steps, weights_steps(100, 0));
    push_run(&mut steps, write_number_command(0, "/proc/sys/kernel/numa_balancing"));
    let mut control = String::from_str("sudo ");
    let tools = site.workspace_path("tools/");
    control.append(tools.as_str());
    control.append("/");
    control.append(if total_bw { "cipp_total_bw" } else { "cipp" });
    control.append(" 100 6000 30000 > ");
    control.append(series);
    push_spawn(&mut steps, control);
    steps
}

/// The balancing mode of the first kernel strategy.
pub const TPP_MODE: u64 = 2;

/// The balancing mode of the second kernel strategy.
pub const COLLOID_MODE: u64 = 6;

/// The steps that set up `strategy` for `workloads` workloads, or why there are none.
/// The per-mount strategy is refused unless it has exactly one ratio for each
/// workload; the adaptive controller is refused where the start of the remote memory
/// is not known; so is the latency tool, which needs a thread of the remote node too.
pub open spec fn strategy_plan(
    strategy: StrategyView,
    memlat: bool,
    site: Site,
    names: Names,
    workloads: nat,
    cores: Seq<char>,
    start: Option<usize>,
    monitor: Option<usize>,
) -> Result<Seq<StepView>, PlanError> {
    match strategy {
        StrategyView::Tpp => Ok(balancing_plan(site, TPP_MODE as nat)),
        StrategyView::Colloid => if memlat {
            if start is None {
                Err(PlanError::MissingRemoteStart)
            } else if monitor is None {
                Err(PlanError::MissingMonitorCore)
            } else {
                Ok(
                    latency_plan(site, site.result(names.latency@), Some((monitor->0, start->0)))
                        + balancing_plan(site, COLLOID_MODE as nat),
                )
            }
        } else {
            Ok(
                latency_plan(site, site.result(names.latency@), None) + balancing_plan(
                    site,
                    COLLOID_MODE as nat,
                ),
            )
        },
        StrategyView::Bwmfs { ratios } => if ratios.len() != workloads {
            Err(
                PlanError::RatioCountMismatch {
                    workloads: workloads as usize,
                    ratios: ratios.len() as usize,
                },
            )
        } else {
            Ok(bandwidth_fs_plan(site, ratios))
        },
        StrategyView::Numactl { local, remote } => Ok(weights_plan(local as nat, remote as nat)),
        StrategyView::Cipp { total_bw } => match start {
            None => Err(PlanError::MissingRemoteStart),
            Some(s) => Ok(controller_plan(site, total_bw, s, cores, site.result(names.controller@))),
        },
        StrategyView::Linux => Ok(Seq::empty()),
    }
}

/// Plans the set-up of the tiering strategy. `cores` lists every thread of the local
/// node, `start` is the address at which the remote memory begins and `monitor` a
/// thread of the remote node, each where it is known.
pub fn strategy_steps(
    strategy: &Strategy,
    memlat: bool,
    site: &Site,
    names: &Names,
    workloads: usize,
    cores: &str,
    start: Option<usize>,
    monitor: Option<usize>,
) -> (r: Result<Vec<Step>, PlanError>)
    ensures
        match r {
            Ok(steps) => strategy_plan(
                strategy@,
                memlat,
                *site,
                *names,
                workloads as nat,
                cores@,
                start,
                monitor,
            ) == Ok::<Seq<StepView>, PlanError>(step_views(steps@)),
            Err(e) => strategy_plan(
                strategy@,
                memlat,
                *site,
                *names,
                workloads as nat,
                cores@,
                start,
                monitor,
            ) == Err::<Seq<StepView>, PlanError>(e),
        },
{
    match strategy {
        Strategy::Tpp => Ok(balancing_steps(site, TPP_MODE)),
        Strategy::Colloid => {
            let tool: Option<(usize, usize)> = if memlat {
                match (start, monitor) {
                    (None, _) => {
                        return Err(PlanError::MissingRemoteStart);
                    },
                    (Some(_), None) => {
                        return Err(PlanError::MissingMonitorCore);
                    },
                    (Some(s), Some(m)) => Some((m, s)),
                }
            } else {
                None
            };
            let file = site.result_path(names.latency.as_str());
            let mut steps = latency_steps(site, file.as_str(), tool);
            push_all(&mut steps, balancing_steps(site, COLLOID_MODE));
            Ok(steps)
        },
        Strategy::Bwmfs { ratios } => {
            if ratios.len() != workloads {
                return Err(PlanError::RatioCountMismatch { workloads, ratios: ratios.len() });
            }
            Ok(bandwidth_fs_steps(site, ratios))
        },
        Strategy::Numactl { local, remote } => Ok(weights_steps(*local as u64, *remote as u64)),
        Strategy::Cipp { total_bw } => match start {
            None => Err(PlanError::MissingRemoteStart),
            Some(s) => {
                let series = site.result_path(names.controller.as_str());
                Ok(controller_steps(site, *total_bw, s, cores, series.as_str()))
            },
        },
        Strategy::Linux => Ok(no_steps()),
    }
}

/// However the ratios and the workloads are counted, the per-mount strategy hands out
/// no step, and so mounts nothing, unless there is exactly one ratio for each workload.
pub proof fn lemma_ratio_mismatch_mounts_nothing(
    ratios: Seq<(usize, usize)>,
    memlat: bool,
    site: Site,
    names: Names,
    workloads: nat,
    cores: Seq<char>,
    start: Option<usize>,
    monitor: Option<usize>,
)
    requires
        ratios.len() != workloads,
    ensures
        strategy_plan(
            StrategyView::Bwmfs { ratios },
            memlat,
            site,
            names,
            workloads,
            cores,
            start,
            monitor,
        ) is Err,
{
}

} // verus!

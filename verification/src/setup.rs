//! Setting a fresh machine up for experiments: which parts of the set-up are done, and
//! the commands of the parts that are commands only.

use vstd::prelude::*;
use vstd::string::StringExecFns;
use crate::shell::{
    join_path, no_steps, path, plain, push_run, push_run_in, running, running_in, step_views, Command,
    Step, StepView,
};
use crate::site::Site;

verus! {

/// A part of the set-up of a machine.
#[derive(Debug, Clone, Copy, PartialEq, Eq, Structural)]
pub enum SetupPart {
    /// Install the packages that the experiments depend on.
    Packages,
    /// Install the Rust toolchain.
    Rust,
    /// Let the root partition take the whole device.
    Devices,
    /// Clone the workspace and build its tools.
    Workspace,
    /// Build the benchmarks.
    Benchmarks,
    /// Say that the set-up is done.
    Done,
}

/// The parts of the set-up that were asked for, in the order in which they are done.
/// The toolchain goes with the packages, and the last word is always said.
pub open spec fn setup_plan(
    host_dep: bool,
    resize_root: bool,
    clone_wkspc: bool,
    host_bmks: bool,
) -> Seq<SetupPart> {
    (if host_dep {
        seq![SetupPart::Packages, SetupPart::Rust]
    } else {
        Seq::empty()
    }) + (if resize_root {
        seq![SetupPart::Devices]
    } else {
        Seq::empty()
    }) + (if clone_wkspc {
        seq![SetupPart::Workspace]
    } else {
        Seq::empty()
    }) + (if host_bmks {
        seq![SetupPart::Benchmarks]
    } else {
        Seq::empty()
    }) + seq![SetupPart::Done]
}

/// Lists the parts of the set-up that were asked for.
pub fn setup_parts(host_dep: bool, resize_root: bool, clone_wkspc: bool, host_bmks: bool) -> (r:
    Vec<SetupPart>)
    ensures
        r@ == setup_plan(host_dep, resize_root, clone_wkspc, host_bmks),
{
    let mut r: Vec<SetupPart> = Vec::new();
    if host_dep {
        r.push(SetupPart::Packages);
        r.push(SetupPart::Rust);
    }
    if resize_root {
        r.push(SetupPart::Devices);
    }
    if clone_wkspc {
        r.push(SetupPart::Workspace);
    }
    if host_bmks {
        r.push(SetupPart::Benchmarks);
    }
    r.push(SetupPart::Done);
    r
}

/// The command that brings the installed packages up to date.
pub open spec fn update_text() -> Seq<char> {
    "sudo apt update; sudo apt upgrade -y"@
}

/// The command that says that the set-up is done.
pub open spec fn done_text() -> Seq<char> {
    "echo DONE"@
}

/// Gives the command that brings the installed packages up to date.
pub fn update_command() -> (r: Command)
    ensures
        r@ == plain(update_text()),
{
    Command::new(String::from_str("sudo apt update; sudo apt upgrade -y"))
}

/// Gives the command that says that the set-up is done.
pub fn done_command() -> (r: Command)
    ensures
        r@ == plain(done_text()),
{
    Command::new(String::from_str("echo DONE"))
}

/// The step that takes every swap partition out of the table of file systems, so that
/// no boot waits for one that is gone.
pub open spec fn swap_plan() -> Seq<StepView> {
    seq![running("sudo sed -i 's/^.*swap.*$/#& # COMMENTED OUT BY setup_wkspc/' /etc/fstab"@)]
}

/// Plans the removal of the swap partitions from the table of file systems.
pub fn swap_steps() -> (r: Vec<Step>)
    ensures
        step_views(r@) == swap_plan(),
{
    let mut steps = no_steps();
    push_run(
        &mut steps,
        String::from_str("sudo sed -i 's/^.*swap.*$/#& # COMMENTED OUT BY setup_wkspc/' /etc/fstab"),
    );
    steps
}

/// The steps that build the tools of the workspace once it is cloned.
pub open spec fn tools_plan(site: Site) -> Seq<StepView> {
    seq![
        running_in("cd tools/; make ARCH=haswell;"@, path(site.home@, site.workspace@)),
        running_in("cd numactl; ./autogen.sh; ./configure; make"@, path(site.home@, site.workspace@)),
    ]
}

/// Plans the building of the workspace's tools.
pub fn tools_steps(site: &Site) -> (r: Vec<Step>)
    ensures
        step_views(r@) == tools_plan(*site),
{
    let mut steps = no_steps();
    let dir = site.home_path(site.workspace.as_str());
    push_run_in(&mut steps, String::from_str("cd tools/; make ARCH=haswell;"), dir.as_str());
    push_run_in(
        &mut steps,
        String::from_str("cd numactl; ./autogen.sh; ./configure; make"),
        dir.as_str(),
    );
    steps
}

/// The steps that build the benchmarks. The data set of the embedding benchmark and
/// the graphs take long and are left out where a quick set-up was asked for.
pub open spec fn benchmarks_plan(site: Site, skip_slow: bool) -> Seq<StepView> {
    seq![running_in("make"@, site.in_workloads("gapbs"@))] + (if skip_slow {
        Seq::empty()
    } else {
        seq![
            running_in("./setup_merci_books.sh"@, site.in_workloads("MERCI"@)),
            running_in("make bench-graphs"@, site.in_workloads("gapbs"@)),
        ]
    }) + seq![
        running_in("make"@, site.in_workloads("redis"@)),
        running_in(
            "mvn -pl site.ycsb:redis-binding -am clean package"@,
            site.in_workloads("YCSB"@),
        ),
        running_in("make"@, site.in_workloads("gups_hemem"@)),
        running_in("cmake -Bbuild -H. -DMODEL=omp"@, site.in_workloads("CloverLeaf"@)),
        running_in("cmake --build build"@, site.in_workloads("CloverLeaf"@)),
        running_in("make"@, site.in_workloads("stream"@)),
        running("mkdir -p "@ + site.in_workspace("quartz/build"@)),
        running_in("cmake .."@, site.in_workspace("quartz/build"@)),
    ]
}

/// Plans the building of the benchmarks.
pub fn benchmarks_steps(site: &Site, skip_slow: bool) -> (r: Vec<Step>)
    ensures
        step_views(r@) == benchmarks_plan(*site, skip_slow),
{
    let mut steps = no_steps();
    let gapbs = site.workload_path("gapbs");
    push_run_in(&mut steps, String::from_str("make"), gapbs.as_str());
    if !skip_slow {
        let merci = site.workload_path("MERCI");
        push_run_in(&mut steps, String::from_str("./setup_merci_books.sh"), merci.as_str());
        push_run_in(&mut steps, String::from_str("make bench-graphs"), gapbs.as_str());
    }
    let redis = site.workload_path("redis");
    push_run_in(&mut steps, String::from_str("make"), redis.as_str());
    let ycsb = site.workload_path("YCSB");
    push_run_in(
        &mut steps,
        String::from_str("mvn -pl site.ycsb:redis-binding -am clean package"),
        ycsb.as_str(),
    );
    let gups = site.workload_path("gups_hemem");
    push_run_in(&mut steps, String::from_str("make"), gups.as_str());
    let clover = site.workload_path("CloverLeaf");
    push_run_in(&mut steps, String::from_str("cmake -Bbuild -H. -DMODEL=omp"), clover.as_str());
    push_run_in(&mut steps, String::from_str("cmake --build build"), clover.as_str());
    let stream = site.workload_path("stream");
    push_run_in(&mut steps, String::from_str("make"), stream.as_str());
    let quartz = site.workspace_path("quartz/build");
    let mut make = String::from_str("mkdir -p ");
    make.append(quartz.as_str());
    push_run(&mut steps, make);
    push_run_in(&mut steps, String::from_str("cmake .."), quartz.as_str());
    steps
}

/// The branch of the kernel that is built where none is named.
pub open spec fn default_branch_name(colloid: bool) -> Seq<char> {
    if colloid {
        "master"@
    } else {
        "main"@
    }
}

/// Gives the branch of the kernel that is built where none is named.
pub fn default_branch(colloid: bool) -> (r: &'static str)
    ensures
        r@ == default_branch_name(colloid),
{
    if colloid {
        "master"
    } else {
        "main"
    }
}

/// The steps that put a kernel that was built in place: install its two packages, make
/// it the one that boots, and, where it was asked for, build the profiler that goes
/// with it and link it into the path.
pub open spec fn kernel_install_plan(
    kernel: Seq<char>,
    package: Seq<char>,
    headers: Seq<char>,
    install_perf: bool,
) -> Seq<StepView> {
    seq![
        running_in("sudo dpkg -i "@ + package + " "@ + headers, kernel),
        running("sudo grub-set-default 0"@),
    ] + (if install_perf {
        seq![
            running_in("make"@, path(kernel, "tools/perf/"@)),
            running("sudo rm -f /usr/bin/perf"@),
            running("sudo ln -s "@ + path(kernel, "tools/perf/"@) + "/perf /usr/bin/perf"@),
        ]
    } else {
        Seq::empty()
    })
}

/// Plans the putting in place of a kernel that was built in the directory `kernel`.
pub fn kernel_install_steps(kernel: &str, package: &str, headers: &str, install_perf: bool) -> (r:
    Vec<Step>)
    ensures
        step_views(r@) == kernel_install_plan(kernel@, package@, headers@, install_perf),
{
    let mut steps = no_steps();
    let mut install = String::from_str("sudo dpkg -i ");
    install.append(package);
    install.append(" ");
    install.append(headers);
    push_run_in(&mut steps, install, kernel);
    push_run(&mut steps, String::from_str("sudo grub-set-default 0"));
    if install_perf {
        let perf = join_path(kernel, "tools/perf/");
        push_run_in(&mut steps, String::from_str("make"), perf.as_str());
        push_run(&mut steps, String::from_str("sudo rm -f /usr/bin/perf"));
        let mut link = String::from_str("sudo ln -s ");
        link.append(perf.as_str());
        link.append("/perf /usr/bin/perf");
        push_run(&mut steps, link);
    }
    steps
}

} // verus!

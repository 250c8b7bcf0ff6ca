//! Where things are on the remote host, and what the files of one run are called.

use vstd::prelude::*;
use crate::shell::{join_path, path};

verus! {

/// The directories of the remote host that a run works in. All but `home` are relative
/// to `home`.
#[derive(Debug, Clone, PartialEq, Eq)]
pub struct Site {
    /// The home directory of the user on the remote host.
    pub home: String,
    /// Where results are kept.
    pub results: String,
    /// Where the kernel's source lies.
    pub kernel: String,
    /// Where the workspace with its tools lies.
    pub workspace: String,
    /// Where the benchmarks lie.
    pub workloads: String,
}

impl Site {
    /// The path of `name` below the home directory.
    pub open spec fn in_home(&self, name: Seq<char>) -> Seq<char> {
        path(self.home@, name)
    }

    /// The directory in which results are kept.
    pub open spec fn results_dir(&self) -> Seq<char> {
        path(self.home@, self.results@)
    }

    /// The path of the result file `name`.
    pub open spec fn result(&self, name: Seq<char>) -> Seq<char> {
        path(self.results_dir(), name)
    }

    /// The directory of the kernel's source.
    pub open spec fn kernel_dir(&self) -> Seq<char> {
        path(self.home@, self.kernel@)
    }

    /// The path of `name` in the kernel's source.
    pub open spec fn in_kernel(&self, name: Seq<char>) -> Seq<char> {
        path(self.kernel_dir(), name)
    }

    /// The path of `name` in the workspace.
    pub open spec fn in_workspace(&self, name: Seq<char>) -> Seq<char> {
        path(path(self.home@, self.workspace@), name)
    }

    /// The path of `name` among the benchmarks.
    pub open spec fn in_workloads(&self, name: Seq<char>) -> Seq<char> {
        path(path(self.home@, self.workloads@), name)
    }

    /// The directory of the workspace's tools.
    pub open spec fn tools_dir(&self) -> Seq<char> {
        self.in_workspace("tools/"@)
    }

    /// The directory of the interleaving launcher.
    pub open spec fn numactl_dir(&self) -> Seq<char> {
        self.in_workspace("numactl/"@)
    }

    /// The directory of the bandwidth emulator.
    pub open spec fn quartz_dir(&self) -> Seq<char> {
        self.in_workspace("quartz/"@)
    }

    /// The directory of the adaptive controller's daemon.
    pub open spec fn damo_dir(&self) -> Seq<char> {
        self.in_home("damo"@)
    }

    /// Writes the path of `name` below the home directory.
    pub fn home_path(&self, name: &str) -> (r: String)
        ensures
            r@ == self.in_home(name@),
    {
        join_path(self.home.as_str(), name)
    }

    /// Writes the directory in which results are kept.
    pub fn results_path(&self) -> (r: String)
        ensures
            r@ == self.results_dir(),
    {
        join_path(self.home.as_str(), self.results.as_str())
    }

    /// Writes the path of the result file `name`.
    pub fn result_path(&self, name: &str) -> (r: String)
        ensures
            r@ == self.result(name@),
    {
        let dir = self.results_path();
        join_path(dir.as_str(), name)
    }

    /// Writes the directory of the kernel's source.
    pub fn kernel_path(&self) -> (r: String)
        ensures
            r@ == self.kernel_dir(),
    {
        join_path(self.home.as_str(), self.kernel.as_str())
    }

    /// Writes the path of `name` in the kernel's source.
    pub fn kernel_file(&self, name: &str) -> (r: String)
        ensures
            r@ == self.in_kernel(name@),
    {
        let dir = self.kernel_path();
        join_path(dir.as_str(), name)
    }

    /// Writes the path of `name` in the workspace.
    pub fn workspace_path(&self, name: &str) -> (r: String)
        ensures
            r@ == self.in_workspace(name@),
    {
        let dir = join_path(self.home.as_str(), self.workspace.as_str());
        join_path(dir.as_str(), name)
    }

    /// Writes the path of `name` among the benchmarks.
    pub fn workload_path(&self, name: &str) -> (r: String)
        ensures
            r@ == self.in_workloads(name@),
    {
        let dir = join_path(self.home.as_str(), self.workloads.as_str());
        join_path(dir.as_str(), name)
    }
}

/// The names of the files that one run leaves in the results directory.
#[derive(Debug, Clone, PartialEq, Eq)]
pub struct Names {
    /// The manifest with the run's configuration.
    pub params: String,
    pub perf_stat: String,
    pub flame_graph: String,
    /// The latency samples.
    pub latency: String,
    /// The time series of the adaptive controller.
    pub controller: String,
    pub bwmon: String,
    /// The file of the embedding benchmark. A workload writes into the file of its
    /// kind; a delayed one, or one that would share the file with a workload before
    /// it, writes into a file that is called after it.
    pub merci: String,
    /// The file of the graph benchmarks.
    pub gapbs: String,
    /// The file of the random-access benchmark.
    pub gups: String,
    /// The file of the hydrodynamics benchmark.
    pub clover: String,
    /// The file of the key-value store's client.
    pub ycsb: String,
    /// The file of the streaming benchmark.
    pub stream: String,
    /// The file of the benchmarks of the processor suite.
    pub spec: String,
    pub vmstat: String,
    pub pgmigrate: String,
    pub damo_status: String,
    /// The stem of the files with the memory breakdown, one for each workload.
    pub meminfo: String,
    /// The stem of the timing files, one for each workload.
    pub time: String,
    /// What the whole run is called.
    pub run: String,
}

} // verus!

//! What an experiment consists of: its workloads, its tiering strategy and its throttle.

use vstd::prelude::*;

verus! {

/// One benchmark instance and its parameters.
#[allow(inconsistent_fields)]
#[derive(Copy, Clone, Debug, PartialEq, Eq)]
pub enum Workload {
    /// The embedding benchmark: `runs` iterations on `cores` cores, or on an equal share
    /// of the node, started after `delay` seconds where a delay is given.
    Merci { runs: u64, cores: Option<usize>, delay: Option<u64> },
    /// Triangle counting on a graph, `runs` times.
    GapbsTc { runs: u64 },
    /// Page rank on a graph, `runs` times.
    GapbsPr { runs: u64 },
    /// Random updates: `num_updates` of them by `threads` threads on two to the `exp`
    /// bytes, of which two to the `hot_exp` are hot.
    Gups { threads: usize, exp: usize, hot_exp: usize, num_updates: usize },
    /// The hydrodynamics benchmark on `threads` threads, started after `delay` seconds
    /// where a delay is given.
    CloverLeaf { threads: usize, delay: Option<usize> },
    /// The key-value store with a server of `server_size_mb` MB and a client that makes
    /// `op_count` reads. The data is loaded before any workload starts or when the
    /// store's turn comes.
    Redis { server_size_mb: usize, op_count: usize, load_before_wklds: bool },
    /// The streaming benchmark.
    Stream,
    /// The fluid dynamics benchmark of the processor suite on `threads` threads.
    SpecBwaves { threads: usize },
    /// The lattice benchmark of the processor suite on `threads` threads.
    SpecLbm { threads: usize },
}

/// How memory is placed between the local and the remote node.
#[derive(Clone, Debug, PartialEq, Eq)]
pub enum Strategy {
    /// The kernel balances between the nodes by itself, in its first mode.
    Tpp,
    /// The kernel balances between the nodes by itself, in its second mode, which
    /// follows the latency of the nodes.
    Colloid,
    /// Each workload has a file system of its own with a ratio of local to remote
    /// bandwidth.
    Bwmfs { ratios: Vec<(usize, usize)> },
    /// Pages are interleaved over the nodes by fixed weights.
    Numactl { local: usize, remote: usize },
    /// Pages are interleaved by weights that a controller adapts to the bandwidth it
    /// observes: that of each node, or the total.
    Cipp { total_bw: bool },
    /// The baseline: memory of the local node is preferred.
    Linux,
}

/// A strategy as plain values.
pub enum StrategyView {
    Tpp,
    Colloid,
    Bwmfs { ratios: Seq<(usize, usize)> },
    Numactl { local: usize, remote: usize },
    Cipp { total_bw: bool },
    Linux,
}

impl View for Strategy {
    type V = StrategyView;

    open spec fn view(&self) -> StrategyView {
        match self {
            Strategy::Tpp => StrategyView::Tpp,
            Strategy::Colloid => StrategyView::Colloid,
            Strategy::Bwmfs { ratios } => StrategyView::Bwmfs { ratios: ratios@ },
            Strategy::Numactl { local, remote } => StrategyView::Numactl {
                local: *local,
                remote: *remote,
            },
            Strategy::Cipp { total_bw } => StrategyView::Cipp { total_bw: *total_bw },
            Strategy::Linux => StrategyView::Linux,
        }
    }
}

/// How memory bandwidth is limited.
#[derive(Copy, Clone, Debug, PartialEq, Eq)]
pub enum ThrottleType {
    /// The software emulator limits the bandwidth to `bw` MB/s.
    Quartz { bw: u64 },
    /// The hardware register that limits the uncore frequency is written.
    Msr,
    /// No limit.
    Native,
}

/// Everything that one run is made from.
#[derive(Debug, Clone, PartialEq, Eq)]
pub struct Config {
    pub exp: String,
    pub workloads: Vec<Workload>,
    pub strategy: Strategy,
    pub kill_after_first_done: bool,
    pub perf_stat: bool,
    pub perf_counters: Vec<String>,
    pub disable_thp: bool,
    pub disable_aslr: bool,
    pub flame_graph: bool,
    pub bwmon: bool,
    pub meminfo: bool,
    pub memlat: bool,
    pub time: bool,
    pub throttle: ThrottleType,
}

/// A configuration as plain values.
pub struct ConfigView {
    pub exp: Seq<char>,
    pub workloads: Seq<Workload>,
    pub strategy: StrategyView,
    pub kill_after_first_done: bool,
    pub perf_stat: bool,
    pub perf_counters: Seq<Seq<char>>,
    pub disable_thp: bool,
    pub disable_aslr: bool,
    pub flame_graph: bool,
    pub bwmon: bool,
    pub meminfo: bool,
    pub memlat: bool,
    pub time: bool,
    pub throttle: ThrottleType,
}

impl View for Config {
    type V = ConfigView;

    open spec fn view(&self) -> ConfigView {
        ConfigView {
            exp: self.exp@,
            workloads: self.workloads@,
            strategy: self.strategy@,
            kill_after_first_done: self.kill_after_first_done,
            perf_stat: self.perf_stat,
            perf_counters: self.perf_counters@.map_values(|c: String| c@),
            disable_thp: self.disable_thp,
            disable_aslr: self.disable_aslr,
            flame_graph: self.flame_graph,
            bwmon: self.bwmon,
            meminfo: self.meminfo,
            memlat: self.memlat,
            time: self.time,
            throttle: self.throttle,
        }
    }
}

/// The name of the process that runs `w` on the remote host.
pub open spec fn process_name(w: Workload) -> Seq<char> {
    match w {
        Workload::Merci { .. } => "eval_baseline"@,
        Workload::GapbsTc { .. } => "tc"@,
        Workload::GapbsPr { .. } => "pr"@,
        Workload::Gups { .. } => "gups-hotset-mov"@,
        Workload::CloverLeaf { .. } => "omp-cloverleaf"@,
        Workload::Redis { .. } => "redis-server"@,
        Workload::Stream => "stream"@,
        Workload::SpecBwaves { .. } => "speed_bwaves_ba"@,
        Workload::SpecLbm { .. } => "lbm_s_base.mark"@,
    }
}

/// Gives the name of the process that runs `w` on the remote host.
pub fn proc_name(w: &Workload) -> (r: &'static str)
    ensures
        r@ == process_name(*w),
{
    match w {
        Workload::Merci { .. } => "eval_baseline",
        Workload::GapbsTc { .. } => "tc",
        Workload::GapbsPr { .. } => "pr",
        Workload::Gups { .. } => "gups-hotset-mov",
        Workload::CloverLeaf { .. } => "omp-cloverleaf",
        Workload::Redis { .. } => "redis-server",
        Workload::Stream => "stream",
        Workload::SpecBwaves { .. } => "speed_bwaves_ba",
        Workload::SpecLbm { .. } => "lbm_s_base.mark",
    }
}

/// An equal share of `threads` for each of `workloads` workloads.
pub open spec fn equal_share(threads: usize, workloads: nat) -> usize {
    if workloads == 0 {
        0
    } else {
        (threads as nat / workloads) as usize
    }
}

/// The threads that `w` asks for: what it names, or else an equal share; a key-value
/// store always takes four, which are two cores for the server and the client.
pub open spec fn demand(w: Workload, share: usize) -> usize {
    match w {
        Workload::Merci { cores, .. } => match cores {
            Some(c) => c,
            None => share,
        },
        Workload::GapbsTc { .. } => share,
        Workload::GapbsPr { .. } => share,
        Workload::Gups { threads, .. } => threads,
        Workload::CloverLeaf { threads, .. } => threads,
        Workload::Redis { .. } => 4,
        Workload::Stream => share,
        Workload::SpecBwaves { threads } => threads,
        Workload::SpecLbm { threads } => threads,
    }
}

/// The threads that each of `workloads` asks for, in order.
pub open spec fn demands(workloads: Seq<Workload>, threads: usize) -> Seq<usize> {
    workloads.map_values(|w: Workload| demand(w, equal_share(threads, workloads.len())))
}

/// Computes the threads that each of `workloads` asks for, where the node has `threads`.
pub fn thread_demands(workloads: &Vec<Workload>, threads: usize) -> (r: Vec<usize>)
    ensures
        r@ == demands(workloads@, threads),
{
    let n = workloads.len();
    let share: usize = if n == 0 {
        0
    } else {
        threads / n
    };
    let mut r: Vec<usize> = Vec::new();
    let mut i: usize = 0;
    while i < n
        invariant
            i <= n,
            n == workloads.len(),
            share == equal_share(threads, n as nat),
            r@ == demands(workloads@, threads).take(i as int),
        decreases n - i,
    {
        let d = match workloads[i] {
            Workload::Merci { cores, .. } => match cores {
                Some(c) => c,
                None => share,
            },
            Workload::GapbsTc { .. } => share,
            Workload::GapbsPr { .. } => share,
            Workload::Gups { threads, .. } => threads,
            Workload::CloverLeaf { threads, .. } => threads,
            Workload::Redis { .. } => 4,
            Workload::Stream => share,
            Workload::SpecBwaves { threads } => threads,
            Workload::SpecLbm { threads } => threads,
        };
        r.push(d);
        i = i + 1;
    }
    r
}

} // verus!

//! From what was asked for on the command line to a validated configuration.

use vstd::prelude::*;
use vstd::arithmetic::power2::{pow2, lemma_pow2_unfold, lemma_pow2_strictly_increases, lemma2_to64};
use vstd::string::StringExecFns;
use crate::config::{Config, ConfigView, Strategy, StrategyView, ThrottleType, Workload};
use crate::text::{fields, parse_usize, parsed_usize, split_fields, texts, to_chars};

verus! {

/// Why no configuration was built.
#[derive(Debug, Clone, Copy, PartialEq, Eq)]
pub enum ConfigError {
    /// More than one tiering strategy was selected.
    ConflictingStrategies,
    /// More than one throttle was selected.
    ConflictingThrottles,
    /// An option was given without the option that it belongs to.
    MissingRequirement,
    /// A ratio is not of the form `<local weight>:<remote weight>`.
    MalformedRatio,
    /// A number is too large to work with.
    OutOfRange,
    /// The bandwidth ratios are not one for each workload.
    RatioCountMismatch { workloads: usize, ratios: usize },
}

/// The experiment that was selected, with the arguments as they were given.
#[allow(inconsistent_fields)]
#[derive(Debug, Clone, Copy, PartialEq, Eq)]
pub enum Selection {
    Merci { runs: Option<u64>, threads: Option<usize> },
    GapbsTc { runs: Option<u64> },
    GapbsPr { runs: Option<u64> },
    Gups { threads: Option<usize>, exp: usize, hot_exp: usize, updates: Option<usize> },
    Clover { threads: Option<usize> },
    /// The key-value store; `server_size` is in GB.
    Redis { server_size: usize, op_count: usize },
    Stream,
    Bwaves { threads: Option<usize> },
    Lbm { threads: Option<usize> },
    /// Triangle counting beside the embedding benchmark, which runs a hundred times
    /// as often.
    MerciTc { runs: Option<u64> },
    /// Two instances of the embedding benchmark, the second after `delay` seconds.
    DoubleMerci { runs: Option<u64>, cores: Option<usize>, delay: Option<u64> },
    /// Two instances of the hydrodynamics benchmark, the second after `delay` seconds.
    DoubleClover { threads: Option<usize>, delay: Option<usize> },
    /// Random updates by two threads beside the key-value store.
    GupsRedis { server_size: usize, op_count: usize, exp: usize, hot_exp: usize },
}

/// The options that hold for every experiment, as they were given.
#[derive(Debug, Clone, PartialEq, Eq)]
pub struct Options {
    pub perf_stat: bool,
    pub perf_counters: Vec<String>,
    pub disable_thp: bool,
    pub disable_aslr: bool,
    pub tpp: bool,
    pub colloid: bool,
    pub bwmfs: Vec<String>,
    pub numactl: Option<String>,
    pub cipp: bool,
    pub cipp_total_bw: bool,
    pub memlat: bool,
    pub flame_graph: bool,
    pub bwmon: bool,
    pub meminfo: bool,
    pub time: bool,
    pub quartz: Option<u64>,
    pub msr_throttle: bool,
}

/// The options as plain values.
pub struct OptionsView {
    pub perf_stat: bool,
    pub perf_counters: Seq<Seq<char>>,
    pub disable_thp: bool,
    pub disable_aslr: bool,
    pub tpp: bool,
    pub colloid: bool,
    pub bwmfs: Seq<Seq<char>>,
    pub numactl: Option<Seq<char>>,
    pub cipp: bool,
    pub cipp_total_bw: bool,
    pub memlat: bool,
    pub flame_graph: bool,
    pub bwmon: bool,
    pub meminfo: bool,
    pub time: bool,
    pub quartz: Option<u64>,
    pub msr_throttle: bool,
}

impl View for Options {
    type V = OptionsView;

    open spec fn view(&self) -> OptionsView {
        OptionsView {
            perf_stat: self.perf_stat,
            perf_counters: self.perf_counters@.map_values(|c: String| c@),
            disable_thp: self.disable_thp,
            disable_aslr: self.disable_aslr,
            tpp: self.tpp,
            colloid: self.colloid,
            bwmfs: self.bwmfs@.map_values(|c: String| c@),
            numactl: match self.numactl {
                Some(r) => Some(r@),
                None => None,
            },
            cipp: self.cipp,
            cipp_total_bw: self.cipp_total_bw,
            memlat: self.memlat,
            flame_graph: self.flame_graph,
            bwmon: self.bwmon,
            meminfo: self.meminfo,
            time: self.time,
            quartz: self.quartz,
            msr_throttle: self.msr_throttle,
        }
    }
}

/// The weights that the text `<local weight>:<remote weight>` names.
pub open spec fn ratio_of(s: Seq<char>) -> Option<(usize, usize)> {
    let f = fields(s, ':');
    if f.len() == 2 && parsed_usize(f[0]) is Some && parsed_usize(f[1]) is Some {
        Some((parsed_usize(f[0])->0, parsed_usize(f[1])->0))
    } else {
        None
    }
}

/// Reads a ratio of the form `<local weight>:<remote weight>`.
pub fn parse_ratio(text: &str) -> (r: Result<(usize, usize), ConfigError>)
    ensures
        match r {
            Ok(p) => ratio_of(text@) == Some(p),
            Err(e) => ratio_of(text@) is None && e == ConfigError::MalformedRatio,
        },
{
    let chars = to_chars(text);
    let parts = split_fields(&chars, ':');
    if parts.len() != 2 {
        return Err(ConfigError::MalformedRatio);
    }
    match (parse_usize(&parts[0]), parse_usize(&parts[1])) {
        (Some(local), Some(remote)) => Ok((local, remote)),
        _ => Err(ConfigError::MalformedRatio),
    }
}

/// The weights that each of `texts` names, where each of them names a ratio.
pub open spec fn ratios_of(texts: Seq<Seq<char>>) -> Option<Seq<(usize, usize)>> {
    if forall|i: int| 0 <= i < texts.len() ==> ratio_of(#[trigger] texts[i]) is Some {
        Some(Seq::new(texts.len(), |i: int| ratio_of(texts[i])->0))
    } else {
        None
    }
}

/// Reads a list of ratios.
pub fn parse_ratios(list: &Vec<String>) -> (r: Result<Vec<(usize, usize)>, ConfigError>)
    ensures
        match r {
            Ok(v) => ratios_of(list@.map_values(|c: String| c@)) == Some(v@),
            Err(e) => ratios_of(list@.map_values(|c: String| c@)) is None && e
                == ConfigError::MalformedRatio,
        },
{
    let ghost all = list@.map_values(|c: String| c@);
    let n = list.len();
    let mut v: Vec<(usize, usize)> = Vec::new();
    let mut i: usize = 0;
    while i < n
        invariant
            i <= n,
            n == list.len(),
            all == list@.map_values(|c: String| c@),
            v.len() == i,
            forall|j: int| 0 <= j < i ==> ratio_of(#[trigger] all[j]) == Some(v@[j]),
        decreases n - i,
    {
        match parse_ratio(list[i].as_str()) {
            Ok(p) => {
                v.push(p);
            },
            Err(e) => {
                assert(ratio_of(all[i as int]) is None);
                return Err(e);
            },
        }
        i = i + 1;
    }
    Ok(v)
}

/// How many tiering strategies `o` selects.
pub open spec fn strategies_chosen(o: OptionsView) -> nat {
    (if o.tpp { 1nat } else { 0 }) + (if o.colloid { 1nat } else { 0 }) + (if o.bwmfs.len() > 0 { 1nat } else { 0 })
        + (if o.numactl is Some { 1nat } else { 0 }) + (if o.cipp { 1nat } else { 0 })
}

/// Whether `o` holds an option without the option that it belongs to.
pub open spec fn requirement_missing(o: OptionsView) -> bool {
    ||| o.cipp_total_bw && !o.cipp
    ||| o.memlat && !o.colloid
    ||| o.perf_counters.len() > 0 && !o.perf_stat
}

/// The strategy that `o` selects, where it selects at most one and its ratios are
/// well formed: the kernel's own placement where it selects none.
pub open spec fn strategy_of(o: OptionsView) -> StrategyView {
    if o.tpp {
        StrategyView::Tpp
    } else if o.colloid {
        StrategyView::Colloid
    } else if o.bwmfs.len() != 0 {
        StrategyView::Bwmfs { ratios: ratios_of(o.bwmfs)->0 }
    } else if o.numactl is Some {
        match ratio_of(o.numactl->0) {
            Some((local, remote)) => StrategyView::Numactl { local, remote },
            None => StrategyView::Linux,
        }
    } else if o.cipp {
        StrategyView::Cipp { total_bw: o.cipp_total_bw }
    } else {
        StrategyView::Linux
    }
}

/// The throttle that `o` selects, where it selects at most one.
pub open spec fn throttle_of(o: OptionsView) -> ThrottleType {
    match o.quartz {
        Some(bw) => ThrottleType::Quartz { bw },
        None => if o.msr_throttle {
            ThrottleType::Msr
        } else {
            ThrottleType::Native
        },
    }
}

/// The number of runs, ten where none was given.
pub open spec fn runs_or_default(runs: Option<u64>) -> u64 {
    match runs {
        Some(r) => r,
        None => 10,
    }
}

/// The number of threads, `default` where none was given.
pub open spec fn threads_or(threads: Option<usize>, default: usize) -> usize {
    match threads {
        Some(t) => t,
        None => default,
    }
}

/// The key-value store with a server of `server_size` GB.
pub open spec fn redis_of(server_size: usize, op_count: usize) -> Workload {
    Workload::Redis {
        server_size_mb: (server_size * 1024) as usize,
        op_count,
        load_before_wklds: false,
    }
}

/// The updates that the random-access benchmark makes where none are named.
pub const PAIRED_GUPS_UPDATES: u64 = 5000000000;

/// The workloads that `sel` stands for, in the order in which they are declared, and
/// whether the rest is killed when the first has finished.
pub open spec fn selected(sel: Selection) -> Result<(Seq<Workload>, bool), ConfigError> {
    match sel {
        Selection::Merci { runs, threads } => Ok(
            (seq![Workload::Merci { runs: runs_or_default(runs), cores: threads, delay: None }], true),
        ),
        Selection::GapbsTc { runs } => Ok(
            (seq![Workload::GapbsTc { runs: runs_or_default(runs) }], true),
        ),
        Selection::GapbsPr { runs } => Ok(
            (seq![Workload::GapbsPr { runs: runs_or_default(runs) }], true),
        ),
        Selection::Gups { threads, exp, hot_exp, updates } => match updates {
            Some(u) => Ok(
                (
                    seq![
                        Workload::Gups {
                            threads: threads_or(threads, 1),
                            exp,
                            hot_exp,
                            num_updates: u,
                        },
                    ],
                    true,
                ),
            ),
            None => if pow2(exp as nat) <= usize::MAX {
                Ok(
                    (
                        seq![
                            Workload::Gups {
                                threads: threads_or(threads, 1),
                                exp,
                                hot_exp,
                                num_updates: (pow2(exp as nat) / 8) as usize,
                            },
                        ],
                        true,
                    ),
                )
            } else {
                Err(ConfigError::OutOfRange)
            },
        },
        Selection::Clover { threads } => Ok(
            (seq![Workload::CloverLeaf { threads: threads_or(threads, 10), delay: None }], true),
        ),
        Selection::Redis { server_size, op_count } => if server_size * 1024 <= usize::MAX {
            Ok((seq![redis_of(server_size, op_count)], true))
        } else {
            Err(ConfigError::OutOfRange)
        },
        Selection::Stream => Ok((seq![Workload::Stream], true)),
        Selection::Bwaves { threads } => Ok(
            (seq![Workload::SpecBwaves { threads: threads_or(threads, 10) }], true),
        ),
        Selection::Lbm { threads } => Ok(
            (seq![Workload::SpecLbm { threads: threads_or(threads, 10) }], true),
        ),
        Selection::MerciTc { runs } => if 100 * runs_or_default(runs) <= u64::MAX {
            Ok(
                (
                    seq![
                        Workload::GapbsTc { runs: runs_or_default(runs) },
                        Workload::Merci {
                            runs: (100 * runs_or_default(runs)) as u64,
                            cores: None,
                            delay: None,
                        },
                    ],
                    true,
                ),
            )
        } else {
            Err(ConfigError::OutOfRange)
        },
        Selection::DoubleMerci { runs, cores, delay } => Ok(
            (
                seq![
                    Workload::Merci { runs: runs_or_default(runs), cores, delay: None },
                    Workload::Merci { runs: runs_or_default(runs), cores, delay },
                ],
                false,
            ),
        ),
        Selection::DoubleClover { threads, delay } => Ok(
            (
                seq![
                    Workload::CloverLeaf { threads: threads_or(threads, 10), delay: None },
                    Workload::CloverLeaf { threads: threads_or(threads, 10), delay },
                ],
                false,
            ),
        ),
        Selection::GupsRedis { server_size, op_count, exp, hot_exp } => if server_size * 1024
            <= usize::MAX && PAIRED_GUPS_UPDATES <= usize::MAX {
            Ok(
                (
                    seq![
                        Workload::Gups {
                            threads: 2,
                            exp,
                            hot_exp,
                            num_updates: PAIRED_GUPS_UPDATES as usize,
                        },
                        redis_of(server_size, op_count),
                    ],
                    false,
                ),
            )
        } else {
            Err(ConfigError::OutOfRange)
        },
    }
}

/// Two to the power `exp`, where a `usize` holds it.
pub fn power_of_two(exp: usize) -> (r: Option<usize>)
    ensures
        r == (if pow2(exp as nat) <= usize::MAX {
            Some(pow2(exp as nat) as usize)
        } else {
            None
        }),
{
    let mut acc: usize = 1;
    let mut i: usize = 0;
    proof {
        lemma2_to64();
    }
    while i < exp
        invariant
            i <= exp,
            acc == pow2(i as nat),
        decreases exp - i,
    {
        proof {
            lemma_pow2_unfold((i + 1) as nat);
        }
        match acc.checked_mul(2) {
            Some(a) => {
                acc = a;
            },
            None => {
                proof {
                    if i + 1 < exp {
                        lemma_pow2_strictly_increases((i + 1) as nat, exp as nat);
                    }
                }
                return None;
            },
        }
        i = i + 1;
    }
    Some(acc)
}

/// Computes the workloads that `sel` stands for.
pub fn workloads_of(sel: &Selection) -> (r: Result<(Vec<Workload>, bool), ConfigError>)
    ensures
        match r {
            Ok((w, kill)) => selected(*sel) == Ok::<(Seq<Workload>, bool), ConfigError>((w@, kill)),
            Err(e) => selected(*sel) == Err::<(Seq<Workload>, bool), ConfigError>(e),
        },
{
    let mut w: Vec<Workload> = Vec::new();
    let mut kill = true;
    match *sel {
        Selection::Merci { runs, threads } => {
            w.push(Workload::Merci { runs: runs.unwrap_or(10), cores: threads, delay: None });
        },
        Selection::GapbsTc { runs } => {
            w.push(Workload::GapbsTc { runs: runs.unwrap_or(10) });
        },
        Selection::GapbsPr { runs } => {
            w.push(Workload::GapbsPr { runs: runs.unwrap_or(10) });
        },
        Selection::Gups { threads, exp, hot_exp, updates } => {
            let num_updates = match updates {
                Some(u) => u,
                None => match power_of_two(exp) {
                    Some(p) => p / 8,
                    None => {
                        return Err(ConfigError::OutOfRange);
                    },
                },
            };
            w.push(Workload::Gups { threads: threads.unwrap_or(1), exp, hot_exp, num_updates });
        },
        Selection::Clover { threads } => {
            w.push(Workload::CloverLeaf { threads: threads.unwrap_or(10), delay: None });
        },
        Selection::Redis { server_size, op_count } => {
            match server_size.checked_mul(1024) {
                Some(server_size_mb) => {
                    w.push(Workload::Redis { server_size_mb, op_count, load_before_wklds: false });
                },
                None => {
                    return Err(ConfigError::OutOfRange);
                },
            }
        },
        Selection::Stream => {
            w.push(Workload::Stream);
        },
        Selection::Bwaves { threads } => {
            w.push(Workload::SpecBwaves { threads: threads.unwrap_or(10) });
        },
        Selection::Lbm { threads } => {
            w.push(Workload::SpecLbm { threads: threads.unwrap_or(10) });
        },
        Selection::MerciTc { runs } => {
            let tc_runs = runs.unwrap_or(10);
            match tc_runs.checked_mul(100) {
                Some(merci_runs) => {
                    w.push(Workload::GapbsTc { runs: tc_runs });
                    w.push(Workload::Merci { runs: merci_runs, cores: None, delay: None });
                },
                None => {
                    return Err(ConfigError::OutOfRange);
                },
            }
        },
        Selection::DoubleMerci { runs, cores, delay } => {
            let runs = runs.unwrap_or(10);
            kill = false;
            w.push(Workload::Merci { runs, cores, delay: None });
            w.push(Workload::Merci { runs, cores, delay });
        },
        Selection::DoubleClover { threads, delay } => {
            let threads = threads.unwrap_or(10);
            kill = false;
            w.push(Workload::CloverLeaf { threads, delay: None });
            w.push(Workload::CloverLeaf { threads, delay });
        },
        Selection::GupsRedis { server_size, op_count, exp, hot_exp } => {
            if PAIRED_GUPS_UPDATES > usize::MAX as u64 {
                return Err(ConfigError::OutOfRange);
            }
            match server_size.checked_mul(1024) {
                Some(server_size_mb) => {
                    kill = false;
                    w.push(
                        Workload::Gups {
                            threads: 2,
                            exp,
                            hot_exp,
                            num_updates: PAIRED_GUPS_UPDATES as usize,
                        },
                    );
                    w.push(Workload::Redis { server_size_mb, op_count, load_before_wklds: false });
                },
                None => {
                    return Err(ConfigError::OutOfRange);
                },
            }
        },
    }
    assert(w@ =~= selected(*sel)->Ok_0.0);
    Ok((w, kill))
}

/// The name under which the experiment's results are filed.
pub open spec fn experiment_name() -> Seq<char> {
    "cipp_exp"@
}

/// The configuration that the selection `sel` and the options `o` come to, or why they
/// come to none. Selections that exclude each other are refused first, then options
/// that lack what they belong to, then ratios that cannot be read, numbers out of
/// range, and at last bandwidth ratios that are not one for each workload.
pub open spec fn config_of(sel: Selection, o: OptionsView) -> Result<ConfigView, ConfigError> {
    if refusal(o) is Some {
        Err(refusal(o)->0)
    } else if !ratios_readable(o) {
        Err(ConfigError::MalformedRatio)
    } else {
        match selected(sel) {
            Err(e) => Err(e),
            Ok((workloads, kill)) => if o.bwmfs.len() != 0 && o.bwmfs.len() != workloads.len() {
                Err(
                    ConfigError::RatioCountMismatch {
                        workloads: workloads.len() as usize,
                        ratios: o.bwmfs.len() as usize,
                    },
                )
            } else {
                Ok(
                    ConfigView {
                        exp: experiment_name(),
                        workloads,
                        strategy: strategy_of(o),
                        kill_after_first_done: kill,
                        perf_stat: o.perf_stat,
                        perf_counters: o.perf_counters,
                        disable_thp: o.disable_thp,
                        disable_aslr: o.disable_aslr,
                        flame_graph: o.flame_graph,
                        bwmon: o.bwmon,
                        meminfo: o.meminfo,
                        memlat: o.memlat,
                        time: o.time,
                        throttle: throttle_of(o),
                    },
                )
            },
        }
    }
}

/// Why `o` is refused before anything is read from it, if it is.
pub open spec fn refusal(o: OptionsView) -> Option<ConfigError> {
    if strategies_chosen(o) > 1 {
        Some(ConfigError::ConflictingStrategies)
    } else if o.quartz is Some && o.msr_throttle {
        Some(ConfigError::ConflictingThrottles)
    } else if requirement_missing(o) {
        Some(ConfigError::MissingRequirement)
    } else {
        None
    }
}

/// Tells why `opts` is refused before anything is read from it, if it is.
pub fn check_options(opts: &Options) -> (r: Option<ConfigError>)
    ensures
        r == refusal(opts@),
{
    let mut chosen: u8 = 0;
    if opts.tpp {
        chosen = chosen + 1;
    }
    if opts.colloid {
        chosen = chosen + 1;
    }
    if opts.bwmfs.len() > 0 {
        chosen = chosen + 1;
    }
    if opts.numactl.is_some() {
        chosen = chosen + 1;
    }
    if opts.cipp {
        chosen = chosen + 1;
    }
    if chosen > 1 {
        Some(ConfigError::ConflictingStrategies)
    } else if opts.quartz.is_some() && opts.msr_throttle {
        Some(ConfigError::ConflictingThrottles)
    } else if (opts.cipp_total_bw && !opts.cipp) || (opts.memlat && !opts.colloid) || (
    opts.perf_counters.len() > 0 && !opts.perf_stat) {
        Some(ConfigError::MissingRequirement)
    } else {
        None
    }
}

/// Whether every ratio that `o` holds can be read.
pub open spec fn ratios_readable(o: OptionsView) -> bool {
    ratios_of(o.bwmfs) is Some && (o.numactl is Some ==> ratio_of(o.numactl->0) is Some)
}

/// Reads the strategy that `opts` selects.
pub fn select_strategy(opts: &Options) -> (r: Result<Strategy, ConfigError>)
    ensures
        match r {
            Ok(s) => ratios_readable(opts@) && s@ == strategy_of(opts@),
            Err(e) => !ratios_readable(opts@) && e == ConfigError::MalformedRatio,
        },
{
    let ratios = match parse_ratios(&opts.bwmfs) {
        Ok(v) => v,
        Err(e) => {
            return Err(e);
        },
    };
    let weights: Option<(usize, usize)> = match &opts.numactl {
        Some(text) => match parse_ratio(text.as_str()) {
            Ok(p) => Some(p),
            Err(e) => {
                return Err(e);
            },
        },
        None => None,
    };
    let strategy = if opts.tpp {
        Strategy::Tpp
    } else if opts.colloid {
        Strategy::Colloid
    } else if ratios.len() != 0 {
        Strategy::Bwmfs { ratios }
    } else if let Some((local, remote)) = weights {
        Strategy::Numactl { local, remote }
    } else if opts.cipp {
        Strategy::Cipp { total_bw: opts.cipp_total_bw }
    } else {
        Strategy::Linux
    };
    Ok(strategy)
}

/// Gives the throttle that was selected: the emulator where a bandwidth was named,
/// else the register write where it was asked for, else none.
pub fn select_throttle(quartz: Option<u64>, msr_throttle: bool) -> (r: ThrottleType)
    ensures
        r == (match quartz {
            Some(bw) => ThrottleType::Quartz { bw },
            None => if msr_throttle {
                ThrottleType::Msr
            } else {
                ThrottleType::Native
            },
        }),
{
    match quartz {
        Some(bw) => ThrottleType::Quartz { bw },
        None => if msr_throttle {
            ThrottleType::Msr
        } else {
            ThrottleType::Native
        },
    }
}

/// Builds the configuration of one run from what was selected, or says why none can
/// be built.
pub fn build_config(sel: &Selection, opts: Options) -> (r: Result<Config, ConfigError>)
    ensures
        match r {
            Ok(c) => config_of(*sel, opts@) == Ok::<ConfigView, ConfigError>(c@),
            Err(e) => config_of(*sel, opts@) == Err::<ConfigView, ConfigError>(e),
        },
{
    if let Some(e) = check_options(&opts) {
        return Err(e);
    }
    let strategy = match select_strategy(&opts) {
        Ok(s) => s,
        Err(e) => {
            return Err(e);
        },
    };
    let (workloads, kill) = match workloads_of(sel) {
        Ok(p) => p,
        Err(e) => {
            return Err(e);
        },
    };
    let ratios = opts.bwmfs.len();
    if ratios != 0 && ratios != workloads.len() {
        return Err(ConfigError::RatioCountMismatch { workloads: workloads.len(), ratios });
    }
    let throttle = select_throttle(opts.quartz, opts.msr_throttle);
    let config = Config {
        exp: String::from_str("cipp_exp"),
        workloads,
        strategy,
        kill_after_first_done: kill,
        perf_stat: opts.perf_stat,
        perf_counters: opts.perf_counters,
        disable_thp: opts.disable_thp,
        disable_aslr: opts.disable_aslr,
        flame_graph: opts.flame_graph,
        bwmon: opts.bwmon,
        meminfo: opts.meminfo,
        memlat: opts.memlat,
        time: opts.time,
        throttle,
    };
    Ok(config)
}

/// Options that select two tiering strategies or more give no configuration, whatever
/// else was selected.
pub proof fn lemma_conflicting_strategies_rejected(sel: Selection, o: OptionsView)
    requires
        strategies_chosen(o) >= 2,
    ensures
        config_of(sel, o) == Err::<ConfigView, ConfigError>(ConfigError::ConflictingStrategies),
{
}

/// Options that select two throttles give no configuration.
pub proof fn lemma_conflicting_throttles_rejected(sel: Selection, o: OptionsView)
    requires
        o.quartz is Some,
        o.msr_throttle,
    ensures
        config_of(sel, o) is Err,
{
}

/// Bandwidth ratios that are not one for each workload give no configuration, whatever
/// else was selected; where nothing else is wrong with the selection, the mismatch is
/// what is reported. A configuration that was built with the per-mount strategy has as
/// many ratios as workloads, and every configuration has a workload.
pub proof fn lemma_ratio_count_checked(sel: Selection, o: OptionsView)
    ensures
        o.bwmfs.len() != 0 && selected(sel) is Ok && o.bwmfs.len() != selected(sel)->Ok_0.0.len()
            ==> config_of(sel, o) is Err,
        o.bwmfs.len() != 0 && selected(sel) is Ok && o.bwmfs.len() != selected(sel)->Ok_0.0.len()
            && refusal(o) is None && ratios_readable(o) ==> config_of(sel, o) == Err::<
            ConfigView,
            ConfigError,
        >(
            ConfigError::RatioCountMismatch {
                workloads: selected(sel)->Ok_0.0.len() as usize,
                ratios: o.bwmfs.len() as usize,
            },
        ),
        config_of(sel, o) matches Ok(c) ==> (c.strategy matches StrategyView::Bwmfs { ratios }
            ==> ratios.len() == c.workloads.len() && ratios.len() > 0),
        config_of(sel, o) matches Ok(c) ==> c.workloads.len() >= 1,
{
}

/// Two instances of one benchmark, the second of them delayed, are both run to their
/// end: the configuration has the two workloads with the same parameters, the delay is
/// on the second only, and nothing is killed when the first has finished. The selection
/// of such a pair is never the reason for which a configuration is refused.
pub proof fn lemma_delayed_pair_runs_to_the_end(sel: Selection, o: OptionsView)
    requires
        sel is DoubleMerci || sel is DoubleClover,
    ensures
        selected(sel) is Ok,
        config_of(sel, o) matches Ok(c) ==> !c.kill_after_first_done && c.workloads.len() == 2
            && match sel {
            Selection::DoubleMerci { runs, cores, delay } => c.workloads[0] == (Workload::Merci {
                runs: runs_or_default(runs),
                cores,
                delay: None,
            }) && c.workloads[1] == (Workload::Merci { runs: runs_or_default(runs), cores, delay }),
            Selection::DoubleClover { threads, delay } => c.workloads[0] == (Workload::CloverLeaf {
                threads: threads_or(threads, 10),
                delay: None,
            }) && c.workloads[1] == (Workload::CloverLeaf {
                threads: threads_or(threads, 10),
                delay,
            }),
            _ => true,
        },
{
}

} // verus!

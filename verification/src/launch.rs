//! The command line that starts each workload.

use vstd::prelude::*;
use vstd::string::StringExecFns;
use crate::config::{demand, Workload};
use crate::cores::AllocError;
use crate::error::PlanError;
use crate::shell::{in_dir, Command, CommandView};
use crate::site::{Names, Site};
use crate::text::{
    decimal, ends_with, is_digit, is_taken_before, lemma_decimal_two, lemma_numbered_differ,
    lemma_numbered_same_number, lemma_plain_is_not_numbered, lemma_suffixed_is_not_numbered,
    numbered, numbered_string, push_decimal, string_texts, taken_before,
};

verus! {

/// The wait before a delayed start: nothing where there is no delay.
pub open spec fn sleep_text(delay: Option<nat>) -> Seq<char> {
    match delay {
        Some(d) => "sleep "@ + decimal(d) + ";"@,
        None => Seq::empty(),
    }
}

/// The file that an instance writes to, where `file` is the file of its kind: a
/// delayed instance runs beside another of its kind and writes to a second file, which
/// is called as the first with a `2` behind it.
pub open spec fn instance_file(file: Seq<char>, delayed: bool) -> Seq<char> {
    if delayed {
        file + seq!['2']
    } else {
        file
    }
}

/// Writes the file that an instance writes to.
pub fn instance_path(file: &str, delayed: bool) -> (r: String)
    ensures
        r@ == instance_file(file@, delayed),
{
    let mut r = String::from_str(file);
    if delayed {
        r.push('2');
    }
    r
}

/// Writes the wait before a delayed start.
fn sleep_string(delay: Option<u64>) -> (r: String)
    ensures
        r@ == sleep_text(
            match delay {
                Some(d) => Some(d as nat),
                None => None,
            },
        ),
{
    match delay {
        Some(d) => {
            let mut r = String::from_str("sleep ");
            push_decimal(&mut r, d);
            r.append(";");
            r
        },
        None => String::new(),
    }
}

/// The command line of the embedding benchmark.
pub open spec fn merci_text(
    prefix: Seq<char>,
    runs: u64,
    cores: usize,
    delay: Option<u64>,
    file: Seq<char>,
) -> Seq<char> {
    sleep_text(
        match delay {
            Some(d) => Some(d as nat),
            None => None,
        },
    ) + " "@ + prefix + " ./bin/eval_baseline -d amazon_Books -r "@ + decimal(runs as nat)
        + " -c "@ + decimal(cores as nat) + " | sudo tee -a "@ + instance_file(file, delay is Some)
}

/// The embedding benchmark: `runs` iterations on `cores` cores, its output appended to
/// `file`. Where a delay is given it starts after `delay` seconds and writes to `file`
/// with a `2` behind it.
pub fn merci_command(
    dir: &str,
    runs: u64,
    cores: usize,
    delay: Option<u64>,
    prefix: &str,
    file: &str,
) -> (r: Command)
    ensures
        r@ == in_dir(merci_text(prefix@, runs, cores, delay, file@), dir@),
{
    let mut t = sleep_string(delay);
    t.append(" ");
    t.append(prefix);
    t.append(" ./bin/eval_baseline -d amazon_Books -r ");
    push_decimal(&mut t, runs);
    t.append(" -c ");
    push_decimal(&mut t, cores as u64);
    t.append(" | sudo tee -a ");
    let out = instance_path(file, delay.is_some());
    t.append(out.as_str());
    Command::new(t).cwd(dir)
}

/// The command line of the triangle-counting benchmark.
pub open spec fn gapbs_tc_text(prefix: Seq<char>, runs: u64, file: Seq<char>) -> Seq<char> {
    prefix + " ./tc -f benchmark/graphs/twitterU.sg -n "@ + decimal(runs as nat) + " | sudo tee "@
        + file
}

/// The triangle-counting benchmark: `runs` iterations, its output written to `file`.
pub fn gapbs_tc_command(dir: &str, runs: u64, prefix: &str, file: &str) -> (r: Command)
    ensures
        r@ == in_dir(gapbs_tc_text(prefix@, runs, file@), dir@),
{
    let mut t = String::from_str(prefix);
    t.append(" ./tc -f benchmark/graphs/twitterU.sg -n ");
    push_decimal(&mut t, runs);
    t.append(" | sudo tee ");
    t.append(file);
    Command::new(t).cwd(dir)
}

/// The command line of the page-rank benchmark.
pub open spec fn gapbs_pr_text(prefix: Seq<char>, runs: u64, file: Seq<char>) -> Seq<char> {
    prefix + " ./pr -g 26 -n "@ + decimal(runs as nat) + " | sudo tee "@ + file
}

/// The page-rank benchmark: `runs` iterations, its output written to `file`.
pub fn gapbs_pr_command(dir: &str, runs: u64, prefix: &str, file: &str) -> (r: Command)
    ensures
        r@ == in_dir(gapbs_pr_text(prefix@, runs, file@), dir@),
{
    let mut t = String::from_str(prefix);
    t.append(" ./pr -g 26 -n ");
    push_decimal(&mut t, runs);
    t.append(" | sudo tee ");
    t.append(file);
    Command::new(t).cwd(dir)
}

/// The command line of the random-access benchmark.
pub open spec fn gups_text(
    prefix: Seq<char>,
    threads: usize,
    exp: usize,
    hot_exp: usize,
    num_updates: usize,
    file: Seq<char>,
) -> Seq<char> {
    prefix + " ./gups-hotset-move "@ + decimal(threads as nat) + " "@ + decimal(
        num_updates as nat,
    ) + " "@ + decimal(exp as nat) + " 8 "@ + decimal(hot_exp as nat) + " n | tee "@ + file
}

/// The random-access benchmark: `num_updates` updates by `threads` threads on two to
/// the `exp` bytes, two to the `hot_exp` of which are hot.
pub fn gups_command(
    dir: &str,
    threads: usize,
    exp: usize,
    hot_exp: usize,
    num_updates: usize,
    prefix: &str,
    file: &str,
) -> (r: Command)
    ensures
        r@ == in_dir(gups_text(prefix@, threads, exp, hot_exp, num_updates, file@), dir@),
{
    let mut t = String::from_str(prefix);
    t.append(" ./gups-hotset-move ");
    push_decimal(&mut t, threads as u64);
    t.append(" ");
    push_decimal(&mut t, num_updates as u64);
    t.append(" ");
    push_decimal(&mut t, exp as u64);
    t.append(" 8 ");
    push_decimal(&mut t, hot_exp as u64);
    t.append(" n | tee ");
    t.append(file);
    Command::new(t).cwd(dir)
}

/// The command line of the hydrodynamics benchmark.
pub open spec fn clover_text(prefix: Seq<char>, delay: Option<usize>, file: Seq<char>) -> Seq<
    char,
> {
    sleep_text(
        match delay {
            Some(d) => Some(d as nat),
            None => None,
        },
    ) + " "@ + prefix + " ./build/omp-cloverleaf --file ./InputDecks/clover_bm64_300.in | tee "@
        + instance_file(file, delay is Some)
}

/// The hydrodynamics benchmark, its output written to `file`. Where a delay is given it
/// starts after `delay` seconds and writes to `file` with a `2` behind it.
pub fn clover_command(dir: &str, delay: Option<usize>, prefix: &str, file: &str) -> (r: Command)
    ensures
        r@ == in_dir(clover_text(prefix@, delay, file@), dir@),
{
    let wait: Option<u64> = match delay {
        Some(d) => Some(d as u64),
        None => None,
    };
    let mut t = sleep_string(wait);
    t.append(" ");
    t.append(prefix);
    t.append(" ./build/omp-cloverleaf --file ./InputDecks/clover_bm64_300.in | tee ");
    let out = instance_path(file, delay.is_some());
    t.append(out.as_str());
    Command::new(t).cwd(dir)
}

/// The command line of the streaming benchmark.
pub open spec fn stream_text(prefix: Seq<char>, file: Seq<char>) -> Seq<char> {
    prefix + " ./stream | tee "@ + file
}

/// The streaming benchmark, which takes no parameters.
pub fn stream_command(dir: &str, prefix: &str, file: &str) -> (r: Command)
    ensures
        r@ == in_dir(stream_text(prefix@, file@), dir@),
{
    let mut t = String::from_str(prefix);
    t.append(" ./stream | tee ");
    t.append(file);
    Command::new(t).cwd(dir)
}

/// The command line of a benchmark of the processor suite.
pub open spec fn spec_text(
    prefix: Seq<char>,
    workload: Seq<char>,
    threads: usize,
    file: Seq<char>,
) -> Seq<char> {
    "source shrc && "@ + prefix
        + " runcpu --action=run --noreportable --iterations 1 --nobuild --size ref --tune base --config spec-linux-x86.cfg --threads="@
        + decimal(threads as nat) + " "@ + workload + " | tee "@ + file
}

/// The benchmark `workload` of the processor suite on `threads` threads.
pub fn spec_command(dir: &str, workload: &str, threads: usize, prefix: &str, file: &str) -> (r:
    Command)
    ensures
        r@ == in_dir(spec_text(prefix@, workload@, threads, file@), dir@),
{
    let mut t = String::from_str("source shrc && ");
    t.append(prefix);
    t.append(
        " runcpu --action=run --noreportable --iterations 1 --nobuild --size ref --tune base --config spec-linux-x86.cfg --threads=",
    );
    push_decimal(&mut t, threads as u64);
    t.append(" ");
    t.append(workload);
    t.append(" | tee ");
    t.append(file);
    Command::new(t).cwd(dir)
}

/// The size of one record of the key-value store in KB, as it was measured.
pub const RECORD_SIZE_KB: usize = 21;

/// The seconds that the other workloads get to come up before the store is loaded.
pub const SETTLE_SECONDS: u64 = 60;

/// What it takes to run the key-value store and the client that loads it.
#[derive(Debug, Clone, PartialEq, Eq)]
pub struct StoreSetup {
    /// The memory of the server in MB.
    pub server_size_mb: usize,
    /// The working set in GB.
    pub working_set_gb: usize,
    /// How many records the data set has.
    pub records: usize,
    /// How many operations the client makes.
    pub operations: usize,
    /// The thread that the server is pinned to.
    pub server_core: usize,
    /// The thread that the client is pinned to, on another core.
    pub client_core: usize,
    /// What stands in front of the server's command line.
    pub prefix: String,
    /// The file into which the client writes what it measured.
    pub result_file: String,
    /// Whether the data set is loaded before any workload starts; else it is loaded
    /// when the store's turn comes, after a pause.
    pub load_first: bool,
    /// The seconds of that pause.
    pub settle_seconds: u64,
}

/// The set-up of the store as plain values.
pub struct StoreView {
    pub server_size_mb: usize,
    pub working_set_gb: usize,
    pub records: usize,
    pub operations: usize,
    pub server_core: usize,
    pub client_core: usize,
    pub prefix: Seq<char>,
    pub result_file: Seq<char>,
    pub load_first: bool,
    pub settle_seconds: u64,
}

impl View for StoreSetup {
    type V = StoreView;

    open spec fn view(&self) -> StoreView {
        StoreView {
            server_size_mb: self.server_size_mb,
            working_set_gb: self.working_set_gb,
            records: self.records,
            operations: self.operations,
            server_core: self.server_core,
            client_core: self.client_core,
            prefix: self.prefix@,
            result_file: self.result_file@,
            load_first: self.load_first,
            settle_seconds: self.settle_seconds,
        }
    }
}

/// How a workload is started: by one command line, or by the protocol of the
/// key-value store.
#[derive(Debug, Clone, PartialEq, Eq)]
pub enum Launch {
    Shell(Command),
    Store(StoreSetup),
}

/// The start of a workload as plain values.
pub enum LaunchView {
    Shell(CommandView),
    Store(StoreView),
}

impl View for Launch {
    type V = LaunchView;

    open spec fn view(&self) -> LaunchView {
        match self {
            Launch::Shell(c) => LaunchView::Shell(c@),
            Launch::Store(s) => LaunchView::Store(s@),
        }
    }
}

/// The stem of the name of the file into which a workload of the kind of `w` writes.
pub open spec fn output_stem(names: Names, w: Workload) -> Seq<char> {
    match w {
        Workload::Merci { .. } => names.merci@,
        Workload::GapbsTc { .. } => names.gapbs@,
        Workload::GapbsPr { .. } => names.gapbs@,
        Workload::Gups { .. } => names.gups@,
        Workload::CloverLeaf { .. } => names.clover@,
        Workload::Redis { .. } => names.ycsb@,
        Workload::Stream => names.stream@,
        Workload::SpecBwaves { .. } => names.spec@,
        Workload::SpecLbm { .. } => names.spec@,
    }
}

/// The result file of the kind of `w`.
pub open spec fn kind_file(site: Site, names: Names, w: Workload) -> Seq<char> {
    site.result(output_stem(names, w))
}

/// Writes the result file of the kind of `w`.
pub fn kind_path(site: &Site, names: &Names, w: &Workload) -> (r: String)
    ensures
        r@ == kind_file(*site, *names, *w),
{
    match w {
        Workload::Merci { .. } => site.result_path(names.merci.as_str()),
        Workload::GapbsTc { .. } => site.result_path(names.gapbs.as_str()),
        Workload::GapbsPr { .. } => site.result_path(names.gapbs.as_str()),
        Workload::Gups { .. } => site.result_path(names.gups.as_str()),
        Workload::CloverLeaf { .. } => site.result_path(names.clover.as_str()),
        Workload::Redis { .. } => site.result_path(names.ycsb.as_str()),
        Workload::Stream => site.result_path(names.stream.as_str()),
        Workload::SpecBwaves { .. } => site.result_path(names.spec.as_str()),
        Workload::SpecLbm { .. } => site.result_path(names.spec.as_str()),
    }
}

/// Whether `w` starts after a delay.
pub open spec fn is_delayed(w: Workload) -> bool {
    match w {
        Workload::Merci { delay, .. } => delay is Some,
        Workload::CloverLeaf { delay, .. } => delay is Some,
        _ => false,
    }
}

/// Tells whether `w` starts after a delay.
pub fn starts_late(w: &Workload) -> (r: bool)
    ensures
        r == is_delayed(*w),
{
    match w {
        Workload::Merci { delay, .. } => delay.is_some(),
        Workload::CloverLeaf { delay, .. } => delay.is_some(),
        _ => false,
    }
}

/// The file into which `w` writes where it does not have to share it: the result file
/// of its kind, with a `2` behind it where `w` is delayed.
pub open spec fn usual_file(site: Site, names: Names, w: Workload) -> Seq<char> {
    instance_file(kind_file(site, names, w), is_delayed(w))
}

/// The usual file of each of `workloads`.
pub open spec fn usual_files(workloads: Seq<Workload>, site: Site, names: Names) -> Seq<
    Seq<char>,
> {
    Seq::new(workloads.len(), |k: int| usual_file(site, names, workloads[k]))
}

/// The file that workload number `i` is handed. It is the result file of its kind,
/// unless a workload before it in the run has the same usual file; then its number is
/// put behind the result file of its kind, and a dot more where it is delayed, so that
/// the `2` behind that is a number of its own.
pub open spec fn handed_file(workloads: Seq<Workload>, site: Site, names: Names, i: int) -> Seq<
    char,
> {
    if !taken_before(usual_files(workloads, site, names), i) {
        kind_file(site, names, workloads[i])
    } else if is_delayed(workloads[i]) {
        numbered(kind_file(site, names, workloads[i]), i as nat) + seq!['.']
    } else {
        numbered(kind_file(site, names, workloads[i]), i as nat)
    }
}

/// The file into which workload number `i` of the run writes: what the file that it is
/// handed comes to, with a `2` behind it where the workload is delayed.
pub open spec fn output_file(workloads: Seq<Workload>, site: Site, names: Names, i: int) -> Seq<
    char,
> {
    instance_file(handed_file(workloads, site, names, i), is_delayed(workloads[i]))
}

/// The file that each of `workloads` is handed.
pub open spec fn handed_files(workloads: Seq<Workload>, site: Site, names: Names) -> Seq<
    Seq<char>,
> {
    Seq::new(workloads.len(), |i: int| handed_file(workloads, site, names, i))
}

/// The file into which each of `workloads` writes.
pub open spec fn outputs_of(workloads: Seq<Workload>, site: Site, names: Names) -> Seq<Seq<char>> {
    Seq::new(workloads.len(), |i: int| output_file(workloads, site, names, i))
}

/// Lists the usual file of each of `workloads`.
fn usual_list(workloads: &Vec<Workload>, site: &Site, names: &Names) -> (r: Vec<String>)
    ensures
        r.len() == workloads.len(),
        string_texts(r@) == usual_files(workloads@, *site, *names),
{
    let n = workloads.len();
    let ghost all = usual_files(workloads@, *site, *names);
    let mut r: Vec<String> = Vec::new();
    let mut k: usize = 0;
    while k < n
        invariant
            k <= n,
            n == workloads.len(),
            all == usual_files(workloads@, *site, *names),
            r.len() == k,
            string_texts(r@) == all.take(k as int),
        decreases n - k,
    {
        let file = kind_path(site, names, &workloads[k]);
        let usual = instance_path(file.as_str(), starts_late(&workloads[k]));
        r.push(usual);
        assert(string_texts(r@) =~= all.take(k as int).push(all[k as int]));
        assert(all.take(k + 1) =~= all.take(k as int).push(all[k as int]));
        k = k + 1;
    }
    assert(all.take(n as int) == all);
    r
}

/// Lists the file that each of `workloads` is handed.
pub fn handed_list(workloads: &Vec<Workload>, site: &Site, names: &Names) -> (r: Vec<String>)
    ensures
        r.len() == workloads.len(),
        string_texts(r@) == handed_files(workloads@, *site, *names),
{
    let n = workloads.len();
    let usual = usual_list(workloads, site, names);
    let ghost all = handed_files(workloads@, *site, *names);
    let mut r: Vec<String> = Vec::new();
    let mut i: usize = 0;
    while i < n
        invariant
            i <= n,
            n == workloads.len(),
            n == usual.len(),
            string_texts(usual@) == usual_files(workloads@, *site, *names),
            all == handed_files(workloads@, *site, *names),
            r.len() == i,
            string_texts(r@) == all.take(i as int),
        decreases n - i,
    {
        let file = kind_path(site, names, &workloads[i]);
        let handed = if !is_taken_before(&usual, i) {
            file
        } else {
            let mut own = numbered_string(file.as_str(), i);
            if starts_late(&workloads[i]) {
                own.push('.');
                assert(own@ =~= numbered(file@, i as nat) + seq!['.']);
            }
            own
        };
        assert(handed@ == handed_file(workloads@, *site, *names, i as int));
        r.push(handed);
        assert(string_texts(r@) =~= all.take(i as int).push(all[i as int]));
        assert(all.take(i + 1) =~= all.take(i as int).push(all[i as int]));
        i = i + 1;
    }
    assert(all.take(n as int) == all);
    r
}

/// Lists the file into which each of `workloads` writes.
pub fn output_list(workloads: &Vec<Workload>, site: &Site, names: &Names) -> (r: Vec<String>)
    ensures
        r.len() == workloads.len(),
        string_texts(r@) == outputs_of(workloads@, *site, *names),
{
    let n = workloads.len();
    let handed = handed_list(workloads, site, names);
    let ghost all = outputs_of(workloads@, *site, *names);
    let mut r: Vec<String> = Vec::new();
    let mut i: usize = 0;
    while i < n
        invariant
            i <= n,
            n == workloads.len(),
            n == handed.len(),
            string_texts(handed@) == handed_files(workloads@, *site, *names),
            all == outputs_of(workloads@, *site, *names),
            r.len() == i,
            string_texts(r@) == all.take(i as int),
        decreases n - i,
    {
        assert(string_texts(handed@)[i as int] == handed@[i as int]@);
        let file = instance_path(handed[i].as_str(), starts_late(&workloads[i]));
        r.push(file);
        assert(string_texts(r@) =~= all.take(i as int).push(all[i as int]));
        assert(all.take(i + 1) =~= all.take(i as int).push(all[i as int]));
        i = i + 1;
    }
    assert(all.take(n as int) == all);
    r
}

/// Whether the stem `stem` ends neither with a digit nor with a dot, so that no file
/// that is called by it can be taken for a numbered one.
pub open spec fn plain_stem(stem: Seq<char>) -> bool {
    stem.len() == 0 || (!is_digit(stem.last()) && stem.last() != '.')
}

/// Whether the stems of the files into which workloads write are all plain.
pub open spec fn plain_stems(names: Names) -> bool {
    &&& plain_stem(names.merci@)
    &&& plain_stem(names.gapbs@)
    &&& plain_stem(names.gups@)
    &&& plain_stem(names.clover@)
    &&& plain_stem(names.ycsb@)
    &&& plain_stem(names.stream@)
    &&& plain_stem(names.spec@)
}

/// The result file of a kind with a plain stem ends neither with a digit nor with a
/// dot.
proof fn lemma_kind_file_is_plain(site: Site, names: Names, w: Workload)
    requires
        plain_stems(names),
    ensures
        kind_file(site, names, w).len() > 0,
        !is_digit(kind_file(site, names, w).last()),
        kind_file(site, names, w).last() != '.',
{
    let stem = output_stem(names, w);
    let file = kind_file(site, names, w);
    assert(plain_stem(stem));
    if stem.len() == 0 {
        assert(file.last() == '/');
    } else {
        assert(file.last() == stem.last());
    }
}

/// Where the usual files of the workloads before workload `i` all differ from its own,
/// the workload writes into its usual file: names that differ already stay as they are.
pub proof fn lemma_usual_files_stay(workloads: Seq<Workload>, site: Site, names: Names, i: int)
    requires
        0 <= i < workloads.len(),
        forall|j: int|
            0 <= j < i ==> usual_file(site, names, #[trigger] workloads[j]) != usual_file(
                site,
                names,
                workloads[i],
            ),
    ensures
        handed_file(workloads, site, names, i) == kind_file(site, names, workloads[i]),
        output_file(workloads, site, names, i) == usual_file(site, names, workloads[i]),
{
    let all = usual_files(workloads, site, names);
    if taken_before(all, i) {
        let j = choose|j: int| 0 <= j < i && #[trigger] all[j] == all[i];
        assert(usual_file(site, names, workloads[j]) == all[j]);
    }
}

/// Whether the files of the kinds are called differently, each from each other.
pub open spec fn distinct_stems(names: Names) -> bool {
    let stems = seq![
        names.merci@,
        names.gapbs@,
        names.gups@,
        names.clover@,
        names.ycsb@,
        names.stream@,
        names.spec@,
    ];
    forall|p: int, q: int| 0 <= p < q < stems.len() ==> #[trigger] stems[p] != #[trigger] stems[q]
}

/// Result files that are called differently are different files.
pub proof fn lemma_results_differ(site: Site, a: Seq<char>, b: Seq<char>)
    requires
        a != b,
    ensures
        site.result(a) != site.result(b),
{
    let x = site.result(a);
    let y = site.result(b);
    if x == y {
        let head = site.results_dir() + seq!['/'];
        assert(a =~= x.subrange(head.len() as int, x.len() as int));
        assert(b =~= y.subrange(head.len() as int, y.len() as int));
    }
}

/// Of two instances of one kind, the second of them delayed, the first writes into the
/// file of its kind and the second into that file with a `2` behind it, which is
/// another file.
pub proof fn lemma_delayed_pair_files(site: Site, names: Names, first: Workload, second: Workload)
    requires
        kind_file(site, names, first) == kind_file(site, names, second),
        !is_delayed(first),
        is_delayed(second),
    ensures
        output_file(seq![first, second], site, names, 0) == kind_file(site, names, first),
        output_file(seq![first, second], site, names, 1) == kind_file(site, names, first) + seq![
            '2',
        ],
        output_file(seq![first, second], site, names, 0) != output_file(
            seq![first, second],
            site,
            names,
            1,
        ),
{
    let pair = seq![first, second];
    let file = kind_file(site, names, first);
    assert((file + seq!['2']).len() == file.len() + 1);
    lemma_usual_files_stay(pair, site, names, 0);
    lemma_usual_files_stay(pair, site, names, 1);
}

/// No two workloads of a run write into the same file, where the stems of their files
/// are plain: the files of two workloads with different numbers differ, whatever the
/// workloads are.
pub proof fn lemma_output_files_differ(
    workloads: Seq<Workload>,
    site: Site,
    names: Names,
    i: int,
    j: int,
)
    requires
        plain_stems(names),
        0 <= i < workloads.len(),
        0 <= j < workloads.len(),
        i != j,
    ensures
        output_file(workloads, site, names, i) != output_file(workloads, site, names, j),
{
    let all = usual_files(workloads, site, names);
    let v = workloads[i];
    let w = workloads[j];
    let a = kind_file(site, names, v);
    let b = kind_file(site, names, w);
    lemma_kind_file_is_plain(site, names, v);
    lemma_kind_file_is_plain(site, names, w);
    lemma_decimal_two();
    let x = output_file(workloads, site, names, i);
    let y = output_file(workloads, site, names, j);
    let ni = numbered(a, i as nat);
    let nj = numbered(b, j as nat);
    if taken_before(all, i) && is_delayed(v) {
        assert(x =~= numbered(ni, 2));
    }
    if taken_before(all, j) && is_delayed(w) {
        assert(y =~= numbered(nj, 2));
    }
    if !taken_before(all, i) && !taken_before(all, j) {
        assert(x == all[i]);
        assert(y == all[j]);
        if i < j {
            assert(all[i] != all[j]);
        } else {
            assert(all[j] != all[i]);
        }
    } else if taken_before(all, i) && !taken_before(all, j) {
        lemma_not_numbered(site, names, w, ni, 2);
        lemma_not_numbered(site, names, w, a, i as nat);
    } else if !taken_before(all, i) && taken_before(all, j) {
        lemma_not_numbered(site, names, v, nj, 2);
        lemma_not_numbered(site, names, v, b, j as nat);
    } else if is_delayed(v) == is_delayed(w) {
        lemma_numbered_differ(a, i as nat, b, j as nat);
        if is_delayed(v) && x == y {
            lemma_numbered_same_number(ni, nj, 2);
        }
    } else if is_delayed(v) {
        if j != 2 {
            lemma_numbered_differ(ni, 2, b, j as nat);
        } else if x == y {
            lemma_numbered_same_number(ni, b, 2);
            lemma_plain_is_not_numbered(b, a, i as nat);
        }
    } else {
        if i != 2 {
            lemma_numbered_differ(a, i as nat, nj, 2);
        } else if x == y {
            lemma_numbered_same_number(a, nj, 2);
            lemma_plain_is_not_numbered(a, b, j as nat);
        }
    }
}

/// The usual file of a workload is no numbered name, where the stems are plain.
proof fn lemma_not_numbered(site: Site, names: Names, w: Workload, stem: Seq<char>, i: nat)
    requires
        plain_stems(names),
    ensures
        usual_file(site, names, w) != numbered(stem, i),
{
    lemma_kind_file_is_plain(site, names, w);
    let file = kind_file(site, names, w);
    if is_delayed(w) {
        lemma_suffixed_is_not_numbered(file, stem, i);
    } else {
        lemma_plain_is_not_numbered(file, stem, i);
    }
}

/// The store with a server of `server_size_mb` MB: its data set has as many records
/// as fit into the server's memory, the server runs on the first thread of `set` and
/// the client on the third, which is the first thread of the next core and writes
/// what it measured to `file`.
pub open spec fn store_of(
    server_size_mb: usize,
    op_count: usize,
    load_first: bool,
    set: Seq<usize>,
    prefix: Seq<char>,
    file: Seq<char>,
) -> StoreView {
    StoreView {
        server_size_mb,
        working_set_gb: (server_size_mb as nat / 1024) as usize,
        records: (server_size_mb as nat * 1024 / RECORD_SIZE_KB as nat) as usize,
        operations: op_count,
        server_core: set[0],
        client_core: set[2],
        prefix,
        result_file: file,
        load_first,
        settle_seconds: SETTLE_SECONDS,
    }
}

/// Whether the workload that is started as `l` says writes into `file`: its command
/// line ends with the file, or the file is the one that the store's client is given.
pub open spec fn writes_to(l: LaunchView, file: Seq<char>) -> bool {
    match l {
        LaunchView::Shell(c) => ends_with(c.text, file),
        LaunchView::Store(s) => s.result_file == file,
    }
}

/// How workload number `i`, which is `w`, is started with the threads `set` and the
/// prefix `prefix`, where an equal share of the node is `share` threads and `file` is
/// the file that the workload is handed. The store needs three threads at least and a
/// data set whose size can be counted.
pub open spec fn launch_of(
    w: Workload,
    i: usize,
    share: usize,
    set: Seq<usize>,
    prefix: Seq<char>,
    file: Seq<char>,
    site: Site,
) -> Result<LaunchView, PlanError> {
    match w {
        Workload::Merci { runs, cores, delay } => Ok(
            LaunchView::Shell(
                in_dir(
                    merci_text(
                        prefix,
                        runs,
                        demand(w, share),
                        delay,
                        file,
                    ),
                    site.in_workloads("MERCI/4_performance_evaluation/"@),
                ),
            ),
        ),
        Workload::GapbsTc { runs } => Ok(
            LaunchView::Shell(
                in_dir(
                    gapbs_tc_text(prefix, runs, file),
                    site.in_workloads("gapbs/"@),
                ),
            ),
        ),
        Workload::GapbsPr { runs } => Ok(
            LaunchView::Shell(
                in_dir(
                    gapbs_pr_text(prefix, runs, file),
                    site.in_workloads("gapbs/"@),
                ),
            ),
        ),
        Workload::Gups { threads, exp, hot_exp, num_updates } => Ok(
            LaunchView::Shell(
                in_dir(
                    gups_text(
                        prefix,
                        threads,
                        exp,
                        hot_exp,
                        num_updates,
                        file,
                    ),
                    site.in_workloads("gups_hemem/"@),
                ),
            ),
        ),
        Workload::CloverLeaf { threads, delay } => Ok(
            LaunchView::Shell(
                in_dir(
                    clover_text(prefix, delay, file),
                    site.in_workloads("CloverLeaf/"@),
                ),
            ),
        ),
        Workload::Redis { server_size_mb, op_count, load_before_wklds } => if set.len() < 3 {
            Err(PlanError::Allocation(AllocError::Insufficient { workload: i }))
        } else if server_size_mb * 1024 > usize::MAX {
            Err(PlanError::OutOfRange)
        } else {
            Ok(
                LaunchView::Store(
                    store_of(
                        server_size_mb,
                        op_count,
                        load_before_wklds,
                        set,
                        prefix,
                        file,
                    ),
                ),
            )
        },
        Workload::Stream => Ok(
            LaunchView::Shell(
                in_dir(
                    stream_text(prefix, file),
                    site.in_workloads("stream/"@),
                ),
            ),
        ),
        Workload::SpecBwaves { threads } => Ok(
            LaunchView::Shell(
                in_dir(
                    spec_text(prefix, "bwaves_s"@, threads, file),
                    site.in_workloads("spec2017/"@),
                ),
            ),
        ),
        Workload::SpecLbm { threads } => Ok(
            LaunchView::Shell(
                in_dir(
                    spec_text(prefix, "lbm_s"@, threads, file),
                    site.in_workloads("spec2017/"@),
                ),
            ),
        ),
    }
}

/// A workload that is started writes into the file that it is handed, with a `2`
/// behind it where it is delayed: the command line that starts it ends with that file,
/// and the store's client is given it.
pub proof fn lemma_launch_writes_to_its_file(
    w: Workload,
    i: usize,
    share: usize,
    set: Seq<usize>,
    prefix: Seq<char>,
    file: Seq<char>,
    site: Site,
)
    ensures
        launch_of(w, i, share, set, prefix, file, site) matches Ok(l) ==> writes_to(
            l,
            instance_file(file, is_delayed(w)),
        ),
{
    let out = instance_file(file, is_delayed(w));
    match launch_of(w, i, share, set, prefix, file, site) {
        Ok(LaunchView::Shell(c)) => {
            let t = c.text;
            assert(t.len() >= out.len());
            assert(t.subrange(t.len() - out.len(), t.len() as int) =~= out);
        },
        _ => {},
    }
}

/// Says how workload number `i` is started, where `file` is the file that it is handed.
pub fn launch_for(
    w: &Workload,
    i: usize,
    share: usize,
    set: &Vec<usize>,
    prefix: &str,
    file: &str,
    site: &Site,
) -> (r: Result<Launch, PlanError>)
    ensures
        match r {
            Ok(l) => launch_of(*w, i, share, set@, prefix@, file@, *site) == Ok::<
                LaunchView,
                PlanError,
            >(l@),
            Err(e) => launch_of(*w, i, share, set@, prefix@, file@, *site) == Err::<
                LaunchView,
                PlanError,
            >(e),
        },
{
    match *w {
        Workload::Merci { runs, cores, delay } => {
            let dir = site.workload_path("MERCI/4_performance_evaluation/");
            let cores = match cores {
                Some(c) => c,
                None => share,
            };
            Ok(
                Launch::Shell(
                    merci_command(dir.as_str(), runs, cores, delay, prefix, file),
                ),
            )
        },
        Workload::GapbsTc { runs } => {
            let dir = site.workload_path("gapbs/");
            Ok(Launch::Shell(gapbs_tc_command(dir.as_str(), runs, prefix, file)))
        },
        Workload::GapbsPr { runs } => {
            let dir = site.workload_path("gapbs/");
            Ok(Launch::Shell(gapbs_pr_command(dir.as_str(), runs, prefix, file)))
        },
        Workload::Gups { threads, exp, hot_exp, num_updates } => {
            let dir = site.workload_path("gups_hemem/");
            Ok(
                Launch::Shell(
                    gups_command(
                        dir.as_str(),
                        threads,
                        exp,
                        hot_exp,
                        num_updates,
                        prefix,
                        file,
                    ),
                ),
            )
        },
        Workload::CloverLeaf { threads, delay } => {
            let dir = site.workload_path("CloverLeaf/");
            Ok(Launch::Shell(clover_command(dir.as_str(), delay, prefix, file)))
        },
        Workload::Redis { server_size_mb, op_count, load_before_wklds } => {
            if set.len() < 3 {
                return Err(PlanError::Allocation(AllocError::Insufficient { workload: i }));
            }
            let size_kb = match server_size_mb.checked_mul(1024) {
                Some(k) => k,
                None => {
                    return Err(PlanError::OutOfRange);
                },
            };
            Ok(
                Launch::Store(
                    StoreSetup {
                        server_size_mb,
                        working_set_gb: server_size_mb / 1024,
                        records: size_kb / RECORD_SIZE_KB,
                        operations: op_count,
                        server_core: set[0],
                        client_core: set[2],
                        prefix: String::from_str(prefix),
                        result_file: String::from_str(file),
                        load_first: load_before_wklds,
                        settle_seconds: SETTLE_SECONDS,
                    },
                ),
            )
        },
        Workload::Stream => {
            let dir = site.workload_path("stream/");
            Ok(Launch::Shell(stream_command(dir.as_str(), prefix, file)))
        },
        Workload::SpecBwaves { threads } => {
            let dir = site.workload_path("spec2017/");
            Ok(Launch::Shell(spec_command(dir.as_str(), "bwaves_s", threads, prefix, file)))
        },
        Workload::SpecLbm { threads } => {
            let dir = site.workload_path("spec2017/");
            Ok(Launch::Shell(spec_command(dir.as_str(), "lbm_s", threads, prefix, file)))
        },
    }
}

} // verus!

//! What stands in front of a workload's command line: the wrappers that time it, place
//! its memory, pin it and profile it, outermost first.

use vstd::prelude::*;
use vstd::string::StringExecFns;
use crate::config::{proc_name, process_name, Strategy, StrategyView, Workload};
use crate::cores::{id_list, id_list_string};
use crate::shell::{join_path, path};
use crate::site::Site;
use crate::text::{
    decimal, ends_plainly, is_digit, lemma_own_names_differ, lemma_own_names_stay, own_name,
    own_names, push_decimal, string_texts,
};

verus! {

/// The file that the perf tool records into.
pub open spec fn perf_record_file() -> Seq<char> {
    "/tmp/perf.data"@
}

/// The wrapper that times the workload and writes what it measured to `file`.
pub open spec fn time_wrapper(file: Seq<char>) -> Seq<char> {
    "/usr/bin/time -o "@ + file + " "@
}

/// The file of one workload among those that share the stem `stem`: the stem, a dot and
/// the name of the workload's process.
pub open spec fn per_process(stem: Seq<char>, process: Seq<char>) -> Seq<char> {
    stem + "."@ + process
}

/// The file of each process of `workloads` among those that share the stem `stem`.
pub open spec fn per_process_files(stem: Seq<char>, workloads: Seq<Workload>) -> Seq<Seq<char>> {
    Seq::new(workloads.len(), |k: int| per_process(stem, process_name(workloads[k])))
}

/// The file of workload number `i` among those that share the stem `stem`: the file of
/// its process, unless a workload before it in the run has the same process; then the
/// number of the workload is put behind it.
pub open spec fn workload_file(stem: Seq<char>, workloads: Seq<Workload>, i: int) -> Seq<char> {
    own_name(per_process_files(stem, workloads), i)
}

/// The file of each of `workloads` among those that share the stem `stem`.
pub open spec fn workload_files(stem: Seq<char>, workloads: Seq<Workload>) -> Seq<Seq<char>> {
    Seq::new(workloads.len(), |i: int| workload_file(stem, workloads, i))
}

/// Lists the file of each of `workloads` among those that share the stem `stem`.
pub fn workload_file_list(stem: &str, workloads: &Vec<Workload>) -> (r: Vec<String>)
    ensures
        r.len() == workloads.len(),
        string_texts(r@) == workload_files(stem@, workloads@),
{
    let n = workloads.len();
    let ghost all = per_process_files(stem@, workloads@);
    let mut files: Vec<String> = Vec::new();
    let mut k: usize = 0;
    while k < n
        invariant
            k <= n,
            n == workloads.len(),
            all == per_process_files(stem@, workloads@),
            files.len() == k,
            string_texts(files@) == all.take(k as int),
        decreases n - k,
    {
        let mut file = String::from_str(stem);
        file.append(".");
        file.append(proc_name(&workloads[k]));
        files.push(file);
        assert(string_texts(files@) =~= all.take(k as int).push(all[k as int]));
        assert(all.take(k + 1) =~= all.take(k as int).push(all[k as int]));
        k = k + 1;
    }
    assert(all.take(n as int) == all);
    let r = own_names(&files);
    assert(string_texts(r@) =~= workload_files(stem@, workloads@));
    r
}

/// The name of a process ends with a letter.
proof fn lemma_process_file_is_plain(stem: Seq<char>, w: Workload)
    ensures
        ends_plainly(per_process(stem, process_name(w))),
{
    reveal_strlit("eval_baseline");
    reveal_strlit("tc");
    reveal_strlit("pr");
    reveal_strlit("gups-hotset-mov");
    reveal_strlit("omp-cloverleaf");
    reveal_strlit("redis-server");
    reveal_strlit("stream");
    reveal_strlit("speed_bwaves_ba");
    reveal_strlit("lbm_s_base.mark");
    let p = process_name(w);
    assert(p.len() > 0 && !is_digit(p.last()));
    assert(per_process(stem, p).last() == p.last());
}

/// No two workloads of a run share such a file, whatever the stem.
pub proof fn lemma_workload_files_differ(
    stem: Seq<char>,
    workloads: Seq<Workload>,
    i: int,
    j: int,
)
    requires
        0 <= i < workloads.len(),
        0 <= j < workloads.len(),
        i != j,
    ensures
        workload_file(stem, workloads, i) != workload_file(stem, workloads, j),
{
    let files = per_process_files(stem, workloads);
    assert forall|k: int| 0 <= k < files.len() implies ends_plainly(#[trigger] files[k]) by {
        lemma_process_file_is_plain(stem, workloads[k]);
    }
    lemma_own_names_differ(files, i, j);
}

/// The file of a workload is the file of its process, where no workload before it in
/// the run has the same process name: names that differ already stay as they are.
pub proof fn lemma_workload_files_stay(stem: Seq<char>, workloads: Seq<Workload>, i: int)
    requires
        0 <= i < workloads.len(),
        forall|j: int|
            0 <= j < i ==> process_name(#[trigger] workloads[j]) != process_name(workloads[i]),
    ensures
        workload_file(stem, workloads, i) == per_process(stem, process_name(workloads[i])),
{
    let files = per_process_files(stem, workloads);
    assert forall|j: int| 0 <= j < i implies #[trigger] files[j] != files[i] by {
        let a = process_name(workloads[j]);
        let b = process_name(workloads[i]);
        if files[j] == files[i] {
            let head = stem + "."@;
            assert(a =~= files[j].subrange(head.len() as int, files[j].len() as int));
            assert(b =~= files[i].subrange(head.len() as int, files[i].len() as int));
        }
    }
    lemma_own_names_stay(files, i);
}

/// Where the bandwidth file system of workload `i` is mounted.
pub open spec fn mount_dir(home: Seq<char>, i: nat) -> Seq<char> {
    path(home, "bwmfs"@ + decimal(i + 1))
}

/// The wrapper that binds the workload to the file system mounted at `mount`.
pub open spec fn mount_wrapper(tools: Seq<char>, mount: Seq<char>) -> Seq<char> {
    tools + "/fbmm_wrapper "@ + mount + " "@
}

/// The wrapper that interleaves the workload's memory over both nodes by weight.
pub open spec fn interleave_wrapper(numactl: Seq<char>) -> Seq<char> {
    numactl + "/numactl -w 0,1 "@
}

/// The wrapper that prefers the local node for the workload's memory.
pub open spec fn prefer_local_wrapper() -> Seq<char> {
    "numactl --preferred=0 "@
}

/// The wrapper that pins the workload to `cores`.
pub open spec fn pin_wrapper(cores: Seq<usize>) -> Seq<char> {
    "taskset -c "@ + id_list(cores) + " "@
}

/// The wrapper that records a profile of the whole machine while the workload runs.
pub open spec fn record_wrapper() -> Seq<char> {
    "sudo perf record -a -g -F 1999 -o "@ + perf_record_file() + " "@
}

/// One wrapper in front of a workload's command line.
#[derive(Debug, Clone, PartialEq, Eq)]
pub enum Wrapper {
    /// Time the workload and write what was measured to `file`.
    Time { file: String },
    /// Bind the workload to the file system that is mounted at `mount`, by the tool in
    /// the directory `tools`.
    Mount { tools: String, mount: String },
    /// Interleave the workload's memory over both nodes by weight, by the launcher in
    /// the directory `numactl`.
    Interleave { numactl: String },
    /// Prefer the local node for the workload's memory.
    PreferLocal,
    /// Pin the workload to `cores`.
    Pin { cores: Vec<usize> },
    /// Count events while the workload runs; `text` is the whole wrapper.
    Counters { text: String },
    /// Record a profile of the whole machine while the workload runs.
    Record,
}

/// A wrapper as plain values.
pub enum WrapperView {
    Time { file: Seq<char> },
    Mount { tools: Seq<char>, mount: Seq<char> },
    Interleave { numactl: Seq<char> },
    PreferLocal,
    Pin { cores: Seq<usize> },
    Counters { text: Seq<char> },
    Record,
}

impl View for Wrapper {
    type V = WrapperView;

    open spec fn view(&self) -> WrapperView {
        match self {
            Wrapper::Time { file } => WrapperView::Time { file: file@ },
            Wrapper::Mount { tools, mount } => WrapperView::Mount { tools: tools@, mount: mount@ },
            Wrapper::Interleave { numactl } => WrapperView::Interleave { numactl: numactl@ },
            Wrapper::PreferLocal => WrapperView::PreferLocal,
            Wrapper::Pin { cores } => WrapperView::Pin { cores: cores@ },
            Wrapper::Counters { text } => WrapperView::Counters { text: text@ },
            Wrapper::Record => WrapperView::Record,
        }
    }
}

/// The wrappers that a list holds.
pub open spec fn wrapper_views(stages: Seq<Wrapper>) -> Seq<WrapperView> {
    stages.map_values(|w: Wrapper| w@)
}

/// What the wrapper `w` puts on the command line. Every wrapper ends with a blank, but
/// for the one that counts events, which is taken as it is given.
pub open spec fn wrapper_text(w: WrapperView) -> Seq<char> {
    match w {
        WrapperView::Time { file } => time_wrapper(file),
        WrapperView::Mount { tools, mount } => mount_wrapper(tools, mount),
        WrapperView::Interleave { numactl } => interleave_wrapper(numactl),
        WrapperView::PreferLocal => prefer_local_wrapper(),
        WrapperView::Pin { cores } => pin_wrapper(cores),
        WrapperView::Counters { text } => text,
        WrapperView::Record => record_wrapper(),
    }
}

/// The prefix `prefix` with the wrapper `w` behind it: `w` wraps what follows the
/// prefix and is wrapped by what stands in it.
pub open spec fn wrapped(prefix: Seq<char>, w: WrapperView) -> Seq<char> {
    prefix + wrapper_text(w)
}

/// The prefix that the wrappers `stages` make, the outermost first.
pub open spec fn composed(stages: Seq<WrapperView>) -> Seq<char>
    decreases stages.len(),
{
    if stages.len() == 0 {
        Seq::empty()
    } else {
        wrapped(composed(stages.drop_last()), stages.last())
    }
}

/// Puts the wrapper `w` behind the prefix `prefix`.
pub fn wrap(prefix: String, w: &Wrapper) -> (r: String)
    ensures
        r@ == wrapped(prefix@, w@),
{
    let mut r = prefix;
    match w {
        Wrapper::Time { file } => {
            r.append("/usr/bin/time -o ");
            r.append(file.as_str());
            r.append(" ");
        },
        Wrapper::Mount { tools, mount } => {
            r.append(tools.as_str());
            r.append("/fbmm_wrapper ");
            r.append(mount.as_str());
            r.append(" ");
        },
        Wrapper::Interleave { numactl } => {
            r.append(numactl.as_str());
            r.append("/numactl -w 0,1 ");
        },
        Wrapper::PreferLocal => {
            r.append("numactl --preferred=0 ");
        },
        Wrapper::Pin { cores } => {
            r.append("taskset -c ");
            let list = id_list_string(cores);
            r.append(list.as_str());
            r.append(" ");
        },
        Wrapper::Counters { text } => {
            r.append(text.as_str());
        },
        Wrapper::Record => {
            r.append("sudo perf record -a -g -F 1999 -o ");
            r.append("/tmp/perf.data");
            r.append(" ");
        },
    }
    r
}

/// Composes the prefix that the wrappers `stages` make, the outermost first.
pub fn compose(stages: &Vec<Wrapper>) -> (r: String)
    ensures
        r@ == composed(wrapper_views(stages@)),
{
    let n = stages.len();
    let ghost all = wrapper_views(stages@);
    let mut r = String::new();
    let mut i: usize = 0;
    assert(all.take(0) == Seq::<WrapperView>::empty());
    while i < n
        invariant
            i <= n,
            n == stages.len(),
            all == wrapper_views(stages@),
            r@ == composed(all.take(i as int)),
        decreases n - i,
    {
        assert(all.take(i + 1).drop_last() == all.take(i as int));
        r = wrap(r, &stages[i]);
        i = i + 1;
    }
    assert(all.take(n as int) == all);
    r
}

/// The wrapper that the strategy puts in front of workload `i`: its mount under the
/// per-mount strategy, the interleaving launcher under the weighted and the adaptive
/// strategy, a preference for the local node under the baseline, and none where the
/// kernel balances by itself.
pub open spec fn placement_wrapper(strategy: StrategyView, site: Site, i: nat) -> Option<
    WrapperView,
> {
    match strategy {
        StrategyView::Tpp => None,
        StrategyView::Colloid => None,
        StrategyView::Bwmfs { ratios } => if i < ratios.len() {
            Some(WrapperView::Mount { tools: site.tools_dir(), mount: mount_dir(site.home@, i) })
        } else {
            None
        },
        StrategyView::Numactl { .. } => Some(
            WrapperView::Interleave { numactl: site.numactl_dir() },
        ),
        StrategyView::Cipp { .. } => Some(WrapperView::Interleave { numactl: site.numactl_dir() }),
        StrategyView::Linux => Some(WrapperView::PreferLocal),
    }
}

/// Writes where the bandwidth file system of workload `i` is mounted.
pub(crate) fn mount_path(home: &str, i: usize) -> (r: String)
    requires
        i < usize::MAX,
    ensures
        r@ == mount_dir(home@, i as nat),
{
    let mut name = String::from_str("bwmfs");
    push_decimal(&mut name, (i + 1) as u64);
    join_path(home, name.as_str())
}

/// Gives the wrapper that the strategy puts in front of workload `i`.
pub fn placement(strategy: &Strategy, site: &Site, i: usize) -> (r: Option<Wrapper>)
    ensures
        match r {
            Some(w) => placement_wrapper(strategy@, *site, i as nat) == Some(w@),
            None => placement_wrapper(strategy@, *site, i as nat) is None,
        },
{
    match strategy {
        Strategy::Tpp => None,
        Strategy::Colloid => None,
        Strategy::Bwmfs { ratios } => {
            if i < ratios.len() {
                Some(
                    Wrapper::Mount {
                        tools: site.workspace_path("tools/"),
                        mount: mount_path(site.home.as_str(), i),
                    },
                )
            } else {
                None
            }
        },
        Strategy::Numactl { .. } => Some(
            Wrapper::Interleave { numactl: site.workspace_path("numactl/") },
        ),
        Strategy::Cipp { .. } => Some(
            Wrapper::Interleave { numactl: site.workspace_path("numactl/") },
        ),
        Strategy::Linux => Some(Wrapper::PreferLocal),
    }
}

/// One wrapper, or none.
pub open spec fn stage(w: Option<WrapperView>) -> Seq<WrapperView> {
    match w {
        Some(w) => seq![w],
        None => Seq::empty(),
    }
}

} // verus!

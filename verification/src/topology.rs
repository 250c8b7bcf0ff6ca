//! Which hardware threads sit on which socket, read from the processor report, and
//! the boot configuration that keeps a socket's threads away from the scheduler.

use vstd::prelude::*;
use vstd::string::StringExecFns;
use crate::cores::{id_list, id_list_string};
use crate::shell::{push_run, running, step_views, Step, StepView};
use crate::text::{
    fields, lines, parse_usize, parsed_usize, split_fields, split_lines, texts, to_chars, trim,
    trimmed,
};

verus! {

/// One hardware thread: its id, its core and the socket of that core.
#[derive(Debug, Clone, Copy, PartialEq, Eq)]
pub struct Cpu {
    pub thread: usize,
    pub core: usize,
    pub socket: usize,
}

/// The socket on which the workloads run.
pub const LOCAL_SOCKET: usize = 0;

/// The socket whose memory is the remote tier.
pub const REMOTE_SOCKET: usize = 1;

/// Why the processor report could not be read.
#[derive(Debug, Clone, Copy, PartialEq, Eq)]
pub enum TopologyError {
    /// A line that is no comment does not begin with three numbers.
    Malformed,
    /// Two threads that are to be handed out have the same id.
    DuplicateThread,
}

/// Whether the line `l` is a comment: a `#` stands in it.
pub open spec fn is_comment(l: Seq<char>) -> bool {
    l.contains('#')
}

/// The hardware thread that the line `l` describes: its first three fields, which
/// commas part, are the thread, the core and the socket.
pub open spec fn cpu_of(l: Seq<char>) -> Option<Cpu> {
    let f = fields(trimmed(l), ',');
    if f.len() >= 3 && parsed_usize(f[0]) is Some && parsed_usize(f[1]) is Some && parsed_usize(
        f[2],
    ) is Some {
        Some(
            Cpu {
                thread: parsed_usize(f[0])->0,
                core: parsed_usize(f[1])->0,
                socket: parsed_usize(f[2])->0,
            },
        )
    } else {
        None
    }
}

/// The hardware threads that the lines `ls` describe, in order, where every line that
/// is no comment describes one.
pub open spec fn cpus_of(ls: Seq<Seq<char>>) -> Option<Seq<Cpu>>
    decreases ls.len(),
{
    if ls.len() == 0 {
        Some(Seq::empty())
    } else {
        match cpus_of(ls.drop_last()) {
            None => None,
            Some(front) => if is_comment(ls.last()) {
                Some(front)
            } else {
                match cpu_of(ls.last()) {
                    Some(c) => Some(front.push(c)),
                    None => None,
                }
            },
        }
    }
}

/// The ids of the threads of `cpus` that sit on `socket`, in order.
pub open spec fn threads_on(cpus: Seq<Cpu>, socket: usize) -> Seq<usize>
    decreases cpus.len(),
{
    if cpus.len() == 0 {
        Seq::empty()
    } else if cpus.last().socket == socket {
        threads_on(cpus.drop_last(), socket).push(cpus.last().thread)
    } else {
        threads_on(cpus.drop_last(), socket)
    }
}

/// Tells whether `c` stands in `v`.
fn has_char(v: &Vec<char>, c: char) -> (r: bool)
    ensures
        r == v@.contains(c),
{
    let mut i: usize = 0;
    while i < v.len()
        invariant
            i <= v.len(),
            forall|j: int| 0 <= j < i ==> v@[j] != c,
        decreases v.len() - i,
    {
        if v[i] == c {
            return true;
        }
        i = i + 1;
    }
    false
}

/// Reads one line of the processor report.
fn parse_cpu(line: &Vec<char>) -> (r: Option<Cpu>)
    ensures
        r == cpu_of(line@),
{
    let t = trim(line);
    let f = split_fields(&t, ',');
    if f.len() < 3 {
        return None;
    }
    match (parse_usize(&f[0]), parse_usize(&f[1]), parse_usize(&f[2])) {
        (Some(thread), Some(core), Some(socket)) => Some(Cpu { thread, core, socket }),
        _ => None,
    }
}

/// Reads the processor report: one hardware thread for each line that is no comment.
pub fn parse_topology(lscpu: &str) -> (r: Result<Vec<Cpu>, TopologyError>)
    ensures
        match r {
            Ok(cpus) => cpus_of(lines(lscpu@)) == Some(cpus@),
            Err(e) => cpus_of(lines(lscpu@)) is None && e == TopologyError::Malformed,
        },
{
    let chars = to_chars(lscpu);
    let ls = split_lines(&chars);
    let ghost all = texts(ls@);
    let n = ls.len();
    let mut cpus: Vec<Cpu> = Vec::new();
    let mut i: usize = 0;
    while i < n
        invariant
            i <= n,
            n == ls.len(),
            all == texts(ls@),
            all == lines(lscpu@),
            cpus_of(all.take(i as int)) == Some(cpus@),
        decreases n - i,
    {
        proof {
            assert(all.take(i + 1).drop_last() == all.take(i as int));
        }
        if !has_char(&ls[i], '#') {
            match parse_cpu(&ls[i]) {
                Some(c) => {
                    cpus.push(c);
                },
                None => {
                    proof {
                        lemma_cpus_of_prefix(all, i + 1);
                    }
                    return Err(TopologyError::Malformed);
                },
            }
        }
        i = i + 1;
    }
    assert(all.take(n as int) == all);
    Ok(cpus)
}

/// Where a beginning of the report cannot be read, the report cannot be read.
proof fn lemma_cpus_of_prefix(ls: Seq<Seq<char>>, k: int)
    requires
        0 <= k <= ls.len(),
        cpus_of(ls.take(k)) is None,
    ensures
        cpus_of(ls) is None,
    decreases ls.len() - k,
{
    if k < ls.len() {
        assert(ls.take(k + 1).drop_last() == ls.take(k));
        lemma_cpus_of_prefix(ls, k + 1);
    } else {
        assert(ls.take(k) == ls);
    }
}

/// Picks the ids of the threads that sit on `socket`.
pub fn socket_threads(cpus: &Vec<Cpu>, socket: usize) -> (r: Vec<usize>)
    ensures
        r@ == threads_on(cpus@, socket),
{
    let n = cpus.len();
    let mut r: Vec<usize> = Vec::new();
    let mut i: usize = 0;
    while i < n
        invariant
            i <= n,
            n == cpus.len(),
            r@ == threads_on(cpus@.take(i as int), socket),
        decreases n - i,
    {
        assert(cpus@.take(i + 1).drop_last() == cpus@.take(i as int));
        if cpus[i].socket == socket {
            r.push(cpus[i].thread);
        }
        i = i + 1;
    }
    assert(cpus@.take(n as int) == cpus@);
    r
}

/// Reads from the processor report the ids of the threads that sit on `socket`.
pub fn get_socket_threads(lscpu: &str, socket: usize) -> (r: Result<Vec<usize>, TopologyError>)
    ensures
        match r {
            Ok(t) => cpus_of(lines(lscpu@)) matches Some(cpus) && t@ == threads_on(cpus, socket),
            Err(e) => cpus_of(lines(lscpu@)) is None && e == TopologyError::Malformed,
        },
{
    match parse_topology(lscpu) {
        Ok(cpus) => Ok(socket_threads(&cpus, socket)),
        Err(e) => Err(e),
    }
}

/// The steps that rewrite the boot configuration so that the threads `ids` are kept
/// away from the scheduler from the next boot on: show the file, drop what it isolated
/// before, add the new list, put the file back and regenerate the boot menu.
pub open spec fn isolation_plan(ids: Seq<usize>) -> Seq<StepView> {
    seq![
        running("cat /etc/default/grub"@),
        running("sed -E 's/ isolcpus=[0-9]+(,[0-9]+)*//g' \\\n        /etc/default/grub | tee /tmp/grub"@),
        running(
            "sed 's/GRUB_CMDLINE_LINUX=\"\\(.*\\)\"/GRUB_CMDLINE_LINUX=\"\\1 isolcpus="@ + id_list(
                ids,
            ) + "\"/' \\\n    /tmp/grub | tee /tmp/grub2"@,
        ),
        running("sudo mv /tmp/grub2 /etc/default/grub"@),
        running("sudo update-grub2"@),
    ]
}

/// Plans the isolation of the threads `ids`.
pub fn isolation_steps(ids: &Vec<usize>) -> (r: Vec<Step>)
    ensures
        step_views(r@) == isolation_plan(ids@),
{
    let mut steps: Vec<Step> = Vec::new();
    push_run(&mut steps, String::from_str("cat /etc/default/grub"));
    push_run(
        &mut steps,
        String::from_str(
            "sed -E 's/ isolcpus=[0-9]+(,[0-9]+)*//g' \\\n        /etc/default/grub | tee /tmp/grub",
        ),
    );
    let mut add = String::from_str(
        "sed 's/GRUB_CMDLINE_LINUX=\"\\(.*\\)\"/GRUB_CMDLINE_LINUX=\"\\1 isolcpus=",
    );
    let list = id_list_string(ids);
    add.append(list.as_str());
    add.append("\"/' \\\n    /tmp/grub | tee /tmp/grub2");
    push_run(&mut steps, add);
    push_run(&mut steps, String::from_str("sudo mv /tmp/grub2 /etc/default/grub"));
    push_run(&mut steps, String::from_str("sudo update-grub2"));
    steps
}

} // verus!

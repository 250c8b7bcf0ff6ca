//! The order in which the usable threads of a socket are handed out: physical cores in
//! the order of their ids, the hyperthreads of a core side by side or left out.

use vstd::prelude::*;
use crate::cores::ThreadOrder;
use crate::topology::{threads_on, Cpu, TopologyError};

verus! {

/// What is done with the hyperthreads of a core.
#[derive(Debug, Clone, Copy, PartialEq, Eq, Structural)]
pub enum Siblings {
    /// Only the first thread of each core is used.
    Skip,
    /// Every thread is used, and the threads of a core stand side by side.
    Group,
}

/// Whether `a` comes before `b`: on a core with a lower id, or on the same core with
/// a lower id of its own.
pub open spec fn before(a: Cpu, b: Cpu) -> bool {
    a.core < b.core || (a.core == b.core && a.thread < b.thread)
}

/// Whether `a` and `b` are the same thread of the same core.
pub open spec fn same_place(a: Cpu, b: Cpu) -> bool {
    a.core == b.core && a.thread == b.thread
}

/// Whether no thread of `cpus` on the core and socket of `c` has a lower id than `c`.
pub open spec fn first_of_core(cpus: Seq<Cpu>, c: Cpu) -> bool {
    forall|j: int|
        0 <= j < cpus.len() && (#[trigger] cpus[j]).socket == c.socket && cpus[j].core == c.core
            ==> c.thread <= cpus[j].thread
}

/// Whether the thread `c` of the topology is usable on `socket` under `policy`.
pub open spec fn usable(cpus: Seq<Cpu>, socket: usize, policy: Siblings, c: Cpu) -> bool {
    cpus.contains(c) && c.socket == socket && (policy == Siblings::Skip ==> first_of_core(cpus, c))
}

/// Whether `out` holds the thread of the core that `c` is.
pub open spec fn holds(out: Seq<Cpu>, c: Cpu) -> bool {
    exists|i: int| 0 <= i < out.len() && same_place(#[trigger] out[i], c)
}

/// Whether `out` is the order in which the usable threads of `socket` are handed out:
/// it holds usable threads of the topology only, each before the ones that come after
/// it, and it holds every thread of the topology that is usable.
pub open spec fn is_linear_order(
    cpus: Seq<Cpu>,
    socket: usize,
    policy: Siblings,
    out: Seq<Cpu>,
) -> bool {
    &&& forall|i: int| 0 <= i < out.len() ==> usable(cpus, socket, policy, #[trigger] out[i])
    &&& forall|i: int, j: int|
        0 <= i < j < out.len() ==> before(#[trigger] out[i], #[trigger] out[j])
    &&& forall|k: int|
        0 <= k < cpus.len() && usable(cpus, socket, policy, #[trigger] cpus[k]) ==> holds(
            out,
            cpus[k],
        )
}

/// The order in which the usable threads of `socket` are handed out.
pub open spec fn linear(cpus: Seq<Cpu>, socket: usize, policy: Siblings) -> Seq<Cpu> {
    choose|out: Seq<Cpu>| is_linear_order(cpus, socket, policy, out)
}

/// Up to index `i`, two orders of the same topology hold the same threads at the same
/// places.
proof fn lemma_orders_agree(
    cpus: Seq<Cpu>,
    socket: usize,
    policy: Siblings,
    a: Seq<Cpu>,
    b: Seq<Cpu>,
    i: int,
)
    requires
        is_linear_order(cpus, socket, policy, a),
        is_linear_order(cpus, socket, policy, b),
        0 <= i < a.len(),
    ensures
        i < b.len(),
        same_place(a[i], b[i]),
    decreases i,
{
    assert forall|m: int| 0 <= m < i implies m < b.len() && same_place(a[m], b[m]) by {
        lemma_orders_agree(cpus, socket, policy, a, b, m);
    }
    let ka = choose|k: int| 0 <= k < cpus.len() && cpus[k] == a[i];
    assert(holds(b, cpus[ka]));
    let j = choose|j: int| 0 <= j < b.len() && same_place(#[trigger] b[j], a[i]);
    if j < i {
        assert(same_place(a[j], b[j]));
        assert(before(a[j], a[i]));
    }
    assert(i < b.len());
    let kb = choose|k: int| 0 <= k < cpus.len() && cpus[k] == b[i];
    assert(holds(a, cpus[kb]));
    let k = choose|k: int| 0 <= k < a.len() && same_place(#[trigger] a[k], b[i]);
    if k < i {
        assert(same_place(a[k], b[k]));
        assert(before(b[k], b[i]));
    }
    if j > i {
        assert(before(b[i], b[j]));
        if k > i {
            assert(before(a[i], a[k]));
        }
    }
}

/// There is one order only: two orders of the same topology are the same.
pub proof fn lemma_linear_order_unique(
    cpus: Seq<Cpu>,
    socket: usize,
    policy: Siblings,
    a: Seq<Cpu>,
    b: Seq<Cpu>,
)
    requires
        is_linear_order(cpus, socket, policy, a),
        is_linear_order(cpus, socket, policy, b),
    ensures
        a == b,
{
    if a.len() < b.len() {
        lemma_orders_agree(cpus, socket, policy, b, a, a.len() as int);
    }
    if b.len() < a.len() {
        lemma_orders_agree(cpus, socket, policy, a, b, b.len() as int);
    }
    assert forall|i: int| 0 <= i < a.len() implies #[trigger] a[i] == b[i] by {
        lemma_orders_agree(cpus, socket, policy, a, b, i);
    }
    assert(a =~= b);
}

/// Tells whether no thread on the core and socket of `cpus[k]` has a lower id.
fn is_first_of_core(cpus: &Vec<Cpu>, k: usize) -> (r: bool)
    requires
        k < cpus.len(),
    ensures
        r == first_of_core(cpus@, cpus@[k as int]),
{
    let c = cpus[k];
    let mut j: usize = 0;
    while j < cpus.len()
        invariant
            j <= cpus.len(),
            k < cpus.len(),
            c == cpus@[k as int],
            forall|m: int|
                0 <= m < j && (#[trigger] cpus@[m]).socket == c.socket && cpus@[m].core == c.core
                    ==> c.thread <= cpus@[m].thread,
        decreases cpus.len() - j,
    {
        let d = cpus[j];
        if d.socket == c.socket && d.core == c.core && d.thread < c.thread {
            return false;
        }
        j = j + 1;
    }
    true
}

/// Tells whether `a` comes before `b`.
fn comes_before(a: &Cpu, b: &Cpu) -> (r: bool)
    ensures
        r == before(*a, *b),
{
    a.core < b.core || (a.core == b.core && a.thread < b.thread)
}

/// Puts the usable threads of `socket` into the order in which they are handed out:
/// the cores in the order of their ids, and the threads of one core in the order of
/// theirs. A thread that the topology lists twice is handed out once.
pub fn linear_order(cpus: &Vec<Cpu>, socket: usize, policy: Siblings) -> (r: Vec<Cpu>)
    ensures
        is_linear_order(cpus@, socket, policy, r@),
        r@ == linear(cpus@, socket, policy),
{
    let n = cpus.len();
    let mut out: Vec<Cpu> = Vec::new();
    let mut k: usize = 0;
    while k < n
        invariant
            k <= n,
            n == cpus.len(),
            forall|i: int| 0 <= i < out.len() ==> usable(cpus@, socket, policy, #[trigger] out@[i]),
            forall|i: int, j: int|
                0 <= i < j < out.len() ==> before(#[trigger] out@[i], #[trigger] out@[j]),
            forall|m: int|
                0 <= m < k && usable(cpus@, socket, policy, #[trigger] cpus@[m]) ==> holds(
                    out@,
                    cpus@[m],
                ),
        decreases n - k,
    {
        let c = cpus[k];
        let fits = c.socket == socket && match policy {
            Siblings::Skip => is_first_of_core(cpus, k),
            Siblings::Group => true,
        };
        if fits {
            let mut p: usize = 0;
            while p < out.len() && comes_before(&out[p], &c)
                invariant
                    p <= out.len(),
                    forall|i: int| 0 <= i < p ==> before(#[trigger] out@[i], c),
                decreases out.len() - p,
            {
                p = p + 1;
            }
            let present = p < out.len() && out[p].core == c.core && out[p].thread == c.thread;
            if !present {
                let ghost old_out = out@;
                out.insert(p, c);
                proof {
                    assert(out@ == old_out.insert(p as int, c));
                    assert(out@[p as int] == c);
                    assert(cpus@.contains(c));
                    assert forall|i: int| 0 <= i < out.len() implies usable(
                        cpus@,
                        socket,
                        policy,
                        #[trigger] out@[i],
                    ) by {
                        if i < p {
                            assert(out@[i] == old_out[i]);
                        } else if i > p {
                            assert(out@[i] == old_out[i - 1]);
                        }
                    }
                    assert forall|i: int, j: int| 0 <= i < j < out.len() implies before(
                        #[trigger] out@[i],
                        #[trigger] out@[j],
                    ) by {
                        if i < p {
                            assert(out@[i] == old_out[i]);
                        } else if i > p {
                            assert(out@[i] == old_out[i - 1]);
                        }
                        if j < p {
                            assert(out@[j] == old_out[j]);
                        } else if j > p {
                            assert(out@[j] == old_out[j - 1]);
                            if p < old_out.len() && j - 1 > p {
                                assert(before(old_out[p as int], old_out[j - 1]));
                            }
                        }
                    }
                    assert forall|m: int|
                        0 <= m < k + 1 && usable(
                            cpus@,
                            socket,
                            policy,
                            #[trigger] cpus@[m],
                        ) implies holds(out@, cpus@[m]) by {
                        if m < k {
                            let i = choose|i: int|
                                0 <= i < old_out.len() && same_place(
                                    #[trigger] old_out[i],
                                    cpus@[m],
                                );
                            if i < p {
                                assert(same_place(out@[i], cpus@[m]));
                            } else {
                                assert(out@[i + 1] == old_out[i]);
                                assert(same_place(out@[i + 1], cpus@[m]));
                            }
                        } else {
                            assert(same_place(out@[p as int], cpus@[m]));
                        }
                    }
                }
            } else {
                assert(same_place(out@[p as int], cpus@[k as int]));
            }
        }
        k = k + 1;
    }
    proof {
        assert(is_linear_order(cpus@, socket, policy, out@));
        let other = linear(cpus@, socket, policy);
        assert(is_linear_order(cpus@, socket, policy, other));
        lemma_linear_order_unique(cpus@, socket, policy, out@, other);
    }
    out
}

/// The threads of `cpus` that sit on `socket` are those that a line of the topology
/// names with that socket.
pub proof fn lemma_threads_on(cpus: Seq<Cpu>, socket: usize, t: usize)
    ensures
        threads_on(cpus, socket).contains(t) <==> exists|k: int|
            0 <= k < cpus.len() && (#[trigger] cpus[k]).socket == socket && cpus[k].thread == t,
    decreases cpus.len(),
{
    if cpus.len() > 0 {
        let front = cpus.drop_last();
        let n = cpus.len() - 1;
        lemma_threads_on(front, socket, t);
        if threads_on(cpus, socket).contains(t) {
            let p = choose|p: int|
                0 <= p < threads_on(cpus, socket).len() && threads_on(cpus, socket)[p] == t;
            if cpus.last().socket == socket && p == threads_on(front, socket).len() {
                assert(cpus[n].socket == socket && cpus[n].thread == t);
            } else {
                assert(threads_on(front, socket)[p] == t);
                let k = choose|k: int|
                    0 <= k < front.len() && (#[trigger] front[k]).socket == socket && front[k].thread
                        == t;
                assert(cpus[k] == front[k]);
            }
        }
        if exists|k: int|
            0 <= k < cpus.len() && (#[trigger] cpus[k]).socket == socket && cpus[k].thread == t {
            let k = choose|k: int|
                0 <= k < cpus.len() && (#[trigger] cpus[k]).socket == socket && cpus[k].thread == t;
            if k < n {
                assert(front[k] == cpus[k]);
                let p = choose|p: int|
                    0 <= p < threads_on(front, socket).len() && threads_on(front, socket)[p] == t;
                assert(threads_on(cpus, socket)[p] == t);
            } else {
                assert(threads_on(cpus, socket).last() == t);
            }
        }
    }
}

/// Where the hyperthreads are grouped, the threads that are handed out are the
/// threads of the socket, every one of them and no other.
pub proof fn lemma_grouped_order_is_the_socket(
    cpus: Seq<Cpu>,
    socket: usize,
    out: Seq<Cpu>,
    t: usize,
)
    requires
        is_linear_order(cpus, socket, Siblings::Group, out),
    ensures
        thread_ids(out).contains(t) <==> threads_on(cpus, socket).contains(t),
{
    lemma_threads_on(cpus, socket, t);
    if thread_ids(out).contains(t) {
        let p = choose|p: int| 0 <= p < thread_ids(out).len() && thread_ids(out)[p] == t;
        assert(usable(cpus, socket, Siblings::Group, out[p]));
        let k = choose|k: int| 0 <= k < cpus.len() && cpus[k] == out[p];
        assert(cpus[k].socket == socket && cpus[k].thread == t);
    }
    if threads_on(cpus, socket).contains(t) {
        let k = choose|k: int|
            0 <= k < cpus.len() && (#[trigger] cpus[k]).socket == socket && cpus[k].thread == t;
        assert(usable(cpus, socket, Siblings::Group, cpus[k]));
        assert(holds(out, cpus[k]));
        let i = choose|i: int| 0 <= i < out.len() && same_place(#[trigger] out[i], cpus[k]);
        assert(thread_ids(out)[i] == t);
    }
}

/// Where the hyperthreads are skipped, no two threads that are handed out sit on the
/// same core.
pub proof fn lemma_skipped_order_has_one_thread_of_each_core(
    cpus: Seq<Cpu>,
    socket: usize,
    out: Seq<Cpu>,
    i: int,
    j: int,
)
    requires
        is_linear_order(cpus, socket, Siblings::Skip, out),
        0 <= i < j < out.len(),
    ensures
        out[i].core != out[j].core,
{
    assert(usable(cpus, socket, Siblings::Skip, out[i]));
    assert(usable(cpus, socket, Siblings::Skip, out[j]));
    assert(before(out[i], out[j]));
    if out[i].core == out[j].core {
        let ki = choose|k: int| 0 <= k < cpus.len() && cpus[k] == out[i];
        let kj = choose|k: int| 0 <= k < cpus.len() && cpus[k] == out[j];
        assert(out[j].thread <= cpus[ki].thread);
        assert(out[i].thread <= cpus[kj].thread);
    }
}

/// The ids of the threads of `order`, in order.
pub open spec fn thread_ids(order: Seq<Cpu>) -> Seq<usize> {
    order.map_values(|c: Cpu| c.thread)
}

/// Gives the ids of the usable threads of `socket` in the order in which they are
/// handed out, unless two of them have the same id.
pub fn thread_order(cpus: &Vec<Cpu>, socket: usize, policy: Siblings) -> (r: Result<
    ThreadOrder,
    TopologyError,
>)
    ensures
        match r {
            Ok(o) => o@ == thread_ids(linear(cpus@, socket, policy)),
            Err(e) => e == TopologyError::DuplicateThread && !thread_ids(
                linear(cpus@, socket, policy),
            ).no_duplicates(),
        },
{
    let order = linear_order(cpus, socket, policy);
    let n = order.len();
    let mut ids: Vec<usize> = Vec::new();
    let mut i: usize = 0;
    while i < n
        invariant
            i <= n,
            n == order.len(),
            ids@ == thread_ids(order@).take(i as int),
        decreases n - i,
    {
        ids.push(order[i].thread);
        assert(ids@ == thread_ids(order@).take(i + 1));
        i = i + 1;
    }
    assert(thread_ids(order@).take(n as int) == thread_ids(order@));
    match ThreadOrder::new(ids) {
        Some(o) => Ok(o),
        None => Err(TopologyError::DuplicateThread),
    }
}

/// Gives the thread of `socket` that is handed out first, where the socket has a
/// thread: the thread that watches from there.
pub fn first_thread(cpus: &Vec<Cpu>, socket: usize, policy: Siblings) -> (r: Option<usize>)
    ensures
        r == (if linear(cpus@, socket, policy).len() > 0 {
            Some(linear(cpus@, socket, policy)[0].thread)
        } else {
            None
        }),
{
    let order = linear_order(cpus, socket, policy);
    if order.len() > 0 {
        Some(order[0].thread)
    } else {
        None
    }
}

} // verus!

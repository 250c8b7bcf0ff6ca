//! Hardware threads of one NUMA node, dealt out to workloads in disjoint sets.

use vstd::prelude::*;
use crate::text::{decimal, joined, push_decimal};

verus! {

/// Why an allocation was refused.
#[derive(Debug, Clone, Copy, PartialEq, Eq, Structural)]
pub enum AllocError {
    /// The ordering ran out before the demand of this workload was met.
    Insufficient { workload: usize },
}

/// The usable hardware threads of the target node in the order in which they are
/// handed out. No id occurs twice.
#[derive(Debug)]
pub struct ThreadOrder {
    ids: Vec<usize>,
}

impl View for ThreadOrder {
    type V = Seq<usize>;

    closed spec fn view(&self) -> Seq<usize> {
        self.ids@
    }
}

impl ThreadOrder {
    #[verifier::type_invariant]
    spec fn distinct(&self) -> bool {
        self.ids@.no_duplicates()
    }

    /// Takes `ids` as the ordering, unless an id occurs twice in it.
    pub fn new(ids: Vec<usize>) -> (r: Option<ThreadOrder>)
        ensures
            r is Some <==> ids@.no_duplicates(),
            r matches Some(o) ==> o@ == ids@,
    {
        let n = ids.len();
        let mut i: usize = 0;
        while i < n
            invariant
                i <= n,
                n == ids.len(),
                forall|a: int, b: int| 0 <= a < b < i ==> ids@[a] != ids@[b],
            decreases n - i,
        {
            let mut j: usize = 0;
            while j < i
                invariant
                    j <= i < n,
                    n == ids.len(),
                    forall|a: int| 0 <= a < j ==> ids@[a] != ids@[i as int],
                decreases i - j,
            {
                if ids[j] == ids[i] {
                    return None;
                }
                j = j + 1;
            }
            i = i + 1;
        }
        Some(ThreadOrder { ids })
    }

    /// The number of threads.
    pub fn len(&self) -> (n: usize)
        ensures
            n == self@.len(),
    {
        self.ids.len()
    }

    /// The ids, in order.
    pub fn ids(&self) -> (r: &Vec<usize>)
        ensures
            r@ == self@,
            r@.no_duplicates(),
    {
        proof {
            use_type_invariant(self);
        }
        &self.ids
    }
}

/// The threads that the workloads ask for, all together.
pub open spec fn total(demands: Seq<usize>) -> nat
    decreases demands.len(),
{
    if demands.len() == 0 {
        0
    } else {
        total(demands.drop_last()) + demands.last() as nat
    }
}

/// Where in the ordering the set of workload `i` begins.
pub open spec fn offset(demands: Seq<usize>, i: int) -> nat {
    total(demands.take(i))
}

/// The set of workload `i`: the next `demands[i]` threads of the ordering.
pub open spec fn core_set(order: Seq<usize>, demands: Seq<usize>, i: int) -> Seq<usize> {
    order.subrange(offset(demands, i) as int, offset(demands, i + 1) as int)
}

/// The threads that no workload got.
pub open spec fn reserve_set(order: Seq<usize>, demands: Seq<usize>) -> Seq<usize> {
    order.skip(total(demands) as int)
}

/// The first workload whose demand `avail` threads do not meet, counting from the
/// front of `demands`.
pub open spec fn first_unmet(avail: int, demands: Seq<usize>) -> int
    decreases demands.len(),
{
    if demands.len() == 0 || demands.first() > avail {
        0
    } else {
        1 + first_unmet(avail - demands.first(), demands.drop_first())
    }
}

/// One set of threads for each workload, and the rest.
#[derive(Debug, Clone, PartialEq, Eq)]
pub struct Allocation {
    pub sets: Vec<Vec<usize>>,
    pub reserve: Vec<usize>,
}

/// An allocation as plain values.
pub struct AllocationView {
    pub sets: Seq<Seq<usize>>,
    pub reserve: Seq<usize>,
}

impl View for Allocation {
    type V = AllocationView;

    open spec fn view(&self) -> AllocationView {
        AllocationView { sets: self.sets@.map_values(|s: Vec<usize>| s@), reserve: self.reserve@ }
    }
}

/// The allocation of `order` to `demands`, taken in order.
pub open spec fn allocation_of(order: Seq<usize>, demands: Seq<usize>) -> AllocationView {
    AllocationView {
        sets: Seq::new(demands.len(), |i: int| core_set(order, demands, i)),
        reserve: reserve_set(order, demands),
    }
}

/// What allocating `order` to `demands` comes to: every demand met, or none.
pub open spec fn outcome(order: Seq<usize>, demands: Seq<usize>) -> Result<
    AllocationView,
    AllocError,
> {
    if total(demands) <= order.len() {
        Ok(allocation_of(order, demands))
    } else {
        Err(AllocError::Insufficient { workload: first_unmet(order.len() as int, demands) as usize })
    }
}

/// Adding a workload does not lower the total.
pub proof fn lemma_total_take(demands: Seq<usize>, i: int)
    requires
        0 <= i <= demands.len(),
    ensures
        offset(demands, i) <= total(demands),
        i < demands.len() ==> offset(demands, i + 1) == offset(demands, i) + demands[i],
    decreases demands.len() - i,
{
    if i < demands.len() {
        assert(demands.take(i + 1).drop_last() == demands.take(i));
        lemma_total_take(demands, i + 1);
    } else {
        assert(demands.take(i) == demands);
    }
}

/// The first unmet workload is the one at which the running total passes `avail`.
proof fn lemma_first_unmet(avail: int, demands: Seq<usize>, i: int)
    requires
        0 <= i < demands.len(),
        offset(demands, i) <= avail < offset(demands, i + 1),
    ensures
        first_unmet(avail, demands) == i,
    decreases i,
{
    lemma_total_take(demands, 0);
    assert(demands.take(0) == Seq::<usize>::empty());
    assert(offset(demands, 1) == demands[0]);
    if i > 0 {
        let rest = demands.drop_first();
        lemma_total_shift(demands, i);
        lemma_total_shift(demands, i + 1);
        lemma_total_take(demands, i);
        lemma_offset_monotone(demands, 1, i);
        lemma_first_unmet(avail - demands[0], rest, i - 1);
    }
}

/// The total over the first `i` workloads is the first demand plus the total over the
/// `i - 1` that follow it.
proof fn lemma_total_shift(demands: Seq<usize>, i: int)
    requires
        1 <= i <= demands.len(),
    ensures
        offset(demands, i) == demands[0] + offset(demands.drop_first(), i - 1),
    decreases i,
{
    let rest = demands.drop_first();
    if i == 1 {
        assert(demands.take(1).drop_last() == Seq::<usize>::empty());
        assert(rest.take(0) == Seq::<usize>::empty());
    } else {
        lemma_total_shift(demands, i - 1);
        assert(demands.take(i).drop_last() == demands.take(i - 1));
        assert(rest.take(i - 1).drop_last() == rest.take(i - 2));
    }
}

/// Offsets grow with the index.
pub proof fn lemma_offset_monotone(demands: Seq<usize>, i: int, j: int)
    requires
        0 <= i <= j <= demands.len(),
    ensures
        offset(demands, i) <= offset(demands, j),
    decreases j - i,
{
    if i < j {
        lemma_offset_monotone(demands, i, j - 1);
        lemma_total_take(demands, j - 1);
    }
}

/// The threads of a node while they are dealt out. What was handed out lies before the
/// cursor, what can still be handed out lies behind it.
#[derive(Debug)]
pub struct CoreAllocator {
    ids: Vec<usize>,
    cursor: usize,
}

/// The state of an allocator as plain values.
pub struct AllocatorView {
    /// Every thread of the node, in the order in which they are handed out.
    pub order: Seq<usize>,
    /// How many of them were handed out.
    pub cursor: nat,
}

impl View for CoreAllocator {
    type V = AllocatorView;

    closed spec fn view(&self) -> AllocatorView {
        AllocatorView { order: self.ids@, cursor: self.cursor as nat }
    }
}

impl CoreAllocator {
    #[verifier::type_invariant]
    spec fn within(&self) -> bool {
        self.cursor <= self.ids.len() && self.ids@.no_duplicates()
    }

    /// An allocator that has handed out nothing of `order` yet.
    pub fn new(order: &ThreadOrder) -> (r: CoreAllocator)
        ensures
            r@.order == order@,
            r@.order.no_duplicates(),
            r@.cursor == 0,
    {
        let ids = order.ids();
        CoreAllocator { ids: copy_ids(ids, 0, ids.len()), cursor: 0 }
    }

    /// How many threads can still be handed out.
    pub fn remaining(&self) -> (n: usize)
        ensures
            n == self@.order.len() - self@.cursor,
            self@.cursor <= self@.order.len(),
    {
        proof {
            use_type_invariant(self);
        }
        self.ids.len() - self.cursor
    }

    /// Hands out the next `demand` threads, or nothing at all where fewer are left.
    pub fn take(&mut self, demand: usize) -> (r: Option<Vec<usize>>)
        ensures
            final(self)@.order == old(self)@.order,
            old(self)@.cursor <= old(self)@.order.len(),
            old(self)@.order.no_duplicates(),
            match r {
                Some(set) => old(self)@.cursor + demand <= old(self)@.order.len() && set@ == old(
                    self,
                )@.order.subrange(
                    old(self)@.cursor as int,
                    old(self)@.cursor + demand,
                ) && final(self)@.cursor == old(self)@.cursor + demand,
                None => old(self)@.cursor + demand > old(self)@.order.len() && final(self)@.cursor
                    == old(self)@.cursor,
            },
    {
        proof {
            use_type_invariant(&*self);
        }
        if demand > self.ids.len() - self.cursor {
            return None;
        }
        let set = copy_ids(&self.ids, self.cursor, self.cursor + demand);
        self.cursor = self.cursor + demand;
        Some(set)
    }

    /// Ends the dealing and gives what was not handed out.
    pub fn finish(self) -> (r: Vec<usize>)
        ensures
            r@ == self@.order.skip(self@.cursor as int),
    {
        proof {
            use_type_invariant(&self);
        }
        copy_ids(&self.ids, self.cursor, self.ids.len())
    }
}

/// Deals the threads of `order` out to the workloads, `demands[i]` threads to workload
/// `i`, each set taken from the ordering where the one before ended. What is left over
/// is the reserve. Where the ordering is too short nothing is allocated. What is
/// allocated parts the ordering: no thread goes to two places, and none is left out.
pub fn allocate(order: &ThreadOrder, demands: &Vec<usize>) -> (r: Result<Allocation, AllocError>)
    ensures
        match r {
            Ok(a) => outcome(order@, demands@) == Ok::<AllocationView, AllocError>(a@)
                && parts(a@, order@, demands@),
            Err(e) => outcome(order@, demands@) == Err::<AllocationView, AllocError>(e) && total(
                demands@,
            ) > order@.len(),
        },
{
    let n = demands.len();
    let mut dealer = CoreAllocator::new(order);
    let mut sets: Vec<Vec<usize>> = Vec::new();
    let mut i: usize = 0;
    assert(demands@.take(0) == Seq::<usize>::empty());
    while i < n
        invariant
            i <= n,
            n == demands.len(),
            dealer@.order == order@,
            dealer@.cursor == offset(demands@, i as int),
            dealer@.cursor <= order@.len(),
            sets.len() == i,
            forall|j: int| 0 <= j < i ==> (#[trigger] sets@[j])@ == core_set(order@, demands@, j),
        decreases n - i,
    {
        proof {
            lemma_total_take(demands@, i as int);
        }
        match dealer.take(demands[i]) {
            Some(set) => {
                sets.push(set);
            },
            None => {
                proof {
                    lemma_total_take(demands@, i + 1);
                    lemma_first_unmet(order@.len() as int, demands@, i as int);
                }
                return Err(AllocError::Insufficient { workload: i });
            },
        }
        i = i + 1;
    }
    assert(demands@.take(n as int) == demands@);
    let reserve = dealer.finish();
    let a = Allocation { sets, reserve };
    assert(a@.sets =~= allocation_of(order@, demands@).sets);
    proof {
        lemma_allocation_partitions(order@, demands@);
    }
    Ok(a)
}

/// The ids of `v` from index `from` up to, not including, index `to`.
fn copy_ids(v: &Vec<usize>, from: usize, to: usize) -> (r: Vec<usize>)
    requires
        from <= to <= v.len(),
    ensures
        r@ == v@.subrange(from as int, to as int),
{
    let mut r: Vec<usize> = Vec::new();
    let mut i: usize = from;
    while i < to
        invariant
            from <= i <= to <= v.len(),
            r@ == v@.subrange(from as int, i as int),
        decreases to - i,
    {
        r.push(v[i]);
        i = i + 1;
    }
    r
}

/// Whether no id stands in both `a` and `b`.
pub open spec fn disjoint(a: Seq<usize>, b: Seq<usize>) -> bool {
    forall|p: int, q: int| 0 <= p < a.len() && 0 <= q < b.len() ==> a[p] != b[q]
}

/// Whether `x` went to a workload or to the reserve.
pub open spec fn placed(a: AllocationView, x: usize) -> bool {
    a.reserve.contains(x) || exists|i: int| 0 <= i < a.sets.len() && (#[trigger] a.sets[i]).contains(x)
}

/// The workload into whose share of the ordering index `k` falls.
proof fn lemma_find_set(demands: Seq<usize>, k: int) -> (i: int)
    requires
        0 <= k < total(demands),
    ensures
        0 <= i < demands.len(),
        offset(demands, i) <= k < offset(demands, i + 1),
    decreases demands.len(),
{
    let n = demands.len() as int;
    let front = demands.drop_last();
    assert(demands.take(n) == demands);
    assert(demands.take(n - 1) == front);
    if k >= total(front) {
        n - 1
    } else {
        let i = lemma_find_set(front, k);
        assert(front.take(i) == demands.take(i));
        assert(front.take(i + 1) == demands.take(i + 1));
        i
    }
}

/// Whether `a` parts the threads of `order` among the workloads and the reserve: each
/// workload has exactly as many threads as it asked for, no thread is in two sets or in
/// a set and in the reserve, and the sets and the reserve together hold the threads of
/// the ordering and no others.
pub open spec fn parts(a: AllocationView, order: Seq<usize>, demands: Seq<usize>) -> bool {
    &&& a.sets.len() == demands.len()
    &&& forall|i: int| 0 <= i < demands.len() ==> (#[trigger] a.sets[i]).len() == demands[i]
    &&& forall|i: int, j: int|
        0 <= i < j < demands.len() ==> disjoint(#[trigger] a.sets[i], #[trigger] a.sets[j])
    &&& forall|i: int| 0 <= i < demands.len() ==> disjoint(#[trigger] a.sets[i], a.reserve)
    &&& forall|k: int| 0 <= k < order.len() ==> placed(a, #[trigger] order[k])
    &&& forall|x: usize| placed(a, x) ==> order.contains(x)
    &&& total(demands) + a.reserve.len() == order.len()
}

/// Where the demands sum to no more than the ordering holds, every demand is met: each
/// workload gets exactly as many threads as it asked for, no thread goes to two
/// workloads or to a workload and the reserve, and the sets and the reserve together
/// are the threads of the ordering, each of them once.
pub proof fn lemma_allocation_partitions(order: Seq<usize>, demands: Seq<usize>)
    requires
        order.no_duplicates(),
        total(demands) <= order.len(),
    ensures
        outcome(order, demands) == Ok::<AllocationView, AllocError>(allocation_of(order, demands)),
        parts(allocation_of(order, demands), order, demands),
{
    let a = allocation_of(order, demands);
    assert forall|i: int| 0 <= i < demands.len() implies (#[trigger] a.sets[i]).len()
        == demands[i] by {
        lemma_set_elements(order, demands, i);
    }
    assert forall|i: int, j: int| 0 <= i < j < demands.len() implies disjoint(
        #[trigger] a.sets[i],
        #[trigger] a.sets[j],
    ) by {
        lemma_sets_disjoint(order, demands, i, j);
    }
    assert forall|i: int| 0 <= i < demands.len() implies disjoint(
        #[trigger] a.sets[i],
        a.reserve,
    ) by {
        lemma_reserve_disjoint(order, demands, i);
    }
    assert forall|k: int| 0 <= k < order.len() implies placed(a, #[trigger] order[k]) by {
        lemma_thread_placed(order, demands, k);
    }
    assert forall|x: usize| placed(a, x) implies order.contains(x) by {
        lemma_placed_thread(order, demands, x);
    }
}

/// The set of workload `i` holds the threads at the indices from its offset on, as many
/// as the workload asked for.
proof fn lemma_set_elements(order: Seq<usize>, demands: Seq<usize>, i: int)
    requires
        total(demands) <= order.len(),
        0 <= i < demands.len(),
    ensures
        offset(demands, i) + demands[i] == offset(demands, i + 1),
        offset(demands, i + 1) <= total(demands),
        core_set(order, demands, i).len() == demands[i],
        forall|p: int|
            0 <= p < demands[i] ==> #[trigger] core_set(order, demands, i)[p] == order[offset(
                demands,
                i,
            ) + p],
{
    lemma_total_take(demands, i);
    lemma_total_take(demands, i + 1);
}

proof fn lemma_sets_disjoint(order: Seq<usize>, demands: Seq<usize>, i: int, j: int)
    requires
        order.no_duplicates(),
        total(demands) <= order.len(),
        0 <= i < j < demands.len(),
    ensures
        disjoint(core_set(order, demands, i), core_set(order, demands, j)),
{
    lemma_set_elements(order, demands, i);
    lemma_set_elements(order, demands, j);
    lemma_offset_monotone(demands, i + 1, j);
    let a = core_set(order, demands, i);
    let b = core_set(order, demands, j);
    assert forall|p: int, q: int| 0 <= p < a.len() && 0 <= q < b.len() implies a[p] != b[q] by {
        assert(a[p] == order[offset(demands, i) + p]);
        assert(b[q] == order[offset(demands, j) + q]);
    }
}

proof fn lemma_reserve_disjoint(order: Seq<usize>, demands: Seq<usize>, i: int)
    requires
        order.no_duplicates(),
        total(demands) <= order.len(),
        0 <= i < demands.len(),
    ensures
        disjoint(core_set(order, demands, i), reserve_set(order, demands)),
{
    lemma_set_elements(order, demands, i);
    let a = core_set(order, demands, i);
    let b = reserve_set(order, demands);
    assert forall|p: int, q: int| 0 <= p < a.len() && 0 <= q < b.len() implies a[p] != b[q] by {
        assert(a[p] == order[offset(demands, i) + p]);
        assert(b[q] == order[total(demands) + q]);
    }
}

proof fn lemma_thread_placed(order: Seq<usize>, demands: Seq<usize>, k: int)
    requires
        total(demands) <= order.len(),
        0 <= k < order.len(),
    ensures
        placed(allocation_of(order, demands), order[k]),
{
    let a = allocation_of(order, demands);
    if k >= total(demands) {
        assert(a.reserve[k - total(demands)] == order[k]);
    } else {
        let i = lemma_find_set(demands, k);
        lemma_set_elements(order, demands, i);
        assert(a.sets[i][k - offset(demands, i)] == order[k]);
        assert(a.sets[i].contains(order[k]));
    }
}

proof fn lemma_placed_thread(order: Seq<usize>, demands: Seq<usize>, x: usize)
    requires
        total(demands) <= order.len(),
        placed(allocation_of(order, demands), x),
    ensures
        order.contains(x),
{
    let a = allocation_of(order, demands);
    if a.reserve.contains(x) {
        let q = choose|q: int| 0 <= q < a.reserve.len() && a.reserve[q] == x;
        assert(order[total(demands) + q] == x);
    } else {
        let i = choose|i: int| 0 <= i < a.sets.len() && (#[trigger] a.sets[i]).contains(x);
        lemma_set_elements(order, demands, i);
        let p = choose|p: int| 0 <= p < a.sets[i].len() && a.sets[i][p] == x;
        assert(order[offset(demands, i) + p] == x);
    }
}

/// Where the demands sum to more than the ordering holds, nothing is allocated.
pub proof fn lemma_excess_demand_fails(order: Seq<usize>, demands: Seq<usize>)
    requires
        total(demands) > order.len(),
    ensures
        outcome(order, demands) is Err,
{
}

/// The same ordering and the same demands give the same sets and the same reserve.
pub proof fn lemma_allocation_deterministic(
    order1: Seq<usize>,
    demands1: Seq<usize>,
    order2: Seq<usize>,
    demands2: Seq<usize>,
)
    requires
        order1.len() == order2.len(),
        forall|k: int| 0 <= k < order1.len() ==> order1[k] == order2[k],
        demands1.len() == demands2.len(),
        forall|i: int| 0 <= i < demands1.len() ==> demands1[i] == demands2[i],
    ensures
        outcome(order1, demands1) == outcome(order2, demands2),
{
    assert(order1 =~= order2);
    assert(demands1 =~= demands2);
}

/// The ids of `ids` as decimal numerals with commas between them.
pub open spec fn id_list(ids: Seq<usize>) -> Seq<char> {
    joined(ids.map_values(|i: usize| decimal(i as nat)), seq![','])
}

/// Writes the ids of `ids` as decimal numerals with commas between them.
pub fn id_list_string(ids: &Vec<usize>) -> (r: String)
    ensures
        r@ == id_list(ids@),
{
    let n = ids.len();
    let mut r = String::new();
    let mut i: usize = 0;
    let ghost all = ids@.map_values(|i: usize| decimal(i as nat));
    assert(all.take(0) == Seq::<Seq<char>>::empty());
    while i < n
        invariant
            i <= n,
            n == ids.len(),
            all == ids@.map_values(|i: usize| decimal(i as nat)),
            r@ == joined(all.take(i as int), seq![',']),
        decreases n - i,
    {
        proof {
            assert(all.take(i + 1).drop_last() == all.take(i as int));
            assert(all.take(i + 1).last() == decimal(ids@[i as int] as nat));
        }
        if i > 0 {
            r.push(',');
        }
        push_decimal(&mut r, ids[i] as u64);
        i = i + 1;
    }
    assert(all.take(n as int) == all);
    r
}

/// Every thread of an allocation in one list: the sets in order, then the reserve.
pub open spec fn all_ids(a: AllocationView) -> Seq<char> {
    let pinned = joined(a.sets.map_values(|s: Seq<usize>| id_list(s)), seq![',']);
    if a.reserve.len() == 0 {
        pinned
    } else {
        pinned + seq![','] + id_list(a.reserve)
    }
}

/// Writes every thread of `a` in one list.
pub fn all_ids_string(a: &Allocation) -> (r: String)
    ensures
        r@ == all_ids(a@),
{
    let n = a.sets.len();
    let mut r = String::new();
    let mut i: usize = 0;
    let ghost all = a@.sets.map_values(|s: Seq<usize>| id_list(s));
    assert(all.take(0) == Seq::<Seq<char>>::empty());
    while i < n
        invariant
            i <= n,
            n == a.sets.len(),
            all == a@.sets.map_values(|s: Seq<usize>| id_list(s)),
            r@ == joined(all.take(i as int), seq![',']),
        decreases n - i,
    {
        proof {
            assert(all.take(i + 1).drop_last() == all.take(i as int));
            assert(all.take(i + 1).last() == id_list(a.sets@[i as int]@));
        }
        if i > 0 {
            r.push(',');
        }
        let part = id_list_string(&a.sets[i]);
        r.append(part.as_str());
        i = i + 1;
    }
    assert(all.take(n as int) == all);
    if a.reserve.len() > 0 {
        r.push(',');
        let rest = id_list_string(&a.reserve);
        r.append(rest.as_str());
    }
    r
}

} // verus!

//! The state of a search of the graph.

use crate::item_pointer::{IndexPointer, ItemPointer, PointerSet};
use crate::neighbor::DistanceWithTieBreak;
use crate::stats::GreedySearchStats;
use crate::vector::LabelSet;
use vstd::prelude::*;

verus! {

/// A node that a search has met.
pub struct ListSearchNeighbor<PD, D> {
    pub index_pointer: IndexPointer,
    pub distance_with_tie_break: DistanceWithTieBreak<D>,
    /// What the storage keeps of the node.
    pub private_data: PD,
    pub labels: Option<LabelSet>,
}

impl<PD, D> ListSearchNeighbor<PD, D> {
    pub fn new(
        index_pointer: IndexPointer,
        distance_with_tie_break: DistanceWithTieBreak<D>,
        private_data: PD,
        labels: Option<LabelSet>,
    ) -> (r: ListSearchNeighbor<PD, D>)
        ensures
            r == (ListSearchNeighbor {
                index_pointer,
                distance_with_tie_break,
                private_data,
                labels,
            }),
    {
        ListSearchNeighbor { index_pointer, distance_with_tie_break, private_data, labels }
    }

    pub fn get_private_data(&self) -> (data: &PD)
        ensures
            *data == self.private_data,
    {
        &self.private_data
    }
}

/// The state of one search: what it has met, and what it has visited.
///
/// `S` keeps the counts of the search.
pub struct ListSearchResult<QDM, PD, D, S = GreedySearchStats> {
    /// Nodes met and not visited yet, in the order they were met.
    pub candidates: Vec<ListSearchNeighbor<PD, D>>,
    /// Nodes visited.
    pub visited: Vec<ListSearchNeighbor<PD, D>>,
    /// How distances to the query are measured.
    pub sdm: Option<QDM>,
    /// The node that the query stands for, if it stands for one.
    pub tie_break_item_pointer: Option<ItemPointer>,
    pub stats: S,
    /// The pointers that the search has taken up so far.
    pub inserted: PointerSet,
}

impl<QDM, PD, D> ListSearchResult<QDM, PD, D> {
    /// A search that has met nothing.
    pub fn new(sdm: Option<QDM>, tie_break_item_pointer: Option<ItemPointer>) -> (r:
        ListSearchResult<QDM, PD, D>)
        ensures
            r.candidates@ == Seq::<ListSearchNeighbor<PD, D>>::empty(),
            r.visited@ == Seq::<ListSearchNeighbor<PD, D>>::empty(),
            r.sdm == sdm,
            r.tie_break_item_pointer == tie_break_item_pointer,
            r.stats.node_reads == 0,
            r.stats.heap_node_reads == 0,
            r.stats.full_distance_comparisons == 0,
            r.inserted@ == Set::<ItemPointer>::empty(),
    {
        ListSearchResult {
            candidates: Vec::new(),
            visited: Vec::new(),
            sdm,
            tie_break_item_pointer,
            stats: GreedySearchStats::new(),
            inserted: PointerSet::new(),
        }
    }
}

impl<QDM, PD, D, S> ListSearchResult<QDM, PD, D, S> {
    /// Takes up a pointer; false where the search has done so before.
    pub fn prepare_insert(&mut self, ip: ItemPointer) -> (fresh: bool)
        ensures
            fresh == !old(self).inserted@.contains(ip),
            final(self).inserted@ == old(self).inserted@.insert(ip),
            final(self).candidates == old(self).candidates,
            final(self).visited == old(self).visited,
            final(self).sdm == old(self).sdm,
            final(self).tie_break_item_pointer == old(self).tie_break_item_pointer,
            final(self).stats == old(self).stats,
    {
        self.inserted.insert(ip)
    }

    /// Adds a node to those that wait to be visited.
    pub fn insert_neighbor(&mut self, n: ListSearchNeighbor<PD, D>)
        ensures
            final(self).candidates@ == old(self).candidates@.push(n),
            final(self).inserted == old(self).inserted,
            final(self).visited == old(self).visited,
            final(self).sdm == old(self).sdm,
            final(self).tie_break_item_pointer == old(self).tie_break_item_pointer,
            final(self).stats == old(self).stats,
    {
        self.candidates.push(n);
    }

    pub fn get_lsn_by_idx(&self, idx: usize) -> (lsn: &ListSearchNeighbor<PD, D>)
        requires
            idx < self.visited@.len(),
        ensures
            *lsn == self.visited@[idx as int],
    {
        &self.visited[idx]
    }

    /// A distance from the query to a node.
    pub fn create_distance_with_tie_break(&self, distance: D, ip: ItemPointer) -> (r:
        DistanceWithTieBreak<D>)
        ensures
            r == (DistanceWithTieBreak { distance, from: self.tie_break_item_pointer, to: ip }),
    {
        DistanceWithTieBreak { distance, from: self.tie_break_item_pointer, to: ip }
    }
}

/// The pointers of a list that are neither in `seen` nor earlier in the list,
/// in its order.
pub open spec fn fresh(seen: Set<ItemPointer>, pointers: Seq<ItemPointer>) -> Seq<ItemPointer>
    decreases pointers.len(),
{
    if pointers.len() == 0 {
        Seq::empty()
    } else {
        let before = pointers.drop_last();
        if seen.contains(pointers.last()) || before.contains(pointers.last()) {
            fresh(seen, before)
        } else {
            fresh(seen, before).push(pointers.last())
        }
    }
}

/// `fresh` goes through the list from the front: what it keeps of a front part
/// comes first, and in the same places, in what it keeps of the whole list.
pub proof fn fresh_of_front(seen: Set<ItemPointer>, pointers: Seq<ItemPointer>, n: int)
    requires
        0 <= n <= pointers.len(),
    ensures
        fresh(seen, pointers.take(n)).is_prefix_of(fresh(seen, pointers)),
    decreases pointers.len(),
{
    if n == pointers.len() {
        assert(pointers.take(n) =~= pointers);
    } else {
        fresh_of_front(seen, pointers.drop_last(), n);
        assert(pointers.drop_last().take(n) =~= pointers.take(n));
    }
}

/// One more pointer of the list: where it is neither in `seen` nor among those
/// gone through, `fresh` keeps it, next to what was kept before.
pub proof fn fresh_of_next(seen: Set<ItemPointer>, pointers: Seq<ItemPointer>, n: int)
    requires
        0 <= n < pointers.len(),
    ensures
        ({
            let front = pointers.take(n);
            let next = pointers.take(n + 1);
            let p = pointers[n];
            let kept = fresh(seen, front);
            &&& seen.union(next.to_set()) == seen.union(front.to_set()).insert(p)
            &&& if seen.union(front.to_set()).contains(p) {
                fresh(seen, next) == kept
            } else {
                &&& fresh(seen, next) == kept.push(p)
                &&& kept.len() < fresh(seen, pointers).len()
                &&& fresh(seen, pointers)[kept.len() as int] == p
            }
        }),
{
    let front = pointers.take(n);
    let next = pointers.take(n + 1);
    let p = pointers[n];
    let kept = fresh(seen, front);
    assert(next =~= front.push(p));
    assert(next.drop_last() =~= front);
    assert forall|q: ItemPointer|
        seen.union(next.to_set()).contains(q) == seen.union(front.to_set()).insert(p).contains(
            q,
        ) by {
        vstd::seq_lib::lemma_seq_contains_after_push(front, p, q);
        assert(next.to_set().contains(q) <==> next.contains(q));
        assert(front.to_set().contains(q) <==> front.contains(q));
    }
    assert(seen.union(next.to_set()) =~= seen.union(front.to_set()).insert(p));
    assert(front.to_set().contains(p) <==> front.contains(p));
    fresh_of_front(seen, pointers, n + 1);
    if !seen.union(front.to_set()).contains(p) {
        assert(fresh(seen, next) == kept.push(p));
        assert(fresh(seen, pointers).subrange(0, fresh(seen, next).len() as int)[kept.len() as int]
            == p);
    }
}

/// `fresh` keeps every pointer of the list that is not in `seen`, keeps no
/// other, and keeps none twice.
pub proof fn fresh_is_exact(seen: Set<ItemPointer>, pointers: Seq<ItemPointer>)
    ensures
        forall|p: ItemPointer| #[trigger]
            fresh(seen, pointers).contains(p) <==> pointers.contains(p) && !seen.contains(p),
        fresh(seen, pointers).no_duplicates(),
    decreases pointers.len(),
{
    let kept = fresh(seen, pointers);
    if pointers.len() > 0 {
        let before = pointers.drop_last();
        let last = pointers.last();
        fresh_is_exact(seen, before);
        assert forall|p: ItemPointer| #[trigger] kept.contains(p) <==> pointers.contains(p)
            && !seen.contains(p) by {
            vstd::seq_lib::lemma_seq_contains_after_push(before, last, p);
            vstd::seq_lib::lemma_seq_contains_after_push(fresh(seen, before), last, p);
            assert(pointers =~= before.push(last));
            if seen.contains(last) || before.contains(last) {
                assert(kept == fresh(seen, before));
            }
        }
        if !seen.contains(last) && !before.contains(last) {
            let kept_before = fresh(seen, before);
            assert(!kept_before.contains(last));
            assert forall|i: int| 0 <= i < kept_before.len() implies kept_before[i] != last by {
                assert(kept_before.contains(kept_before[i]));
            }
        }
    }
}

/// Going through two lists, one after the other, keeps what going through them
/// as one list keeps.
pub proof fn fresh_of_two_lists(
    seen: Set<ItemPointer>,
    first: Seq<ItemPointer>,
    second: Seq<ItemPointer>,
)
    ensures
        fresh(seen, first + second) == fresh(seen, first) + fresh(
            seen.union(first.to_set()),
            second,
        ),
    decreases second.len(),
{
    let both = first + second;
    if second.len() == 0 {
        assert(both =~= first);
    } else {
        let before = second.drop_last();
        let last = second.last();
        fresh_of_two_lists(seen, first, before);
        assert(both.drop_last() =~= first + before);
        assert((first + before).contains(last) <==> first.contains(last) || before.contains(
            last,
        )) by {
            vstd::seq_lib::lemma_seq_concat_contains_all_elements(first, before, last);
        }
        assert(first.to_set().contains(last) <==> first.contains(last));
    }
}

} // verus!

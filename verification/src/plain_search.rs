//! Searching the graph.

use crate::distance_measure::{distance_gives, PlainDistanceMeasure};
use crate::item_pointer::{copy_pointers, HeapPointer, IndexPointer, ItemPointer};
use crate::neighbor::DistanceWithTieBreak;
use crate::neighbor_store::GraphNeighborStore;
use crate::plain_node::PlainNode;
use crate::plain_storage::PlainStorage;
use crate::reading::gives_node;
use crate::search::{fresh, fresh_of_next, ListSearchNeighbor, ListSearchResult};
use crate::stats::{GreedySearchStats, StatsCounters, StatsDistanceComparison, StatsNodeRead};
use vstd::prelude::*;

verus! {

/// What a search keeps of a node that it has met.
pub struct PlainStorageLsnPrivateData {
    pub heap_pointer: HeapPointer,
    pub neighbors: Vec<ItemPointer>,
}

impl PlainStorageLsnPrivateData {
    /// `self` is what is kept of `node`, found at `ip`.
    pub open spec fn shows<T>(
        self,
        ip: IndexPointer,
        node: PlainNode<T>,
        gns: GraphNeighborStore,
    ) -> bool {
        &&& self.heap_pointer == node.heap_item_pointer
        &&& self.neighbors@ == gns.neighbors_of(ip, node)
    }

    /// Keeps the row that the node stands for, and the neighbours that the
    /// search will follow: the node's own, or during a build those on record.
    pub fn new<T>(
        index_pointer_to_node: IndexPointer,
        node: &PlainNode<T>,
        gns: &GraphNeighborStore,
    ) -> (data: PlainStorageLsnPrivateData)
        ensures
            data.shows(index_pointer_to_node, *node, *gns),
    {
        let heap_pointer = node.heap_item_pointer;
        let neighbors = match gns {
            GraphNeighborStore::Disk => node.get_index_pointer_to_neighbors(),
            GraphNeighborStore::Builder(b) => b.get_neighbors(index_pointer_to_node),
        };
        PlainStorageLsnPrivateData { heap_pointer, neighbors }
    }
}

/// A node met by a search of a plain storage.
pub type PlainSearchNeighbor<D> = ListSearchNeighbor<PlainStorageLsnPrivateData, D>;

/// A search of a plain storage.
pub type PlainSearch<T, D, S = GreedySearchStats> = ListSearchResult<
    PlainDistanceMeasure<T>,
    PlainStorageLsnPrivateData,
    D,
    S,
>;

/// The indexed dimensions of the query of a search.
pub open spec fn query_of<T, D, S>(lsr: PlainSearch<T, D, S>) -> Seq<T> {
    lsr.sdm->0.query().vec.index()
}

/// `lsn` is what a search makes of `node`, found at `ip` and `distance` away
/// from the query.
pub open spec fn lsn_shows<T, D>(
    lsn: PlainSearchNeighbor<D>,
    ip: IndexPointer,
    distance: D,
    tie_break: Option<ItemPointer>,
    node: PlainNode<T>,
    gns: GraphNeighborStore,
) -> bool {
    &&& lsn.index_pointer == ip
    &&& lsn.distance_with_tie_break == DistanceWithTieBreak { distance, from: tie_break, to: ip }
    &&& lsn.private_data.shows(ip, node, gns)
    &&& lsn.labels is None
}

/// The two states of a search differ at most in the candidates, the pointers
/// taken up and the counts.
pub open spec fn same_search<T, D, S>(
    before: PlainSearch<T, D, S>,
    after: PlainSearch<T, D, S>,
) -> bool {
    &&& after.visited == before.visited
    &&& after.sdm == before.sdm
    &&& after.tie_break_item_pointer == before.tie_break_item_pointer
}

impl<'a, Rel, F> PlainStorage<'a, Rel, F> {
    /// `lsn` is what the search `lsr` makes of a node that was read at `ip`,
    /// at the distance that the distance function gave from the query to it.
    pub open spec fn meets<T, D, S, R>(
        self,
        lsr: PlainSearch<T, D, S>,
        lsn: PlainSearchNeighbor<D>,
        ip: IndexPointer,
        gns: GraphNeighborStore,
        read: R,
    ) -> bool
        where
            F: Fn(&[T], &[T]) -> D,
            S: StatsCounters,
            R: Fn(&Rel, IndexPointer, &mut S) -> PlainNode<T>,
    {
        exists|node: PlainNode<T>, distance: D| #[trigger]
            gives_node(read, self.index, ip, node) && #[trigger] distance_gives(
                self.distance_fn,
                query_of(lsr),
                node.vector@,
                distance,
            ) && lsn_shows(lsn, ip, distance, lsr.tie_break_item_pointer, node, gns)
    }

    /// The search went from `before` to `after` by starting at `ip`, which gave
    /// `lsn`: where the pointer was taken up before, nothing; else what the
    /// search makes of the node, read and compared once.
    pub open spec fn starts<T, D, S, R>(
        self,
        before: PlainSearch<T, D, S>,
        after: PlainSearch<T, D, S>,
        lsn: Option<PlainSearchNeighbor<D>>,
        ip: IndexPointer,
        gns: GraphNeighborStore,
        read: R,
    ) -> bool
        where
            F: Fn(&[T], &[T]) -> D,
            S: StatsCounters,
            R: Fn(&Rel, IndexPointer, &mut S) -> PlainNode<T>,
    {
        &&& same_search(before, after)
        &&& after.candidates == before.candidates
        &&& after.inserted@ == before.inserted@.insert(ip)
        &&& match lsn {
            None => before.inserted@.contains(ip) && after.stats == before.stats,
            Some(n) => {
                &&& !before.inserted@.contains(ip)
                &&& after.stats.counts() == before.stats.counts().with_nodes_compared(1)
                &&& self.meets(before, n, ip, gns, read)
            },
        }
    }

    /// The search went from `before` to `after` by visiting a node with these
    /// neighbours: every neighbour not taken up before was read once, compared
    /// once and became a candidate, in the order of the list.
    pub open spec fn visits<T, D, S, R>(
        self,
        before: PlainSearch<T, D, S>,
        after: PlainSearch<T, D, S>,
        neighbors: Seq<ItemPointer>,
        gns: GraphNeighborStore,
        read: R,
    ) -> bool
        where
            F: Fn(&[T], &[T]) -> D,
            S: StatsCounters,
            R: Fn(&Rel, IndexPointer, &mut S) -> PlainNode<T>,
    {
        let todo = fresh(before.inserted@, neighbors);
        &&& same_search(before, after)
        &&& after.inserted@ == before.inserted@.union(neighbors.to_set())
        &&& after.stats.counts() == before.stats.counts().with_nodes_compared(todo.len())
        &&& todo.len() == 0 ==> after.stats == before.stats
        &&& before.candidates@.is_prefix_of(after.candidates@)
        &&& after.candidates@.len() == before.candidates@.len() + todo.len()
        &&& forall|i: int|
            0 <= i < todo.len() ==> self.meets(
                before,
                after.candidates@[before.candidates@.len() + i],
                #[trigger] todo[i],
                gns,
                read,
            )
    }

    /// The row that a search neighbour stands for.
    pub fn return_lsn<D>(
        &self,
        lsn: &PlainSearchNeighbor<D>,
        _stats: &mut GreedySearchStats,
    ) -> (heap_pointer: HeapPointer)
        ensures
            heap_pointer == lsn.private_data.heap_pointer,
            *final(_stats) == *old(_stats),
    {
        lsn.get_private_data().heap_pointer
    }
}

impl<'a, Rel, F: Copy> PlainStorage<'a, Rel, F> {
    /// Makes a search neighbour of a node and its distance from the query.
    pub fn make_lsn<T, D, S>(
        lsr: &PlainSearch<T, D, S>,
        index_pointer: IndexPointer,
        distance: D,
        node: &PlainNode<T>,
        gns: &GraphNeighborStore,
    ) -> (lsn: PlainSearchNeighbor<D>)
        ensures
            lsn_shows(lsn, index_pointer, distance, lsr.tie_break_item_pointer, *node, *gns),
    {
        ListSearchNeighbor::new(
            index_pointer,
            lsr.create_distance_with_tie_break(distance, index_pointer),
            PlainStorageLsnPrivateData::new(index_pointer, node, gns),
            None,
        )
    }

    /// Reads the node at a pointer and measures its distance from the query.
    fn read_lsn<T, D, S, R>(
        &self,
        lsr: &mut PlainSearch<T, D, S>,
        index_pointer: IndexPointer,
        gns: &GraphNeighborStore,
        read: &R,
    ) -> (lsn: PlainSearchNeighbor<D>)
        where
            F: Fn(&[T], &[T]) -> D,
            S: StatsNodeRead + StatsDistanceComparison,
            R: Fn(&Rel, IndexPointer, &mut S) -> PlainNode<T>,
        requires
            forall|ip: IndexPointer, s: &mut S, node: PlainNode<T>| #[trigger]
                call_ensures(*read, (self.index, ip, s), node) ==> final(s).counts()
                    == s.counts().with_nodes_read(1),
            old(lsr).sdm is Some,
            old(lsr).stats.counts().room_for_nodes_compared(1),
            self.comparable(query_of(*old(lsr)), index_pointer, *read),
        ensures
            same_search(*old(lsr), *final(lsr)),
            final(lsr).inserted == old(lsr).inserted,
            final(lsr).candidates == old(lsr).candidates,
            final(lsr).stats.counts() == old(lsr).stats.counts().with_nodes_compared(1),
            self.meets(*old(lsr), lsn, index_pointer, *gns, *read),
    {
        let node = read(self.index, index_pointer, &mut lsr.stats);
        assert(gives_node(*read, self.index, index_pointer, node));
        let distance = match lsr.sdm.as_ref().unwrap() {
            PlainDistanceMeasure::Full(query) => PlainDistanceMeasure::calculate_distance(
                self.distance_fn,
                query.vec().to_index_slice(),
                node.vector.as_slice(),
                &mut lsr.stats,
            ),
        };
        Self::make_lsn(lsr, index_pointer, distance, &node, gns)
    }

    /// Starts a search at a node: reads it and measures its distance, unless
    /// the search has taken it up before.
    pub fn create_lsn_for_start_node<T, D, S, R>(
        &self,
        lsr: &mut PlainSearch<T, D, S>,
        index_pointer: ItemPointer,
        gns: &GraphNeighborStore,
        read: &R,
    ) -> (lsn: Option<PlainSearchNeighbor<D>>)
        where
            F: Fn(&[T], &[T]) -> D,
            S: StatsNodeRead + StatsDistanceComparison,
            R: Fn(&Rel, IndexPointer, &mut S) -> PlainNode<T>,
        requires
            forall|ip: IndexPointer, s: &mut S, node: PlainNode<T>| #[trigger]
                call_ensures(*read, (self.index, ip, s), node) ==> final(s).counts()
                    == s.counts().with_nodes_read(1),
            !old(lsr).inserted@.contains(index_pointer) ==> {
                &&& old(lsr).sdm is Some
                &&& old(lsr).stats.counts().room_for_nodes_compared(1)
                &&& self.comparable(query_of(*old(lsr)), index_pointer, *read)
            },
        ensures
            self.starts(*old(lsr), *final(lsr), lsn, index_pointer, *gns, *read),
    {
        if !lsr.prepare_insert(index_pointer) {
            return None;
        }
        Some(self.read_lsn(lsr, index_pointer, gns, read))
    }

    /// Visits a node: every neighbour that the search has not taken up before
    /// is read and becomes a candidate.
    pub fn visit_lsn<T, D, S, R>(
        &self,
        lsr: &mut PlainSearch<T, D, S>,
        lsn_idx: usize,
        gns: &GraphNeighborStore,
        no_filter: bool,
        read: &R,
    )
        where
            F: Fn(&[T], &[T]) -> D,
            S: StatsNodeRead + StatsDistanceComparison,
            R: Fn(&Rel, IndexPointer, &mut S) -> PlainNode<T>,
        requires
            no_filter,
            lsn_idx < old(lsr).visited@.len(),
            forall|ip: IndexPointer, s: &mut S, node: PlainNode<T>| #[trigger]
                call_ensures(*read, (self.index, ip, s), node) ==> final(s).counts()
                    == s.counts().with_nodes_read(1),
            ({
                let neighbors = old(lsr).visited@[lsn_idx as int].private_data.neighbors@;
                let todo = fresh(old(lsr).inserted@, neighbors);
                &&& todo.len() > 0 ==> {
                    &&& old(lsr).sdm is Some
                    &&& old(lsr).stats.counts().room_for_nodes_compared(todo.len())
                }
                &&& forall|i: int|
                    0 <= i < todo.len() ==> self.comparable(
                        query_of(*old(lsr)),
                        #[trigger] todo[i],
                        *read,
                    )
            }),
        ensures
            self.visits(
                *old(lsr),
                *final(lsr),
                old(lsr).visited@[lsn_idx as int].private_data.neighbors@,
                *gns,
                *read,
            ),
    {
        let neighbors = copy_pointers(&lsr.get_lsn_by_idx(lsn_idx).get_private_data().neighbors);
        let ghost seen = lsr.inserted@;
        let ghost todo = fresh(seen, neighbors@);
        let mut i: usize = 0;
        assert(neighbors@.take(0).to_set() =~= Set::<ItemPointer>::empty());
        assert(seen.union(Set::<ItemPointer>::empty()) =~= seen);
        while i < neighbors.len()
            invariant
                i <= neighbors@.len(),
                forall|ip: IndexPointer, s: &mut S, node: PlainNode<T>| #[trigger]
                    call_ensures(*read, (self.index, ip, s), node) ==> final(s).counts()
                        == s.counts().with_nodes_read(1),
                seen == old(lsr).inserted@,
                todo == fresh(seen, neighbors@),
                todo.len() > 0 ==> {
                    &&& old(lsr).sdm is Some
                    &&& old(lsr).stats.counts().room_for_nodes_compared(todo.len())
                },
                forall|j: int|
                    0 <= j < todo.len() ==> self.comparable(
                        query_of(*old(lsr)),
                        #[trigger] todo[j],
                        *read,
                    ),
                self.visits(*old(lsr), *lsr, neighbors@.take(i as int), *gns, *read),
            decreases neighbors@.len() - i,
        {
            let ip = neighbors[i];
            proof {
                fresh_of_next(seen, neighbors@, i as int);
            }
            if lsr.prepare_insert(ip) {
                let lsn = self.read_lsn(lsr, ip, gns, read);
                lsr.insert_neighbor(lsn);
            }
            i += 1;
        }
        assert(neighbors@.take(i as int) =~= neighbors@);
    }
}

} // verus!

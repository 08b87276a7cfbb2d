//! Distances between vectors.

use crate::item_pointer::{HeapPointer, IndexPointer, ItemPointer};
use crate::meta_page::MetaPage;
use crate::neighbor::{DistanceWithTieBreak, NeighborWithDistance};
use crate::plain_node::PlainNode;
use crate::plain_storage::PlainStorage;
use crate::reading::{gives_node, may_read};
use crate::stats::{
    StatsCounters, StatsCounts, StatsDistanceComparison, StatsHeapNodeRead, StatsNodeRead,
};
use crate::vector::{LabeledVector, PgVector};
use vstd::prelude::*;

verus! {

/// The distance function may be asked for the distance from `a` to `b`.
pub open spec fn distance_accepts<T, D, F: Fn(&[T], &[T]) -> D>(
    distance_fn: F,
    a: Seq<T>,
    b: Seq<T>,
) -> bool {
    forall|x: &[T], y: &[T]|
        x@ == a && y@ == b ==> #[trigger] call_requires(distance_fn, (x, y))
}

/// The distance function gave `d` when asked for the distance from `a` to `b`.
pub open spec fn distance_gives<T, D, F: Fn(&[T], &[T]) -> D>(
    distance_fn: F,
    a: Seq<T>,
    b: Seq<T>,
    d: D,
) -> bool {
    exists|x: &[T], y: &[T]| x@ == a && y@ == b && #[trigger] call_ensures(distance_fn, (x, y), d)
}

/// How the distance from a query is measured: on the vectors themselves.
pub enum PlainDistanceMeasure<T> {
    Full(LabeledVector<T>),
}

impl<T> PlainDistanceMeasure<T> {
    pub open spec fn query(self) -> LabeledVector<T> {
        match self {
            PlainDistanceMeasure::Full(query) => query,
        }
    }

    /// The distance from a query to the vector of a node.
    pub fn calculate_distance<D, F: Fn(&[T], &[T]) -> D, S: StatsDistanceComparison>(
        distance_fn: F,
        query: &[T],
        vector: &[T],
        stats: &mut S,
    ) -> (distance: D)
        requires
            vector@.len() > 0,
            vector@.len() == query@.len(),
            distance_accepts(distance_fn, query@, vector@),
            old(stats).counts().full_distance_comparisons < usize::MAX,
        ensures
            distance_gives(distance_fn, query@, vector@, distance),
            final(stats).counts() == (StatsCounts {
                full_distance_comparisons: old(stats).counts().full_distance_comparisons + 1,
                ..old(stats).counts()
            }),
    {
        stats.record_full_distance_comparison();
        distance_fn(query, vector)
    }
}

impl<'a, Rel, F> PlainStorage<'a, Rel, F> {
    /// Reading the node at `ip` gives none but nodes whose vector can be
    /// compared with `query`.
    pub open spec fn comparable<T, D, S, R>(
        self,
        query: Seq<T>,
        ip: IndexPointer,
        read: R,
    ) -> bool
        where
            F: Fn(&[T], &[T]) -> D,
            S: StatsCounters,
            R: Fn(&Rel, IndexPointer, &mut S) -> PlainNode<T>,
    {
        &&& may_read(read, self.index, ip)
        &&& forall|node: PlainNode<T>| #[trigger]
            gives_node(read, self.index, ip, node) ==> {
                &&& node.vector@.len() > 0
                &&& node.vector@.len() == query.len()
                &&& distance_accepts(self.distance_fn, query, node.vector@)
            }
    }
}

/// Measures distances from one node of the index to others.
pub struct IndexFullDistanceMeasure<'a, Rel, F, T> {
    pub readable_node: PlainNode<T>,
    pub storage: &'a PlainStorage<'a, Rel, F>,
}

impl<'a, Rel, F: Copy, T> IndexFullDistanceMeasure<'a, Rel, F, T> {
    /// Measures from the node at a pointer.
    pub fn with_index_pointer<S, R>(
        storage: &'a PlainStorage<'a, Rel, F>,
        index_pointer: IndexPointer,
        stats: &mut S,
        read: &R,
    ) -> (measure: IndexFullDistanceMeasure<'a, Rel, F, T>)
        where S: StatsNodeRead, R: Fn(&Rel, IndexPointer, &mut S) -> PlainNode<T>
        requires
            may_read(*read, storage.index, index_pointer),
            forall|ip: IndexPointer, s: &mut S, node: PlainNode<T>| #[trigger]
                call_ensures(*read, (storage.index, ip, s), node) ==> final(s).counts()
                    == s.counts().with_nodes_read(1),
            old(stats).counts().node_reads < usize::MAX,
        ensures
            gives_node(*read, storage.index, index_pointer, measure.readable_node),
            measure.storage == storage,
            final(stats).counts() == old(stats).counts().with_nodes_read(1),
    {
        let rn = read(storage.index, index_pointer, stats);
        assert(gives_node(*read, storage.index, index_pointer, rn));
        IndexFullDistanceMeasure { readable_node: rn, storage }
    }

    /// Measures from a node that has been read.
    pub fn with_readable_node(
        storage: &'a PlainStorage<'a, Rel, F>,
        readable_node: PlainNode<T>,
    ) -> (measure: IndexFullDistanceMeasure<'a, Rel, F, T>)
        ensures
            measure == (IndexFullDistanceMeasure { readable_node, storage }),
    {
        IndexFullDistanceMeasure { readable_node, storage }
    }

    /// Reading the node at `ip` gives none but nodes whose vector can be
    /// compared with that of the node measured from.
    pub open spec fn comparable<D, S, R>(self, ip: IndexPointer, read: R) -> bool
        where
            F: Fn(&[T], &[T]) -> D,
            S: StatsCounters,
            R: Fn(&Rel, IndexPointer, &mut S) -> PlainNode<T>,
    {
        &&& may_read(read, self.storage.index, ip)
        &&& forall|node: PlainNode<T>| #[trigger]
            gives_node(read, self.storage.index, ip, node) ==> {
                &&& node.vector@.len() > 0
                &&& node.vector@.len() == self.readable_node.vector@.len()
                &&& distance_accepts(
                    self.storage.distance_fn,
                    node.vector@,
                    self.readable_node.vector@,
                )
            }
    }

    /// `distance` is what the distance function gave for a node read at `ip` and
    /// the node measured from, in that order.
    pub open spec fn measures<D, S, R>(self, ip: IndexPointer, distance: D, read: R) -> bool
        where
            F: Fn(&[T], &[T]) -> D,
            S: StatsCounters,
            R: Fn(&Rel, IndexPointer, &mut S) -> PlainNode<T>,
    {
        exists|node: PlainNode<T>| #[trigger]
            gives_node(read, self.storage.index, ip, node) && distance_gives(
                self.storage.distance_fn,
                node.vector@,
                self.readable_node.vector@,
                distance,
            )
    }

    /// The distance of the node at a pointer.  It is not counted as a comparison.
    pub fn get_distance<D, S, R>(
        &self,
        index_pointer: IndexPointer,
        stats: &mut S,
        read: &R,
    ) -> (distance: D)
        where
            F: Fn(&[T], &[T]) -> D,
            S: StatsNodeRead + StatsDistanceComparison,
            R: Fn(&Rel, IndexPointer, &mut S) -> PlainNode<T>,
        requires
            self.comparable(index_pointer, *read),
            forall|ip: IndexPointer, s: &mut S, node: PlainNode<T>| #[trigger]
                call_ensures(*read, (self.storage.index, ip, s), node) ==> final(s).counts()
                    == s.counts().with_nodes_read(1),
            old(stats).counts().node_reads < usize::MAX,
        ensures
            self.measures(index_pointer, distance, *read),
            final(stats).counts() == old(stats).counts().with_nodes_read(1),
    {
        let node = read(self.storage.index, index_pointer, stats);
        assert(gives_node(*read, self.storage.index, index_pointer, node));
        (self.storage.get_distance_function())(
            node.vector.as_slice(),
            self.readable_node.vector.as_slice(),
        )
    }
}

impl<'a, Rel, F: Copy> PlainStorage<'a, Rel, F> {
    /// The function that compares two vectors.
    pub fn get_distance_function(&self) -> (distance_fn: F)
        ensures
            distance_fn == self.distance_fn,
    {
        self.distance_fn
    }

    /// Measures from the node at a pointer.
    pub fn get_node_distance_measure<'b, T, S, R>(
        &'b self,
        index_pointer: IndexPointer,
        stats: &mut S,
        read: &R,
    ) -> (measure: IndexFullDistanceMeasure<'b, Rel, F, T>)
        where S: StatsNodeRead, R: Fn(&Rel, IndexPointer, &mut S) -> PlainNode<T>
        requires
            may_read(*read, self.index, index_pointer),
            forall|ip: IndexPointer, s: &mut S, node: PlainNode<T>| #[trigger]
                call_ensures(*read, (self.index, ip, s), node) ==> final(s).counts()
                    == s.counts().with_nodes_read(1),
            old(stats).counts().node_reads < usize::MAX,
        ensures
            gives_node(*read, self.index, index_pointer, measure.readable_node),
            measure.storage == self,
            final(stats).counts() == old(stats).counts().with_nodes_read(1),
    {
        IndexFullDistanceMeasure::with_index_pointer(self, index_pointer, stats, read)
    }

    /// The distances of the neighbours of `node` may be measured.
    pub open spec fn neighbors_comparable<T, D, S, R>(self, node: PlainNode<T>, read: R) -> bool
        where
            F: Fn(&[T], &[T]) -> D,
            S: StatsCounters,
            R: Fn(&Rel, IndexPointer, &mut S) -> PlainNode<T>,
    {
        let measure = IndexFullDistanceMeasure { readable_node: node, storage: &self };
        forall|i: int|
            0 <= i < node.neighbors@.len() ==> measure.comparable(
                #[trigger] node.neighbors@[i],
                read,
            )
    }

    /// `found` lists the first `found.len()` neighbours of `node`, found at
    /// `neighbors_of`, each with a distance measured from that node.
    pub open spec fn lists_neighbors<T, D, S, R>(
        self,
        found: Seq<NeighborWithDistance<D>>,
        neighbors_of: ItemPointer,
        node: PlainNode<T>,
        read: R,
    ) -> bool
        where
            F: Fn(&[T], &[T]) -> D,
            S: StatsCounters,
            R: Fn(&Rel, IndexPointer, &mut S) -> PlainNode<T>,
    {
        let measure = IndexFullDistanceMeasure { readable_node: node, storage: &self };
        forall|i: int|
            0 <= i < found.len() ==> {
                let n = node.neighbors@[i];
                &&& (#[trigger] found[i]).index_pointer_to_neighbor == n
                &&& found[i].distance.from == Some(neighbors_of)
                &&& found[i].distance.to == n
                &&& measure.measures(n, found[i].distance.distance, read)
                &&& found[i].labels is None
            }
    }

    /// A list of neighbours went from `before` to `after` by appending those of
    /// the node at `neighbors_of`, every one of them; that node and each of its
    /// neighbours was read once.
    pub open spec fn appends_neighbors<T, D, S, R>(
        self,
        before: Seq<NeighborWithDistance<D>>,
        after: Seq<NeighborWithDistance<D>>,
        counts_before: StatsCounts,
        counts_after: StatsCounts,
        neighbors_of: ItemPointer,
        read: R,
    ) -> bool
        where
            F: Fn(&[T], &[T]) -> D,
            S: StatsCounters,
            R: Fn(&Rel, IndexPointer, &mut S) -> PlainNode<T>,
    {
        &&& before.is_prefix_of(after)
        &&& exists|node: PlainNode<T>| #[trigger]
            gives_node(read, self.index, neighbors_of, node) && {
                let found = after.skip(before.len() as int);
                &&& found.len() == node.neighbors@.len()
                &&& self.lists_neighbors(found, neighbors_of, node, read)
                &&& counts_after == counts_before.with_nodes_read(1 + node.neighbors@.len())
            }
    }

    /// Appends the neighbours of a node to `result`, with their distances from it.
    pub fn get_neighbors_with_distances_from_disk<T, D, S, R>(
        &self,
        neighbors_of: ItemPointer,
        result: &mut Vec<NeighborWithDistance<D>>,
        stats: &mut S,
        read: &R,
    )
        where
            F: Fn(&[T], &[T]) -> D,
            S: StatsNodeRead + StatsDistanceComparison,
            R: Fn(&Rel, IndexPointer, &mut S) -> PlainNode<T>,
        requires
            may_read(*read, self.index, neighbors_of),
            forall|ip: IndexPointer, s: &mut S, node: PlainNode<T>| #[trigger]
                call_ensures(*read, (self.index, ip, s), node) ==> final(s).counts()
                    == s.counts().with_nodes_read(1),
            forall|node: PlainNode<T>| #[trigger]
                gives_node(*read, self.index, neighbors_of, node) ==> {
                    &&& self.neighbors_comparable(node, *read)
                    &&& old(stats).counts().node_reads + 1 + node.neighbors@.len() <= usize::MAX
                },
            old(stats).counts().node_reads < usize::MAX,
        ensures
            self.appends_neighbors(
                old(result)@,
                final(result)@,
                old(stats).counts(),
                final(stats).counts(),
                neighbors_of,
                *read,
            ),
    {
        let rn = read(self.index, neighbors_of, stats);
        assert(gives_node(*read, self.index, neighbors_of, rn));
        let neighbors = rn.get_index_pointer_to_neighbors();
        let ghost node = rn;
        let dist_state = IndexFullDistanceMeasure::with_readable_node(self, rn);
        let mut i: usize = 0;
        while i < neighbors.len()
            invariant
                i <= neighbors@.len(),
                neighbors@ == node.neighbors@,
                dist_state.readable_node == node,
                dist_state.storage == self,
                self.neighbors_comparable(node, *read),
                forall|ip: IndexPointer, s: &mut S, node: PlainNode<T>| #[trigger]
                    call_ensures(*read, (self.index, ip, s), node) ==> final(s).counts()
                        == s.counts().with_nodes_read(1),
                old(stats).counts().node_reads + 1 + node.neighbors@.len() <= usize::MAX,
                stats.counts() == old(stats).counts().with_nodes_read(1 + i as nat),
                result@.len() == old(result)@.len() + i,
                old(result)@.is_prefix_of(result@),
                self.lists_neighbors(
                    result@.skip(old(result)@.len() as int),
                    neighbors_of,
                    node,
                    *read,
                ),
            decreases neighbors@.len() - i,
        {
            let n = neighbors[i];
            assert(node.neighbors@[i as int] == n);
            let dist = dist_state.get_distance(n, stats, read);
            let ghost before = result@;
            result.push(
                NeighborWithDistance::new(
                    n,
                    DistanceWithTieBreak::new(dist, neighbors_of, n),
                    None,
                ),
            );
            proof {
                let start = old(result)@.len() as int;
                assert(result@.skip(start) =~= before.skip(start).push(result@.last()));
            }
            i += 1;
        }
    }

    /// The distance from a row's vector to the query, on all dimensions.
    pub fn resort_distance<T, D>(
        &self,
        vec: &PgVector<T>,
        qdm: &PlainDistanceMeasure<T>,
    ) -> (distance: D)
        where F: Fn(&[T], &[T]) -> D
        requires
            distance_accepts(self.distance_fn, vec.full(), qdm.query().vec.full()),
        ensures
            distance_gives(self.distance_fn, vec.full(), qdm.query().vec.full(), distance),
    {
        match qdm {
            PlainDistanceMeasure::Full(query) => (self.get_distance_function())(
                vec.to_full_slice(),
                query.vec().to_full_slice(),
            ),
        }
    }

    /// `distance` is the distance of a row from the query on all dimensions, as
    /// the row was fetched; none where the fetch gave no row.
    pub open spec fn resorts<T, D, N, Slot, Datum, G, A, P>(
        self,
        distance: Option<D>,
        snapshot: N,
        qdm: PlainDistanceMeasure<T>,
        heap_pointer: HeapPointer,
        meta_page: MetaPage,
        fetch: G,
        get_attribute: A,
        from_datum: P,
    ) -> bool
        where
            F: Fn(&[T], &[T]) -> D,
            G: FnOnce(&Rel, HeapPointer, N) -> Option<Slot>,
            A: FnOnce(&Slot, i16) -> Option<Datum>,
            P: FnOnce(Datum, &MetaPage, bool, bool) -> PgVector<T>,
    {
        match distance {
            None => call_ensures(fetch, (self.heap_rel, heap_pointer, snapshot), None),
            Some(d) => exists|slot: Slot, datum: Datum, vec: PgVector<T>|
                {
                    &&& call_ensures(fetch, (self.heap_rel, heap_pointer, snapshot), Some(slot))
                    &&& #[trigger] call_ensures(
                        get_attribute,
                        (&slot, self.heap_attr),
                        Some(datum),
                    )
                    &&& #[trigger] call_ensures(
                        from_datum,
                        (datum, &meta_page, false, true),
                        vec,
                    )
                    &&& distance_gives(self.distance_fn, vec.full(), qdm.query().vec.full(), d)
                },
        }
    }

    /// The distance of a row from the query on all dimensions, for an index that
    /// compares fewer; none where the snapshot does not show the row.
    pub fn get_full_distance_for_resort<T, D, S, N, Slot, Datum, G, A, P>(
        &self,
        snapshot: N,
        qdm: &PlainDistanceMeasure<T>,
        _index_pointer: IndexPointer,
        heap_pointer: HeapPointer,
        meta_page: &MetaPage,
        stats: &mut S,
        fetch: G,
        get_attribute: A,
        from_datum: P,
    ) -> (distance: Option<D>)
        where
            F: Fn(&[T], &[T]) -> D,
            S: StatsHeapNodeRead + StatsDistanceComparison,
            G: FnOnce(&Rel, HeapPointer, N) -> Option<Slot>,
            A: FnOnce(&Slot, i16) -> Option<Datum>,
            P: FnOnce(Datum, &MetaPage, bool, bool) -> PgVector<T>,
        requires
            meta_page.num_dimensions > meta_page.num_dimensions_to_index,
            old(stats).counts().heap_node_reads < usize::MAX,
            call_requires(fetch, (self.heap_rel, heap_pointer, snapshot)),
            forall|slot: Slot| #[trigger]
                call_ensures(fetch, (self.heap_rel, heap_pointer, snapshot), Some(slot)) ==> {
                    &&& call_requires(get_attribute, (&slot, self.heap_attr))
                    &&& forall|attribute: Option<Datum>| #[trigger]
                        call_ensures(get_attribute, (&slot, self.heap_attr), attribute) ==> {
                            &&& attribute is Some
                            &&& call_requires(from_datum, (attribute->0, meta_page, false, true))
                            &&& forall|vec: PgVector<T>| #[trigger]
                                call_ensures(
                                    from_datum,
                                    (attribute->0, meta_page, false, true),
                                    vec,
                                ) ==> distance_accepts(
                                    self.distance_fn,
                                    vec.full(),
                                    qdm.query().vec.full(),
                                )
                        }
                },
        ensures
            final(stats).counts() == (StatsCounts {
                heap_node_reads: old(stats).counts().heap_node_reads + 1,
                ..old(stats).counts()
            }),
            self.resorts(
                distance,
                snapshot,
                *qdm,
                heap_pointer,
                *meta_page,
                fetch,
                get_attribute,
                from_datum,
            ),
    {
        stats.record_heap_read();
        match fetch(self.heap_rel, heap_pointer, snapshot) {
            None => None,
            Some(slot) => {
                let datum = get_attribute(&slot, self.heap_attr).unwrap();
                let vec = from_datum(datum, meta_page, false, true);
                Some(self.resort_distance(&vec, qdm))
            },
        }
    }
}

} // verus!

//! What each call comes to, said of the call itself: what it may be given, what
//! comes out of it, and what is left as it was.

use crate::distance_measure::{distance_gives, IndexFullDistanceMeasure, PlainDistanceMeasure};
use crate::item_pointer::{HeapPointer, IndexPointer, ItemPointer};
use crate::meta_page::MetaPage;
use crate::neighbor::NeighborWithDistance;
use crate::neighbor_store::GraphNeighborStore;
use crate::plain_node::PlainNode;
use crate::plain_search::{
    lsn_shows, query_of, PlainSearch, PlainSearchNeighbor, PlainStorageLsnPrivateData,
};
use crate::plain_storage::PlainStorage;
use crate::reading::gives_node;
use crate::search::{fresh, fresh_is_exact};
use crate::stats::{
    GreedySearchStats, StatsCounts, StatsDistanceComparison, StatsHeapNodeRead, StatsNodeModify,
    StatsNodeRead, StatsNodeWrite,
};
use crate::vector::{LabelSet, LabeledVector, PgVector};
use vstd::prelude::*;

verus! {

/// A visit leaves every candidate that was waiting as it was and where it was, and
/// changes neither the nodes visited nor the query.
pub proof fn visit_leaves_what_was_there<'a, Rel, F, T, D, S, R>(
    storage: PlainStorage<'a, Rel, F>,
    lsr: &mut PlainSearch<T, D, S>,
    lsn_idx: usize,
    gns: GraphNeighborStore,
    no_filter: bool,
    read: R,
)
    where
        F: Fn(&[T], &[T]) -> D + Copy,
        S: StatsNodeRead + StatsDistanceComparison,
        R: Fn(&Rel, IndexPointer, &mut S) -> PlainNode<T>,
    requires
        call_ensures(
            PlainStorage::<Rel, F>::visit_lsn::<T, D, S, R>,
            (&storage, lsr, lsn_idx, &gns, no_filter, &read),
            (),
        ),
    ensures
        final(lsr).candidates@.len() >= old(lsr).candidates@.len(),
        forall|i: int|
            0 <= i < old(lsr).candidates@.len() ==> #[trigger] final(lsr).candidates@[i] == old(
                lsr,
            ).candidates@[i],
        final(lsr).visited@ == old(lsr).visited@,
        final(lsr).sdm == old(lsr).sdm,
        final(lsr).tie_break_item_pointer == old(lsr).tie_break_item_pointer,
{
    let n = lsr.candidates@.len() as int;
    assert forall|i: int| 0 <= i < n implies #[trigger] final(lsr).candidates@[i]
        == lsr.candidates@[i] by {
        assert(final(lsr).candidates@.subrange(0, n)[i] == lsr.candidates@[i]);
    }
}

/// The candidates that a visit adds are the neighbours of the visited node that
/// were not taken up before: all of them, no other, none twice, and each before
/// those that come later in the list.  What is taken up afterwards is what was
/// before, and the neighbours.
pub proof fn visit_adds_the_new_neighbors<'a, Rel, F, T, D, S, R>(
    storage: PlainStorage<'a, Rel, F>,
    lsr: &mut PlainSearch<T, D, S>,
    lsn_idx: usize,
    gns: GraphNeighborStore,
    no_filter: bool,
    read: R,
)
    where
        F: Fn(&[T], &[T]) -> D + Copy,
        S: StatsNodeRead + StatsDistanceComparison,
        R: Fn(&Rel, IndexPointer, &mut S) -> PlainNode<T>,
    requires
        call_ensures(
            PlainStorage::<Rel, F>::visit_lsn::<T, D, S, R>,
            (&storage, lsr, lsn_idx, &gns, no_filter, &read),
            (),
        ),
    ensures
        ({
            let neighbors = old(lsr).visited@[lsn_idx as int].private_data.neighbors@;
            let n = old(lsr).candidates@.len() as int;
            let candidates = final(lsr).candidates@;
            &&& forall|i: int|
                n <= i < candidates.len() ==> neighbors.contains(
                    (#[trigger] candidates[i]).index_pointer,
                ) && !old(lsr).inserted@.contains(candidates[i].index_pointer)
            &&& forall|p: ItemPointer| #[trigger]
                neighbors.contains(p) && !old(lsr).inserted@.contains(p) ==> exists|i: int|
                    n <= i < candidates.len() && (#[trigger] candidates[i]).index_pointer == p
            &&& forall|i: int, j: int|
                n <= i < j < candidates.len() ==> (#[trigger] candidates[i]).index_pointer != (
                #[trigger] candidates[j]).index_pointer
            &&& forall|i: int, j: int|
                n <= i < j < candidates.len() ==> {
                    let p = (#[trigger] candidates[i]).index_pointer;
                    let q = (#[trigger] candidates[j]).index_pointer;
                    exists|a: int|
                        0 <= a < neighbors.len() && #[trigger] neighbors[a] == p && forall|b: int|
                            0 <= b <= a ==> #[trigger] neighbors[b] != q
                }
            &&& forall|p: ItemPointer| #[trigger]
                final(lsr).inserted@.contains(p) <==> old(lsr).inserted@.contains(p)
                    || neighbors.contains(p)
        }),
{
    let neighbors = lsr.visited@[lsn_idx as int].private_data.neighbors@;
    let seen = lsr.inserted@;
    let n = lsr.candidates@.len() as int;
    let candidates = final(lsr).candidates@;
    let todo = fresh(seen, neighbors);
    fresh_is_exact(seen, neighbors);
    assert forall|i: int| n <= i < candidates.len() implies (
    #[trigger] candidates[i]).index_pointer == todo[i - n] by {
        assert(storage.meets(*lsr, candidates[n + (i - n)], todo[i - n], gns, read));
    }
    assert forall|i: int| n <= i < candidates.len() implies neighbors.contains(
        (#[trigger] candidates[i]).index_pointer,
    ) && !seen.contains(candidates[i].index_pointer) by {
        assert(todo.contains(todo[i - n]));
    }
    assert forall|p: ItemPointer| #[trigger]
        neighbors.contains(p) && !seen.contains(p) implies exists|i: int|
        n <= i < candidates.len() && (#[trigger] candidates[i]).index_pointer == p by {
        assert(todo.contains(p));
        let k = choose|k: int| 0 <= k < todo.len() && todo[k] == p;
        assert(candidates[n + k].index_pointer == p);
    }
    assert forall|i: int, j: int| n <= i < j < candidates.len() implies ({
        let p = (#[trigger] candidates[i]).index_pointer;
        let q = (#[trigger] candidates[j]).index_pointer;
        exists|a: int|
            0 <= a < neighbors.len() && #[trigger] neighbors[a] == p && forall|b: int|
                0 <= b <= a ==> #[trigger] neighbors[b] != q
    }) by {
        fresh_keeps_the_order(seen, neighbors, i - n, j - n);
    }
    assert forall|p: ItemPointer| #[trigger] final(lsr).inserted@.contains(p) <==> seen.contains(p)
        || neighbors.contains(p) by {
        assert(neighbors.to_set().contains(p) <==> neighbors.contains(p));
    }
}

/// What `fresh` keeps, it keeps in the order of the list.
pub proof fn fresh_keeps_the_order(
    seen: Set<ItemPointer>,
    pointers: Seq<ItemPointer>,
    i: int,
    j: int,
)
    requires
        0 <= i < j < fresh(seen, pointers).len(),
    ensures
        exists|a: int|
            0 <= a < pointers.len() && #[trigger] pointers[a] == fresh(seen, pointers)[i] && forall|
                b: int,
            |
                0 <= b <= a ==> #[trigger] pointers[b] != fresh(seen, pointers)[j],
    decreases pointers.len(),
{
    let kept = fresh(seen, pointers);
    let before = pointers.drop_last();
    let last = pointers.last();
    let kept_before = fresh(seen, before);
    fresh_is_exact(seen, before);
    if j < kept_before.len() {
        fresh_keeps_the_order(seen, before, i, j);
        let a = choose|a: int|
            0 <= a < before.len() && #[trigger] before[a] == kept[i] && forall|b: int|
                0 <= b <= a ==> #[trigger] before[b] != kept[j];
        assert(pointers[a] == kept[i]);
        assert forall|b: int| 0 <= b <= a implies #[trigger] pointers[b] != kept[j] by {
            assert(before[b] != kept[j]);
        }
    } else {
        assert(kept[j] == last && !before.contains(last));
        assert(kept_before.contains(kept_before[i]));
        let a = choose|a: int| 0 <= a < before.len() && before[a] == kept[i];
        assert(pointers[a] == kept[i]);
        assert forall|b: int| 0 <= b <= a implies #[trigger] pointers[b] != kept[j] by {
            assert(before.contains(before[b]));
        }
    }
}

/// A search neighbour that was met stands for a node read at the pointer.
proof fn node_met<'a, Rel, F, T, D, S, R>(
    storage: PlainStorage<'a, Rel, F>,
    lsr: PlainSearch<T, D, S>,
    c: PlainSearchNeighbor<D>,
    ip: ItemPointer,
    gns: GraphNeighborStore,
    read: R,
    query: LabeledVector<T>,
)
    where
        F: Fn(&[T], &[T]) -> D + Copy,
        S: StatsNodeRead + StatsDistanceComparison,
        R: Fn(&Rel, IndexPointer, &mut S) -> PlainNode<T>,
    requires
        lsr.sdm == Some(PlainDistanceMeasure::Full(query)),
        storage.meets(lsr, c, ip, gns, read),
    ensures
        c.index_pointer == ip,
        c.labels is None,
        c.distance_with_tie_break.from == lsr.tie_break_item_pointer,
        c.distance_with_tie_break.to == ip,
        exists|s: &mut S, node: PlainNode<T>, x: &[T], y: &[T]|
            {
                &&& #[trigger] call_ensures(read, (storage.index, ip, s), node)
                &&& #[trigger] call_ensures(
                    storage.distance_fn,
                    (x, y),
                    c.distance_with_tie_break.distance,
                )
                &&& x@ == query.vec.index()
                &&& y@ == node.vector@
                &&& c.private_data.heap_pointer == node.heap_item_pointer
                &&& c.private_data.neighbors@ == match gns {
                    GraphNeighborStore::Disk => node.neighbors@,
                    GraphNeighborStore::Builder(record) => record.neighbors_of(ip),
                }
            },
{
    let (node, distance) = choose|node: PlainNode<T>, distance: D| #[trigger]
        gives_node(read, storage.index, ip, node) && #[trigger] distance_gives(
            storage.distance_fn,
            query_of(lsr),
            node.vector@,
            distance,
        ) && lsn_shows(c, ip, distance, lsr.tie_break_item_pointer, node, gns);
    let s = choose|s: &mut S| #[trigger] call_ensures(read, (storage.index, ip, s), node);
    let (x, y) = choose|x: &[T], y: &[T]|
        x@ == query_of(lsr) && y@ == node.vector@ && #[trigger] call_ensures(
            storage.distance_fn,
            (x, y),
            distance,
        );
    assert(call_ensures(read, (storage.index, ip, s), node));
    assert(call_ensures(storage.distance_fn, (x, y), c.distance_with_tie_break.distance));
}

/// Every candidate that a visit adds stands for a node that was read at its
/// pointer: it has the row of that node, the links of that node or those that the
/// build has on record, no labels, and a distance that the distance function gave
/// for the query's indexed dimensions and the whole vector of that node.
pub proof fn visit_makes_candidates_of_nodes_read<'a, Rel, F, T, D, S, R>(
    storage: PlainStorage<'a, Rel, F>,
    lsr: &mut PlainSearch<T, D, S>,
    lsn_idx: usize,
    gns: GraphNeighborStore,
    no_filter: bool,
    read: R,
    query: LabeledVector<T>,
)
    where
        F: Fn(&[T], &[T]) -> D + Copy,
        S: StatsNodeRead + StatsDistanceComparison,
        R: Fn(&Rel, IndexPointer, &mut S) -> PlainNode<T>,
    requires
        old(lsr).sdm == Some(PlainDistanceMeasure::Full(query)),
        call_ensures(
            PlainStorage::<Rel, F>::visit_lsn::<T, D, S, R>,
            (&storage, lsr, lsn_idx, &gns, no_filter, &read),
            (),
        ),
    ensures
        forall|i: int|
            old(lsr).candidates@.len() <= i < final(lsr).candidates@.len() ==> {
                let c = #[trigger] final(lsr).candidates@[i];
                &&& c.labels is None
                &&& c.distance_with_tie_break.from == old(lsr).tie_break_item_pointer
                &&& c.distance_with_tie_break.to == c.index_pointer
                &&& exists|s: &mut S, node: PlainNode<T>, x: &[T], y: &[T]|
                    {
                        &&& #[trigger] call_ensures(read, (storage.index, c.index_pointer, s), node)
                        &&& #[trigger] call_ensures(
                            storage.distance_fn,
                            (x, y),
                            c.distance_with_tie_break.distance,
                        )
                        &&& x@ == query.vec.index()
                        &&& y@ == node.vector@
                        &&& c.private_data.heap_pointer == node.heap_item_pointer
                        &&& c.private_data.neighbors@ == match gns {
                            GraphNeighborStore::Disk => node.neighbors@,
                            GraphNeighborStore::Builder(record) => record.neighbors_of(
                                c.index_pointer,
                            ),
                        }
                    }
            },
{
    let neighbors = lsr.visited@[lsn_idx as int].private_data.neighbors@;
    let n = lsr.candidates@.len() as int;
    let todo = fresh(lsr.inserted@, neighbors);
    assert forall|i: int| n <= i < final(lsr).candidates@.len() implies ({
        let c = #[trigger] final(lsr).candidates@[i];
        &&& c.labels is None
        &&& c.distance_with_tie_break.from == lsr.tie_break_item_pointer
        &&& c.distance_with_tie_break.to == c.index_pointer
        &&& exists|s: &mut S, node: PlainNode<T>, x: &[T], y: &[T]|
            {
                &&& #[trigger] call_ensures(read, (storage.index, c.index_pointer, s), node)
                &&& #[trigger] call_ensures(
                    storage.distance_fn,
                    (x, y),
                    c.distance_with_tie_break.distance,
                )
                &&& x@ == query.vec.index()
                &&& y@ == node.vector@
                &&& c.private_data.heap_pointer == node.heap_item_pointer
                &&& c.private_data.neighbors@ == match gns {
                    GraphNeighborStore::Disk => node.neighbors@,
                    GraphNeighborStore::Builder(record) => record.neighbors_of(c.index_pointer),
                }
            }
    }) by {
        let c = final(lsr).candidates@[n + (i - n)];
        assert(storage.meets(*lsr, c, todo[i - n], gns, read));
        node_met(storage, *lsr, c, todo[i - n], gns, read, query);
    }
}

/// A visit counts one read and one comparison for every candidate that it adds,
/// and nothing else; that many neighbours there are that were not taken up before.
/// Where there are none, the counters are left alone.
pub proof fn visit_counts_its_candidates<'a, Rel, F, T, D, S, R>(
    storage: PlainStorage<'a, Rel, F>,
    lsr: &mut PlainSearch<T, D, S>,
    lsn_idx: usize,
    gns: GraphNeighborStore,
    no_filter: bool,
    read: R,
)
    where
        F: Fn(&[T], &[T]) -> D + Copy,
        S: StatsNodeRead + StatsDistanceComparison,
        R: Fn(&Rel, IndexPointer, &mut S) -> PlainNode<T>,
    requires
        call_ensures(
            PlainStorage::<Rel, F>::visit_lsn::<T, D, S, R>,
            (&storage, lsr, lsn_idx, &gns, no_filter, &read),
            (),
        ),
    ensures
        ({
            let added = final(lsr).candidates@.len() - old(lsr).candidates@.len();
            let neighbors = old(lsr).visited@[lsn_idx as int].private_data.neighbors@;
            &&& added == neighbors.to_set().difference(old(lsr).inserted@).len()
            &&& final(lsr).stats.counts().node_reads == old(lsr).stats.counts().node_reads + added
            &&& final(lsr).stats.counts().full_distance_comparisons == old(
                lsr,
            ).stats.counts().full_distance_comparisons + added
            &&& final(lsr).stats.counts().heap_node_reads == old(
                lsr,
            ).stats.counts().heap_node_reads
            &&& final(lsr).stats.counts().node_writes == old(lsr).stats.counts().node_writes
            &&& final(lsr).stats.counts().node_modifies == old(lsr).stats.counts().node_modifies
            &&& added == 0 ==> final(lsr).stats == old(lsr).stats
        }),
{
    fresh_len(lsr.inserted@, lsr.visited@[lsn_idx as int].private_data.neighbors@);
}

/// `fresh` keeps as many pointers as the list has that are not in `seen`.
pub proof fn fresh_len(seen: Set<ItemPointer>, pointers: Seq<ItemPointer>)
    ensures
        fresh(seen, pointers).len() == pointers.to_set().difference(seen).len(),
{
    let kept = fresh(seen, pointers);
    fresh_is_exact(seen, pointers);
    kept.unique_seq_to_set();
    assert forall|p: ItemPointer| #[trigger]
        kept.to_set().contains(p) <==> pointers.to_set().difference(seen).contains(p) by {
        assert(kept.to_set().contains(p) <==> kept.contains(p));
        assert(pointers.to_set().contains(p) <==> pointers.contains(p));
    }
    assert(kept.to_set() =~= pointers.to_set().difference(seen));
}

/// A visit without label filters may be made of any node visited, where each
/// neighbour not taken up before can be read, counted and compared with the query.
pub proof fn visit_may_be_made<'a, Rel, F, T, D, S, R>(
    storage: PlainStorage<'a, Rel, F>,
    lsr: &mut PlainSearch<T, D, S>,
    lsn_idx: usize,
    gns: GraphNeighborStore,
    no_filter: bool,
    read: R,
    query: LabeledVector<T>,
)
    where
        F: Fn(&[T], &[T]) -> D + Copy,
        S: StatsNodeRead + StatsDistanceComparison,
        R: Fn(&Rel, IndexPointer, &mut S) -> PlainNode<T>,
    requires
        no_filter,
        lsn_idx < old(lsr).visited@.len(),
        forall|ip: IndexPointer, s: &mut S, node: PlainNode<T>| #[trigger]
            call_ensures(read, (storage.index, ip, s), node) ==> final(s).counts() == (StatsCounts {
                node_reads: s.counts().node_reads + 1,
                ..s.counts()
            }),
        ({
            let neighbors = old(lsr).visited@[lsn_idx as int].private_data.neighbors@;
            let new = neighbors.to_set().difference(old(lsr).inserted@);
            ||| new.len() == 0
            ||| {
                &&& old(lsr).sdm == Some(PlainDistanceMeasure::Full(query))
                &&& old(lsr).stats.counts().node_reads + new.len() <= usize::MAX
                &&& old(lsr).stats.counts().full_distance_comparisons + new.len() <= usize::MAX
                &&& forall|ip: ItemPointer, s: &mut S|
                    new.contains(ip) && s.counts().node_reads < usize::MAX
                        ==> #[trigger] call_requires(read, (storage.index, ip, s))
                &&& forall|ip: ItemPointer, s: &mut S, node: PlainNode<T>|
                    new.contains(ip) && #[trigger] call_ensures(read, (storage.index, ip, s), node)
                        ==> node.vector@.len() > 0 && node.vector@.len()
                        == query.vec.index().len() && forall|x: &[T], y: &[T]|
                        x@ == query.vec.index() && y@ == node.vector@ ==> #[trigger] call_requires(
                            storage.distance_fn,
                            (x, y),
                        )
            }
        }),
    ensures
        call_requires(
            PlainStorage::<Rel, F>::visit_lsn::<T, D, S, R>,
            (&storage, lsr, lsn_idx, &gns, no_filter, &read),
        ),
{
    let neighbors = lsr.visited@[lsn_idx as int].private_data.neighbors@;
    let todo = fresh(lsr.inserted@, neighbors);
    fresh_is_exact(lsr.inserted@, neighbors);
    fresh_len(lsr.inserted@, neighbors);
    assert forall|i: int| 0 <= i < todo.len() implies neighbors.to_set().difference(
        lsr.inserted@,
    ).contains(#[trigger] todo[i]) by {
        assert(todo.contains(todo[i]));
        assert(neighbors.to_set().contains(todo[i]));
    }
}

/// A start gives nothing exactly where the pointer was taken up before, and then
/// changes nothing; else it takes up the pointer, and counts one read and one
/// comparison.  It leaves candidates, visited nodes and the query as they were.
pub proof fn start_takes_up_its_node<'a, Rel, F, T, D, S, R>(
    storage: PlainStorage<'a, Rel, F>,
    lsr: &mut PlainSearch<T, D, S>,
    ip: ItemPointer,
    gns: GraphNeighborStore,
    read: R,
    lsn: Option<PlainSearchNeighbor<D>>,
)
    where
        F: Fn(&[T], &[T]) -> D + Copy,
        S: StatsNodeRead + StatsDistanceComparison,
        R: Fn(&Rel, IndexPointer, &mut S) -> PlainNode<T>,
    requires
        call_ensures(
            PlainStorage::<Rel, F>::create_lsn_for_start_node::<T, D, S, R>,
            (&storage, lsr, ip, &gns, &read),
            lsn,
        ),
    ensures
        lsn is None <==> old(lsr).inserted@.contains(ip),
        forall|p: ItemPointer| #[trigger]
            final(lsr).inserted@.contains(p) <==> old(lsr).inserted@.contains(p) || p == ip,
        final(lsr).candidates@ == old(lsr).candidates@,
        final(lsr).visited@ == old(lsr).visited@,
        final(lsr).sdm == old(lsr).sdm,
        final(lsr).tie_break_item_pointer == old(lsr).tie_break_item_pointer,
        lsn is None ==> final(lsr).stats == old(lsr).stats,
        lsn is Some ==> final(lsr).stats.counts() == (StatsCounts {
            node_reads: old(lsr).stats.counts().node_reads + 1,
            full_distance_comparisons: old(lsr).stats.counts().full_distance_comparisons + 1,
            ..old(lsr).stats.counts()
        }),
{
}

/// What a start gives stands for a node that was read at the pointer: it has the
/// row of that node, the links of that node or those that the build has on record,
/// no labels, and a distance that the distance function gave for the query's
/// indexed dimensions and the whole vector of that node.
pub proof fn start_gives_the_node_read<'a, Rel, F, T, D, S, R>(
    storage: PlainStorage<'a, Rel, F>,
    lsr: &mut PlainSearch<T, D, S>,
    ip: ItemPointer,
    gns: GraphNeighborStore,
    read: R,
    lsn: Option<PlainSearchNeighbor<D>>,
    query: LabeledVector<T>,
)
    where
        F: Fn(&[T], &[T]) -> D + Copy,
        S: StatsNodeRead + StatsDistanceComparison,
        R: Fn(&Rel, IndexPointer, &mut S) -> PlainNode<T>,
    requires
        old(lsr).sdm == Some(PlainDistanceMeasure::Full(query)),
        call_ensures(
            PlainStorage::<Rel, F>::create_lsn_for_start_node::<T, D, S, R>,
            (&storage, lsr, ip, &gns, &read),
            lsn,
        ),
    ensures
        lsn matches Some(c) ==> {
            &&& c.index_pointer == ip
            &&& c.labels is None
            &&& c.distance_with_tie_break.from == old(lsr).tie_break_item_pointer
            &&& c.distance_with_tie_break.to == ip
            &&& exists|s: &mut S, node: PlainNode<T>, x: &[T], y: &[T]|
                {
                    &&& #[trigger] call_ensures(read, (storage.index, ip, s), node)
                    &&& #[trigger] call_ensures(
                        storage.distance_fn,
                        (x, y),
                        c.distance_with_tie_break.distance,
                    )
                    &&& x@ == query.vec.index()
                    &&& y@ == node.vector@
                    &&& c.private_data.heap_pointer == node.heap_item_pointer
                    &&& c.private_data.neighbors@ == match gns {
                        GraphNeighborStore::Disk => node.neighbors@,
                        GraphNeighborStore::Builder(record) => record.neighbors_of(ip),
                    }
                }
        },
{
    if lsn is Some {
        node_met(storage, *lsr, lsn->0, ip, gns, read, query);
    }
}

/// A search may start at any pointer that it has taken up before, and at any whose
/// node can be read, counted and compared with the query.
pub proof fn start_may_be_made<'a, Rel, F, T, D, S, R>(
    storage: PlainStorage<'a, Rel, F>,
    lsr: &mut PlainSearch<T, D, S>,
    ip: ItemPointer,
    gns: GraphNeighborStore,
    read: R,
    lsn: Option<PlainSearchNeighbor<D>>,
    query: LabeledVector<T>,
)
    where
        F: Fn(&[T], &[T]) -> D + Copy,
        S: StatsNodeRead + StatsDistanceComparison,
        R: Fn(&Rel, IndexPointer, &mut S) -> PlainNode<T>,
    requires
        forall|ip: IndexPointer, s: &mut S, node: PlainNode<T>| #[trigger]
            call_ensures(read, (storage.index, ip, s), node) ==> final(s).counts() == (StatsCounts {
                node_reads: s.counts().node_reads + 1,
                ..s.counts()
            }),
        old(lsr).inserted@.contains(ip) || {
            &&& old(lsr).sdm == Some(PlainDistanceMeasure::Full(query))
            &&& old(lsr).stats.counts().node_reads < usize::MAX
            &&& old(lsr).stats.counts().full_distance_comparisons < usize::MAX
            &&& forall|s: &mut S|
                s.counts().node_reads < usize::MAX ==> #[trigger] call_requires(
                    read,
                    (storage.index, ip, s),
                )
            &&& forall|s: &mut S, node: PlainNode<T>| #[trigger]
                call_ensures(read, (storage.index, ip, s), node) ==> node.vector@.len() > 0
                    && node.vector@.len() == query.vec.index().len() && forall|x: &[T], y: &[T]|
                    x@ == query.vec.index() && y@ == node.vector@ ==> #[trigger] call_requires(
                        storage.distance_fn,
                        (x, y),
                    )
        },
    ensures
        call_requires(
            PlainStorage::<Rel, F>::create_lsn_for_start_node::<T, D, S, R>,
            (&storage, lsr, ip, &gns, &read),
        ),
{
}

/// Where reading a pointer gives back a node with this vector, row and links, a
/// start there gives that row, through `return_lsn` too, those links where the
/// pages are followed, and a distance of the query from exactly that vector.
pub proof fn start_gives_back_row_links_and_distance<'a, Rel, F, T, D, S, R>(
    storage: PlainStorage<'a, Rel, F>,
    lsr: &mut PlainSearch<T, D, S>,
    ip: ItemPointer,
    gns: GraphNeighborStore,
    read: R,
    lsn: Option<PlainSearchNeighbor<D>>,
    query: LabeledVector<T>,
    vector: Seq<T>,
    row: HeapPointer,
    links: Seq<ItemPointer>,
    stats: &mut GreedySearchStats,
    returned: HeapPointer,
)
    where
        F: Fn(&[T], &[T]) -> D + Copy,
        S: StatsNodeRead + StatsDistanceComparison,
        R: Fn(&Rel, IndexPointer, &mut S) -> PlainNode<T>,
    requires
        old(lsr).sdm == Some(PlainDistanceMeasure::Full(query)),
        forall|s: &mut S, node: PlainNode<T>| #[trigger]
            call_ensures(read, (storage.index, ip, s), node) ==> node.vector@ == vector
                && node.heap_item_pointer == row && node.neighbors@ == links,
        call_ensures(
            PlainStorage::<Rel, F>::create_lsn_for_start_node::<T, D, S, R>,
            (&storage, lsr, ip, &gns, &read),
            lsn,
        ),
        lsn is Some,
        call_ensures(
            PlainStorage::<Rel, F>::return_lsn::<D>,
            (&storage, &lsn->0, stats),
            returned,
        ),
    ensures
        returned == row,
        lsn->0.private_data.heap_pointer == row,
        gns is Disk ==> lsn->0.private_data.neighbors@ == links,
        exists|x: &[T], y: &[T]|
            x@ == query.vec.index() && y@ == vector && #[trigger] call_ensures(
                storage.distance_fn,
                (x, y),
                lsn->0.distance_with_tie_break.distance,
            ),
        *final(stats) == *old(stats),
{
    start_gives_the_node_read(storage, lsr, ip, gns, read, lsn, query);
}

/// Where reading a pointer gives back a node with this vector, row and links, the
/// candidate that a visit adds for the pointer has that row, those links where the
/// pages are followed, and a distance of the query from exactly that vector.
pub proof fn visit_gives_back_row_links_and_distance<'a, Rel, F, T, D, S, R>(
    storage: PlainStorage<'a, Rel, F>,
    lsr: &mut PlainSearch<T, D, S>,
    lsn_idx: usize,
    gns: GraphNeighborStore,
    no_filter: bool,
    read: R,
    query: LabeledVector<T>,
    ip: ItemPointer,
    vector: Seq<T>,
    row: HeapPointer,
    links: Seq<ItemPointer>,
)
    where
        F: Fn(&[T], &[T]) -> D + Copy,
        S: StatsNodeRead + StatsDistanceComparison,
        R: Fn(&Rel, IndexPointer, &mut S) -> PlainNode<T>,
    requires
        old(lsr).sdm == Some(PlainDistanceMeasure::Full(query)),
        forall|s: &mut S, node: PlainNode<T>| #[trigger]
            call_ensures(read, (storage.index, ip, s), node) ==> node.vector@ == vector
                && node.heap_item_pointer == row && node.neighbors@ == links,
        call_ensures(
            PlainStorage::<Rel, F>::visit_lsn::<T, D, S, R>,
            (&storage, lsr, lsn_idx, &gns, no_filter, &read),
            (),
        ),
    ensures
        forall|i: int|
            old(lsr).candidates@.len() <= i < final(lsr).candidates@.len() && (
            #[trigger] final(lsr).candidates@[i]).index_pointer == ip ==> {
                let c = final(lsr).candidates@[i];
                &&& c.private_data.heap_pointer == row
                &&& gns is Disk ==> c.private_data.neighbors@ == links
                &&& exists|x: &[T], y: &[T]|
                    x@ == query.vec.index() && y@ == vector && #[trigger] call_ensures(
                        storage.distance_fn,
                        (x, y),
                        c.distance_with_tie_break.distance,
                    )
            },
{
    visit_makes_candidates_of_nodes_read(
        storage,
        lsr,
        lsn_idx,
        gns,
        no_filter,
        read,
        query,
    );
}

/// A resort gives nothing exactly where the fetch gave no row: where the fetch can
/// give only rows it gives a distance, and where it can give none it gives none.
/// The distance is one that the distance function gave for the whole vector of the
/// row fetched and the whole vector of the query.  One row is counted.
pub proof fn resort_measures_the_row_fetched<'a, Rel, F, T, D, S, N, Slot, Datum, G, A, P>(
    storage: PlainStorage<'a, Rel, F>,
    snapshot: N,
    query: LabeledVector<T>,
    index_pointer: IndexPointer,
    heap_pointer: HeapPointer,
    meta_page: MetaPage,
    stats: &mut S,
    fetch: G,
    get_attribute: A,
    from_datum: P,
    distance: Option<D>,
)
    where
        F: Fn(&[T], &[T]) -> D + Copy,
        S: StatsHeapNodeRead + StatsDistanceComparison,
        G: FnOnce(&Rel, HeapPointer, N) -> Option<Slot>,
        A: FnOnce(&Slot, i16) -> Option<Datum>,
        P: FnOnce(Datum, &MetaPage, bool, bool) -> PgVector<T>,
    requires
        call_ensures(
            PlainStorage::<Rel, F>::get_full_distance_for_resort::<T, D, S, N, Slot, Datum, G, A, P>,
            (
                &storage,
                snapshot,
                &PlainDistanceMeasure::Full(query),
                index_pointer,
                heap_pointer,
                &meta_page,
                stats,
                fetch,
                get_attribute,
                from_datum,
            ),
            distance,
        ),
    ensures
        distance is None ==> call_ensures(
            fetch,
            (storage.heap_rel, heap_pointer, snapshot),
            None,
        ),
        (forall|row: Option<Slot>| #[trigger]
            call_ensures(fetch, (storage.heap_rel, heap_pointer, snapshot), row) ==> row is Some)
            ==> distance is Some,
        (forall|row: Option<Slot>| #[trigger]
            call_ensures(fetch, (storage.heap_rel, heap_pointer, snapshot), row) ==> row is None)
            ==> distance is None,
        distance matches Some(d) ==> exists|
            slot: Slot,
            datum: Datum,
            vec: PgVector<T>,
            x: &[T],
            y: &[T],
        |
            {
                &&& call_ensures(fetch, (storage.heap_rel, heap_pointer, snapshot), Some(slot))
                &&& #[trigger] call_ensures(
                    get_attribute,
                    (&slot, storage.heap_attr),
                    Some(datum),
                )
                &&& #[trigger] call_ensures(from_datum, (datum, &meta_page, false, true), vec)
                &&& #[trigger] call_ensures(storage.distance_fn, (x, y), d)
                &&& x@ == vec.full()
                &&& y@ == query.vec.full()
            },
        final(stats).counts() == (StatsCounts {
            heap_node_reads: old(stats).counts().heap_node_reads + 1,
            ..old(stats).counts()
        }),
{
}

/// A row may be resorted where the index compares fewer dimensions than the table
/// holds, whatever the pointers, if the row can be fetched and counted, and every
/// row fetched has a vector that the distance function takes.
pub proof fn resort_may_be_made<'a, Rel, F, T, D, S, N, Slot, Datum, G, A, P>(
    storage: PlainStorage<'a, Rel, F>,
    snapshot: N,
    query: LabeledVector<T>,
    index_pointer: IndexPointer,
    heap_pointer: HeapPointer,
    meta_page: MetaPage,
    stats: &mut S,
    fetch: G,
    get_attribute: A,
    from_datum: P,
)
    where
        F: Fn(&[T], &[T]) -> D + Copy,
        S: StatsHeapNodeRead + StatsDistanceComparison,
        G: FnOnce(&Rel, HeapPointer, N) -> Option<Slot>,
        A: FnOnce(&Slot, i16) -> Option<Datum>,
        P: FnOnce(Datum, &MetaPage, bool, bool) -> PgVector<T>,
    requires
        meta_page.num_dimensions > meta_page.num_dimensions_to_index,
        old(stats).counts().heap_node_reads < usize::MAX,
        call_requires(fetch, (storage.heap_rel, heap_pointer, snapshot)),
        forall|slot: Slot| #[trigger]
            call_ensures(fetch, (storage.heap_rel, heap_pointer, snapshot), Some(slot))
                ==> call_requires(get_attribute, (&slot, storage.heap_attr)),
        forall|slot: Slot, attribute: Option<Datum>| #[trigger]
            call_ensures(get_attribute, (&slot, storage.heap_attr), attribute) ==> attribute is Some
                && call_requires(from_datum, (attribute->0, &meta_page, false, true)),
        forall|datum: Datum, vec: PgVector<T>, x: &[T], y: &[T]| #[trigger]
            call_ensures(from_datum, (datum, &meta_page, false, true), vec) && x@ == vec.full()
                && y@ == query.vec.full() ==> #[trigger] call_requires(
                storage.distance_fn,
                (x, y),
            ),
    ensures
        call_requires(
            PlainStorage::<Rel, F>::get_full_distance_for_resort::<T, D, S, N, Slot, Datum, G, A, P>,
            (
                &storage,
                snapshot,
                &PlainDistanceMeasure::Full(query),
                index_pointer,
                heap_pointer,
                &meta_page,
                stats,
                fetch,
                get_attribute,
                from_datum,
            ),
        ),
{
}

/// To set the links of a node puts the node found back with one link for every
/// neighbour given, the pointer of neighbour `i` as link `i`, and with the vector
/// and the row that it had.  One node is counted as changed.
pub proof fn set_links_are_those_given<'a, Rel, F, T, D, S, H, M, C>(
    storage: PlainStorage<'a, Rel, F>,
    meta: MetaPage,
    ip: IndexPointer,
    neighbors: &[NeighborWithDistance<D>],
    stats: &mut S,
    modify: M,
    commit: C,
)
    where
        S: StatsNodeRead + StatsNodeModify,
        M: FnOnce(&Rel, IndexPointer) -> (PlainNode<T>, H),
        C: FnOnce(H, PlainNode<T>, &MetaPage),
    requires
        call_ensures(
            PlainStorage::<Rel, F>::set_neighbors_on_disk::<T, D, S, H, M, C>,
            (&storage, &meta, ip, neighbors, stats, modify, commit),
            (),
        ),
    ensures
        exists|found: (PlainNode<T>, H), node: PlainNode<T>|
            {
                &&& #[trigger] call_ensures(modify, (storage.index, ip), found)
                &&& #[trigger] call_ensures(commit, (found.1, node, &meta), ())
                &&& node.vector@ == found.0.vector@
                &&& node.heap_item_pointer == found.0.heap_item_pointer
                &&& node.neighbors@.len() == neighbors@.len()
                &&& forall|i: int|
                    0 <= i < neighbors@.len() ==> #[trigger] node.neighbors@[i]
                        == neighbors@[i].index_pointer_to_neighbor
            },
        final(stats).counts() == (StatsCounts {
            node_modifies: old(stats).counts().node_modifies + 1,
            ..old(stats).counts()
        }),
{
    let (found, node) = choose|found: (PlainNode<T>, H), node: PlainNode<T>| #[trigger]
        call_ensures(modify, (storage.index, ip), found) && #[trigger] node.is_relinked(
            found.0,
            neighbors@,
        ) && call_ensures(commit, (found.1, node, &meta), ());
    assert(call_ensures(commit, (found.1, node, &meta), ()));
}

/// To finalize a node puts the node found back with one link for every neighbour
/// given, the pointer of neighbour `i` as link `i`, and with the vector and the row
/// that it had.  One node is counted as changed, and the storage is as it was.
pub proof fn finalized_links_are_those_given<'a, Rel, F, T, D, S, H, M, C>(
    storage: &mut PlainStorage<'a, Rel, F>,
    meta: MetaPage,
    ip: IndexPointer,
    neighbors: &[NeighborWithDistance<D>],
    stats: &mut S,
    modify: M,
    commit: C,
)
    where
        S: StatsNodeRead + StatsNodeModify,
        M: FnOnce(&Rel, IndexPointer) -> (PlainNode<T>, H),
        C: FnOnce(H, PlainNode<T>, &MetaPage),
    requires
        call_ensures(
            PlainStorage::<Rel, F>::finalize_node_at_end_of_build::<T, D, S, H, M, C>,
            (storage, &meta, ip, neighbors, stats, modify, commit),
            (),
        ),
    ensures
        exists|found: (PlainNode<T>, H), node: PlainNode<T>|
            {
                &&& #[trigger] call_ensures(modify, (old(storage).index, ip), found)
                &&& #[trigger] call_ensures(commit, (found.1, node, &meta), ())
                &&& node.vector@ == found.0.vector@
                &&& node.heap_item_pointer == found.0.heap_item_pointer
                &&& node.neighbors@.len() == neighbors@.len()
                &&& forall|i: int|
                    0 <= i < neighbors@.len() ==> #[trigger] node.neighbors@[i]
                        == neighbors@[i].index_pointer_to_neighbor
            },
        final(stats).counts() == (StatsCounts {
            node_modifies: old(stats).counts().node_modifies + 1,
            ..old(stats).counts()
        }),
        *final(storage) == *old(storage),
{
    let (found, node) = choose|found: (PlainNode<T>, H), node: PlainNode<T>| #[trigger]
        call_ensures(modify, (storage.index, ip), found) && #[trigger] node.is_relinked(
            found.0,
            neighbors@,
        ) && call_ensures(commit, (found.1, node, &meta), ());
    assert(call_ensures(commit, (found.1, node, &meta), ()));
}

/// The links of a node may be set where its page can be opened, and the node found
/// put back with one link for every neighbour given; at the end of a build too.
pub proof fn links_may_be_set<'a, Rel, F, T, D, S, H, M, C>(
    storage: &mut PlainStorage<'a, Rel, F>,
    meta: MetaPage,
    ip: IndexPointer,
    neighbors: &[NeighborWithDistance<D>],
    stats: &mut S,
    modify: M,
    commit: C,
)
    where
        S: StatsNodeRead + StatsNodeModify,
        M: FnOnce(&Rel, IndexPointer) -> (PlainNode<T>, H),
        C: FnOnce(H, PlainNode<T>, &MetaPage),
    requires
        old(stats).counts().node_modifies < usize::MAX,
        call_requires(modify, (old(storage).index, ip)),
        forall|found: (PlainNode<T>, H), node: PlainNode<T>|
            call_ensures(modify, (old(storage).index, ip), found) && node.vector@
                == found.0.vector@ && node.heap_item_pointer == found.0.heap_item_pointer
                && node.neighbors@ =~= Seq::new(
                neighbors@.len(),
                |i: int| neighbors@[i].index_pointer_to_neighbor,
            ) ==> #[trigger] call_requires(commit, (found.1, node, &meta)),
    ensures
        call_requires(
            PlainStorage::<Rel, F>::set_neighbors_on_disk::<T, D, S, H, M, C>,
            (&*old(storage), &meta, ip, neighbors, stats, modify, commit),
        ),
        call_requires(
            PlainStorage::<Rel, F>::finalize_node_at_end_of_build::<T, D, S, H, M, C>,
            (storage, &meta, ip, neighbors, stats, modify, commit),
        ),
{
}

/// The links that a node was given are the links that it gives: as many, and each
/// in its place.
pub proof fn links_given_are_links_got<T, D>(
    node: &mut PlainNode<T>,
    neighbors: &[NeighborWithDistance<D>],
    got: Vec<ItemPointer>,
)
    requires
        call_ensures(PlainNode::<T>::set_neighbors::<D>, (node, neighbors), ()),
        call_ensures(PlainNode::<T>::get_index_pointer_to_neighbors, (&*final(node),), got),
    ensures
        got@.len() == neighbors@.len(),
        forall|i: int|
            0 <= i < neighbors@.len() ==> #[trigger] got@[i]
                == neighbors@[i].index_pointer_to_neighbor,
        final(node).neighbors@ == got@,
        final(node).vector@ == old(node).vector@,
        final(node).heap_item_pointer == old(node).heap_item_pointer,
{
}

/// A listing appends one entry for every link of the node read at the pointer, in
/// the order of the links, and leaves the entries that were there as they were.
/// Entry `i` is for link `i`, runs from the node listed to the linked node, has no
/// labels, and a distance that the distance function gave for the whole vectors of
/// a node read at the link and of the node listed.  The node listed and each linked
/// one are counted as read.
pub proof fn listing_has_every_link<'a, Rel, F, T, D, S, R>(
    storage: PlainStorage<'a, Rel, F>,
    ip: ItemPointer,
    result: &mut Vec<NeighborWithDistance<D>>,
    stats: &mut S,
    read: R,
)
    where
        F: Fn(&[T], &[T]) -> D + Copy,
        S: StatsNodeRead + StatsDistanceComparison,
        R: Fn(&Rel, IndexPointer, &mut S) -> PlainNode<T>,
    requires
        call_ensures(
            PlainStorage::<Rel, F>::get_neighbors_with_distances_from_disk::<T, D, S, R>,
            (&storage, ip, result, stats, &read),
            (),
        ),
    ensures
        forall|i: int|
            0 <= i < old(result)@.len() ==> #[trigger] final(result)@[i] == old(result)@[i],
        exists|s: &mut S, node: PlainNode<T>|
            {
                let n = old(result)@.len() as int;
                &&& #[trigger] call_ensures(read, (storage.index, ip, s), node)
                &&& final(result)@.len() == n + node.neighbors@.len()
                &&& final(stats).counts() == (StatsCounts {
                    node_reads: old(stats).counts().node_reads + 1 + node.neighbors@.len(),
                    ..old(stats).counts()
                })
                &&& forall|i: int|
                    n <= i < final(result)@.len() ==> {
                        let e = #[trigger] final(result)@[i];
                        &&& e.index_pointer_to_neighbor == node.neighbors@[i - n]
                        &&& e.distance.from == Some(ip)
                        &&& e.distance.to == node.neighbors@[i - n]
                        &&& e.labels is None
                        &&& exists|t: &mut S, linked: PlainNode<T>, x: &[T], y: &[T]|
                            {
                                &&& #[trigger] call_ensures(
                                    read,
                                    (storage.index, node.neighbors@[i - n], t),
                                    linked,
                                )
                                &&& #[trigger] call_ensures(
                                    storage.distance_fn,
                                    (x, y),
                                    e.distance.distance,
                                )
                                &&& x@ == linked.vector@
                                &&& y@ == node.vector@
                            }
                    }
            },
{
    let before = result@;
    let after = final(result)@;
    let n = before.len() as int;
    assert forall|i: int| 0 <= i < n implies #[trigger] after[i] == before[i] by {
        assert(after.subrange(0, n)[i] == before[i]);
    }
    let node = choose|node: PlainNode<T>| #[trigger]
        gives_node(read, storage.index, ip, node) && after.skip(n).len() == node.neighbors@.len()
            && storage.lists_neighbors(after.skip(n), ip, node, read) && final(stats).counts()
            == stats.counts().with_nodes_read(1 + node.neighbors@.len());
    let s = choose|s: &mut S| #[trigger] call_ensures(read, (storage.index, ip, s), node);
    assert(call_ensures(read, (storage.index, ip, s), node));
    assert forall|i: int| n <= i < after.len() implies ({
        let e = #[trigger] after[i];
        &&& e.index_pointer_to_neighbor == node.neighbors@[i - n]
        &&& e.distance.from == Some(ip)
        &&& e.distance.to == node.neighbors@[i - n]
        &&& e.labels is None
        &&& exists|t: &mut S, linked: PlainNode<T>, x: &[T], y: &[T]|
            {
                &&& #[trigger] call_ensures(
                    read,
                    (storage.index, node.neighbors@[i - n], t),
                    linked,
                )
                &&& #[trigger] call_ensures(storage.distance_fn, (x, y), e.distance.distance)
                &&& x@ == linked.vector@
                &&& y@ == node.vector@
            }
    }) by {
        assert(after.skip(n)[i - n] == after[i]);
    }
}

/// The neighbours of a node may be listed where the node and its neighbours can be
/// read and counted, and each neighbour compared with the node.
pub proof fn listing_may_be_made<'a, Rel, F, T, D, S, R>(
    storage: PlainStorage<'a, Rel, F>,
    ip: ItemPointer,
    result: &mut Vec<NeighborWithDistance<D>>,
    stats: &mut S,
    read: R,
)
    where
        F: Fn(&[T], &[T]) -> D + Copy,
        S: StatsNodeRead + StatsDistanceComparison,
        R: Fn(&Rel, IndexPointer, &mut S) -> PlainNode<T>,
    requires
        forall|ip: IndexPointer, s: &mut S, node: PlainNode<T>| #[trigger]
            call_ensures(read, (storage.index, ip, s), node) ==> final(s).counts() == (StatsCounts {
                node_reads: s.counts().node_reads + 1,
                ..s.counts()
            }),
        old(stats).counts().node_reads < usize::MAX,
        forall|s: &mut S|
            s.counts().node_reads < usize::MAX ==> #[trigger] call_requires(
                read,
                (storage.index, ip, s),
            ),
        forall|s: &mut S, node: PlainNode<T>| #[trigger]
            call_ensures(read, (storage.index, ip, s), node) ==> {
                &&& old(stats).counts().node_reads + 1 + node.neighbors@.len() <= usize::MAX
                &&& forall|i: int, t: &mut S|
                    0 <= i < node.neighbors@.len() && t.counts().node_reads < usize::MAX
                        ==> #[trigger] call_requires(
                        read,
                        (storage.index, node.neighbors@[i], t),
                    )
                &&& forall|i: int, t: &mut S, linked: PlainNode<T>|
                    0 <= i < node.neighbors@.len() && #[trigger] call_ensures(
                        read,
                        (storage.index, node.neighbors@[i], t),
                        linked,
                    ) ==> linked.vector@.len() > 0 && linked.vector@.len() == node.vector@.len()
                        && forall|x: &[T], y: &[T]|
                        x@ == linked.vector@ && y@ == node.vector@ ==> #[trigger] call_requires(
                            storage.distance_fn,
                            (x, y),
                        )
            },
    ensures
        call_requires(
            PlainStorage::<Rel, F>::get_neighbors_with_distances_from_disk::<T, D, S, R>,
            (&storage, ip, result, stats, &read),
        ),
{
}

/// The distance of a node from the one measured from is one that the distance
/// function gave for the whole vectors of the two, the node read at the pointer
/// first.  One read is counted, and no comparison.
pub proof fn distance_is_of_whole_vectors<'a, Rel, F, T, D, S, R>(
    measure: IndexFullDistanceMeasure<'a, Rel, F, T>,
    ip: IndexPointer,
    stats: &mut S,
    read: R,
    distance: D,
)
    where
        F: Fn(&[T], &[T]) -> D + Copy,
        S: StatsNodeRead + StatsDistanceComparison,
        R: Fn(&Rel, IndexPointer, &mut S) -> PlainNode<T>,
    requires
        call_ensures(
            IndexFullDistanceMeasure::<Rel, F, T>::get_distance::<D, S, R>,
            (&measure, ip, stats, &read),
            distance,
        ),
    ensures
        exists|s: &mut S, node: PlainNode<T>, x: &[T], y: &[T]|
            {
                &&& #[trigger] call_ensures(read, (measure.storage.index, ip, s), node)
                &&& #[trigger] call_ensures(measure.storage.distance_fn, (x, y), distance)
                &&& x@ == node.vector@
                &&& y@ == measure.readable_node.vector@
            },
        final(stats).counts() == (StatsCounts {
            node_reads: old(stats).counts().node_reads + 1,
            ..old(stats).counts()
        }),
{
}

/// A distance may be measured where the node can be read and counted, and compared
/// with the node measured from.
pub proof fn distance_may_be_measured<'a, Rel, F, T, D, S, R>(
    measure: IndexFullDistanceMeasure<'a, Rel, F, T>,
    ip: IndexPointer,
    stats: &mut S,
    read: R,
)
    where
        F: Fn(&[T], &[T]) -> D + Copy,
        S: StatsNodeRead + StatsDistanceComparison,
        R: Fn(&Rel, IndexPointer, &mut S) -> PlainNode<T>,
    requires
        forall|ip: IndexPointer, s: &mut S, node: PlainNode<T>| #[trigger]
            call_ensures(read, (measure.storage.index, ip, s), node) ==> final(s).counts() == (
            StatsCounts { node_reads: s.counts().node_reads + 1, ..s.counts() }),
        old(stats).counts().node_reads < usize::MAX,
        forall|s: &mut S|
            s.counts().node_reads < usize::MAX ==> #[trigger] call_requires(
                read,
                (measure.storage.index, ip, s),
            ),
        forall|s: &mut S, node: PlainNode<T>| #[trigger]
            call_ensures(read, (measure.storage.index, ip, s), node) ==> node.vector@.len() > 0
                && node.vector@.len() == measure.readable_node.vector@.len() && forall|
                x: &[T],
                y: &[T],
            |
                x@ == node.vector@ && y@ == measure.readable_node.vector@
                    ==> #[trigger] call_requires(measure.storage.distance_fn, (x, y)),
    ensures
        call_requires(
            IndexFullDistanceMeasure::<Rel, F, T>::get_distance::<D, S, R>,
            (&measure, ip, stats, &read),
        ),
{
}

/// Where reading one pointer gives back the vector `w` and reading another the
/// vector `v`, the measure from the first gives for the second a distance of
/// exactly `v` and `w`, on all their dimensions.
pub proof fn distance_between_two_nodes<'a, Rel, F, T, D, S, R>(
    storage: PlainStorage<'a, Rel, F>,
    from: IndexPointer,
    to: IndexPointer,
    stats: &mut S,
    more_stats: &mut S,
    read: R,
    measure: IndexFullDistanceMeasure<'a, Rel, F, T>,
    distance: D,
    v: Seq<T>,
    w: Seq<T>,
)
    where
        F: Fn(&[T], &[T]) -> D + Copy,
        S: StatsNodeRead + StatsDistanceComparison,
        R: Fn(&Rel, IndexPointer, &mut S) -> PlainNode<T>,
    requires
        forall|s: &mut S, node: PlainNode<T>| #[trigger]
            call_ensures(read, (storage.index, from, s), node) ==> node.vector@ == w,
        forall|s: &mut S, node: PlainNode<T>| #[trigger]
            call_ensures(read, (storage.index, to, s), node) ==> node.vector@ == v,
        call_ensures(
            PlainStorage::<Rel, F>::get_node_distance_measure::<T, S, R>,
            (&storage, from, stats, &read),
            measure,
        ),
        call_ensures(
            IndexFullDistanceMeasure::<Rel, F, T>::get_distance::<D, S, R>,
            (&measure, to, more_stats, &read),
            distance,
        ),
    ensures
        exists|x: &[T], y: &[T]|
            x@ == v && y@ == w && #[trigger] call_ensures(storage.distance_fn, (x, y), distance),
{
    distance_is_of_whole_vectors(measure, to, more_stats, read, distance);
}

/// A measure made for a pointer holds a node that was read there, whichever way it
/// was made, and the storage that it was made with; one read is counted.
pub proof fn measure_holds_the_node_read<'a, Rel, F, T, S, R>(
    storage: PlainStorage<'a, Rel, F>,
    ip: IndexPointer,
    stats: &mut S,
    read: R,
    measure: IndexFullDistanceMeasure<'a, Rel, F, T>,
    node: PlainNode<T>,
    held: IndexFullDistanceMeasure<'a, Rel, F, T>,
)
    where
        F: Copy,
        S: StatsNodeRead,
        R: Fn(&Rel, IndexPointer, &mut S) -> PlainNode<T>,
    requires
        call_ensures(
            PlainStorage::<Rel, F>::get_node_distance_measure::<T, S, R>,
            (&storage, ip, stats, &read),
            measure,
        ) || call_ensures(
            IndexFullDistanceMeasure::<Rel, F, T>::with_index_pointer::<S, R>,
            (&storage, ip, stats, &read),
            measure,
        ),
        call_ensures(
            IndexFullDistanceMeasure::<Rel, F, T>::with_readable_node,
            (&storage, node),
            held,
        ),
    ensures
        exists|s: &mut S| #[trigger]
            call_ensures(read, (storage.index, ip, s), measure.readable_node),
        *measure.storage == storage,
        final(stats).counts() == (StatsCounts {
            node_reads: old(stats).counts().node_reads + 1,
            ..old(stats).counts()
        }),
        held.readable_node == node,
        *held.storage == storage,
{
}

/// A measure may be made for any pointer whose node can be read and counted.
pub proof fn measure_may_be_made<'a, Rel, F, T, S, R>(
    storage: PlainStorage<'a, Rel, F>,
    ip: IndexPointer,
    stats: &mut S,
    read: R,
)
    where
        F: Copy,
        S: StatsNodeRead,
        R: Fn(&Rel, IndexPointer, &mut S) -> PlainNode<T>,
    requires
        forall|ip: IndexPointer, s: &mut S, node: PlainNode<T>| #[trigger]
            call_ensures(read, (storage.index, ip, s), node) ==> final(s).counts() == (StatsCounts {
                node_reads: s.counts().node_reads + 1,
                ..s.counts()
            }),
        old(stats).counts().node_reads < usize::MAX,
        forall|s: &mut S|
            s.counts().node_reads < usize::MAX ==> #[trigger] call_requires(
                read,
                (storage.index, ip, s),
            ),
    ensures
        call_requires(
            PlainStorage::<Rel, F>::get_node_distance_measure::<T, S, R>,
            (&storage, ip, stats, &read),
        ),
        call_requires(
            IndexFullDistanceMeasure::<Rel, F, T>::with_index_pointer::<S, R>,
            (&storage, ip, stats, &read),
        ),
{
}

/// The distance from a query is one that the distance function gave for the query
/// and the vector, whole and in that order.  One comparison is counted.
pub proof fn query_distance_is_of_whole_vectors<T, D, F, S>(
    distance_fn: F,
    query: &[T],
    vector: &[T],
    stats: &mut S,
    distance: D,
)
    where F: Fn(&[T], &[T]) -> D, S: StatsDistanceComparison
    requires
        call_ensures(
            PlainDistanceMeasure::<T>::calculate_distance::<D, F, S>,
            (distance_fn, query, vector, stats),
            distance,
        ),
    ensures
        exists|x: &[T], y: &[T]|
            x@ == query@ && y@ == vector@ && #[trigger] call_ensures(
                distance_fn,
                (x, y),
                distance,
            ),
        final(stats).counts() == (StatsCounts {
            full_distance_comparisons: old(stats).counts().full_distance_comparisons + 1,
            ..old(stats).counts()
        }),
{
}

/// A distance from a query may be asked for any two vectors of the same dimensions,
/// not zero, that the distance function takes.
pub proof fn query_distance_may_be_asked<T, D, F, S>(
    distance_fn: F,
    query: &[T],
    vector: &[T],
    stats: &mut S,
)
    where F: Fn(&[T], &[T]) -> D, S: StatsDistanceComparison
    requires
        vector@.len() > 0,
        vector@.len() == query@.len(),
        forall|x: &[T], y: &[T]|
            x@ == query@ && y@ == vector@ ==> #[trigger] call_requires(distance_fn, (x, y)),
        old(stats).counts().full_distance_comparisons < usize::MAX,
    ensures
        call_requires(
            PlainDistanceMeasure::<T>::calculate_distance::<D, F, S>,
            (distance_fn, query, vector, stats),
        ),
{
}

/// To create a node hands the writer a node with the whole vector, the row and no
/// link, and gives the pointer that the writer gave, whatever the labels.  One node
/// is counted as written.
pub proof fn created_node_holds_what_was_given<'a, Rel, F, T, S, W>(
    storage: PlainStorage<'a, Rel, F>,
    full_vector: &[T],
    labels: Option<LabelSet>,
    row: HeapPointer,
    meta: MetaPage,
    stats: &mut S,
    write: W,
    ip: ItemPointer,
)
    where
        T: Copy,
        S: StatsNodeWrite,
        W: FnOnce(PlainNode<T>, &MetaPage) -> IndexPointer,
    requires
        call_ensures(
            PlainStorage::<Rel, F>::create_node::<T, S, W>,
            (&storage, full_vector, labels, row, &meta, stats, write),
            ip,
        ),
    ensures
        exists|node: PlainNode<T>|
            {
                &&& #[trigger] call_ensures(write, (node, &meta), ip)
                &&& node.vector@ == full_vector@
                &&& node.heap_item_pointer == row
                &&& node.neighbors@.len() == 0
            },
        final(stats).counts() == (StatsCounts {
            node_writes: old(stats).counts().node_writes + 1,
            ..old(stats).counts()
        }),
{
}

/// A node may be created of any vector, where the writer takes a node with that
/// vector, the row and no link.
pub proof fn node_may_be_created<'a, Rel, F, T, S, W>(
    storage: PlainStorage<'a, Rel, F>,
    full_vector: &[T],
    labels: Option<LabelSet>,
    row: HeapPointer,
    meta: MetaPage,
    stats: &mut S,
    write: W,
)
    where
        T: Copy,
        S: StatsNodeWrite,
        W: FnOnce(PlainNode<T>, &MetaPage) -> IndexPointer,
    requires
        forall|node: PlainNode<T>|
            node.vector@ == full_vector@ && node.heap_item_pointer == row
                && node.neighbors@.len() == 0 ==> #[trigger] call_requires(write, (node, &meta)),
        old(stats).counts().node_writes < usize::MAX,
    ensures
        call_requires(
            PlainStorage::<Rel, F>::create_node::<T, S, W>,
            (&storage, full_vector, labels, row, &meta, stats, write),
        ),
{
}

/// A row is found again: where the page of a created node gives back what the
/// writer was handed, a start at the pointer that the creation gave comes to the
/// row that the node was created for, and to a distance of the query from the whole
/// vector that it was created with.
pub proof fn row_created_is_row_returned<'a, Rel, F, T, D, S, R, N, W>(
    storage: PlainStorage<'a, Rel, F>,
    lsr: &mut PlainSearch<T, D, S>,
    ip: ItemPointer,
    gns: GraphNeighborStore,
    read: R,
    lsn: Option<PlainSearchNeighbor<D>>,
    query: LabeledVector<T>,
    full_vector: &[T],
    labels: Option<LabelSet>,
    row: HeapPointer,
    meta: MetaPage,
    write_stats: &mut N,
    write: W,
    stats: &mut GreedySearchStats,
    returned: HeapPointer,
)
    where
        F: Fn(&[T], &[T]) -> D + Copy,
        T: Copy,
        S: StatsNodeRead + StatsDistanceComparison,
        N: StatsNodeWrite,
        W: FnOnce(PlainNode<T>, &MetaPage) -> IndexPointer,
        R: Fn(&Rel, IndexPointer, &mut S) -> PlainNode<T>,
    requires
        old(lsr).sdm == Some(PlainDistanceMeasure::Full(query)),
        call_ensures(
            PlainStorage::<Rel, F>::create_node::<T, N, W>,
            (&storage, full_vector, labels, row, &meta, write_stats, write),
            ip,
        ),
        forall|written: PlainNode<T>, s: &mut S, node: PlainNode<T>|
            written.vector@ == full_vector@ && written.heap_item_pointer == row
                && #[trigger] call_ensures(write, (written, &meta), ip) && #[trigger] call_ensures(
                read,
                (storage.index, ip, s),
                node,
            ) ==> node.vector@ == written.vector@ && node.heap_item_pointer
                == written.heap_item_pointer,
        call_ensures(
            PlainStorage::<Rel, F>::create_lsn_for_start_node::<T, D, S, R>,
            (&storage, lsr, ip, &gns, &read),
            lsn,
        ),
        lsn is Some,
        call_ensures(
            PlainStorage::<Rel, F>::return_lsn::<D>,
            (&storage, &lsn->0, stats),
            returned,
        ),
    ensures
        returned == row,
        exists|x: &[T], y: &[T]|
            x@ == query.vec.index() && y@ == full_vector@ && #[trigger] call_ensures(
                storage.distance_fn,
                (x, y),
                lsn->0.distance_with_tie_break.distance,
            ),
{
    created_node_holds_what_was_given(
        storage,
        full_vector,
        labels,
        row,
        meta,
        write_stats,
        write,
        ip,
    );
    start_gives_the_node_read(storage, lsr, ip, gns, read, lsn, query);
}

/// Links that were set are followed: where the page of a node gives back what was
/// committed, a start there has as many links as neighbours were given, each the
/// pointer of that neighbour, and the row and the vector of the node that was found.
pub proof fn links_set_are_links_met<'a, Rel, F, T, D, S, R, K, H, M, C>(
    storage: PlainStorage<'a, Rel, F>,
    lsr: &mut PlainSearch<T, D, S>,
    ip: ItemPointer,
    gns: GraphNeighborStore,
    read: R,
    lsn: Option<PlainSearchNeighbor<D>>,
    query: LabeledVector<T>,
    meta: MetaPage,
    neighbors: &[NeighborWithDistance<D>],
    stats: &mut K,
    modify: M,
    commit: C,
)
    where
        F: Fn(&[T], &[T]) -> D + Copy,
        S: StatsNodeRead + StatsDistanceComparison,
        R: Fn(&Rel, IndexPointer, &mut S) -> PlainNode<T>,
        K: StatsNodeRead + StatsNodeModify,
        M: FnOnce(&Rel, IndexPointer) -> (PlainNode<T>, H),
        C: FnOnce(H, PlainNode<T>, &MetaPage),
    requires
        gns is Disk,
        old(lsr).sdm == Some(PlainDistanceMeasure::Full(query)),
        call_ensures(
            PlainStorage::<Rel, F>::set_neighbors_on_disk::<T, D, K, H, M, C>,
            (&storage, &meta, ip, neighbors, stats, modify, commit),
            (),
        ),
        forall|h: H, put: PlainNode<T>, s: &mut S, node: PlainNode<T>| #[trigger]
            call_ensures(commit, (h, put, &meta), ()) && #[trigger] call_ensures(
                read,
                (storage.index, ip, s),
                node,
            ) ==> node.vector@ == put.vector@ && node.heap_item_pointer == put.heap_item_pointer
                && node.neighbors@ == put.neighbors@,
        call_ensures(
            PlainStorage::<Rel, F>::create_lsn_for_start_node::<T, D, S, R>,
            (&storage, lsr, ip, &gns, &read),
            lsn,
        ),
        lsn is Some,
    ensures
        lsn->0.private_data.neighbors@.len() == neighbors@.len(),
        forall|i: int|
            0 <= i < neighbors@.len() ==> #[trigger] lsn->0.private_data.neighbors@[i]
                == neighbors@[i].index_pointer_to_neighbor,
        exists|found: (PlainNode<T>, H), x: &[T], y: &[T]|
            {
                &&& #[trigger] call_ensures(modify, (storage.index, ip), found)
                &&& #[trigger] call_ensures(
                    storage.distance_fn,
                    (x, y),
                    lsn->0.distance_with_tie_break.distance,
                )
                &&& x@ == query.vec.index()
                &&& y@ == found.0.vector@
                &&& lsn->0.private_data.heap_pointer == found.0.heap_item_pointer
            },
{
    set_links_are_those_given(storage, meta, ip, neighbors, stats, modify, commit);
    start_gives_the_node_read(storage, lsr, ip, gns, read, lsn, query);
}

/// Links that were set are listed: where the page of a node gives back what was
/// committed, a listing appends one entry for every neighbour given, in their order.
pub proof fn links_set_are_links_listed<'a, Rel, F, T, D, S, R, K, H, M, C>(
    storage: PlainStorage<'a, Rel, F>,
    ip: ItemPointer,
    meta: MetaPage,
    neighbors: &[NeighborWithDistance<D>],
    stats: &mut K,
    modify: M,
    commit: C,
    result: &mut Vec<NeighborWithDistance<D>>,
    read_stats: &mut S,
    read: R,
)
    where
        F: Fn(&[T], &[T]) -> D + Copy,
        S: StatsNodeRead + StatsDistanceComparison,
        R: Fn(&Rel, IndexPointer, &mut S) -> PlainNode<T>,
        K: StatsNodeRead + StatsNodeModify,
        M: FnOnce(&Rel, IndexPointer) -> (PlainNode<T>, H),
        C: FnOnce(H, PlainNode<T>, &MetaPage),
    requires
        call_ensures(
            PlainStorage::<Rel, F>::set_neighbors_on_disk::<T, D, K, H, M, C>,
            (&storage, &meta, ip, neighbors, stats, modify, commit),
            (),
        ),
        forall|h: H, put: PlainNode<T>, s: &mut S, node: PlainNode<T>| #[trigger]
            call_ensures(commit, (h, put, &meta), ()) && #[trigger] call_ensures(
                read,
                (storage.index, ip, s),
                node,
            ) ==> node.vector@ == put.vector@ && node.heap_item_pointer == put.heap_item_pointer
                && node.neighbors@ == put.neighbors@,
        call_ensures(
            PlainStorage::<Rel, F>::get_neighbors_with_distances_from_disk::<T, D, S, R>,
            (&storage, ip, result, read_stats, &read),
            (),
        ),
    ensures
        final(result)@.len() == old(result)@.len() + neighbors@.len(),
        forall|i: int|
            old(result)@.len() <= i < final(result)@.len() ==> (
            #[trigger] final(result)@[i]).index_pointer_to_neighbor == neighbors@[i - old(
                result,
            )@.len()].index_pointer_to_neighbor,
{
    set_links_are_those_given(storage, meta, ip, neighbors, stats, modify, commit);
    listing_has_every_link(storage, ip, result, read_stats, read);
}

/// What a search keeps of a node is the row that the node stands for, and its links
/// or those that the build has on record.
pub proof fn row_and_links_are_kept<T>(
    ip: IndexPointer,
    node: PlainNode<T>,
    gns: GraphNeighborStore,
    data: PlainStorageLsnPrivateData,
)
    requires
        call_ensures(PlainStorageLsnPrivateData::new::<T>, (ip, &node, &gns), data),
    ensures
        data.heap_pointer == node.heap_item_pointer,
        data.neighbors@ == match gns {
            GraphNeighborStore::Disk => node.neighbors@,
            GraphNeighborStore::Builder(record) => record.neighbors_of(ip),
        },
{
}

} // verus!

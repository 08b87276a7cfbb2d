//! What holds across calls.

use crate::distance_measure::{distance_gives, IndexFullDistanceMeasure, PlainDistanceMeasure};
use crate::item_pointer::{HeapPointer, IndexPointer, ItemPointer};
use crate::meta_page::MetaPage;
use crate::neighbor::{pointers_to, DistanceWithTieBreak, NeighborWithDistance};
use crate::neighbor_store::{BuilderNeighborCache, GraphNeighborStore};
use crate::plain_node::PlainNode;
use crate::plain_search::{query_of, PlainSearch, PlainSearchNeighbor};
use crate::plain_storage::PlainStorage;
use crate::reading::gives_node;
use crate::search::{fresh, fresh_is_exact, fresh_of_two_lists};
use crate::stats::{StatsCounters, StatsCounts, StatsDistanceComparison, StatsHeapNodeRead};
use crate::vector::PgVector;
use vstd::prelude::*;

verus! {

/// The pointers of the nodes that a search holds: those visited, then the
/// candidates.
pub open spec fn held<T, D, S>(lsr: PlainSearch<T, D, S>) -> Seq<ItemPointer> {
    Seq::new(lsr.visited@.len(), |i: int| lsr.visited@[i].index_pointer) + Seq::new(
        lsr.candidates@.len(),
        |i: int| lsr.candidates@[i].index_pointer,
    )
}

/// A search holds no node twice, and none that it has not taken up.
pub open spec fn consistent<T, D, S>(lsr: PlainSearch<T, D, S>) -> bool {
    &&& held(lsr).no_duplicates()
    &&& forall|i: int|
        0 <= i < held(lsr).len() ==> lsr.inserted@.contains(#[trigger] held(lsr)[i])
}

/// The pointers of the candidates that `after` has beyond those of `before`.
pub open spec fn added<T, D, S>(before: PlainSearch<T, D, S>, after: PlainSearch<T, D, S>) -> Seq<
    ItemPointer,
> {
    Seq::new(
        (after.candidates@.len() - before.candidates@.len()) as nat,
        |i: int| after.candidates@[before.candidates@.len() + i].index_pointer,
    )
}

/// The candidates that a visit adds are the neighbours not taken up before, in
/// the order of the list and each once.
pub proof fn visit_adds_fresh_neighbors<'a, Rel, F, T, D, S, R>(
    storage: PlainStorage<'a, Rel, F>,
    before: PlainSearch<T, D, S>,
    after: PlainSearch<T, D, S>,
    neighbors: Seq<ItemPointer>,
    gns: GraphNeighborStore,
    read: R,
)
    where
        F: Fn(&[T], &[T]) -> D,
        S: StatsCounters,
        R: Fn(&Rel, IndexPointer, &mut S) -> PlainNode<T>,
    requires
        storage.visits(before, after, neighbors, gns, read),
    ensures
        added(before, after) == fresh(before.inserted@, neighbors),
        added(before, after).no_duplicates(),
        forall|p: ItemPointer| #[trigger]
            added(before, after).contains(p) <==> neighbors.contains(p)
                && !before.inserted@.contains(p),
{
    let todo = fresh(before.inserted@, neighbors);
    assert forall|i: int| 0 <= i < todo.len() implies added(before, after)[i] == todo[i] by {
        assert(storage.meets(
            before,
            after.candidates@[before.candidates@.len() + i],
            todo[i],
            gns,
            read,
        ));
    }
    assert(added(before, after) =~= todo);
    fresh_is_exact(before.inserted@, neighbors);
}

/// A visit reads as many nodes as it adds candidates, and compares as many.
pub proof fn visit_reads_each_candidate_once<'a, Rel, F, T, D, S, R>(
    storage: PlainStorage<'a, Rel, F>,
    before: PlainSearch<T, D, S>,
    after: PlainSearch<T, D, S>,
    neighbors: Seq<ItemPointer>,
    gns: GraphNeighborStore,
    read: R,
)
    where
        F: Fn(&[T], &[T]) -> D,
        S: StatsCounters,
        R: Fn(&Rel, IndexPointer, &mut S) -> PlainNode<T>,
    requires
        storage.visits(before, after, neighbors, gns, read),
    ensures
        after.stats.counts() == before.stats.counts().with_nodes_compared(
            added(before, after).len(),
        ),
{
}

/// To visit the same neighbours again changes nothing, wherever their nodes are
/// read from.
pub proof fn visit_again_changes_nothing<'a, 'b, Rel, F, T, D, S, R, Q>(
    storage: PlainStorage<'a, Rel, F>,
    again: PlainStorage<'b, Rel, F>,
    before: PlainSearch<T, D, S>,
    between: PlainSearch<T, D, S>,
    after: PlainSearch<T, D, S>,
    neighbors: Seq<ItemPointer>,
    gns: GraphNeighborStore,
    gns_again: GraphNeighborStore,
    read: R,
    read_again: Q,
)
    where
        F: Fn(&[T], &[T]) -> D,
        S: StatsCounters,
        R: Fn(&Rel, IndexPointer, &mut S) -> PlainNode<T>,
        Q: Fn(&Rel, IndexPointer, &mut S) -> PlainNode<T>,
    requires
        storage.visits(before, between, neighbors, gns, read),
        again.visits(between, after, neighbors, gns_again, read_again),
    ensures
        after.candidates@ == between.candidates@,
        after.inserted@ == between.inserted@,
        after.stats == between.stats,
        after.visited == between.visited,
        after.sdm == between.sdm,
        after.tie_break_item_pointer == between.tie_break_item_pointer,
{
    let todo = fresh(between.inserted@, neighbors);
    fresh_is_exact(between.inserted@, neighbors);
    assert(todo.len() == 0) by {
        if todo.len() > 0 {
            assert(todo.contains(todo[0]));
            assert(neighbors.to_set().contains(todo[0]));
        }
    }
    assert(after.candidates@ =~= between.candidates@);
    assert(after.inserted@ =~= between.inserted@);
}

/// To visit two nodes, one after the other, adds the candidates that one node
/// with the neighbours of both would add.
pub proof fn visits_join<'a, 'b, Rel, F, T, D, S, R, Q>(
    storage: PlainStorage<'a, Rel, F>,
    next: PlainStorage<'b, Rel, F>,
    before: PlainSearch<T, D, S>,
    between: PlainSearch<T, D, S>,
    after: PlainSearch<T, D, S>,
    first: Seq<ItemPointer>,
    second: Seq<ItemPointer>,
    gns: GraphNeighborStore,
    gns_next: GraphNeighborStore,
    read: R,
    read_next: Q,
)
    where
        F: Fn(&[T], &[T]) -> D,
        S: StatsCounters,
        R: Fn(&Rel, IndexPointer, &mut S) -> PlainNode<T>,
        Q: Fn(&Rel, IndexPointer, &mut S) -> PlainNode<T>,
    requires
        storage.visits(before, between, first, gns, read),
        next.visits(between, after, second, gns_next, read_next),
    ensures
        added(before, after) == fresh(before.inserted@, first + second),
        after.inserted@ == before.inserted@.union((first + second).to_set()),
{
    visit_adds_fresh_neighbors(storage, before, between, first, gns, read);
    visit_adds_fresh_neighbors(next, between, after, second, gns_next, read_next);
    fresh_of_two_lists(before.inserted@, first, second);
    assert(added(before, after) =~= added(before, between) + added(between, after)) by {
        assert forall|i: int| 0 <= i < added(before, between).len() implies added(
            before,
            after,
        )[i] == added(before, between)[i] by {
            let k = before.candidates@.len() + i;
            assert(between.candidates@[k] == after.candidates@.subrange(
                0,
                between.candidates@.len() as int,
            )[k]);
        }
    }
    assert forall|p: ItemPointer|
        after.inserted@.contains(p) == before.inserted@.union((first + second).to_set()).contains(
            p,
        ) by {
        vstd::seq_lib::lemma_seq_concat_contains_all_elements(first, second, p);
        assert((first + second).to_set().contains(p) <==> (first + second).contains(p));
        assert(first.to_set().contains(p) <==> first.contains(p));
        assert(second.to_set().contains(p) <==> second.contains(p));
    }
    assert(after.inserted@ =~= before.inserted@.union((first + second).to_set()));
}

/// A visit keeps a search consistent.
pub proof fn visit_keeps_consistent<'a, Rel, F, T, D, S, R>(
    storage: PlainStorage<'a, Rel, F>,
    before: PlainSearch<T, D, S>,
    after: PlainSearch<T, D, S>,
    neighbors: Seq<ItemPointer>,
    gns: GraphNeighborStore,
    read: R,
)
    where
        F: Fn(&[T], &[T]) -> D,
        S: StatsCounters,
        R: Fn(&Rel, IndexPointer, &mut S) -> PlainNode<T>,
    requires
        storage.visits(before, after, neighbors, gns, read),
        consistent(before),
    ensures
        consistent(after),
{
    visit_adds_fresh_neighbors(storage, before, after, neighbors, gns, read);
    let new = added(before, after);
    assert(held(after) =~= held(before) + new) by {
        assert forall|i: int| 0 <= i < before.candidates@.len() implies after.candidates@[i]
            == before.candidates@[i] by {
            assert(before.candidates@[i] == after.candidates@.subrange(
                0,
                before.candidates@.len() as int,
            )[i]);
        }
    }
    let n = held(before).len();
    assert forall|i: int| 0 <= i < held(after).len() implies after.inserted@.contains(
        #[trigger] held(after)[i],
    ) by {
        if i < n {
            assert(held(after)[i] == held(before)[i]);
        } else {
            assert(held(after)[i] == new[i - n]);
            assert(new.contains(new[i - n]));
            assert(neighbors.to_set().contains(new[i - n]));
        }
    }
    assert forall|i: int, j: int|
        0 <= i < j < held(after).len() implies held(after)[i] != held(after)[j] by {
        if j < n {
            assert(held(before)[i] != held(before)[j]);
        } else {
            assert(new.contains(new[j - n]));
            if i < n {
                assert(before.inserted@.contains(held(before)[i]));
            } else {
                assert(new[i - n] != new[j - n]);
            }
        }
    }
}

/// A search that has met nothing is consistent.
pub proof fn new_search_is_consistent<T, D, S>(lsr: PlainSearch<T, D, S>)
    requires
        lsr.visited@.len() == 0,
        lsr.candidates@.len() == 0,
    ensures
        consistent(lsr),
{
}

/// A search stays consistent when the node it starts at is added to its
/// candidates.
pub proof fn start_keeps_consistent<'a, Rel, F, T, D, S, R>(
    storage: PlainStorage<'a, Rel, F>,
    before: PlainSearch<T, D, S>,
    started: PlainSearch<T, D, S>,
    after: PlainSearch<T, D, S>,
    lsn: PlainSearchNeighbor<D>,
    ip: IndexPointer,
    gns: GraphNeighborStore,
    read: R,
)
    where
        F: Fn(&[T], &[T]) -> D,
        S: StatsCounters,
        R: Fn(&Rel, IndexPointer, &mut S) -> PlainNode<T>,
    requires
        consistent(before),
        storage.starts(before, started, Some(lsn), ip, gns, read),
        after.candidates@ == started.candidates@.push(lsn),
        after.visited == started.visited,
        after.inserted == started.inserted,
    ensures
        consistent(after),
{
    assert(lsn.index_pointer == ip);
    assert(held(after) =~= held(before).push(ip));
    assert forall|i: int| 0 <= i < held(after).len() implies after.inserted@.contains(
        #[trigger] held(after)[i],
    ) by {
        if i < held(before).len() {
            assert(held(after)[i] == held(before)[i]);
        }
    }
    assert forall|i: int, j: int|
        0 <= i < j < held(after).len() implies held(after)[i] != held(after)[j] by {
        if j < held(before).len() {
            assert(held(before)[i] != held(before)[j]);
        } else {
            assert(before.inserted@.contains(held(before)[i]));
        }
    }
}

/// A search starts at a node once: to start there again gives nothing and
/// changes nothing, whatever store and pages the second start would look at.
pub proof fn start_again_changes_nothing<'a, 'b, Rel, F, T, D, S, R, Q>(
    storage: PlainStorage<'a, Rel, F>,
    again: PlainStorage<'b, Rel, F>,
    before: PlainSearch<T, D, S>,
    between: PlainSearch<T, D, S>,
    after: PlainSearch<T, D, S>,
    lsn: Option<PlainSearchNeighbor<D>>,
    lsn_again: Option<PlainSearchNeighbor<D>>,
    ip: IndexPointer,
    gns: GraphNeighborStore,
    gns_again: GraphNeighborStore,
    read: R,
    read_again: Q,
)
    where
        F: Fn(&[T], &[T]) -> D,
        S: StatsCounters,
        R: Fn(&Rel, IndexPointer, &mut S) -> PlainNode<T>,
        Q: Fn(&Rel, IndexPointer, &mut S) -> PlainNode<T>,
    requires
        storage.starts(before, between, lsn, ip, gns, read),
        again.starts(between, after, lsn_again, ip, gns_again, read_again),
    ensures
        lsn_again is None,
        after.candidates == between.candidates,
        after.inserted@ == between.inserted@,
        after.stats == between.stats,
        after.visited == between.visited,
        after.sdm == between.sdm,
        after.tie_break_item_pointer == between.tie_break_item_pointer,
{
    assert(after.inserted@ =~= between.inserted@);
}

/// The node that a search started at never becomes a candidate of a later visit,
/// whatever store and pages the visit looks at.
pub proof fn start_node_is_not_met_again<'a, 'b, Rel, F, T, D, S, R, Q>(
    storage: PlainStorage<'a, Rel, F>,
    next: PlainStorage<'b, Rel, F>,
    before: PlainSearch<T, D, S>,
    between: PlainSearch<T, D, S>,
    after: PlainSearch<T, D, S>,
    lsn: Option<PlainSearchNeighbor<D>>,
    ip: IndexPointer,
    neighbors: Seq<ItemPointer>,
    gns: GraphNeighborStore,
    gns_next: GraphNeighborStore,
    read: R,
    read_next: Q,
)
    where
        F: Fn(&[T], &[T]) -> D,
        S: StatsCounters,
        R: Fn(&Rel, IndexPointer, &mut S) -> PlainNode<T>,
        Q: Fn(&Rel, IndexPointer, &mut S) -> PlainNode<T>,
    requires
        storage.starts(before, between, lsn, ip, gns, read),
        next.visits(between, after, neighbors, gns_next, read_next),
    ensures
        !added(between, after).contains(ip),
{
    visit_adds_fresh_neighbors(next, between, after, neighbors, gns_next, read_next);
}

/// Reading the node at `ip` gives back `node`.
pub open spec fn reads_back<Rel, T, S, R>(
    read: R,
    index: &Rel,
    ip: IndexPointer,
    node: PlainNode<T>,
) -> bool
    where S: StatsCounters, R: Fn(&Rel, IndexPointer, &mut S) -> PlainNode<T>
{
    forall|n: PlainNode<T>| #[trigger] gives_node(read, index, ip, n) ==> n.same_as(node)
}

/// Reading the node at `ip` gives back the vector and the row of `node`, with
/// whatever links.
pub open spec fn reads_back_row<Rel, T, S, R>(
    read: R,
    index: &Rel,
    ip: IndexPointer,
    node: PlainNode<T>,
) -> bool
    where S: StatsCounters, R: Fn(&Rel, IndexPointer, &mut S) -> PlainNode<T>
{
    forall|n: PlainNode<T>| #[trigger]
        gives_node(read, index, ip, n) ==> {
            &&& n.vector@ == node.vector@
            &&& n.heap_item_pointer == node.heap_item_pointer
        }
}

/// Where the page of a created node gives back what was written, a search that
/// follows the pages meets the node with the row and at the distance of the
/// vector that it was created for, and with no neighbour, whether it starts there
/// or comes by on a visit.
pub proof fn created_node_is_met<'a, Rel, F, T, D, S, W, R>(
    storage: PlainStorage<'a, Rel, F>,
    vector: Seq<T>,
    row: HeapPointer,
    meta: MetaPage,
    write: W,
    ip: IndexPointer,
    read: R,
    lsr: PlainSearch<T, D, S>,
    lsn: PlainSearchNeighbor<D>,
)
    where
        F: Fn(&[T], &[T]) -> D,
        S: StatsCounters,
        W: FnOnce(PlainNode<T>, &MetaPage) -> IndexPointer,
        R: Fn(&Rel, IndexPointer, &mut S) -> PlainNode<T>,
    requires
        exists|node: PlainNode<T>|
            node.is_unlinked(vector, row) && #[trigger] call_ensures(write, (node, &meta), ip),
        forall|node: PlainNode<T>|
            node.is_unlinked(vector, row) && #[trigger] call_ensures(write, (node, &meta), ip)
                ==> reads_back(read, storage.index, ip, node),
        storage.meets(lsr, lsn, ip, GraphNeighborStore::Disk, read),
    ensures
        lsn.private_data.heap_pointer == row,
        lsn.private_data.neighbors@ == Seq::<ItemPointer>::empty(),
        distance_gives(
            storage.distance_fn,
            query_of(lsr),
            vector,
            lsn.distance_with_tie_break.distance,
        ),
{
    let written = choose|node: PlainNode<T>|
        node.is_unlinked(vector, row) && #[trigger] call_ensures(write, (node, &meta), ip);
    assert(reads_back(read, storage.index, ip, written));
}

/// Where the page of a created node gives back the vector and the row that were
/// written, a search meets the node with that row and at the distance of that
/// vector, whether it starts there or comes by on a visit, wherever it looks links
/// up, and whatever links have been set since.
pub proof fn row_of_created_node_is_met<'a, Rel, F, T, D, S, W, R>(
    storage: PlainStorage<'a, Rel, F>,
    vector: Seq<T>,
    row: HeapPointer,
    meta: MetaPage,
    write: W,
    ip: IndexPointer,
    gns: GraphNeighborStore,
    read: R,
    lsr: PlainSearch<T, D, S>,
    lsn: PlainSearchNeighbor<D>,
)
    where
        F: Fn(&[T], &[T]) -> D,
        S: StatsCounters,
        W: FnOnce(PlainNode<T>, &MetaPage) -> IndexPointer,
        R: Fn(&Rel, IndexPointer, &mut S) -> PlainNode<T>,
    requires
        exists|node: PlainNode<T>|
            node.is_unlinked(vector, row) && #[trigger] call_ensures(write, (node, &meta), ip),
        forall|node: PlainNode<T>|
            node.is_unlinked(vector, row) && #[trigger] call_ensures(write, (node, &meta), ip)
                ==> reads_back_row(read, storage.index, ip, node),
        storage.meets(lsr, lsn, ip, gns, read),
    ensures
        lsn.private_data.heap_pointer == row,
        distance_gives(
            storage.distance_fn,
            query_of(lsr),
            vector,
            lsn.distance_with_tie_break.distance,
        ),
{
    let written = choose|node: PlainNode<T>|
        node.is_unlinked(vector, row) && #[trigger] call_ensures(write, (node, &meta), ip);
    assert(reads_back_row(read, storage.index, ip, written));
}

/// A node found at `ip` and put back on its page with links to `neighbors` is
/// what reading at `ip` gives back.  Nothing is said of other nodes or links that
/// the same `commit` puts on a page.
pub open spec fn links_read_back<'a, Rel, F, T, D, S, H, M, C, R>(
    storage: PlainStorage<'a, Rel, F>,
    ip: IndexPointer,
    neighbors: Seq<NeighborWithDistance<D>>,
    meta: MetaPage,
    modify: M,
    commit: C,
    read: R,
) -> bool
    where
        S: StatsCounters,
        M: FnOnce(&Rel, IndexPointer) -> (PlainNode<T>, H),
        C: FnOnce(H, PlainNode<T>, &MetaPage),
        R: Fn(&Rel, IndexPointer, &mut S) -> PlainNode<T>,
{
    forall|found: (PlainNode<T>, H), node: PlainNode<T>| #[trigger]
        call_ensures(modify, (storage.index, ip), found) && #[trigger] node.is_relinked(
            found.0,
            neighbors,
        ) && call_ensures(commit, (found.1, node, &meta), ()) ==> reads_back(
            read,
            storage.index,
            ip,
            node,
        )
}

/// Where the page of a node gives back the links that were set, a search that
/// follows the pages meets the node with those links, in their order, with the row
/// and at the distance of the vector that the node was found with, whether it
/// starts there or comes by on a visit.
pub proof fn links_set_are_followed<'a, Rel, F, T, D, S, H, M, C, R>(
    storage: PlainStorage<'a, Rel, F>,
    ip: IndexPointer,
    neighbors: Seq<NeighborWithDistance<D>>,
    meta: MetaPage,
    modify: M,
    commit: C,
    read: R,
    lsr: PlainSearch<T, D, S>,
    lsn: PlainSearchNeighbor<D>,
)
    where
        F: Fn(&[T], &[T]) -> D,
        S: StatsCounters,
        M: FnOnce(&Rel, IndexPointer) -> (PlainNode<T>, H),
        C: FnOnce(H, PlainNode<T>, &MetaPage),
        R: Fn(&Rel, IndexPointer, &mut S) -> PlainNode<T>,
    requires
        storage.relinks(ip, neighbors, meta, modify, commit),
        links_read_back(storage, ip, neighbors, meta, modify, commit, read),
        storage.meets(lsr, lsn, ip, GraphNeighborStore::Disk, read),
    ensures
        lsn.private_data.neighbors@ == pointers_to(neighbors),
        exists|found: (PlainNode<T>, H)| #[trigger]
            call_ensures(modify, (storage.index, ip), found) && lsn.private_data.heap_pointer
                == found.0.heap_item_pointer && distance_gives(
                storage.distance_fn,
                query_of(lsr),
                found.0.vector@,
                lsn.distance_with_tie_break.distance,
            ),
{
    let (found, written) = choose|found: (PlainNode<T>, H), written: PlainNode<T>| #[trigger]
        call_ensures(modify, (storage.index, ip), found) && #[trigger] written.is_relinked(
            found.0,
            neighbors,
        ) && call_ensures(commit, (found.1, written, &meta), ());
    assert(reads_back(read, storage.index, ip, written));
}

/// To set the links of a node changes neither the row nor the distance that a
/// search meets it with, wherever the search looks links up.
pub proof fn links_set_leave_the_row<'a, Rel, F, T, D, S, H, M, C, R>(
    storage: PlainStorage<'a, Rel, F>,
    ip: IndexPointer,
    neighbors: Seq<NeighborWithDistance<D>>,
    meta: MetaPage,
    modify: M,
    commit: C,
    gns: GraphNeighborStore,
    read: R,
    lsr: PlainSearch<T, D, S>,
    lsn: PlainSearchNeighbor<D>,
)
    where
        F: Fn(&[T], &[T]) -> D,
        S: StatsCounters,
        M: FnOnce(&Rel, IndexPointer) -> (PlainNode<T>, H),
        C: FnOnce(H, PlainNode<T>, &MetaPage),
        R: Fn(&Rel, IndexPointer, &mut S) -> PlainNode<T>,
    requires
        storage.relinks(ip, neighbors, meta, modify, commit),
        links_read_back(storage, ip, neighbors, meta, modify, commit, read),
        storage.meets(lsr, lsn, ip, gns, read),
    ensures
        exists|found: (PlainNode<T>, H)| #[trigger]
            call_ensures(modify, (storage.index, ip), found) && lsn.private_data.heap_pointer
                == found.0.heap_item_pointer && distance_gives(
                storage.distance_fn,
                query_of(lsr),
                found.0.vector@,
                lsn.distance_with_tie_break.distance,
            ),
{
    let (found, written) = choose|found: (PlainNode<T>, H), written: PlainNode<T>| #[trigger]
        call_ensures(modify, (storage.index, ip), found) && #[trigger] written.is_relinked(
            found.0,
            neighbors,
        ) && call_ensures(commit, (found.1, written, &meta), ());
    assert(reads_back(read, storage.index, ip, written));
}

/// Where the page of a node gives back the links that were set, the neighbours
/// listed for the node are those, in their order.
pub proof fn links_set_are_listed<'a, Rel, F, T, D, S, H, M, C, R>(
    storage: PlainStorage<'a, Rel, F>,
    ip: IndexPointer,
    neighbors: Seq<NeighborWithDistance<D>>,
    meta: MetaPage,
    modify: M,
    commit: C,
    read: R,
    before: Seq<NeighborWithDistance<D>>,
    after: Seq<NeighborWithDistance<D>>,
    counts_before: StatsCounts,
    counts_after: StatsCounts,
)
    where
        F: Fn(&[T], &[T]) -> D + Copy,
        S: StatsCounters,
        M: FnOnce(&Rel, IndexPointer) -> (PlainNode<T>, H),
        C: FnOnce(H, PlainNode<T>, &MetaPage),
        R: Fn(&Rel, IndexPointer, &mut S) -> PlainNode<T>,
    requires
        storage.relinks(ip, neighbors, meta, modify, commit),
        links_read_back(storage, ip, neighbors, meta, modify, commit, read),
        storage.appends_neighbors(before, after, counts_before, counts_after, ip, read),
    ensures
        pointers_to(after.skip(before.len() as int)) == pointers_to(neighbors),
{
    let (found, written) = choose|found: (PlainNode<T>, H), written: PlainNode<T>| #[trigger]
        call_ensures(modify, (storage.index, ip), found) && #[trigger] written.is_relinked(
            found.0,
            neighbors,
        ) && call_ensures(commit, (found.1, written, &meta), ());
    assert(reads_back(read, storage.index, ip, written));
    let listed = after.skip(before.len() as int);
    let node = choose|node: PlainNode<T>| #[trigger]
        gives_node(read, storage.index, ip, node) && listed.len() == node.neighbors@.len()
            && storage.lists_neighbors(listed, ip, node, read);
    list_written_back_changes_no_link(storage, node, listed, ip, read);
    assert(pointers_to(listed) =~= pointers_to(neighbors));
}

/// The neighbours listed for a node are its links: to write the list back
/// leaves them as they are.
pub proof fn list_written_back_changes_no_link<'a, Rel, F, T, D, S, R>(
    storage: PlainStorage<'a, Rel, F>,
    node: PlainNode<T>,
    listed: Seq<NeighborWithDistance<D>>,
    neighbors_of: ItemPointer,
    read: R,
)
    where
        F: Fn(&[T], &[T]) -> D + Copy,
        S: StatsCounters,
        R: Fn(&Rel, IndexPointer, &mut S) -> PlainNode<T>,
    requires
        listed.len() == node.neighbors@.len(),
        storage.lists_neighbors(listed, neighbors_of, node, read),
    ensures
        pointers_to(listed) == node.neighbors@,
        node.is_relinked(node, listed),
{
    assert forall|i: int| 0 <= i < listed.len() implies pointers_to(listed)[i]
        == node.neighbors@[i] by {
        assert(listed[i].index_pointer_to_neighbor == node.neighbors@[i]);
    }
    assert(pointers_to(listed) =~= node.neighbors@);
}

/// Links set later take the place of those set before.
pub proof fn last_links_stand<T, D>(
    found: PlainNode<T>,
    once: PlainNode<T>,
    twice: PlainNode<T>,
    first: Seq<NeighborWithDistance<D>>,
    last: Seq<NeighborWithDistance<D>>,
)
    requires
        once.is_relinked(found, first),
        twice.is_relinked(once, last),
    ensures
        twice.is_relinked(found, last),
{
}

/// During a build the links on the pages do not matter: a search follows what
/// the build has on record.
pub proof fn build_follows_its_record<'a, Rel, F, T, D, S, R>(
    storage: PlainStorage<'a, Rel, F>,
    record: BuilderNeighborCache,
    before: PlainSearch<T, D, S>,
    after: PlainSearch<T, D, S>,
    lsn: PlainSearchNeighbor<D>,
    ip: IndexPointer,
    read: R,
)
    where
        F: Fn(&[T], &[T]) -> D,
        S: StatsCounters,
        R: Fn(&Rel, IndexPointer, &mut S) -> PlainNode<T>,
    requires
        storage.starts(before, after, Some(lsn), ip, GraphNeighborStore::Builder(record), read),
    ensures
        lsn.private_data.neighbors@ == record.neighbors_of(ip),
{
}

/// The distance function gives one distance for the same two vectors.
pub open spec fn single_valued<T, D, F: Fn(&[T], &[T]) -> D>(distance_fn: F) -> bool {
    forall|a: Seq<T>, b: Seq<T>, d: D, e: D| #[trigger]
        distance_gives(distance_fn, a, b, d) && #[trigger] distance_gives(distance_fn, a, b, e)
            ==> d == e
}

/// Two readers find the same node at `ip`.
pub open spec fn same_page<Rel, T, S, R, Q>(
    read: R,
    other: Q,
    index: &Rel,
    ip: IndexPointer,
) -> bool
    where
        S: StatsCounters,
        R: Fn(&Rel, IndexPointer, &mut S) -> PlainNode<T>,
        Q: Fn(&Rel, IndexPointer, &mut S) -> PlainNode<T>,
{
    forall|n: PlainNode<T>, m: PlainNode<T>| #[trigger]
        gives_node(read, index, ip, n) && #[trigger] gives_node(other, index, ip, m)
            ==> n.same_as(m)
}

/// Two search neighbours hold the same.
pub open spec fn same_lsn<D>(a: PlainSearchNeighbor<D>, b: PlainSearchNeighbor<D>) -> bool {
    &&& a.index_pointer == b.index_pointer
    &&& a.distance_with_tie_break == b.distance_with_tie_break
    &&& a.private_data.heap_pointer == b.private_data.heap_pointer
    &&& a.private_data.neighbors@ == b.private_data.neighbors@
    &&& a.labels == b.labels
}

/// Two searches with the same query and tie break pointer make the same of a
/// node, from the same page and store.
pub proof fn searches_meet_the_same<'a, Rel, F, T, D, S, R, Q>(
    storage: PlainStorage<'a, Rel, F>,
    lsr: PlainSearch<T, D, S>,
    other: PlainSearch<T, D, S>,
    lsn: PlainSearchNeighbor<D>,
    lsn_other: PlainSearchNeighbor<D>,
    ip: IndexPointer,
    gns: GraphNeighborStore,
    read: R,
    read_other: Q,
)
    where
        F: Fn(&[T], &[T]) -> D,
        S: StatsCounters,
        R: Fn(&Rel, IndexPointer, &mut S) -> PlainNode<T>,
        Q: Fn(&Rel, IndexPointer, &mut S) -> PlainNode<T>,
    requires
        single_valued(storage.distance_fn),
        same_page(read, read_other, storage.index, ip),
        query_of(lsr) == query_of(other),
        lsr.tie_break_item_pointer == other.tie_break_item_pointer,
        storage.meets(lsr, lsn, ip, gns, read),
        storage.meets(other, lsn_other, ip, gns, read_other),
    ensures
        same_lsn(lsn, lsn_other),
{
}

/// What a visit makes of a neighbour not taken up before is what starting at it
/// makes, with the same query and tie break pointer, from the same page and store.
pub proof fn visit_meets_what_start_meets<'a, Rel, F, T, D, S, R, Q>(
    storage: PlainStorage<'a, Rel, F>,
    before: PlainSearch<T, D, S>,
    after: PlainSearch<T, D, S>,
    neighbors: Seq<ItemPointer>,
    unstarted: PlainSearch<T, D, S>,
    started: PlainSearch<T, D, S>,
    lsn: Option<PlainSearchNeighbor<D>>,
    ip: IndexPointer,
    gns: GraphNeighborStore,
    read: R,
    read_start: Q,
)
    where
        F: Fn(&[T], &[T]) -> D,
        S: StatsCounters,
        R: Fn(&Rel, IndexPointer, &mut S) -> PlainNode<T>,
        Q: Fn(&Rel, IndexPointer, &mut S) -> PlainNode<T>,
    requires
        single_valued(storage.distance_fn),
        same_page(read, read_start, storage.index, ip),
        query_of(before) == query_of(unstarted),
        before.tie_break_item_pointer == unstarted.tie_break_item_pointer,
        neighbors.contains(ip),
        !before.inserted@.contains(ip),
        !unstarted.inserted@.contains(ip),
        storage.visits(before, after, neighbors, gns, read),
        storage.starts(unstarted, started, lsn, ip, gns, read_start),
    ensures
        lsn is Some,
        added(before, after).contains(ip),
        forall|i: int|
            before.candidates@.len() <= i < after.candidates@.len() && (
            #[trigger] after.candidates@[i]).index_pointer == ip ==> same_lsn(
                after.candidates@[i],
                lsn->0,
            ),
{
    visit_adds_fresh_neighbors(storage, before, after, neighbors, gns, read);
    let todo = fresh(before.inserted@, neighbors);
    assert forall|i: int|
        before.candidates@.len() <= i < after.candidates@.len() && (
        #[trigger] after.candidates@[i]).index_pointer == ip implies same_lsn(
        after.candidates@[i],
        lsn->0,
    ) by {
        let k = i - before.candidates@.len();
        assert(added(before, after)[k] == ip);
        assert(storage.meets(before, after.candidates@[i], todo[k], gns, read));
        searches_meet_the_same(
            storage,
            before,
            unstarted,
            after.candidates@[i],
            lsn->0,
            ip,
            gns,
            read,
            read_start,
        );
    }
}

/// Two listings of one node with no write between them append the same entries,
/// whatever was listed before, and leave that as it was.
pub proof fn listings_append_the_same<'a, Rel, F, T, D, S, R, Q>(
    storage: PlainStorage<'a, Rel, F>,
    before: Seq<NeighborWithDistance<D>>,
    after: Seq<NeighborWithDistance<D>>,
    other_before: Seq<NeighborWithDistance<D>>,
    other_after: Seq<NeighborWithDistance<D>>,
    counts_before: StatsCounts,
    counts_after: StatsCounts,
    other_counts_before: StatsCounts,
    other_counts_after: StatsCounts,
    neighbors_of: ItemPointer,
    read: R,
    read_other: Q,
)
    where
        F: Fn(&[T], &[T]) -> D + Copy,
        S: StatsCounters,
        R: Fn(&Rel, IndexPointer, &mut S) -> PlainNode<T>,
        Q: Fn(&Rel, IndexPointer, &mut S) -> PlainNode<T>,
    requires
        single_valued(storage.distance_fn),
        forall|ip: IndexPointer| #[trigger] same_page(read, read_other, storage.index, ip),
        storage.appends_neighbors(before, after, counts_before, counts_after, neighbors_of, read),
        storage.appends_neighbors(
            other_before,
            other_after,
            other_counts_before,
            other_counts_after,
            neighbors_of,
            read_other,
        ),
    ensures
        after.skip(before.len() as int) == other_after.skip(other_before.len() as int),
        after.take(before.len() as int) == before,
        other_after.take(other_before.len() as int) == other_before,
{
    let found = after.skip(before.len() as int);
    let other = other_after.skip(other_before.len() as int);
    assert(same_page(read, read_other, storage.index, neighbors_of));
    let node = choose|node: PlainNode<T>| #[trigger]
        gives_node(read, storage.index, neighbors_of, node) && found.len() == node.neighbors@.len()
            && storage.lists_neighbors(found, neighbors_of, node, read);
    let twin = choose|twin: PlainNode<T>| #[trigger]
        gives_node(read_other, storage.index, neighbors_of, twin) && other.len()
            == twin.neighbors@.len() && storage.lists_neighbors(
            other,
            neighbors_of,
            twin,
            read_other,
        );
    assert(node.same_as(twin));
    assert forall|i: int| 0 <= i < found.len() implies found[i] == other[i] by {
        let n = node.neighbors@[i];
        assert(found[i].index_pointer_to_neighbor == n);
        assert(other[i].index_pointer_to_neighbor == n);
        assert(same_page(read, read_other, storage.index, n));
        assert(found[i].distance.distance == other[i].distance.distance);
    }
    assert(found =~= other);
    assert(after.take(before.len() as int) =~= before);
    assert(other_after.take(other_before.len() as int) =~= other_before);
}

/// Two ways of fetching the row at `heap_pointer` come to the same vector, or
/// both find no row.
pub open spec fn same_row<'a, Rel, F, T, N, Slot, Datum, G, A, P>(
    storage: PlainStorage<'a, Rel, F>,
    snapshot: N,
    heap_pointer: HeapPointer,
    meta_page: MetaPage,
    fetch: G,
    get_attribute: A,
    from_datum: P,
    other_fetch: G,
    other_get_attribute: A,
    other_from_datum: P,
) -> bool
    where
        G: FnOnce(&Rel, HeapPointer, N) -> Option<Slot>,
        A: FnOnce(&Slot, i16) -> Option<Datum>,
        P: FnOnce(Datum, &MetaPage, bool, bool) -> PgVector<T>,
{
    let row = (storage.heap_rel, heap_pointer, snapshot);
    &&& forall|x: Option<Slot>, y: Option<Slot>| #[trigger]
        call_ensures(fetch, row, x) && #[trigger] call_ensures(other_fetch, row, y) ==> x == y
    &&& forall|slot: Slot, x: Option<Datum>, y: Option<Datum>| #[trigger]
        call_ensures(get_attribute, (&slot, storage.heap_attr), x) && #[trigger] call_ensures(
            other_get_attribute,
            (&slot, storage.heap_attr),
            y,
        ) ==> x == y
    &&& forall|datum: Datum, v: PgVector<T>, w: PgVector<T>| #[trigger]
        call_ensures(from_datum, (datum, &meta_page, false, true), v) && #[trigger] call_ensures(
            other_from_datum,
            (datum, &meta_page, false, true),
            w,
        ) ==> v.full() == w.full()
}

/// Resorting depends on the query and the row alone: from the same row it gives
/// the same answer.
pub proof fn resort_depends_on_the_row<'a, Rel, F, T, D, N, Slot, Datum, G, A, P>(
    storage: PlainStorage<'a, Rel, F>,
    distance: Option<D>,
    other_distance: Option<D>,
    snapshot: N,
    qdm: PlainDistanceMeasure<T>,
    heap_pointer: HeapPointer,
    meta_page: MetaPage,
    fetch: G,
    get_attribute: A,
    from_datum: P,
    other_fetch: G,
    other_get_attribute: A,
    other_from_datum: P,
)
    where
        F: Fn(&[T], &[T]) -> D + Copy,
        G: FnOnce(&Rel, HeapPointer, N) -> Option<Slot>,
        A: FnOnce(&Slot, i16) -> Option<Datum>,
        P: FnOnce(Datum, &MetaPage, bool, bool) -> PgVector<T>,
    requires
        single_valued(storage.distance_fn),
        same_row(
            storage,
            snapshot,
            heap_pointer,
            meta_page,
            fetch,
            get_attribute,
            from_datum,
            other_fetch,
            other_get_attribute,
            other_from_datum,
        ),
        storage.resorts(
            distance,
            snapshot,
            qdm,
            heap_pointer,
            meta_page,
            fetch,
            get_attribute,
            from_datum,
        ),
        storage.resorts(
            other_distance,
            snapshot,
            qdm,
            heap_pointer,
            meta_page,
            other_fetch,
            other_get_attribute,
            other_from_datum,
        ),
    ensures
        distance == other_distance,
{
}

/// Two calls of `get_full_distance_for_resort` give the same answer from the same
/// row, whatever the index pointers and the counts they are given.
pub proof fn resort_ignores_the_index_pointer<'a, Rel, F, T, D, S, N, Slot, Datum, G, A, P>(
    storage: PlainStorage<'a, Rel, F>,
    distance: Option<D>,
    other_distance: Option<D>,
    snapshot: N,
    qdm: PlainDistanceMeasure<T>,
    index_pointer: IndexPointer,
    other_index_pointer: IndexPointer,
    heap_pointer: HeapPointer,
    meta_page: MetaPage,
    stats: &mut S,
    other_stats: &mut S,
    fetch: G,
    get_attribute: A,
    from_datum: P,
    other_fetch: G,
    other_get_attribute: A,
    other_from_datum: P,
)
    where
        F: Fn(&[T], &[T]) -> D + Copy,
        S: StatsHeapNodeRead + StatsDistanceComparison,
        G: FnOnce(&Rel, HeapPointer, N) -> Option<Slot>,
        A: FnOnce(&Slot, i16) -> Option<Datum>,
        P: FnOnce(Datum, &MetaPage, bool, bool) -> PgVector<T>,
    requires
        single_valued(storage.distance_fn),
        same_row(
            storage,
            snapshot,
            heap_pointer,
            meta_page,
            fetch,
            get_attribute,
            from_datum,
            other_fetch,
            other_get_attribute,
            other_from_datum,
        ),
        call_ensures(
            PlainStorage::<Rel, F>::get_full_distance_for_resort::<T, D, S, N, Slot, Datum, G, A, P>,
            (
                &storage,
                snapshot,
                &qdm,
                index_pointer,
                heap_pointer,
                &meta_page,
                stats,
                fetch,
                get_attribute,
                from_datum,
            ),
            distance,
        ),
        call_ensures(
            PlainStorage::<Rel, F>::get_full_distance_for_resort::<T, D, S, N, Slot, Datum, G, A, P>,
            (
                &storage,
                snapshot,
                &qdm,
                other_index_pointer,
                heap_pointer,
                &meta_page,
                other_stats,
                other_fetch,
                other_get_attribute,
                other_from_datum,
            ),
            other_distance,
        ),
    ensures
        distance == other_distance,
{
    resort_depends_on_the_row(
        storage,
        distance,
        other_distance,
        snapshot,
        qdm,
        heap_pointer,
        meta_page,
        fetch,
        get_attribute,
        from_datum,
        other_fetch,
        other_get_attribute,
        other_from_datum,
    );
}

/// Every distance that a listing appends is the one that the measure from the
/// listed node gives, with no write between them.
pub proof fn listing_measures_from_its_node<'a, Rel, F, T, D, S, R, Q>(
    storage: PlainStorage<'a, Rel, F>,
    before: Seq<NeighborWithDistance<D>>,
    after: Seq<NeighborWithDistance<D>>,
    counts_before: StatsCounts,
    counts_after: StatsCounts,
    neighbors_of: ItemPointer,
    measure: IndexFullDistanceMeasure<'a, Rel, F, T>,
    read: R,
    read_measure: Q,
)
    where
        F: Fn(&[T], &[T]) -> D + Copy,
        S: StatsCounters,
        R: Fn(&Rel, IndexPointer, &mut S) -> PlainNode<T>,
        Q: Fn(&Rel, IndexPointer, &mut S) -> PlainNode<T>,
    requires
        single_valued(storage.distance_fn),
        forall|ip: IndexPointer| #[trigger] same_page(read, read_measure, storage.index, ip),
        storage.appends_neighbors(before, after, counts_before, counts_after, neighbors_of, read),
        measure.storage == storage,
        gives_node(read_measure, storage.index, neighbors_of, measure.readable_node),
    ensures
        forall|i: int, distance: D|
            before.len() <= i < after.len() && #[trigger] measure.measures(
                (#[trigger] after[i]).index_pointer_to_neighbor,
                distance,
                read_measure,
            ) ==> after[i].distance == (DistanceWithTieBreak {
                distance,
                from: Some(neighbors_of),
                to: after[i].index_pointer_to_neighbor,
            }),
{
    let found = after.skip(before.len() as int);
    assert(same_page(read, read_measure, storage.index, neighbors_of));
    let node = choose|node: PlainNode<T>| #[trigger]
        gives_node(read, storage.index, neighbors_of, node) && found.len() == node.neighbors@.len()
            && storage.lists_neighbors(found, neighbors_of, node, read);
    assert forall|i: int, distance: D|
        before.len() <= i < after.len() && #[trigger] measure.measures(
            (#[trigger] after[i]).index_pointer_to_neighbor,
            distance,
            read_measure,
        ) implies after[i].distance == (DistanceWithTieBreak {
        distance,
        from: Some(neighbors_of),
        to: after[i].index_pointer_to_neighbor,
    }) by {
        let k = i - before.len();
        assert(found[k] == after[i]);
        assert(same_page(read, read_measure, storage.index, found[k].index_pointer_to_neighbor));
        assert(found[k].distance.distance == distance);
    }
}

} // verus!

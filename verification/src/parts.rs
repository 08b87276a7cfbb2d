//! What the small operations come to, each said of calls and their results: what
//! was put in is what is given back.

use crate::distance_measure::PlainDistanceMeasure;
use crate::item_pointer::{copy_pointers, HeapPointer, IndexPointer, ItemPointer, PointerSet};
use crate::meta_page::MetaPage;
use crate::neighbor::{DistanceWithTieBreak, NeighborWithDistance};
use crate::neighbor_store::{BuilderNeighborCache, GraphNeighborStore};
use crate::plain_node::PlainNode;
use crate::plain_search::{PlainSearch, PlainSearchNeighbor};
use crate::plain_storage::{PageType, PlainStorage};
use crate::search::{ListSearchNeighbor, ListSearchResult};
use crate::stats::{
    GreedySearchStats, StatsDistanceComparison, StatsHeapNodeRead, StatsNodeModify, StatsNodeRead,
    StatsNodeWrite, WriteStats,
};
use crate::vector::{LabelSet, LabeledVector, PgVector};
use vstd::prelude::*;

verus! {

/// A vector gives back all its dimensions and those that the index compares, each
/// as it was made with; a query gives back its vector and keeps its labels.
pub proof fn vector_gives_back_both_forms<T>(
    full: Vec<T>,
    indexed: Vec<T>,
    vector: PgVector<T>,
    full_slice: &[T],
    index_slice: &[T],
    labels: Option<LabelSet>,
    query: LabeledVector<T>,
    of_query: &PgVector<T>,
)
    requires
        call_ensures(PgVector::<T>::new, (full, indexed), vector),
        call_ensures(PgVector::<T>::to_full_slice, (&vector,), full_slice),
        call_ensures(PgVector::<T>::to_index_slice, (&vector,), index_slice),
        call_ensures(LabeledVector::<T>::new, (vector, labels), query),
        call_ensures(LabeledVector::<T>::vec, (&query,), of_query),
    ensures
        full_slice@ == full@,
        index_slice@ == indexed@,
        *of_query == vector,
        query.vec == vector,
        query.labels == labels,
        vector.full() == full@,
        vector.index() == indexed@,
{
}

/// A pointer has the block and the offset that it was made with, and its key tells
/// it apart from every other.
pub proof fn key_tells_pointers_apart(
    block_number: u32,
    offset: u16,
    a: ItemPointer,
    key_of_a: u64,
    b: ItemPointer,
    key_of_b: u64,
)
    requires
        call_ensures(ItemPointer::new, (block_number, offset), a),
        call_ensures(ItemPointer::to_key, (&a,), key_of_a),
        call_ensures(ItemPointer::to_key, (&b,), key_of_b),
    ensures
        a.block_number == block_number,
        a.offset == offset,
        key_of_a == block_number * 0x1_0000 + offset,
        key_of_a == key_of_b <==> a.block_number == b.block_number && a.offset == b.offset,
        key_of_a < key_of_b <==> a.block_number < b.block_number || (a.block_number
            == b.block_number && a.offset < b.offset),
{
}

/// A copy of a list has the same pointers in the same places.
pub proof fn copy_has_every_pointer(pointers: Vec<ItemPointer>, copy: Vec<ItemPointer>)
    requires
        call_ensures(copy_pointers, (&pointers,), copy),
    ensures
        copy@.len() == pointers@.len(),
        forall|i: int| 0 <= i < pointers@.len() ==> #[trigger] copy@[i] == pointers@[i],
{
}

/// A new set holds nothing.
pub proof fn new_set_holds_nothing(set: PointerSet, p: ItemPointer, held: bool)
    requires
        call_ensures(PointerSet::new, (), set),
        call_ensures(PointerSet::contains, (&set, p), held),
    ensures
        !held,
        !set@.contains(p),
{
}

/// To insert a pointer says whether it is new; afterwards the set holds it, and of
/// the others those that it held before.
pub proof fn set_holds_what_was_inserted(
    set: &mut PointerSet,
    p: ItemPointer,
    held_before: bool,
    added: bool,
    q: ItemPointer,
    other_before: bool,
    other_after: bool,
)
    requires
        call_ensures(PointerSet::contains, (&*old(set), p), held_before),
        call_ensures(PointerSet::contains, (&*old(set), q), other_before),
        call_ensures(PointerSet::insert, (set, p), added),
        call_ensures(PointerSet::contains, (&*final(set), q), other_after),
    ensures
        added == !held_before,
        other_after == (other_before || q == p),
        other_before == old(set)@.contains(q),
        other_after == final(set)@.contains(q),
{
}

/// A new record has no neighbours for any node.
pub proof fn new_record_is_empty(
    record: BuilderNeighborCache,
    node: ItemPointer,
    got: Vec<ItemPointer>,
)
    requires
        call_ensures(BuilderNeighborCache::new, (), record),
        call_ensures(BuilderNeighborCache::get_neighbors, (&record, node), got),
    ensures
        got@.len() == 0,
{
}

/// Neighbours put on record for a node are those got for it, as many and each in
/// its place; for every other node those got are the ones got before.
pub proof fn neighbors_on_record_are_those_set(
    record: &mut BuilderNeighborCache,
    node: ItemPointer,
    neighbors: Vec<ItemPointer>,
    got: Vec<ItemPointer>,
    other: ItemPointer,
    other_before: Vec<ItemPointer>,
    other_after: Vec<ItemPointer>,
)
    requires
        call_ensures(BuilderNeighborCache::get_neighbors, (&*old(record), other), other_before),
        call_ensures(BuilderNeighborCache::set_neighbors, (record, node, neighbors), ()),
        call_ensures(BuilderNeighborCache::get_neighbors, (&*final(record), node), got),
        call_ensures(BuilderNeighborCache::get_neighbors, (&*final(record), other), other_after),
    ensures
        got@.len() == neighbors@.len(),
        forall|i: int| 0 <= i < neighbors@.len() ==> #[trigger] got@[i] == neighbors@[i],
        other != node ==> other_after@ == other_before@,
        got@ == final(record).neighbors_of(node),
        other_before@ == old(record).neighbors_of(other),
{
}

/// A new node has the vector and the row that it was made with, and no link.
pub proof fn new_node_has_no_link<T>(
    vector: Vec<T>,
    row: HeapPointer,
    node: PlainNode<T>,
    links: Vec<ItemPointer>,
)
    requires
        call_ensures(PlainNode::<T>::new_for_full_vector, (vector, row), node),
        call_ensures(PlainNode::<T>::get_index_pointer_to_neighbors, (&node,), links),
    ensures
        node.vector@ == vector@,
        node.heap_item_pointer == row,
        node.neighbors@.len() == 0,
        links@.len() == 0,
{
}

/// A new search has met nothing, visited nothing, taken up nothing and counted
/// nothing; it has the query and the tie break that it was made with.
pub proof fn new_search_has_met_nothing<QDM, PD, D>(
    sdm: Option<QDM>,
    tie_break: Option<ItemPointer>,
    search: ListSearchResult<QDM, PD, D>,
)
    requires
        call_ensures(ListSearchResult::<QDM, PD, D>::new, (sdm, tie_break), search),
    ensures
        search.candidates@.len() == 0,
        search.visited@.len() == 0,
        forall|p: ItemPointer| !#[trigger] search.inserted@.contains(p),
        search.sdm == sdm,
        search.tie_break_item_pointer == tie_break,
        search.stats.node_reads == 0,
        search.stats.heap_node_reads == 0,
        search.stats.full_distance_comparisons == 0,
{
}

/// A pointer is taken up once: to take it up says whether it is new, and
/// afterwards it is not.  Nothing but what is taken up changes.
pub proof fn pointer_is_taken_up_once<QDM, PD, D, S>(
    search: &mut ListSearchResult<QDM, PD, D, S>,
    ip: ItemPointer,
    is_new: bool,
)
    requires
        call_ensures(ListSearchResult::<QDM, PD, D, S>::prepare_insert, (search, ip), is_new),
    ensures
        is_new <==> !old(search).inserted@.contains(ip),
        forall|p: ItemPointer| #[trigger]
            final(search).inserted@.contains(p) <==> old(search).inserted@.contains(p) || p == ip,
        final(search).candidates@ == old(search).candidates@,
        final(search).visited@ == old(search).visited@,
        final(search).sdm == old(search).sdm,
        final(search).tie_break_item_pointer == old(search).tie_break_item_pointer,
        final(search).stats == old(search).stats,
{
}

/// A node added to those that wait comes last, and the others stay where they
/// were.  Nothing but the candidates changes.
pub proof fn node_added_waits_last<QDM, PD, D, S>(
    search: &mut ListSearchResult<QDM, PD, D, S>,
    n: ListSearchNeighbor<PD, D>,
)
    requires
        call_ensures(ListSearchResult::<QDM, PD, D, S>::insert_neighbor, (search, n), ()),
    ensures
        final(search).candidates@.len() == old(search).candidates@.len() + 1,
        final(search).candidates@[old(search).candidates@.len() as int] == n,
        forall|i: int|
            0 <= i < old(search).candidates@.len() ==> #[trigger] final(search).candidates@[i]
                == old(search).candidates@[i],
        final(search).inserted@ == old(search).inserted@,
        final(search).visited@ == old(search).visited@,
        final(search).sdm == old(search).sdm,
        final(search).tie_break_item_pointer == old(search).tie_break_item_pointer,
        final(search).stats == old(search).stats,
{
}

/// Every node visited can be asked for by its place, and a distance from the query
/// is tied to the node that the query stands for and the node measured.
pub proof fn visited_node_is_found<QDM, PD, D, S>(
    search: ListSearchResult<QDM, PD, D, S>,
    idx: usize,
    lsn: &ListSearchNeighbor<PD, D>,
    distance: D,
    ip: ItemPointer,
    tied: DistanceWithTieBreak<D>,
)
    requires
        idx < search.visited@.len(),
        call_ensures(
            ListSearchResult::<QDM, PD, D, S>::get_lsn_by_idx,
            (&search, idx),
            lsn,
        ),
        call_ensures(
            ListSearchResult::<QDM, PD, D, S>::create_distance_with_tie_break,
            (&search, distance, ip),
            tied,
        ),
    ensures
        call_requires(ListSearchResult::<QDM, PD, D, S>::get_lsn_by_idx, (&search, idx)),
        *lsn == search.visited@[idx as int],
        tied.distance == distance,
        tied.from == search.tie_break_item_pointer,
        tied.to == ip,
{
}

/// A distance between two nodes, a neighbour and a search neighbour have what they
/// were made with.
pub proof fn neighbors_have_what_they_were_made_with<PD, D>(
    distance: D,
    from: ItemPointer,
    to: ItemPointer,
    tied: DistanceWithTieBreak<D>,
    labels: Option<LabelSet>,
    neighbor: NeighborWithDistance<D>,
    data: PD,
    lsn: ListSearchNeighbor<PD, D>,
    got: &PD,
)
    requires
        call_ensures(DistanceWithTieBreak::<D>::new, (distance, from, to), tied),
        call_ensures(NeighborWithDistance::<D>::new, (to, tied, labels), neighbor),
        call_ensures(ListSearchNeighbor::<PD, D>::new, (to, tied, data, labels), lsn),
        call_ensures(ListSearchNeighbor::<PD, D>::get_private_data, (&lsn,), got),
    ensures
        tied.distance == distance,
        tied.from == Some(from),
        tied.to == to,
        neighbor.index_pointer_to_neighbor == to,
        neighbor.distance == tied,
        neighbor.labels == labels,
        lsn.index_pointer == to,
        lsn.distance_with_tie_break == tied,
        lsn.labels == labels,
        lsn.private_data == data,
        *got == data,
{
}

/// The counters of a search start at nothing, and each record adds one to its own
/// count and to no other.
pub proof fn search_counts_add_up(
    fresh_stats: GreedySearchStats,
    a: &mut GreedySearchStats,
    b: &mut GreedySearchStats,
    c: &mut GreedySearchStats,
)
    requires
        call_ensures(GreedySearchStats::new, (), fresh_stats),
        call_ensures(<GreedySearchStats as StatsNodeRead>::record_read, (a,), ()),
        call_ensures(<GreedySearchStats as StatsHeapNodeRead>::record_heap_read, (b,), ()),
        call_ensures(
            <GreedySearchStats as StatsDistanceComparison>::record_full_distance_comparison,
            (c,),
            (),
        ),
    ensures
        fresh_stats.node_reads == 0,
        fresh_stats.heap_node_reads == 0,
        fresh_stats.full_distance_comparisons == 0,
        final(a).node_reads == old(a).node_reads + 1,
        final(a).heap_node_reads == old(a).heap_node_reads,
        final(a).full_distance_comparisons == old(a).full_distance_comparisons,
        final(b).node_reads == old(b).node_reads,
        final(b).heap_node_reads == old(b).heap_node_reads + 1,
        final(b).full_distance_comparisons == old(b).full_distance_comparisons,
        final(c).node_reads == old(c).node_reads,
        final(c).heap_node_reads == old(c).heap_node_reads,
        final(c).full_distance_comparisons == old(c).full_distance_comparisons + 1,
{
}

/// The counters of a build start at nothing, and each record adds one to its own
/// count and to no other.
pub proof fn write_counts_add_up(
    fresh_stats: WriteStats,
    a: &mut WriteStats,
    b: &mut WriteStats,
    c: &mut WriteStats,
)
    requires
        call_ensures(WriteStats::new, (), fresh_stats),
        call_ensures(<WriteStats as StatsNodeRead>::record_read, (a,), ()),
        call_ensures(<WriteStats as StatsNodeModify>::record_modify, (b,), ()),
        call_ensures(<WriteStats as StatsNodeWrite>::record_write, (c,), ()),
    ensures
        fresh_stats.node_reads == 0,
        fresh_stats.node_modifies == 0,
        fresh_stats.node_writes == 0,
        final(a).node_reads == old(a).node_reads + 1,
        final(a).node_modifies == old(a).node_modifies,
        final(a).node_writes == old(a).node_writes,
        final(b).node_reads == old(b).node_reads,
        final(b).node_modifies == old(b).node_modifies + 1,
        final(b).node_writes == old(b).node_writes,
        final(c).node_reads == old(c).node_reads,
        final(c).node_modifies == old(c).node_modifies,
        final(c).node_writes == old(c).node_writes + 1,
{
}

/// A count may be added to wherever there is room in it, whatever the others are.
pub proof fn counts_have_room(search: &mut GreedySearchStats, write: &mut WriteStats)
    ensures
        old(search).node_reads < usize::MAX ==> call_requires(
            <GreedySearchStats as StatsNodeRead>::record_read,
            (search,),
        ),
        old(search).heap_node_reads < usize::MAX ==> call_requires(
            <GreedySearchStats as StatsHeapNodeRead>::record_heap_read,
            (search,),
        ),
        old(search).full_distance_comparisons < usize::MAX ==> call_requires(
            <GreedySearchStats as StatsDistanceComparison>::record_full_distance_comparison,
            (search,),
        ),
        old(write).node_reads < usize::MAX ==> call_requires(
            <WriteStats as StatsNodeRead>::record_read,
            (write,),
        ),
        old(write).node_modifies < usize::MAX ==> call_requires(
            <WriteStats as StatsNodeModify>::record_modify,
            (write,),
        ),
        old(write).node_writes < usize::MAX ==> call_requires(
            <WriteStats as StatsNodeWrite>::record_write,
            (write,),
        ),
{
}

/// Pointers, lists of them, sets, records and nodes may be made, changed and asked
/// with any values.
pub proof fn values_are_taken_as_they_are<T, D>(
    block_number: u32,
    offset: u16,
    p: ItemPointer,
    pointers: Vec<ItemPointer>,
    set: &mut PointerSet,
    record: &mut BuilderNeighborCache,
    vector: Vec<T>,
    indexed: Vec<T>,
    pg_vector: PgVector<T>,
    node: &mut PlainNode<T>,
    neighbors: &[NeighborWithDistance<D>],
)
    ensures
        call_requires(ItemPointer::new, (block_number, offset)),
        call_requires(ItemPointer::to_key, (&p,)),
        call_requires(copy_pointers, (&pointers,)),
        call_requires(PointerSet::new, ()),
        call_requires(PointerSet::insert, (set, p)),
        call_requires(PointerSet::contains, (&*old(set), p)),
        call_requires(BuilderNeighborCache::new, ()),
        call_requires(BuilderNeighborCache::set_neighbors, (record, p, pointers)),
        call_requires(BuilderNeighborCache::get_neighbors, (&*old(record), p)),
        call_requires(PgVector::<T>::new, (vector, indexed)),
        call_requires(PgVector::<T>::to_full_slice, (&pg_vector,)),
        call_requires(PgVector::<T>::to_index_slice, (&pg_vector,)),
        call_requires(PlainNode::<T>::new_for_full_vector, (vector, p)),
        call_requires(PlainNode::<T>::get_index_pointer_to_neighbors, (&*old(node),)),
        call_requires(PlainNode::<T>::set_neighbors::<D>, (node, neighbors)),
{
}

/// A search may be made, take up any pointer and add any node; and what a storage
/// holds may be asked for at any time.
pub proof fn searches_and_storages_may_be_asked<'a, Rel, F: Copy, T, D, S: StatsNodeRead>(
    storage: PlainStorage<'a, Rel, F>,
    sdm: Option<PlainDistanceMeasure<T>>,
    search: &mut PlainSearch<T, D, S>,
    ip: ItemPointer,
    lsn: PlainSearchNeighbor<D>,
    query: LabeledVector<T>,
    stats: &mut S,
    search_stats: &mut GreedySearchStats,
)
    ensures
        call_requires(PlainSearch::<T, D>::new, (sdm, Some(ip))),
        call_requires(PlainSearch::<T, D>::new, (sdm, None)),
        call_requires(PlainSearch::<T, D, S>::prepare_insert, (search, ip)),
        call_requires(PlainSearch::<T, D, S>::insert_neighbor, (search, lsn)),
        call_requires(PlainStorage::<Rel, F>::get_query_distance_measure::<T>, (&storage, query)),
        call_requires(PlainStorage::<Rel, F>::get_labels::<S>, (&storage, ip, stats)),
        call_requires(
            PlainStorage::<Rel, F>::return_lsn::<D>,
            (&storage, &lsn, search_stats),
        ),
{
}

/// However a storage is opened, it is that of the index, the table and the distance
/// function given, with an attribute that was given for the index.
pub proof fn storage_opened_is_the_one_asked_for<'a, Rel, F, A>(
    index: &'a Rel,
    heap_rel: &'a Rel,
    distance_fn: F,
    vector_attribute: A,
    storage: PlainStorage<'a, Rel, F>,
)
    where A: FnOnce(&Rel) -> i16
    requires
        ({
            let given = (index, heap_rel, distance_fn, vector_attribute);
            ||| call_ensures(PlainStorage::<Rel, F>::new_for_build::<A>, given, storage)
            ||| call_ensures(PlainStorage::<Rel, F>::load_for_insert::<A>, given, storage)
            ||| call_ensures(PlainStorage::<Rel, F>::load_for_search::<A>, given, storage)
        }),
    ensures
        storage.index == index,
        storage.heap_rel == heap_rel,
        storage.distance_fn == distance_fn,
        call_ensures(vector_attribute, (index,), storage.heap_attr),
{
}

/// A storage may be opened in each way wherever the attribute may be asked for.
pub proof fn storage_may_be_opened<'a, Rel, F, A>(
    index: &'a Rel,
    heap_rel: &'a Rel,
    distance_fn: F,
    vector_attribute: A,
)
    where A: FnOnce(&Rel) -> i16
    requires
        call_requires(vector_attribute, (index,)),
    ensures
        ({
            let given = (index, heap_rel, distance_fn, vector_attribute);
            &&& call_requires(PlainStorage::<Rel, F>::new_for_build::<A>, given)
            &&& call_requires(PlainStorage::<Rel, F>::load_for_insert::<A>, given)
            &&& call_requires(PlainStorage::<Rel, F>::load_for_search::<A>, given)
        }),
{
}

/// Training in any of its steps changes neither the storage, nor the meta page, nor
/// the counts.
pub proof fn training_changes_nothing<'a, Rel, F, T>(
    started: &mut PlainStorage<'a, Rel, F>,
    sampled: &mut PlainStorage<'a, Rel, F>,
    finished: &mut PlainStorage<'a, Rel, F>,
    meta_page: &mut MetaPage,
    stats: &mut WriteStats,
    sample: &[T],
)
    requires
        call_ensures(PlainStorage::<Rel, F>::start_training, (started, &*old(meta_page)), ()),
        call_ensures(PlainStorage::<Rel, F>::add_sample::<T>, (sampled, sample), ()),
        call_ensures(PlainStorage::<Rel, F>::finish_training, (finished, meta_page, stats), ()),
    ensures
        *final(started) == *old(started),
        *final(sampled) == *old(sampled),
        *final(finished) == *old(finished),
        *final(meta_page) == *old(meta_page),
        *final(stats) == *old(stats),
{
}

/// A storage measures from the very query given, with the very function that it was
/// opened with; its nodes carry no labels, stand on node pages, and stand for the
/// rows kept of them.  None of this counts anything.
pub proof fn storage_gives_what_it_holds<'a, Rel, F: Copy, T, D, S: StatsNodeRead>(
    storage: PlainStorage<'a, Rel, F>,
    query: LabeledVector<T>,
    measure: PlainDistanceMeasure<T>,
    distance_fn: F,
    ip: IndexPointer,
    stats: &mut S,
    labels: Option<LabelSet>,
    kind: PageType,
    lsn: PlainSearchNeighbor<D>,
    search_stats: &mut GreedySearchStats,
    row: HeapPointer,
)
    requires
        call_ensures(
            PlainStorage::<Rel, F>::get_query_distance_measure::<T>,
            (&storage, query),
            measure,
        ),
        call_ensures(PlainStorage::<Rel, F>::get_distance_function, (&storage,), distance_fn),
        call_ensures(PlainStorage::<Rel, F>::get_labels::<S>, (&storage, ip, stats), labels),
        call_ensures(PlainStorage::<Rel, F>::page_type, (), kind),
        call_ensures(
            PlainStorage::<Rel, F>::return_lsn::<D>,
            (&storage, &lsn, search_stats),
            row,
        ),
    ensures
        measure == PlainDistanceMeasure::Full(query),
        distance_fn == storage.distance_fn,
        labels is None,
        *final(stats) == *old(stats),
        kind is Node,
        row == lsn.private_data.heap_pointer,
        *final(search_stats) == *old(search_stats),
{
}

/// A search neighbour made of a node has the node's row, its links or those that
/// the build has on record, the distance given, and no labels.
pub proof fn search_neighbor_is_made_of_the_node<'a, Rel, F: Copy, T, D, S>(
    search: PlainSearch<T, D, S>,
    ip: IndexPointer,
    distance: D,
    node: PlainNode<T>,
    gns: GraphNeighborStore,
    lsn: PlainSearchNeighbor<D>,
)
    requires
        call_ensures(
            PlainStorage::<'a, Rel, F>::make_lsn::<T, D, S>,
            (&search, ip, distance, &node, &gns),
            lsn,
        ),
    ensures
        lsn.index_pointer == ip,
        lsn.distance_with_tie_break.distance == distance,
        lsn.distance_with_tie_break.from == search.tie_break_item_pointer,
        lsn.distance_with_tie_break.to == ip,
        lsn.private_data.heap_pointer == node.heap_item_pointer,
        lsn.private_data.neighbors@ == match gns {
            GraphNeighborStore::Disk => node.neighbors@,
            GraphNeighborStore::Builder(record) => record.neighbors_of(ip),
        },
        lsn.labels is None,
{
}

/// A row's distance from the query is one that the distance function gave for the
/// whole vectors of the two, the row's first; it may be asked for wherever the
/// distance function takes them.
pub proof fn row_distance_is_of_whole_vectors<'a, Rel, F, T, D>(
    storage: PlainStorage<'a, Rel, F>,
    vec: PgVector<T>,
    query: LabeledVector<T>,
    distance: D,
)
    where F: Fn(&[T], &[T]) -> D + Copy
    requires
        call_ensures(
            PlainStorage::<Rel, F>::resort_distance::<T, D>,
            (&storage, &vec, &PlainDistanceMeasure::Full(query)),
            distance,
        ),
    ensures
        exists|x: &[T], y: &[T]|
            x@ == vec.full() && y@ == query.vec.full() && #[trigger] call_ensures(
                storage.distance_fn,
                (x, y),
                distance,
            ),
        (forall|x: &[T], y: &[T]|
            x@ == vec.full() && y@ == query.vec.full() ==> #[trigger] call_requires(
                storage.distance_fn,
                (x, y),
            )) ==> call_requires(
            PlainStorage::<Rel, F>::resort_distance::<T, D>,
            (&storage, &vec, &PlainDistanceMeasure::Full(query)),
        ),
{
}

/// The meta page tells the dimensions of the table and those of the index apart.
pub proof fn meta_page_gives_its_dimensions(meta_page: MetaPage, all: u32, to_index: u32)
    requires
        call_ensures(MetaPage::get_num_dimensions, (&meta_page,), all),
        call_ensures(MetaPage::get_num_dimensions_to_index, (&meta_page,), to_index),
    ensures
        all == meta_page.num_dimensions,
        to_index == meta_page.num_dimensions_to_index,
{
}

} // verus!

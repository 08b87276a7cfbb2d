use plain_storage::distance_measure::{IndexFullDistanceMeasure, PlainDistanceMeasure};
use plain_storage::item_pointer::ItemPointer;
use plain_storage::meta_page::MetaPage;
use plain_storage::neighbor::{DistanceWithTieBreak, NeighborWithDistance};
use plain_storage::neighbor_store::{BuilderNeighborCache, GraphNeighborStore};
use plain_storage::plain_node::PlainNode;
use plain_storage::plain_search::PlainSearch;
use plain_storage::plain_storage::{PageType, PlainStorage};
use plain_storage::search::ListSearchResult;
use plain_storage::stats::{GreedySearchStats, StatsNodeRead, WriteStats};
use plain_storage::vector::{LabelSet, LabeledVector, PgVector};
use std::cell::RefCell;

type DistanceFn = fn(&[f32], &[f32]) -> f32;

/// Tells its arguments apart.
fn ten_to_one(a: &[f32], b: &[f32]) -> f32 {
    10.0 * a[0] + b[0]
}

/// A relation in memory: its number, and a node per block.
struct Table {
    number: i16,
    nodes: RefCell<Vec<PlainNode<f32>>>,
}

fn table(number: i16) -> Table {
    Table { number, nodes: RefCell::new(Vec::new()) }
}

fn at(block: u32) -> ItemPointer {
    ItemPointer::new(block, 1)
}

fn copy(node: &PlainNode<f32>) -> PlainNode<f32> {
    PlainNode {
        vector: node.vector.clone(),
        heap_item_pointer: node.heap_item_pointer,
        neighbors: node.neighbors.clone(),
    }
}

fn peek(index: &Table, ip: ItemPointer) -> PlainNode<f32> {
    copy(&index.nodes.borrow()[ip.block_number as usize])
}

fn read(index: &Table, ip: ItemPointer, stats: &mut GreedySearchStats) -> PlainNode<f32> {
    stats.record_read();
    peek(index, ip)
}

fn number(index: &Table) -> i16 {
    index.number
}

fn meta() -> MetaPage {
    MetaPage { num_dimensions: 3, num_dimensions_to_index: 2, num_neighbors: 38 }
}

fn neighbor(block: u32) -> NeighborWithDistance<f32> {
    NeighborWithDistance::new(at(block), DistanceWithTieBreak::new(1.0, at(0), at(block)), None)
}

fn add_node(
    storage: &PlainStorage<'_, Table, DistanceFn>,
    vector: &[f32],
    row: u32,
) -> ItemPointer {
    let mut stats = WriteStats::new();
    let table = storage.index;
    let ip = storage.create_node(
        vector,
        Some(LabelSet { labels: vec![3] }),
        ItemPointer::new(row, 5),
        &meta(),
        &mut stats,
        |node: PlainNode<f32>, meta: &MetaPage| {
            assert_eq!(meta.num_neighbors, 38);
            table.nodes.borrow_mut().push(node);
            at(table.nodes.borrow().len() as u32 - 1)
        },
    );
    assert_eq!(stats.node_writes, 1);
    assert_eq!(stats.node_reads, 0);
    assert_eq!(stats.node_modifies, 0);
    ip
}

fn link(storage: &PlainStorage<'_, Table, DistanceFn>, ip: ItemPointer, blocks: &[u32]) {
    let mut stats = WriteStats::new();
    let neighbors: Vec<NeighborWithDistance<f32>> = blocks.iter().map(|b| neighbor(*b)).collect();
    storage.set_neighbors_on_disk(
        &meta(),
        ip,
        &neighbors,
        &mut stats,
        |table: &Table, ip: ItemPointer| (peek(table, ip), (table.number, ip.block_number)),
        |page: (i16, u32), node: PlainNode<f32>, meta: &MetaPage| {
            assert_eq!(page.0, storage.index.number);
            assert_eq!(meta.num_neighbors, 38);
            storage.index.nodes.borrow_mut()[page.1 as usize] = node;
        },
    );
    assert_eq!(stats.node_modifies, 1);
    assert_eq!(stats.node_reads, 0);
}

#[test]
fn opening_takes_the_attribute_of_the_index() {
    let (index, heap) = (table(4), table(9));
    for storage in [
        PlainStorage::new_for_build(&index, &heap, ten_to_one as DistanceFn, number),
        PlainStorage::load_for_insert(&index, &heap, ten_to_one as DistanceFn, number),
        PlainStorage::load_for_search(&index, &heap, ten_to_one as DistanceFn, number),
    ] {
        assert_eq!(storage.index.number, 4);
        assert_eq!(storage.heap_rel.number, 9);
        assert_eq!(storage.heap_attr, 4);
        assert_eq!((storage.get_distance_function())(&[1.0], &[2.0]), 12.0);
    }
}

#[test]
fn nodes_live_on_node_pages() {
    assert_eq!(PlainStorage::<Table, DistanceFn>::page_type(), PageType::Node);
}

#[test]
fn created_node_holds_vector_and_row() {
    let (index, heap) = (table(1), table(2));
    let storage = PlainStorage::new_for_build(&index, &heap, ten_to_one as DistanceFn, number);
    assert_eq!(add_node(&storage, &[1.5, 2.5], 70), at(0));
    assert_eq!(add_node(&storage, &[], 71), at(1));
    let node = peek(&index, at(0));
    assert_eq!(node.vector, vec![1.5, 2.5]);
    assert_eq!(node.heap_item_pointer, ItemPointer::new(70, 5));
    assert!(node.neighbors.is_empty());
    assert!(peek(&index, at(1)).vector.is_empty());
    assert!(heap.nodes.borrow().is_empty());
}

#[test]
fn written_links_replace_the_old_ones() {
    let (index, heap) = (table(1), table(2));
    let storage = PlainStorage::load_for_insert(&index, &heap, ten_to_one as DistanceFn, number);
    let ip = add_node(&storage, &[1.0], 70);
    link(&storage, ip, &[3, 1, 2]);
    assert_eq!(peek(&index, ip).neighbors, vec![at(3), at(1), at(2)]);
    link(&storage, ip, &[5]);
    let node = peek(&index, ip);
    assert_eq!(node.neighbors, vec![at(5)]);
    assert_eq!(node.vector, vec![1.0]);
    assert_eq!(node.heap_item_pointer, ItemPointer::new(70, 5));
    link(&storage, ip, &[]);
    assert!(peek(&index, ip).neighbors.is_empty());
}

#[test]
fn created_row_is_met_whatever_store_is_asked() {
    let (index, heap) = (table(1), table(2));
    let storage = PlainStorage::new_for_build(&index, &heap, ten_to_one as DistanceFn, number);
    let ip = add_node(&storage, &[2.0], 70);
    let mut cache = BuilderNeighborCache::new();
    cache.set_neighbors(ip, vec![at(8)]);
    for gns in [GraphNeighborStore::Disk, GraphNeighborStore::Builder(cache)] {
        let query = PgVector::new(vec![1.0, 0.0], vec![1.0]);
        let measure = storage.get_query_distance_measure(LabeledVector::new(query, None));
        let mut lsr: PlainSearch<f32, f32> = ListSearchResult::new(Some(measure), None);
        let met = storage.create_lsn_for_start_node(&mut lsr, ip, &gns, &read).unwrap();
        assert_eq!(met.private_data.heap_pointer, ItemPointer::new(70, 5));
        assert_eq!(met.distance_with_tie_break.distance, 12.0);
    }
}

#[test]
fn created_and_linked_nodes_are_met_by_a_search() {
    let (index, heap) = (table(1), table(2));
    let storage = PlainStorage::load_for_insert(&index, &heap, ten_to_one as DistanceFn, number);
    let first = add_node(&storage, &[2.0, 0.0], 70);
    let second = add_node(&storage, &[3.0, 0.0], 71);
    let gns = GraphNeighborStore::Disk;
    let query = PgVector::new(vec![1.0, 0.0, 0.0], vec![1.0, 0.0]);
    let measure = storage.get_query_distance_measure(LabeledVector::new(query, None));
    let mut lsr: PlainSearch<f32, f32> = ListSearchResult::new(Some(measure), None);
    let met = storage.create_lsn_for_start_node(&mut lsr, second, &gns, &read).unwrap();
    assert_eq!(met.private_data.heap_pointer, ItemPointer::new(71, 5));
    assert!(met.private_data.neighbors.is_empty());
    assert_eq!(met.distance_with_tie_break.distance, 13.0);
    lsr.visited.push(met);
    link(&storage, first, &[0, 1]);
    let met = storage.create_lsn_for_start_node(&mut lsr, first, &gns, &read).unwrap();
    assert_eq!(met.private_data.heap_pointer, ItemPointer::new(70, 5));
    assert_eq!(met.private_data.neighbors, vec![first, second]);
    assert_eq!(met.distance_with_tie_break.distance, 12.0);
    lsr.visited.push(met);
    storage.visit_lsn(&mut lsr, 1, &gns, true, &read);
    assert!(lsr.candidates.is_empty());
}

#[test]
fn links_set_last_are_met_on_a_visit() {
    let (index, heap) = (table(1), table(2));
    let storage = PlainStorage::load_for_insert(&index, &heap, ten_to_one as DistanceFn, number);
    let first = add_node(&storage, &[2.0], 70);
    let second = add_node(&storage, &[3.0], 71);
    link(&storage, first, &[1]);
    link(&storage, second, &[4]);
    link(&storage, second, &[0, 5]);
    let gns = GraphNeighborStore::Disk;
    let query = PgVector::new(vec![1.0, 0.0], vec![1.0]);
    let measure = storage.get_query_distance_measure(LabeledVector::new(query, None));
    let mut lsr: PlainSearch<f32, f32> = ListSearchResult::new(Some(measure), None);
    let start = storage.create_lsn_for_start_node(&mut lsr, first, &gns, &read).unwrap();
    lsr.visited.push(start);
    storage.visit_lsn(&mut lsr, 0, &gns, true, &read);
    assert_eq!(lsr.candidates.len(), 1);
    let met = &lsr.candidates[0];
    assert_eq!(met.index_pointer, second);
    assert_eq!(met.private_data.neighbors, vec![at(0), at(5)]);
    assert_eq!(met.private_data.heap_pointer, ItemPointer::new(71, 5));
    assert_eq!(met.distance_with_tie_break.distance, 13.0);
}

#[test]
fn node_is_finalized_with_its_neighbors() {
    let (index, heap) = (table(1), table(2));
    let mut storage = PlainStorage::new_for_build(&index, &heap, ten_to_one as DistanceFn, number);
    add_node(&storage, &[1.0], 70);
    let mut stats = WriteStats::new();
    storage.finalize_node_at_end_of_build(
        &meta(),
        at(0),
        &[neighbor(4), neighbor(2)],
        &mut stats,
        |table: &Table, ip: ItemPointer| (peek(table, ip), ip.block_number as usize),
        |page: usize, node: PlainNode<f32>, _meta: &MetaPage| {
            index.nodes.borrow_mut()[page] = node;
        },
    );
    assert_eq!(stats.node_modifies, 1);
    assert_eq!(peek(&index, at(0)).neighbors, vec![at(4), at(2)]);
    assert_eq!(storage.heap_attr, 1);
}

#[test]
fn training_changes_nothing() {
    let (index, heap) = (table(1), table(2));
    let mut storage = PlainStorage::new_for_build(&index, &heap, ten_to_one as DistanceFn, number);
    let mut page = meta();
    let mut stats = WriteStats::new();
    storage.start_training(&page);
    storage.add_sample(&[1.0f32, 2.0]);
    storage.finish_training(&mut page, &mut stats);
    assert_eq!(page.get_num_dimensions(), 3);
    assert_eq!(page.get_num_dimensions_to_index(), 2);
    assert_eq!(page.num_neighbors, 38);
    assert_eq!((stats.node_reads, stats.node_modifies, stats.node_writes), (0, 0, 0));
    assert_eq!(storage.heap_attr, 1);
}

#[test]
fn query_distance_goes_from_query_to_node_and_is_counted() {
    let mut stats = GreedySearchStats::new();
    let d = PlainDistanceMeasure::calculate_distance(
        ten_to_one,
        &[1.0, 0.0],
        &[2.0, 0.0],
        &mut stats,
    );
    assert_eq!(d, 12.0);
    assert_eq!(stats.full_distance_comparisons, 1);
    assert_eq!(stats.node_reads, 0);
}

#[test]
fn node_distance_goes_to_the_node_measured_from_and_is_not_counted() {
    let (index, heap) = (table(1), table(2));
    let storage = PlainStorage::new_for_build(&index, &heap, ten_to_one as DistanceFn, number);
    add_node(&storage, &[1.0], 70);
    add_node(&storage, &[2.0], 71);
    let mut stats = GreedySearchStats::new();
    let measure = storage.get_node_distance_measure(at(0), &mut stats, &read);
    assert_eq!(measure.readable_node.vector, vec![1.0]);
    assert_eq!(stats.node_reads, 1);
    assert_eq!(measure.get_distance(at(1), &mut stats, &read), 21.0);
    assert_eq!(stats.node_reads, 2);
    assert_eq!(stats.full_distance_comparisons, 0);
    let again = IndexFullDistanceMeasure::with_readable_node(&storage, peek(&index, at(1)));
    assert_eq!(again.get_distance(at(0), &mut stats, &read), 12.0);
    let third = IndexFullDistanceMeasure::with_index_pointer(&storage, at(1), &mut stats, &read);
    assert_eq!(third.readable_node.heap_item_pointer, ItemPointer::new(71, 5));
    assert_eq!(stats.node_reads, 4);
}

#[test]
fn neighbors_are_listed_with_their_distances() {
    let (index, heap) = (table(1), table(2));
    let storage = PlainStorage::load_for_insert(&index, &heap, ten_to_one as DistanceFn, number);
    add_node(&storage, &[1.0], 70);
    add_node(&storage, &[2.0], 71);
    add_node(&storage, &[3.0], 72);
    link(&storage, at(0), &[2, 1, 2]);
    let mut stats = GreedySearchStats::new();
    let mut result = vec![neighbor(9)];
    storage.get_neighbors_with_distances_from_disk(at(0), &mut result, &mut stats, &read);
    let found: Vec<(ItemPointer, f32)> = result
        .iter()
        .map(|n| (n.index_pointer_to_neighbor, n.distance.distance))
        .collect();
    assert_eq!(found, vec![(at(9), 1.0), (at(2), 31.0), (at(1), 21.0), (at(2), 31.0)]);
    for n in &result[1..] {
        assert_eq!(n.distance.from, Some(at(0)));
        assert_eq!(n.distance.to, n.index_pointer_to_neighbor);
        assert!(n.labels.is_none());
    }
    assert_eq!(stats.node_reads, 4);
    assert_eq!(stats.full_distance_comparisons, 0);
}

#[test]
fn listed_neighbors_written_back_are_the_same() {
    let (index, heap) = (table(1), table(2));
    let storage = PlainStorage::load_for_insert(&index, &heap, ten_to_one as DistanceFn, number);
    add_node(&storage, &[1.0], 70);
    add_node(&storage, &[2.0], 71);
    add_node(&storage, &[3.0], 72);
    link(&storage, at(0), &[2, 1]);
    let mut stats = GreedySearchStats::new();
    let mut listed: Vec<NeighborWithDistance<f32>> = Vec::new();
    storage.get_neighbors_with_distances_from_disk(at(0), &mut listed, &mut stats, &read);
    let mut node = peek(&index, at(0));
    node.set_neighbors(&listed);
    assert_eq!(node.neighbors, vec![at(2), at(1)]);
}

#[test]
fn listings_append_the_same_distances_that_the_measure_gives() {
    let (index, heap) = (table(1), table(2));
    let storage = PlainStorage::load_for_insert(&index, &heap, ten_to_one as DistanceFn, number);
    add_node(&storage, &[1.0], 70);
    add_node(&storage, &[2.0], 71);
    add_node(&storage, &[3.0], 72);
    link(&storage, at(0), &[2, 1]);
    let mut stats = GreedySearchStats::new();
    let mut result = vec![neighbor(9)];
    storage.get_neighbors_with_distances_from_disk(at(0), &mut result, &mut stats, &read);
    storage.get_neighbors_with_distances_from_disk(at(0), &mut result, &mut stats, &read);
    let listed: Vec<(u32, f32)> = result
        .iter()
        .map(|n| (n.index_pointer_to_neighbor.block_number, n.distance.distance))
        .collect();
    assert_eq!(listed, vec![(9, 1.0), (2, 31.0), (1, 21.0), (2, 31.0), (1, 21.0)]);
    let measure = storage.get_node_distance_measure(at(0), &mut stats, &read);
    for n in &result[1..] {
        let d = measure.get_distance(n.index_pointer_to_neighbor, &mut stats, &read);
        assert_eq!(n.distance.distance, d);
    }
}

#[test]
fn node_without_neighbors_lists_none() {
    let (index, heap) = (table(1), table(2));
    let storage = PlainStorage::load_for_insert(&index, &heap, ten_to_one as DistanceFn, number);
    add_node(&storage, &[], 70);
    let mut stats = GreedySearchStats::new();
    let mut result: Vec<NeighborWithDistance<f32>> = Vec::new();
    storage.get_neighbors_with_distances_from_disk(at(0), &mut result, &mut stats, &read);
    assert!(result.is_empty());
    assert_eq!(stats.node_reads, 1);
}

fn measure() -> PlainDistanceMeasure<f32> {
    PlainDistanceMeasure::Full(LabeledVector::new(
        PgVector::new(vec![5.0, 6.0, 7.0], vec![50.0, 60.0]),
        None,
    ))
}

#[test]
fn resort_measures_from_the_row_on_all_dimensions() {
    let (index, heap) = (table(3), table(8));
    let storage = PlainStorage::load_for_search(&index, &heap, ten_to_one as DistanceFn, number);
    let mut stats = GreedySearchStats::new();
    let d = storage.get_full_distance_for_resort(
        "snapshot",
        &measure(),
        at(0),
        ItemPointer::new(70, 5),
        &meta(),
        &mut stats,
        |rel: &Table, hp: ItemPointer, snapshot: &str| Some((rel.number, hp, snapshot.len())),
        |slot: &(i16, ItemPointer, usize), attr: i16| {
            assert_eq!(*slot, (8, ItemPointer::new(70, 5), 8));
            Some(attr as u64)
        },
        |datum: u64, meta: &MetaPage, index: bool, full: bool| {
            assert_eq!((datum, meta.num_dimensions, index, full), (3, 3, false, true));
            PgVector::new(vec![2.0, 3.0, 4.0], Vec::new())
        },
    );
    assert_eq!(d, Some(25.0));
    assert_eq!(stats.heap_node_reads, 1);
    assert_eq!(stats.node_reads, 0);
    assert_eq!(stats.full_distance_comparisons, 0);
}

#[test]
fn resort_does_not_look_at_the_index_pointer() {
    let (index, heap) = (table(3), table(8));
    let storage = PlainStorage::load_for_search(&index, &heap, ten_to_one as DistanceFn, number);
    let mut stats = GreedySearchStats::new();
    for index_pointer in [at(0), at(900)] {
        let d = storage.get_full_distance_for_resort(
            (),
            &measure(),
            index_pointer,
            ItemPointer::new(70, 5),
            &meta(),
            &mut stats,
            |_rel: &Table, hp: ItemPointer, _snapshot: ()| Some(hp.block_number),
            |slot: &u32, _attr: i16| Some(*slot),
            |datum: u32, _meta: &MetaPage, _index: bool, _full: bool| {
                PgVector::new(vec![datum as f32, 0.0, 0.0], Vec::new())
            },
        );
        assert_eq!(d, Some(705.0));
    }
    assert_eq!(stats.heap_node_reads, 2);
}

#[test]
fn resort_of_a_row_that_is_gone_gives_nothing() {
    let (index, heap) = (table(3), table(8));
    let storage = PlainStorage::load_for_search(&index, &heap, ten_to_one as DistanceFn, number);
    let mut stats = GreedySearchStats::new();
    let d: Option<f32> = storage.get_full_distance_for_resort(
        (),
        &measure(),
        at(0),
        ItemPointer::new(70, 5),
        &meta(),
        &mut stats,
        |_rel: &Table, _hp: ItemPointer, _snapshot: ()| None,
        |_slot: &u8, _attr: i16| -> Option<u64> { unreachable!() },
        |_datum: u64, _meta: &MetaPage, _index: bool, _full: bool| -> PgVector<f32> {
            unreachable!()
        },
    );
    assert_eq!(d, None);
    assert_eq!(stats.heap_node_reads, 1);
}

#[test]
fn resort_distance_of_given_vectors() {
    let (index, heap) = (table(3), table(8));
    let storage = PlainStorage::load_for_search(&index, &heap, ten_to_one as DistanceFn, number);
    let row = PgVector::new(vec![1.0, 0.0, 0.0], vec![9.0, 9.0]);
    assert_eq!(storage.resort_distance(&row, &measure()), 15.0);
}

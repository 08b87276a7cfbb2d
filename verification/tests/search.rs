use plain_storage::distance_measure::PlainDistanceMeasure;
use plain_storage::item_pointer::ItemPointer;
use plain_storage::neighbor_store::{BuilderNeighborCache, GraphNeighborStore};
use plain_storage::plain_node::PlainNode;
use plain_storage::plain_search::{PlainSearch, PlainStorageLsnPrivateData};
use plain_storage::plain_storage::PlainStorage;
use plain_storage::search::ListSearchResult;
use plain_storage::stats::{GreedySearchStats, StatsNodeRead};
use plain_storage::vector::{LabelSet, LabeledVector, PgVector};
use std::cell::RefCell;

type DistanceFn = fn(&[f32], &[f32]) -> f32;

/// Squared distance, with the first vector's leading dimension weighed in so
/// that the order of the two shows.
fn lopsided(a: &[f32], b: &[f32]) -> f32 {
    let mut sum = 100.0 * a[0];
    for i in 0..a.len() {
        sum += (a[i] - b[i]) * (a[i] - b[i]);
    }
    sum
}

/// An index in memory: one node per block, at offset 1, and a log of reads.
struct Memory {
    nodes: Vec<(Vec<f32>, Vec<u32>)>,
    log: RefCell<Vec<ItemPointer>>,
}

fn at(block: u32) -> ItemPointer {
    ItemPointer::new(block, 1)
}

fn pointers(blocks: &[u32]) -> Vec<ItemPointer> {
    blocks.iter().map(|b| at(*b)).collect()
}

fn read(index: &Memory, ip: ItemPointer, stats: &mut GreedySearchStats) -> PlainNode<f32> {
    stats.record_read();
    index.log.borrow_mut().push(ip);
    let (vector, links) = &index.nodes[ip.block_number as usize];
    PlainNode {
        vector: vector.clone(),
        heap_item_pointer: ItemPointer::new(ip.block_number + 1000, 7),
        neighbors: pointers(links),
    }
}

fn memory() -> Memory {
    Memory {
        nodes: vec![
            (vec![0.0, 0.0], vec![1, 2, 1, 0]),
            (vec![1.0, 0.0], vec![0, 2, 3]),
            (vec![0.0, 2.0], vec![3, 4]),
            (vec![3.0, 0.0], vec![]),
            (vec![4.0, 4.0], vec![0]),
        ],
        log: RefCell::new(Vec::new()),
    }
}

fn attribute(_index: &Memory) -> i16 {
    2
}

fn query() -> LabeledVector<f32> {
    LabeledVector::new(PgVector::new(vec![1.0, 1.0, 9.0], vec![1.0, 1.0]), None)
}

fn search(tie_break: Option<ItemPointer>) -> PlainSearch<f32, f32> {
    ListSearchResult::new(Some(PlainDistanceMeasure::Full(query())), tie_break)
}

fn candidate_blocks(lsr: &PlainSearch<f32, f32>) -> Vec<u32> {
    lsr.candidates.iter().map(|c| c.index_pointer.block_number).collect()
}

#[test]
fn new_search_has_met_nothing() {
    let lsr = search(Some(at(9)));
    assert!(lsr.candidates.is_empty());
    assert!(lsr.visited.is_empty());
    assert!(!lsr.inserted.contains(at(0)));
    assert_eq!(lsr.tie_break_item_pointer, Some(at(9)));
    assert_eq!(lsr.stats.node_reads, 0);
    assert_eq!(lsr.stats.heap_node_reads, 0);
    assert_eq!(lsr.stats.full_distance_comparisons, 0);
    assert!(lsr.sdm.is_some());
}

#[test]
fn prepare_insert_is_true_once() {
    let mut lsr = search(None);
    assert!(lsr.prepare_insert(at(3)));
    assert!(!lsr.prepare_insert(at(3)));
    assert!(lsr.prepare_insert(ItemPointer::new(3, 2)));
    assert!(lsr.inserted.contains(at(3)));
    assert!(!lsr.inserted.contains(at(4)));
}

#[test]
fn start_node_is_read_and_measured() {
    let (index, heap) = (memory(), memory());
    let storage =
        PlainStorage::load_for_search(&index, &heap, lopsided as DistanceFn, attribute);
    let mut lsr = search(None);
    let lsn = storage
        .create_lsn_for_start_node(&mut lsr, at(1), &GraphNeighborStore::Disk, &read)
        .unwrap();
    assert_eq!(lsn.index_pointer, at(1));
    // From the query [1, 1] to [1, 0].
    assert_eq!(lsn.distance_with_tie_break.distance, 101.0);
    assert_eq!(lsn.distance_with_tie_break.from, None);
    assert_eq!(lsn.distance_with_tie_break.to, at(1));
    assert_eq!(lsn.private_data.heap_pointer, ItemPointer::new(1001, 7));
    assert_eq!(lsn.private_data.neighbors, pointers(&[0, 2, 3]));
    assert!(lsn.labels.is_none());
    assert!(lsr.inserted.contains(at(1)));
    assert!(lsr.candidates.is_empty());
    assert_eq!(lsr.stats.node_reads, 1);
    assert_eq!(lsr.stats.full_distance_comparisons, 1);
    assert_eq!(*index.log.borrow(), pointers(&[1]));
    assert!(heap.log.borrow().is_empty());
}

#[test]
fn start_node_is_taken_up_once() {
    let (index, heap) = (memory(), memory());
    let storage =
        PlainStorage::load_for_search(&index, &heap, lopsided as DistanceFn, attribute);
    let mut lsr = search(None);
    let gns = GraphNeighborStore::Disk;
    assert!(storage.create_lsn_for_start_node(&mut lsr, at(0), &gns, &read).is_some());
    assert!(storage.create_lsn_for_start_node(&mut lsr, at(0), &gns, &read).is_none());
    assert_eq!(lsr.stats.node_reads, 1);
    assert_eq!(index.log.borrow().len(), 1);
}

#[test]
fn node_taken_up_before_needs_no_query() {
    let (index, heap) = (memory(), memory());
    let storage =
        PlainStorage::load_for_search(&index, &heap, lopsided as DistanceFn, attribute);
    let mut lsr: PlainSearch<f32, f32> = ListSearchResult::new(None, None);
    assert!(lsr.prepare_insert(at(0)));
    let gns = GraphNeighborStore::Disk;
    assert!(storage.create_lsn_for_start_node(&mut lsr, at(0), &gns, &read).is_none());
}

#[test]
fn tie_break_pointer_goes_into_the_distance() {
    let (index, heap) = (memory(), memory());
    let storage =
        PlainStorage::load_for_insert(&index, &heap, lopsided as DistanceFn, attribute);
    let mut lsr = search(Some(at(4)));
    let lsn = storage
        .create_lsn_for_start_node(&mut lsr, at(2), &GraphNeighborStore::Disk, &read)
        .unwrap();
    assert_eq!(lsn.distance_with_tie_break.from, Some(at(4)));
    assert_eq!(lsn.distance_with_tie_break.to, at(2));
}

#[test]
fn visit_adds_each_new_neighbor_once_in_order() {
    let (index, heap) = (memory(), memory());
    let storage =
        PlainStorage::load_for_search(&index, &heap, lopsided as DistanceFn, attribute);
    let gns = GraphNeighborStore::Disk;
    let mut lsr = search(None);
    let start = storage.create_lsn_for_start_node(&mut lsr, at(0), &gns, &read).unwrap();
    lsr.visited.push(start);
    storage.visit_lsn(&mut lsr, 0, &gns, true, &read);
    // 1 is listed twice, 0 is where the search started.
    assert_eq!(candidate_blocks(&lsr), vec![1, 2]);
    assert_eq!(lsr.candidates[0].distance_with_tie_break.distance, 101.0);
    assert_eq!(lsr.candidates[1].distance_with_tie_break.distance, 102.0);
    assert_eq!(lsr.candidates[1].private_data.heap_pointer, ItemPointer::new(1002, 7));
    assert_eq!(lsr.candidates[1].private_data.neighbors, pointers(&[3, 4]));
    assert_eq!(lsr.stats.node_reads, 3);
    assert_eq!(lsr.stats.full_distance_comparisons, 3);
    assert_eq!(*index.log.borrow(), pointers(&[0, 1, 2]));
    assert!(lsr.inserted.contains(at(1)) && lsr.inserted.contains(at(2)));
    assert!(!lsr.inserted.contains(at(3)));
}

#[test]
fn visit_makes_of_a_node_what_starting_at_it_makes() {
    let (index, heap) = (memory(), memory());
    let storage =
        PlainStorage::load_for_search(&index, &heap, lopsided as DistanceFn, attribute);
    let gns = GraphNeighborStore::Disk;
    let mut lsr = search(Some(at(4)));
    let start = storage.create_lsn_for_start_node(&mut lsr, at(0), &gns, &read).unwrap();
    lsr.visited.push(start);
    storage.visit_lsn(&mut lsr, 0, &gns, true, &read);
    let met = &lsr.candidates[1];
    let mut other = search(Some(at(4)));
    let started = storage.create_lsn_for_start_node(&mut other, at(2), &gns, &read).unwrap();
    assert_eq!(met.index_pointer, started.index_pointer);
    assert_eq!(met.distance_with_tie_break.distance, 102.0);
    assert_eq!(started.distance_with_tie_break.distance, 102.0);
    assert_eq!(met.distance_with_tie_break.from, started.distance_with_tie_break.from);
    assert_eq!(met.distance_with_tie_break.to, started.distance_with_tie_break.to);
    assert_eq!(met.private_data.heap_pointer, started.private_data.heap_pointer);
    assert_eq!(met.private_data.neighbors, started.private_data.neighbors);
    assert!(met.labels.is_none() && started.labels.is_none());
}

#[test]
fn start_again_changes_nothing_whatever_store_is_asked() {
    let (index, heap) = (memory(), memory());
    let storage =
        PlainStorage::load_for_search(&index, &heap, lopsided as DistanceFn, attribute);
    let mut lsr = search(None);
    let disk = GraphNeighborStore::Disk;
    assert!(storage.create_lsn_for_start_node(&mut lsr, at(0), &disk, &read).is_some());
    let builder = GraphNeighborStore::Builder(BuilderNeighborCache::new());
    let unread = |_: &Memory, _: ItemPointer, _: &mut GreedySearchStats| -> PlainNode<f32> {
        unreachable!()
    };
    assert!(storage.create_lsn_for_start_node(&mut lsr, at(0), &builder, &unread).is_none());
    assert_eq!(lsr.stats.node_reads, 1);
}

#[test]
fn visit_again_adds_nothing() {
    let (index, heap) = (memory(), memory());
    let storage =
        PlainStorage::load_for_search(&index, &heap, lopsided as DistanceFn, attribute);
    let gns = GraphNeighborStore::Disk;
    let mut lsr = search(None);
    let start = storage.create_lsn_for_start_node(&mut lsr, at(0), &gns, &read).unwrap();
    lsr.visited.push(start);
    storage.visit_lsn(&mut lsr, 0, &gns, true, &read);
    storage.visit_lsn(&mut lsr, 0, &gns, true, &read);
    assert_eq!(candidate_blocks(&lsr), vec![1, 2]);
    assert_eq!(lsr.stats.node_reads, 3);
}

#[test]
fn visits_of_two_nodes_share_no_candidate() {
    let (index, heap) = (memory(), memory());
    let storage =
        PlainStorage::load_for_search(&index, &heap, lopsided as DistanceFn, attribute);
    let gns = GraphNeighborStore::Disk;
    let mut lsr = search(None);
    let start = storage.create_lsn_for_start_node(&mut lsr, at(0), &gns, &read).unwrap();
    lsr.visited.push(start);
    storage.visit_lsn(&mut lsr, 0, &gns, true, &read);
    let one = lsr.candidates.remove(0);
    let two = lsr.candidates.remove(0);
    lsr.visited.push(one);
    lsr.visited.push(two);
    storage.visit_lsn(&mut lsr, 1, &gns, true, &read);
    assert_eq!(candidate_blocks(&lsr), vec![3]);
    storage.visit_lsn(&mut lsr, 2, &gns, true, &read);
    assert_eq!(candidate_blocks(&lsr), vec![3, 4]);
    assert_eq!(*index.log.borrow(), pointers(&[0, 1, 2, 3, 4]));
    let mut held: Vec<u32> = lsr
        .visited
        .iter()
        .chain(lsr.candidates.iter())
        .map(|n| n.index_pointer.block_number)
        .collect();
    held.sort();
    assert_eq!(held, vec![0, 1, 2, 3, 4]);
    for block in held {
        assert!(lsr.inserted.contains(at(block)));
    }
}

#[test]
fn visit_without_neighbors_needs_no_query() {
    let (index, heap) = (memory(), memory());
    let storage =
        PlainStorage::load_for_search(&index, &heap, lopsided as DistanceFn, attribute);
    let gns = GraphNeighborStore::Disk;
    let mut lsr = search(None);
    let start = storage.create_lsn_for_start_node(&mut lsr, at(3), &gns, &read).unwrap();
    lsr.visited.push(start);
    lsr.sdm = None;
    storage.visit_lsn(&mut lsr, 0, &gns, true, &read);
    assert!(lsr.candidates.is_empty());
    assert_eq!(lsr.stats.node_reads, 1);
}

#[test]
fn visit_with_nothing_to_read_needs_no_room_to_count() {
    let (index, heap) = (memory(), memory());
    let storage =
        PlainStorage::load_for_search(&index, &heap, lopsided as DistanceFn, attribute);
    let gns = GraphNeighborStore::Disk;
    let mut lsr = search(None);
    let start = storage.create_lsn_for_start_node(&mut lsr, at(4), &gns, &read).unwrap();
    lsr.visited.push(start);
    assert!(lsr.prepare_insert(at(0)));
    lsr.stats.node_reads = usize::MAX;
    lsr.stats.full_distance_comparisons = usize::MAX;
    storage.visit_lsn(&mut lsr, 0, &gns, true, &read);
    assert!(lsr.candidates.is_empty());
    assert_eq!(lsr.stats.node_reads, usize::MAX);
}

#[test]
fn build_follows_the_lists_on_record() {
    let (index, heap) = (memory(), memory());
    let storage =
        PlainStorage::new_for_build(&index, &heap, lopsided as DistanceFn, attribute);
    let mut cache = BuilderNeighborCache::new();
    cache.set_neighbors(at(0), pointers(&[4]));
    let gns = GraphNeighborStore::Builder(cache);
    let mut lsr = search(None);
    let start = storage.create_lsn_for_start_node(&mut lsr, at(0), &gns, &read).unwrap();
    assert_eq!(start.private_data.neighbors, pointers(&[4]));
    lsr.visited.push(start);
    storage.visit_lsn(&mut lsr, 0, &gns, true, &read);
    assert_eq!(candidate_blocks(&lsr), vec![4]);
    // Nothing is on record for node 4, whatever its page says.
    assert!(lsr.candidates[0].private_data.neighbors.is_empty());
}

#[test]
fn cache_keeps_the_last_list_of_each_node() {
    let mut cache = BuilderNeighborCache::new();
    assert!(cache.get_neighbors(at(1)).is_empty());
    cache.set_neighbors(at(1), pointers(&[2, 3]));
    cache.set_neighbors(ItemPointer::new(1, 2), pointers(&[5]));
    assert_eq!(cache.get_neighbors(at(1)), pointers(&[2, 3]));
    cache.set_neighbors(at(1), pointers(&[4]));
    assert_eq!(cache.get_neighbors(at(1)), pointers(&[4]));
    assert_eq!(cache.get_neighbors(ItemPointer::new(1, 2)), pointers(&[5]));
}

#[test]
fn private_data_of_a_node() {
    let node = PlainNode {
        vector: vec![1.0f32],
        heap_item_pointer: ItemPointer::new(8, 9),
        neighbors: pointers(&[6, 7]),
    };
    let data = PlainStorageLsnPrivateData::new(at(5), &node, &GraphNeighborStore::Disk);
    assert_eq!(data.heap_pointer, ItemPointer::new(8, 9));
    assert_eq!(data.neighbors, pointers(&[6, 7]));
    let mut cache = BuilderNeighborCache::new();
    cache.set_neighbors(at(5), pointers(&[1]));
    let data = PlainStorageLsnPrivateData::new(at(5), &node, &GraphNeighborStore::Builder(cache));
    assert_eq!(data.heap_pointer, ItemPointer::new(8, 9));
    assert_eq!(data.neighbors, pointers(&[1]));
}

#[test]
fn lsn_from_given_parts() {
    let node = PlainNode {
        vector: vec![1.0f32],
        heap_item_pointer: ItemPointer::new(8, 9),
        neighbors: pointers(&[6, 7]),
    };
    let lsr = search(Some(at(2)));
    let lsn = PlainStorage::<Memory, DistanceFn>::make_lsn(
        &lsr,
        at(5),
        0.5,
        &node,
        &GraphNeighborStore::Disk,
    );
    assert_eq!(lsn.index_pointer, at(5));
    assert_eq!(lsn.distance_with_tie_break.distance, 0.5);
    assert_eq!(lsn.distance_with_tie_break.from, Some(at(2)));
    assert_eq!(lsn.distance_with_tie_break.to, at(5));
    assert_eq!(lsn.private_data.heap_pointer, ItemPointer::new(8, 9));
    assert_eq!(lsn.private_data.neighbors, pointers(&[6, 7]));
    assert!(lsn.labels.is_none());
}

#[test]
fn search_gives_back_the_row_of_a_node() {
    let (index, heap) = (memory(), memory());
    let storage =
        PlainStorage::load_for_search(&index, &heap, lopsided as DistanceFn, attribute);
    let mut lsr = search(None);
    let lsn = storage
        .create_lsn_for_start_node(&mut lsr, at(3), &GraphNeighborStore::Disk, &read)
        .unwrap();
    let mut stats = GreedySearchStats::new();
    assert_eq!(storage.return_lsn(&lsn, &mut stats), ItemPointer::new(1003, 7));
    assert_eq!(stats.node_reads, 0);
    assert_eq!(stats.heap_node_reads, 0);
}

#[test]
fn labels_of_a_query_do_not_matter() {
    let (index, heap) = (memory(), memory());
    let storage =
        PlainStorage::load_for_search(&index, &heap, lopsided as DistanceFn, attribute);
    let labeled = LabeledVector::new(
        PgVector::new(vec![1.0, 1.0, 9.0], vec![1.0, 1.0]),
        Some(LabelSet { labels: vec![1, 2] }),
    );
    let measure = storage.get_query_distance_measure(labeled);
    let mut lsr: PlainSearch<f32, f32> = ListSearchResult::new(Some(measure), None);
    let lsn = storage
        .create_lsn_for_start_node(&mut lsr, at(1), &GraphNeighborStore::Disk, &read)
        .unwrap();
    assert_eq!(lsn.distance_with_tie_break.distance, 101.0);
    assert!(lsn.labels.is_none());
    let mut stats = GreedySearchStats::new();
    assert!(storage.get_labels(at(1), &mut stats).is_none());
    assert_eq!(stats.node_reads, 0);
}

#[test]
fn item_pointer_keys() {
    assert_eq!(ItemPointer::new(0, 0).to_key(), 0);
    assert_eq!(ItemPointer::new(1, 2).to_key(), 65538);
    assert_eq!(ItemPointer::new(0, u16::MAX).to_key(), 65535);
    assert_eq!(ItemPointer::new(u32::MAX, u16::MAX).to_key(), 281474976710655);
}

//! Neighbours and the distances to them.

use crate::item_pointer::ItemPointer;
use crate::vector::LabelSet;
use vstd::prelude::*;

verus! {

/// A distance together with the two ends it was measured between, which order
/// neighbours that are equally far away.  A query that stands for no node of
/// the index has no `from`.
pub struct DistanceWithTieBreak<D> {
    pub distance: D,
    pub from: Option<ItemPointer>,
    pub to: ItemPointer,
}

impl<D> DistanceWithTieBreak<D> {
    /// A distance between two nodes.
    pub fn new(distance: D, from: ItemPointer, to: ItemPointer) -> (r: DistanceWithTieBreak<D>)
        ensures
            r == (DistanceWithTieBreak { distance, from: Some(from), to }),
    {
        DistanceWithTieBreak { distance, from: Some(from), to }
    }
}

/// A neighbour of a node, and how far away it is.
pub struct NeighborWithDistance<D> {
    pub index_pointer_to_neighbor: ItemPointer,
    pub distance: DistanceWithTieBreak<D>,
    pub labels: Option<LabelSet>,
}

impl<D> NeighborWithDistance<D> {
    pub fn new(
        index_pointer_to_neighbor: ItemPointer,
        distance: DistanceWithTieBreak<D>,
        labels: Option<LabelSet>,
    ) -> (r: NeighborWithDistance<D>)
        ensures
            r == (NeighborWithDistance { index_pointer_to_neighbor, distance, labels }),
    {
        NeighborWithDistance { index_pointer_to_neighbor, distance, labels }
    }
}

/// The pointers of a list of neighbours, in its order.
pub open spec fn pointers_to<D>(neighbors: Seq<NeighborWithDistance<D>>) -> Seq<ItemPointer> {
    Seq::new(neighbors.len(), |i: int| neighbors[i].index_pointer_to_neighbor)
}

} // verus!

//! Nodes of the graph.

use crate::item_pointer::{copy_pointers, HeapPointer, ItemPointer};
use crate::neighbor::{pointers_to, NeighborWithDistance};
use vstd::prelude::*;

verus! {

/// A node as its page holds it.
pub struct PlainNode<T> {
    /// The row's vector, uncompressed, as the index compares it.
    pub vector: Vec<T>,
    /// The row that the node stands for.
    pub heap_item_pointer: HeapPointer,
    /// Pointers to the node's neighbours.
    pub neighbors: Vec<ItemPointer>,
}

impl<T> PlainNode<T> {
    /// `self` and `node` hold the same.
    pub open spec fn same_as(self, node: PlainNode<T>) -> bool {
        &&& self.vector@ == node.vector@
        &&& self.heap_item_pointer == node.heap_item_pointer
        &&& self.neighbors@ == node.neighbors@
    }

    /// `self` is a node for the row at `heap_item_pointer`, with its vector and
    /// without any neighbour.
    pub open spec fn is_unlinked(self, vector: Seq<T>, heap_item_pointer: HeapPointer) -> bool {
        &&& self.vector@ == vector
        &&& self.heap_item_pointer == heap_item_pointer
        &&& self.neighbors@ == Seq::<ItemPointer>::empty()
    }

    /// A node without any neighbour.
    pub fn new_for_full_vector(vector: Vec<T>, heap_item_pointer: HeapPointer) -> (node: PlainNode<
        T,
    >)
        ensures
            node.is_unlinked(vector@, heap_item_pointer),
    {
        PlainNode { vector, heap_item_pointer, neighbors: Vec::new() }
    }

    pub fn get_index_pointer_to_neighbors(&self) -> (neighbors: Vec<ItemPointer>)
        ensures
            neighbors@ == self.neighbors@,
    {
        copy_pointers(&self.neighbors)
    }

    /// `self` is `node` with its links replaced by links to `neighbors`.
    pub open spec fn is_relinked<D>(
        self,
        node: PlainNode<T>,
        neighbors: Seq<NeighborWithDistance<D>>,
    ) -> bool {
        &&& self.vector == node.vector
        &&& self.heap_item_pointer == node.heap_item_pointer
        &&& self.neighbors@ == pointers_to(neighbors)
    }

    /// Replaces the node's links by links to `neighbors`, in their order.
    pub fn set_neighbors<D>(&mut self, neighbors: &[NeighborWithDistance<D>])
        ensures
            final(self).is_relinked(*old(self), neighbors@),
    {
        let mut pointers: Vec<ItemPointer> = Vec::new();
        let mut i: usize = 0;
        while i < neighbors.len()
            invariant
                i <= neighbors@.len(),
                pointers@ == pointers_to(neighbors@).take(i as int),
            decreases neighbors@.len() - i,
        {
            pointers.push(neighbors[i].index_pointer_to_neighbor);
            i += 1;
        }
        self.neighbors = pointers;
        assert(self.neighbors@ =~= pointers_to(neighbors@));
    }
}

} // verus!

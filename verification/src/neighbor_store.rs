//! Where the neighbours of a node are looked up.

use crate::item_pointer::{copy_pointers, key_is_injective, ItemPointer};
use crate::plain_node::PlainNode;
use std::collections::HashMap;
use vstd::prelude::*;

verus! {

/// The neighbour lists of a build in progress, kept in memory until the nodes
/// are finalized.
pub struct BuilderNeighborCache {
    lists: HashMap<u64, Vec<ItemPointer>>,
}

impl BuilderNeighborCache {
    /// The neighbours on record for a node; none where nothing is on record.
    pub closed spec fn neighbors_of(&self, node: ItemPointer) -> Seq<ItemPointer> {
        if self.lists@.contains_key(node.key()) {
            self.lists@[node.key()]@
        } else {
            Seq::empty()
        }
    }

    pub fn new() -> (cache: BuilderNeighborCache)
        ensures
            forall|node: ItemPointer| #[trigger]
                cache.neighbors_of(node) == Seq::<ItemPointer>::empty(),
    {
        broadcast use vstd::std_specs::hash::group_hash_axioms;

        BuilderNeighborCache { lists: HashMap::new() }
    }

    /// Puts the neighbours of a node on record, in place of those it had.
    pub fn set_neighbors(&mut self, node: ItemPointer, neighbors: Vec<ItemPointer>)
        ensures
            final(self).neighbors_of(node) == neighbors@,
            forall|other: ItemPointer|
                other != node ==> #[trigger] final(self).neighbors_of(other) == old(
                    self,
                ).neighbors_of(other),
    {
        broadcast use vstd::std_specs::hash::group_hash_axioms;

        self.lists.insert(node.to_key(), neighbors);
        proof {
            assert forall|other: ItemPointer| other != node implies #[trigger] self.neighbors_of(
                other,
            ) == old(self).neighbors_of(other) by {
                key_is_injective(node, other);
            }
        }
    }

    pub fn get_neighbors(&self, node: ItemPointer) -> (neighbors: Vec<ItemPointer>)
        ensures
            neighbors@ == self.neighbors_of(node),
    {
        broadcast use vstd::std_specs::hash::group_hash_axioms;

        match self.lists.get(&node.to_key()) {
            Some(neighbors) => copy_pointers(neighbors),
            None => Vec::new(),
        }
    }
}

/// A search follows the lists on the pages, or those of the build that is
/// running.
pub enum GraphNeighborStore {
    Disk,
    Builder(BuilderNeighborCache),
}

impl GraphNeighborStore {
    /// The neighbours that a search follows from the node at `ip`.
    pub open spec fn neighbors_of<T>(self, ip: ItemPointer, node: PlainNode<T>) -> Seq<
        ItemPointer,
    > {
        match self {
            GraphNeighborStore::Disk => node.neighbors@,
            GraphNeighborStore::Builder(b) => b.neighbors_of(ip),
        }
    }
}

} // verus!

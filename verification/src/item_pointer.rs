//! Pointers to items on pages.

use std::collections::HashSet;
use vstd::prelude::*;

verus! {

/// The place of an item: a block of a relation and an item number in it.
#[derive(Clone, Copy, Debug, PartialEq, Eq, Structural)]
pub struct ItemPointer {
    pub block_number: u32,
    pub offset: u16,
}

/// A pointer to a row of the table.
pub type HeapPointer = ItemPointer;

/// A pointer to a node of the index.
pub type IndexPointer = ItemPointer;

impl ItemPointer {
    pub fn new(block_number: u32, offset: u16) -> (pointer: ItemPointer)
        ensures
            pointer == (ItemPointer { block_number, offset }),
    {
        ItemPointer { block_number, offset }
    }

    /// The pointer as one number: the block number above sixteen bits of offset.
    pub open spec fn key(self) -> u64 {
        (self.block_number * 0x1_0000 + self.offset) as u64
    }

    /// Computes `key`.
    pub fn to_key(&self) -> (key: u64)
        ensures
            key == self.key(),
    {
        self.block_number as u64 * 0x1_0000 + self.offset as u64
    }
}

/// Different pointers have different keys.
pub proof fn key_is_injective(a: ItemPointer, b: ItemPointer)
    ensures
        a.key() == b.key() <==> a == b,
{
}

/// Copies a list of pointers.
pub fn copy_pointers(pointers: &Vec<ItemPointer>) -> (copy: Vec<ItemPointer>)
    ensures
        copy@ == pointers@,
{
    let mut copy: Vec<ItemPointer> = Vec::new();
    let mut i: usize = 0;
    while i < pointers.len()
        invariant
            i <= pointers@.len(),
            copy@ == pointers@.take(i as int),
        decreases pointers@.len() - i,
    {
        copy.push(pointers[i]);
        i += 1;
    }
    copy
}

/// A set of pointers.
pub struct PointerSet {
    keys: HashSet<u64>,
}

impl View for PointerSet {
    type V = Set<ItemPointer>;

    closed spec fn view(&self) -> Set<ItemPointer> {
        Set::new(|p: ItemPointer| self.keys@.contains(p.key()))
    }
}

impl PointerSet {
    pub fn new() -> (set: PointerSet)
        ensures
            set@ == Set::<ItemPointer>::empty(),
    {
        broadcast use vstd::std_specs::hash::group_hash_axioms;

        PointerSet { keys: HashSet::new() }
    }

    /// Adds a pointer; false where the set held it already.
    pub fn insert(&mut self, pointer: ItemPointer) -> (added: bool)
        ensures
            added == !old(self)@.contains(pointer),
            final(self)@ == old(self)@.insert(pointer),
    {
        broadcast use vstd::std_specs::hash::group_hash_axioms;

        let added = self.keys.insert(pointer.to_key());
        proof {
            assert forall|p: ItemPointer|
                self@.contains(p) == old(self)@.insert(pointer).contains(p) by {
                key_is_injective(p, pointer);
            }
        }
        added
    }

    pub fn contains(&self, pointer: ItemPointer) -> (r: bool)
        ensures
            r == self@.contains(pointer),
    {
        broadcast use vstd::std_specs::hash::group_hash_axioms;

        self.keys.contains(&pointer.to_key())
    }
}

} // verus!

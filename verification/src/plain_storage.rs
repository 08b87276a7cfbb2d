//! The storage itself: how it is opened, and what is written to it.

use crate::distance_measure::PlainDistanceMeasure;
use crate::item_pointer::{HeapPointer, IndexPointer, ItemPointer};
use crate::meta_page::MetaPage;
use crate::neighbor::NeighborWithDistance;
use crate::plain_node::PlainNode;
use crate::stats::{StatsCounts, StatsNodeModify, StatsNodeRead, StatsNodeWrite, WriteStats};
use crate::vector::{LabelSet, LabeledVector};
use vstd::prelude::*;

verus! {

/// A graph index whose nodes hold their vectors uncompressed.
///
/// `Rel` is what a relation is known by, `F` the function that compares two
/// vectors.
pub struct PlainStorage<'a, Rel, F> {
    pub index: &'a Rel,
    pub distance_fn: F,
    pub heap_rel: &'a Rel,
    /// The attribute of the table that is indexed.
    pub heap_attr: i16,
}

/// The kinds of pages in use.
#[derive(Clone, Copy, Debug, PartialEq, Eq, Structural)]
pub enum PageType {
    Node,
}

impl<'a, Rel, F> PlainStorage<'a, Rel, F> {
    /// `self` is the storage of this index on this table; the indexed attribute
    /// is the one that `vector_attribute` gave for the index.
    pub open spec fn opens<A: FnOnce(&Rel) -> i16>(
        self,
        index: &Rel,
        heap_rel: &Rel,
        distance_fn: F,
        vector_attribute: A,
    ) -> bool {
        &&& self.index == index
        &&& self.heap_rel == heap_rel
        &&& self.distance_fn == distance_fn
        &&& call_ensures(vector_attribute, (index,), self.heap_attr)
    }

    /// The storage of an index that is being built.
    pub fn new_for_build<A: FnOnce(&Rel) -> i16>(
        index: &'a Rel,
        heap_rel: &'a Rel,
        distance_fn: F,
        vector_attribute: A,
    ) -> (storage: PlainStorage<'a, Rel, F>)
        requires
            call_requires(vector_attribute, (index,)),
        ensures
            storage.opens(index, heap_rel, distance_fn, vector_attribute),
    {
        PlainStorage { index, distance_fn, heap_rel, heap_attr: vector_attribute(index) }
    }

    /// The storage of an index that rows are inserted into.
    pub fn load_for_insert<A: FnOnce(&Rel) -> i16>(
        index_relation: &'a Rel,
        heap_rel: &'a Rel,
        distance_fn: F,
        vector_attribute: A,
    ) -> (storage: PlainStorage<'a, Rel, F>)
        requires
            call_requires(vector_attribute, (index_relation,)),
        ensures
            storage.opens(index_relation, heap_rel, distance_fn, vector_attribute),
    {
        PlainStorage {
            index: index_relation,
            distance_fn,
            heap_rel,
            heap_attr: vector_attribute(index_relation),
        }
    }

    /// The storage of an index that is searched.
    pub fn load_for_search<A: FnOnce(&Rel) -> i16>(
        index_relation: &'a Rel,
        heap_rel: &'a Rel,
        distance_fn: F,
        vector_attribute: A,
    ) -> (storage: PlainStorage<'a, Rel, F>)
        requires
            call_requires(vector_attribute, (index_relation,)),
        ensures
            storage.opens(index_relation, heap_rel, distance_fn, vector_attribute),
    {
        PlainStorage {
            index: index_relation,
            distance_fn,
            heap_rel,
            heap_attr: vector_attribute(index_relation),
        }
    }

    /// The kind of page that nodes are kept on.
    pub fn page_type() -> (t: PageType)
        ensures
            t == PageType::Node,
    {
        PageType::Node
    }

    /// Writes a node for a row, without neighbours.  Labels are not kept.  The
    /// meta page goes to the writer, for the room that the node gets on its page.
    pub fn create_node<T, S, W>(
        &self,
        full_vector: &[T],
        _labels: Option<LabelSet>,
        heap_pointer: HeapPointer,
        meta_page: &MetaPage,
        stats: &mut S,
        write: W,
    ) -> (index_pointer: ItemPointer)
        where
            T: Copy,
            S: StatsNodeWrite,
            W: FnOnce(PlainNode<T>, &MetaPage) -> IndexPointer,
        requires
            forall|node: PlainNode<T>|
                node.is_unlinked(full_vector@, heap_pointer) ==> #[trigger] call_requires(
                    write,
                    (node, meta_page),
                ),
            old(stats).counts().node_writes < usize::MAX,
        ensures
            exists|node: PlainNode<T>|
                node.is_unlinked(full_vector@, heap_pointer) && #[trigger] call_ensures(
                    write,
                    (node, meta_page),
                    index_pointer,
                ),
            final(stats).counts() == (StatsCounts {
                node_writes: old(stats).counts().node_writes + 1,
                ..old(stats).counts()
            }),
    {
        let mut vector: Vec<T> = Vec::new();
        let mut i: usize = 0;
        while i < full_vector.len()
            invariant
                i <= full_vector@.len(),
                vector@ == full_vector@.take(i as int),
            decreases full_vector@.len() - i,
        {
            vector.push(full_vector[i]);
            i += 1;
        }
        assert(vector@ =~= full_vector@);
        let node = PlainNode::new_for_full_vector(vector, heap_pointer);
        stats.record_write();
        write(node, meta_page)
    }

    /// Vectors are kept as they are: there is nothing to train.
    pub fn start_training(&mut self, _meta_page: &MetaPage)
        ensures
            *final(self) == *old(self),
    {
    }

    /// Vectors are kept as they are: samples are not looked at.
    pub fn add_sample<T>(&mut self, _sample: &[T])
        ensures
            *final(self) == *old(self),
    {
    }

    /// Vectors are kept as they are: training changes nothing.
    pub fn finish_training(&mut self, _meta_page: &mut MetaPage, _stats: &mut WriteStats)
        ensures
            *final(self) == *old(self),
            *final(_meta_page) == *old(_meta_page),
            *final(_stats) == *old(_stats),
    {
    }

    /// The page of the node at `ip` may be opened, and the node found there may
    /// be put back with links to `neighbors`.
    pub open spec fn may_relink<T, D, H, M, C>(
        self,
        ip: IndexPointer,
        neighbors: Seq<NeighborWithDistance<D>>,
        meta: MetaPage,
        modify: M,
        commit: C,
    ) -> bool
        where
            M: FnOnce(&Rel, IndexPointer) -> (PlainNode<T>, H),
            C: FnOnce(H, PlainNode<T>, &MetaPage),
    {
        &&& call_requires(modify, (self.index, ip))
        &&& forall|found: (PlainNode<T>, H), node: PlainNode<T>|
            call_ensures(modify, (self.index, ip), found) && node.is_relinked(found.0, neighbors)
                ==> #[trigger] call_requires(commit, (found.1, node, &meta))
    }

    /// The page of the node at `ip` was opened, and the node found there was put
    /// back with links to `neighbors`.
    pub open spec fn relinks<T, D, H, M, C>(
        self,
        ip: IndexPointer,
        neighbors: Seq<NeighborWithDistance<D>>,
        meta: MetaPage,
        modify: M,
        commit: C,
    ) -> bool
        where
            M: FnOnce(&Rel, IndexPointer) -> (PlainNode<T>, H),
            C: FnOnce(H, PlainNode<T>, &MetaPage),
    {
        exists|found: (PlainNode<T>, H), node: PlainNode<T>| #[trigger]
            call_ensures(modify, (self.index, ip), found) && #[trigger] node.is_relinked(
                found.0,
                neighbors,
            ) && call_ensures(commit, (found.1, node, &meta), ())
    }

    /// Gives a node its neighbours when the build is over.
    pub fn finalize_node_at_end_of_build<T, D, S, H, M, C>(
        &mut self,
        meta: &MetaPage,
        index_pointer: IndexPointer,
        neighbors: &[NeighborWithDistance<D>],
        stats: &mut S,
        modify: M,
        commit: C,
    )
        where
            S: StatsNodeRead + StatsNodeModify,
            M: FnOnce(&Rel, IndexPointer) -> (PlainNode<T>, H),
            C: FnOnce(H, PlainNode<T>, &MetaPage),
        requires
            old(self).may_relink(index_pointer, neighbors@, *meta, modify, commit),
            old(stats).counts().node_modifies < usize::MAX,
        ensures
            *final(self) == *old(self),
            old(self).relinks(index_pointer, neighbors@, *meta, modify, commit),
            final(stats).counts() == (StatsCounts {
                node_modifies: old(stats).counts().node_modifies + 1,
                ..old(stats).counts()
            }),
    {
        self.set_neighbors_on_disk(meta, index_pointer, neighbors, stats, modify, commit);
    }

    /// Replaces the neighbours of a node.
    pub fn set_neighbors_on_disk<T, D, S, H, M, C>(
        &self,
        meta: &MetaPage,
        index_pointer: IndexPointer,
        neighbors: &[NeighborWithDistance<D>],
        stats: &mut S,
        modify: M,
        commit: C,
    )
        where
            S: StatsNodeRead + StatsNodeModify,
            M: FnOnce(&Rel, IndexPointer) -> (PlainNode<T>, H),
            C: FnOnce(H, PlainNode<T>, &MetaPage),
        requires
            self.may_relink(index_pointer, neighbors@, *meta, modify, commit),
            old(stats).counts().node_modifies < usize::MAX,
        ensures
            self.relinks(index_pointer, neighbors@, *meta, modify, commit),
            final(stats).counts() == (StatsCounts {
                node_modifies: old(stats).counts().node_modifies + 1,
                ..old(stats).counts()
            }),
    {
        stats.record_modify();
        let (found, page) = modify(self.index, index_pointer);
        let ghost opened = (found, page);
        let mut node = found;
        node.set_neighbors(neighbors);
        assert(node.is_relinked(opened.0, neighbors@));
        commit(page, node, meta);
    }

    /// Measures from a query on the query's own vector.
    pub fn get_query_distance_measure<T>(&self, query: LabeledVector<T>) -> (measure:
        PlainDistanceMeasure<T>)
        ensures
            measure == PlainDistanceMeasure::Full(query),
    {
        PlainDistanceMeasure::Full(query)
    }

    /// Nodes carry no labels.
    pub fn get_labels<S: StatsNodeRead>(&self, _index_pointer: IndexPointer, _stats: &mut S) -> (
        labels: Option<LabelSet>)
        ensures
            labels is None,
            *final(_stats) == *old(_stats),
    {
        None
    }
}

} // verus!

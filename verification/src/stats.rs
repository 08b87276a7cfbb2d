//! Counts of the work done.

use vstd::prelude::*;

verus! {

/// What has been counted so far.
#[verifier::ext_equal]
pub struct StatsCounts {
    pub node_reads: nat,
    pub node_modifies: nat,
    pub node_writes: nat,
    pub heap_node_reads: nat,
    pub full_distance_comparisons: nat,
}

impl StatsCounts {
    /// These counts after `n` more nodes were read.
    pub open spec fn with_nodes_read(self, n: nat) -> StatsCounts {
        StatsCounts { node_reads: self.node_reads + n, ..self }
    }

    /// These counts after `n` more nodes were read, and each compared once.
    pub open spec fn with_nodes_compared(self, n: nat) -> StatsCounts {
        StatsCounts {
            node_reads: self.node_reads + n,
            full_distance_comparisons: self.full_distance_comparisons + n,
            ..self
        }
    }

    /// There is room to count `n` more nodes read, and each compared once.
    pub open spec fn room_for_nodes_compared(self, n: nat) -> bool {
        &&& self.node_reads + n <= usize::MAX
        &&& self.full_distance_comparisons + n <= usize::MAX
    }
}

/// Something that keeps counts.
pub trait StatsCounters {
    spec fn counts(&self) -> StatsCounts;
}

/// Counts the nodes read.
pub trait StatsNodeRead: StatsCounters {
    fn record_read(&mut self)
        requires
            old(self).counts().node_reads < usize::MAX,
        ensures
            final(self).counts() == (StatsCounts {
                node_reads: old(self).counts().node_reads + 1,
                ..old(self).counts()
            }),
    ;
}

/// Counts the nodes changed in place.
pub trait StatsNodeModify: StatsCounters {
    fn record_modify(&mut self)
        requires
            old(self).counts().node_modifies < usize::MAX,
        ensures
            final(self).counts() == (StatsCounts {
                node_modifies: old(self).counts().node_modifies + 1,
                ..old(self).counts()
            }),
    ;
}

/// Counts the nodes written anew.
pub trait StatsNodeWrite: StatsCounters {
    fn record_write(&mut self)
        requires
            old(self).counts().node_writes < usize::MAX,
        ensures
            final(self).counts() == (StatsCounts {
                node_writes: old(self).counts().node_writes + 1,
                ..old(self).counts()
            }),
    ;
}

/// Counts the table rows fetched.
pub trait StatsHeapNodeRead: StatsCounters {
    fn record_heap_read(&mut self)
        requires
            old(self).counts().heap_node_reads < usize::MAX,
        ensures
            final(self).counts() == (StatsCounts {
                heap_node_reads: old(self).counts().heap_node_reads + 1,
                ..old(self).counts()
            }),
    ;
}

/// Counts the comparisons of uncompressed vectors.
pub trait StatsDistanceComparison: StatsCounters {
    fn record_full_distance_comparison(&mut self)
        requires
            old(self).counts().full_distance_comparisons < usize::MAX,
        ensures
            final(self).counts() == (StatsCounts {
                full_distance_comparisons: old(self).counts().full_distance_comparisons + 1,
                ..old(self).counts()
            }),
    ;
}

/// Counts of one search of the graph.
#[derive(Clone, Copy, Debug)]
pub struct GreedySearchStats {
    pub node_reads: usize,
    pub heap_node_reads: usize,
    pub full_distance_comparisons: usize,
}

impl GreedySearchStats {
    pub fn new() -> (stats: GreedySearchStats)
        ensures
            stats.node_reads == 0,
            stats.heap_node_reads == 0,
            stats.full_distance_comparisons == 0,
    {
        GreedySearchStats { node_reads: 0, heap_node_reads: 0, full_distance_comparisons: 0 }
    }
}

impl StatsCounters for GreedySearchStats {
    open spec fn counts(&self) -> StatsCounts {
        StatsCounts {
            node_reads: self.node_reads as nat,
            node_modifies: 0,
            node_writes: 0,
            heap_node_reads: self.heap_node_reads as nat,
            full_distance_comparisons: self.full_distance_comparisons as nat,
        }
    }
}

impl StatsNodeRead for GreedySearchStats {
    fn record_read(&mut self) {
        self.node_reads += 1;
    }
}

impl StatsHeapNodeRead for GreedySearchStats {
    fn record_heap_read(&mut self) {
        self.heap_node_reads += 1;
    }
}

impl StatsDistanceComparison for GreedySearchStats {
    fn record_full_distance_comparison(&mut self) {
        self.full_distance_comparisons += 1;
    }
}

/// Counts of a build or an insert.
#[derive(Clone, Copy, Debug)]
pub struct WriteStats {
    pub node_reads: usize,
    pub node_modifies: usize,
    pub node_writes: usize,
}

impl WriteStats {
    pub fn new() -> (stats: WriteStats)
        ensures
            stats.node_reads == 0,
            stats.node_modifies == 0,
            stats.node_writes == 0,
    {
        WriteStats { node_reads: 0, node_modifies: 0, node_writes: 0 }
    }
}

impl StatsCounters for WriteStats {
    open spec fn counts(&self) -> StatsCounts {
        StatsCounts {
            node_reads: self.node_reads as nat,
            node_modifies: self.node_modifies as nat,
            node_writes: self.node_writes as nat,
            heap_node_reads: 0,
            full_distance_comparisons: 0,
        }
    }
}

impl StatsNodeRead for WriteStats {
    fn record_read(&mut self) {
        self.node_reads += 1;
    }
}

impl StatsNodeModify for WriteStats {
    fn record_modify(&mut self) {
        self.node_modifies += 1;
    }
}

impl StatsNodeWrite for WriteStats {
    fn record_write(&mut self) {
        self.node_writes += 1;
    }
}

} // verus!

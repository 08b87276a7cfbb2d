//! Reading nodes.
//!
//! A reader is a function that the caller hands in.  It is given the counters
//! of the work under way.  The functions that read require of it that each call
//! counts one node read there, and nothing else; what they say of the counts is
//! then also how often they read.

use crate::item_pointer::IndexPointer;
use crate::plain_node::PlainNode;
use crate::stats::StatsCounters;
use vstd::prelude::*;

verus! {

/// The node at `ip` may be read wherever there is room to count it.
pub open spec fn may_read<Rel, T, S, R>(read: R, index: &Rel, ip: IndexPointer) -> bool
    where S: StatsCounters, R: Fn(&Rel, IndexPointer, &mut S) -> PlainNode<T>
{
    forall|stats: &mut S|
        stats.counts().node_reads < usize::MAX ==> #[trigger] call_requires(
            read,
            (index, ip, stats),
        )
}

/// Reading at `ip` gave `node`.
pub open spec fn gives_node<Rel, T, S, R>(
    read: R,
    index: &Rel,
    ip: IndexPointer,
    node: PlainNode<T>,
) -> bool
    where S: StatsCounters, R: Fn(&Rel, IndexPointer, &mut S) -> PlainNode<T>
{
    exists|stats: &mut S| #[trigger] call_ensures(read, (index, ip, stats), node)
}

} // verus!

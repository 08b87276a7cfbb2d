//! What the index says of itself.

use vstd::prelude::*;

verus! {

/// The settings an index was built with.
pub struct MetaPage {
    /// Dimensions of the vectors in the table.
    pub num_dimensions: u32,
    /// Leading dimensions of them that the index compares.
    pub num_dimensions_to_index: u32,
    /// Neighbours that a node has room for.
    pub num_neighbors: u32,
}

impl MetaPage {
    pub fn get_num_dimensions(&self) -> (n: u32)
        ensures
            n == self.num_dimensions,
    {
        self.num_dimensions
    }

    pub fn get_num_dimensions_to_index(&self) -> (n: u32)
        ensures
            n == self.num_dimensions_to_index,
    {
        self.num_dimensions_to_index
    }
}

} // verus!

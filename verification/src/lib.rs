//! Plain storage for a graph index over vectors: every node of the graph keeps
//! its vector uncompressed, beside a pointer to the table row it stands for and
//! pointers to its neighbours.
//!
//! The library decides which nodes a search reads, what it makes of each of
//! them, and what is written back.  Reading a page, writing one, fetching a
//! table row and comparing two vectors are functions that the caller hands in;
//! contracts speak of what those functions were given and what they gave back.

pub mod distance_measure;
pub mod item_pointer;
pub mod laws;
pub mod meta_page;
pub mod neighbor;
pub mod neighbor_store;
pub mod outcomes;
pub mod parts;
pub mod plain_node;
pub mod plain_search;
pub mod plain_storage;
pub mod reading;
pub mod search;
pub mod stats;
pub mod vector;

//! Query vectors and their labels.

use vstd::prelude::*;

verus! {

/// A vector as the table holds it and as the index compares it.
pub struct PgVector<T> {
    full: Vec<T>,
    index: Vec<T>,
}

impl<T> PgVector<T> {
    /// All dimensions.
    pub closed spec fn full(self) -> Seq<T> {
        self.full@
    }

    /// The dimensions that the index compares.
    pub closed spec fn index(self) -> Seq<T> {
        self.index@
    }

    pub fn new(full: Vec<T>, index: Vec<T>) -> (vector: PgVector<T>)
        ensures
            vector.full() == full@,
            vector.index() == index@,
    {
        PgVector { full, index }
    }

    pub fn to_full_slice(&self) -> (slice: &[T])
        ensures
            slice@ == self.full(),
    {
        self.full.as_slice()
    }

    pub fn to_index_slice(&self) -> (slice: &[T])
        ensures
            slice@ == self.index(),
    {
        self.index.as_slice()
    }
}

/// The labels that a row carries or a query asks for.
pub struct LabelSet {
    pub labels: Vec<i16>,
}

/// A query vector with the labels asked for, if any.
pub struct LabeledVector<T> {
    pub vec: PgVector<T>,
    pub labels: Option<LabelSet>,
}

impl<T> LabeledVector<T> {
    pub fn new(vec: PgVector<T>, labels: Option<LabelSet>) -> (vector: LabeledVector<T>)
        ensures
            vector == (LabeledVector { vec, labels }),
    {
        LabeledVector { vec, labels }
    }

    pub fn vec(&self) -> (vec: &PgVector<T>)
        ensures
            *vec == self.vec,
    {
        &self.vec
    }
}

} // verus!

//! Sobol direction-vector and scramble-constant tables.
//!
//! cuRAND hands out these tables as library-owned host memory that lives as long as
//! the library; the wrappers here hold them as slices and check that cuRAND returned
//! a table at all.
use vstd::prelude::*;
use crate::curand::error::{Error, Result};

verus! {

/// Number of dimensions in each direction-vector and scramble-constant table.
pub const MAX_QUASI_RANDOM_DIMENSIONS: usize = 20000;

/// The 32 direction-vector words of one dimension of a 32-bit Sobol generator.
#[derive(Debug, Clone, Copy, PartialEq, Eq, Hash)]
pub struct DirectionVector32 {
    words: [u32; 32],
}

/// The 64 direction-vector words of one dimension of a 64-bit Sobol generator.
#[derive(Debug, Clone, Copy, PartialEq, Eq, Hash)]
pub struct DirectionVector64 {
    words: [u64; 64],
}

impl DirectionVector32 {
    /// Number of words in one direction vector.
    pub const WORDS: usize = 32;

    /// The vector's words.
    pub closed spec fn spec_words(&self) -> Seq<u32> {
        self.words@
    }

    /// The vector with words `words`.
    pub fn new(words: [u32; 32]) -> (r: Self)
        ensures
            r.spec_words() == words@,
    {
        DirectionVector32 { words }
    }

    /// Returns the vector's words.
    pub fn as_words(&self) -> (r: &[u32; 32])
        ensures
            r@ == self.spec_words(),
    {
        &self.words
    }

    /// Returns the vector's words as a slice.
    pub fn as_slice(&self) -> (r: &[u32])
        ensures
            r@ == self.spec_words(),
            r@.len() == Self::WORDS,
    {
        self.words.as_slice()
    }
}

impl DirectionVector64 {
    /// Number of words in one direction vector.
    pub const WORDS: usize = 64;

    /// The vector's words.
    pub closed spec fn spec_words(&self) -> Seq<u64> {
        self.words@
    }

    /// The vector with words `words`.
    pub fn new(words: [u64; 64]) -> (r: Self)
        ensures
            r.spec_words() == words@,
    {
        DirectionVector64 { words }
    }

    /// Returns the vector's words.
    pub fn as_words(&self) -> (r: &[u64; 64])
        ensures
            r@ == self.spec_words(),
    {
        &self.words
    }

    /// Returns the vector's words as a slice.
    pub fn as_slice(&self) -> (r: &[u64])
        ensures
            r@ == self.spec_words(),
            r@.len() == Self::WORDS,
    {
        self.words.as_slice()
    }
}

/// Direction vectors of a 32-bit Sobol generator, one per dimension.
#[derive(Debug, Clone, Copy)]
pub struct DirectionVectorTable32 {
    vectors: &'static [DirectionVector32],
}

/// Direction vectors of a 64-bit Sobol generator, one per dimension.
#[derive(Debug, Clone, Copy)]
pub struct DirectionVectorTable64 {
    vectors: &'static [DirectionVector64],
}

/// Scramble constants of a scrambled 32-bit Sobol generator, one per dimension.
#[derive(Debug, Clone, Copy)]
pub struct ScrambleConstants32 {
    constants: &'static [u32],
}

/// Scramble constants of a scrambled 64-bit Sobol generator, one per dimension.
#[derive(Debug, Clone, Copy)]
pub struct ScrambleConstants64 {
    constants: &'static [u64],
}

impl DirectionVectorTable32 {
    /// A table has one entry per dimension.
    #[verifier::type_invariant]
    spec fn one_entry_per_dimension(self) -> bool {
        self.vectors@.len() == MAX_QUASI_RANDOM_DIMENSIONS
    }

    /// The table's vectors.
    pub closed spec fn spec_vectors(&self) -> Seq<DirectionVector32> {
        self.vectors@
    }

    /// Wraps the table cuRAND returned, one entry for each of the
    /// [`MAX_QUASI_RANDOM_DIMENSIONS`] dimensions, or `Error::NullHandle` when it returned
    /// none.
    pub fn from_raw(vectors: Option<&'static [DirectionVector32]>) -> (r: Result<Self>)
        requires
            vectors matches Some(v) ==> v@.len() == MAX_QUASI_RANDOM_DIMENSIONS,
        ensures
            match vectors {
                Some(v) => r matches Ok(t) && t.spec_vectors() == v@,
                None => r matches Err(Error::NullHandle),
            },
    {
        match vectors {
            Some(vectors) => Ok(DirectionVectorTable32 { vectors }),
            None => Err(Error::NullHandle),
        }
    }

    /// Returns the number of dimensions.
    pub fn len(&self) -> (r: usize)
        ensures
            r == self.spec_vectors().len(),
            r == MAX_QUASI_RANDOM_DIMENSIONS,
    {
        proof {
            use_type_invariant(self);
        }
        self.vectors.len()
    }

    /// Returns `true` if the table has no dimension.
    pub fn is_empty(&self) -> (r: bool)
        ensures
            r == (self.spec_vectors().len() == 0),
            !r,
    {
        proof {
            use_type_invariant(self);
        }
        self.vectors.len() == 0
    }

    /// Returns the vectors, one per dimension.
    pub fn as_slice(&self) -> (r: &'static [DirectionVector32])
        ensures
            r@ == self.spec_vectors(),
    {
        self.vectors
    }

    /// Returns the vector of dimension `dimension`, or `None` past the last dimension.
    pub fn get(&self, dimension: usize) -> (r: Option<&'static DirectionVector32>)
        ensures
            dimension < self.spec_vectors().len() ==> r == Some(&self.spec_vectors()[dimension as int]),
            dimension >= self.spec_vectors().len() ==> r is None,
    {
        if dimension < self.vectors.len() {
            Some(&self.vectors[dimension])
        } else {
            None
        }
    }
}

impl DirectionVectorTable64 {
    /// A table has one entry per dimension.
    #[verifier::type_invariant]
    spec fn one_entry_per_dimension(self) -> bool {
        self.vectors@.len() == MAX_QUASI_RANDOM_DIMENSIONS
    }

    /// The table's vectors.
    pub closed spec fn spec_vectors(&self) -> Seq<DirectionVector64> {
        self.vectors@
    }

    /// Wraps the table cuRAND returned, one entry for each of the
    /// [`MAX_QUASI_RANDOM_DIMENSIONS`] dimensions, or `Error::NullHandle` when it returned
    /// none.
    pub fn from_raw(vectors: Option<&'static [DirectionVector64]>) -> (r: Result<Self>)
        requires
            vectors matches Some(v) ==> v@.len() == MAX_QUASI_RANDOM_DIMENSIONS,
        ensures
            match vectors {
                Some(v) => r matches Ok(t) && t.spec_vectors() == v@,
                None => r matches Err(Error::NullHandle),
            },
    {
        match vectors {
            Some(vectors) => Ok(DirectionVectorTable64 { vectors }),
            None => Err(Error::NullHandle),
        }
    }

    /// Returns the number of dimensions.
    pub fn len(&self) -> (r: usize)
        ensures
            r == self.spec_vectors().len(),
            r == MAX_QUASI_RANDOM_DIMENSIONS,
    {
        proof {
            use_type_invariant(self);
        }
        self.vectors.len()
    }

    /// Returns `true` if the table has no dimension.
    pub fn is_empty(&self) -> (r: bool)
        ensures
            r == (self.spec_vectors().len() == 0),
            !r,
    {
        proof {
            use_type_invariant(self);
        }
        self.vectors.len() == 0
    }

    /// Returns the vectors, one per dimension.
    pub fn as_slice(&self) -> (r: &'static [DirectionVector64])
        ensures
            r@ == self.spec_vectors(),
    {
        self.vectors
    }

    /// Returns the vector of dimension `dimension`, or `None` past the last dimension.
    pub fn get(&self, dimension: usize) -> (r: Option<&'static DirectionVector64>)
        ensures
            dimension < self.spec_vectors().len() ==> r == Some(&self.spec_vectors()[dimension as int]),
            dimension >= self.spec_vectors().len() ==> r is None,
    {
        if dimension < self.vectors.len() {
            Some(&self.vectors[dimension])
        } else {
            None
        }
    }
}

impl ScrambleConstants32 {
    /// A table has one entry per dimension.
    #[verifier::type_invariant]
    spec fn one_entry_per_dimension(self) -> bool {
        self.constants@.len() == MAX_QUASI_RANDOM_DIMENSIONS
    }

    /// The table's constants.
    pub closed spec fn spec_constants(&self) -> Seq<u32> {
        self.constants@
    }

    /// Wraps the table cuRAND returned, one entry for each of the
    /// [`MAX_QUASI_RANDOM_DIMENSIONS`] dimensions, or `Error::NullHandle` when it returned
    /// none.
    pub fn from_raw(constants: Option<&'static [u32]>) -> (r: Result<Self>)
        requires
            constants matches Some(v) ==> v@.len() == MAX_QUASI_RANDOM_DIMENSIONS,
        ensures
            match constants {
                Some(c) => r matches Ok(t) && t.spec_constants() == c@,
                None => r matches Err(Error::NullHandle),
            },
    {
        match constants {
            Some(constants) => Ok(ScrambleConstants32 { constants }),
            None => Err(Error::NullHandle),
        }
    }

    /// Returns the number of dimensions.
    pub fn len(&self) -> (r: usize)
        ensures
            r == self.spec_constants().len(),
            r == MAX_QUASI_RANDOM_DIMENSIONS,
    {
        proof {
            use_type_invariant(self);
        }
        self.constants.len()
    }

    /// Returns `true` if the table has no dimension.
    pub fn is_empty(&self) -> (r: bool)
        ensures
            r == (self.spec_constants().len() == 0),
            !r,
    {
        proof {
            use_type_invariant(self);
        }
        self.constants.len() == 0
    }

    /// Returns the constants, one per dimension.
    pub fn as_slice(&self) -> (r: &'static [u32])
        ensures
            r@ == self.spec_constants(),
    {
        self.constants
    }
}

impl ScrambleConstants64 {
    /// A table has one entry per dimension.
    #[verifier::type_invariant]
    spec fn one_entry_per_dimension(self) -> bool {
        self.constants@.len() == MAX_QUASI_RANDOM_DIMENSIONS
    }

    /// The table's constants.
    pub closed spec fn spec_constants(&self) -> Seq<u64> {
        self.constants@
    }

    /// Wraps the table cuRAND returned, one entry for each of the
    /// [`MAX_QUASI_RANDOM_DIMENSIONS`] dimensions, or `Error::NullHandle` when it returned
    /// none.
    pub fn from_raw(constants: Option<&'static [u64]>) -> (r: Result<Self>)
        requires
            constants matches Some(v) ==> v@.len() == MAX_QUASI_RANDOM_DIMENSIONS,
        ensures
            match constants {
                Some(c) => r matches Ok(t) && t.spec_constants() == c@,
                None => r matches Err(Error::NullHandle),
            },
    {
        match constants {
            Some(constants) => Ok(ScrambleConstants64 { constants }),
            None => Err(Error::NullHandle),
        }
    }

    /// Returns the number of dimensions.
    pub fn len(&self) -> (r: usize)
        ensures
            r == self.spec_constants().len(),
            r == MAX_QUASI_RANDOM_DIMENSIONS,
    {
        proof {
            use_type_invariant(self);
        }
        self.constants.len()
    }

    /// Returns `true` if the table has no dimension.
    pub fn is_empty(&self) -> (r: bool)
        ensures
            r == (self.spec_constants().len() == 0),
            !r,
    {
        proof {
            use_type_invariant(self);
        }
        self.constants.len() == 0
    }

    /// Returns the constants, one per dimension.
    pub fn as_slice(&self) -> (r: &'static [u64])
        ensures
            r@ == self.spec_constants(),
    {
        self.constants
    }
}

} // verus!

//! Discrete distribution descriptors.
use vstd::prelude::*;
use crate::curand::error::{Error, Result};

verus! {

/// A cuRAND discrete distribution histogram descriptor, held by its handle address.
#[derive(Debug)]
pub struct DiscreteDistribution {
    handle: usize,
}

impl DiscreteDistribution {
    /// The handle address.
    pub closed spec fn spec_handle(&self) -> usize {
        self.handle
    }

    /// Wraps the handle cuRAND returned when creating a distribution, or
    /// `Error::NullHandle` for a null handle.
    pub fn from_raw_handle(handle: usize) -> (r: Result<Self>)
        ensures
            handle == 0 ==> r matches Err(Error::NullHandle),
            handle != 0 ==> (r matches Ok(d) && d.spec_handle() == handle),
    {
        if handle == 0 {
            return Err(Error::NullHandle);
        }
        Ok(DiscreteDistribution { handle })
    }

    /// Returns the raw cuRAND distribution handle; it stays owned by the descriptor.
    pub fn as_raw(&self) -> (r: usize)
        ensures
            r == self.spec_handle(),
    {
        self.handle
    }
}

} // verus!

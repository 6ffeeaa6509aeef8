//! cuRAND generators: the handle, whether the generator runs on a device or on the
//! host, and the checks that keep host and device operations apart.
use vstd::prelude::*;
use crate::curand::error::{Error, Result};

verus! {

/// Where a generator produces its numbers.
#[derive(Debug, Clone, Copy, PartialEq, Eq, Structural)]
pub enum GeneratorTarget {
    /// A device generator, with the address of the CUDA context it was created in.
    Device { context: usize },
    /// A host generator.
    Host,
}

/// A cuRAND generator, held by its handle address and target.
#[derive(Debug)]
pub struct Generator {
    raw: usize,
    target: GeneratorTarget,
}

impl Generator {
    /// The handle address.
    pub closed spec fn spec_raw(&self) -> usize {
        self.raw
    }

    /// Where the generator produces its numbers.
    pub closed spec fn spec_target(&self) -> GeneratorTarget {
        self.target
    }

    /// Wraps the handle cuRAND returned when creating a generator for `target`, or
    /// `Error::NullHandle` for a null handle.
    pub fn from_raw(raw: usize, target: GeneratorTarget) -> (r: Result<Self>)
        ensures
            raw == 0 ==> r matches Err(Error::NullHandle),
            raw != 0 ==> (r matches Ok(g) && g.spec_raw() == raw && g.spec_target() == target),
    {
        if raw == 0 {
            return Err(Error::NullHandle);
        }
        Ok(Generator { raw, target })
    }

    /// Returns the raw cuRAND generator handle; it stays owned by the generator.
    pub fn as_raw(&self) -> (r: usize)
        ensures
            r == self.spec_raw(),
    {
        self.raw
    }

    /// Returns where the generator produces its numbers.
    pub fn target(&self) -> (r: GeneratorTarget)
        ensures
            r == self.spec_target(),
    {
        self.target
    }

    /// Returns the CUDA context of a device generator, or
    /// `Error::NotDeviceGenerator` for a host generator.
    pub fn cuda_context(&self) -> (r: Result<usize>)
        ensures
            match self.spec_target() {
                GeneratorTarget::Device { context } => r matches Ok(c) && c == context,
                GeneratorTarget::Host => r matches Err(Error::NotDeviceGenerator),
            },
    {
        match self.target {
            GeneratorTarget::Device { context } => Ok(context),
            GeneratorTarget::Host => Err(Error::NotDeviceGenerator),
        }
    }

    /// Checks that a host-only operation is requested of a host generator:
    /// `Error::NotHostGenerator` for a device generator.
    pub fn check_host(&self) -> (r: Result<()>)
        ensures
            self.spec_target() is Host ==> r is Ok,
            self.spec_target() is Device ==> r matches Err(Error::NotHostGenerator),
    {
        match self.target {
            GeneratorTarget::Host => Ok(()),
            GeneratorTarget::Device { .. } => Err(Error::NotHostGenerator),
        }
    }

    /// Checks a request to run a device generator on the stream of CUDA context
    /// `stream_context` (`None` for the null stream), and returns the generator's
    /// context to bind: `Error::NotDeviceGenerator` for a host generator, and
    /// `Error::StreamContextMismatch` for a stream of another context.
    pub fn check_stream(&self, stream_context: Option<usize>) -> (r: Result<usize>)
        ensures
            match self.spec_target() {
                GeneratorTarget::Host => r matches Err(Error::NotDeviceGenerator),
                GeneratorTarget::Device { context } => match stream_context {
                    Some(s) => if s == context {
                        r matches Ok(c) && c == context
                    } else {
                        r matches Err(Error::StreamContextMismatch)
                    },
                    None => r matches Ok(c) && c == context,
                },
            },
    {
        let context = match self.cuda_context() {
            Ok(context) => context,
            Err(e) => return Err(e),
        };
        match stream_context {
            Some(s) => {
                if s != context {
                    return Err(Error::StreamContextMismatch);
                }
            },
            None => {},
        }
        Ok(context)
    }
}

} // verus!

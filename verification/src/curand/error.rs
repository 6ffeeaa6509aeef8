//! Error and result types of the cuRAND wrappers.
use vstd::prelude::*;
use crate::curand::types::{Status, status_message};

verus! {

/// Error returned by cuRAND wrapper operations.
#[derive(Debug)]
pub enum Error {
    /// cuRAND reported an unsuccessful status.
    Curand { code: Status, message: String },
    /// cuRAND returned a null handle where a valid handle was expected.
    NullHandle,
    /// A device-only operation was requested for a host generator.
    NotDeviceGenerator,
    /// A host-only operation was requested for a device generator.
    NotHostGenerator,
    /// A stream from another CUDA context was passed to a generator.
    StreamContextMismatch,
}

/// Result alias of the cuRAND wrappers.
pub type Result<T> = core::result::Result<T, Error>;

impl Error {
    /// The error reporting `status`, with the status message as its message.
    pub fn from_status(status: Status) -> (e: Error)
        ensures
            e matches Error::Curand { code, message } && code == status && message@ == status.message_text()@,
    {
        Error::Curand { code: status, message: status_message(status) }
    }

    /// The error reporting the numeric status `code`.
    pub fn from_code(code: u32) -> (e: Error)
        ensures
            e matches Error::Curand { code: c, message } && c == Status::of_code(code) && message@
                == Status::of_code(code).message_text()@,
    {
        Error::from_status(Status::from(code))
    }
}

/// The outcome of a cuRAND call that returned status `code`: success for
/// `CURAND_STATUS_SUCCESS`, the error reporting the status otherwise.
pub fn check_status(code: u32) -> (r: Result<()>)
    ensures
        code == 0 ==> r is Ok,
        code != 0 ==> (r matches Err(Error::Curand { code: c, .. }) && c == Status::of_code(code)),
{
    if code == 0 {
        Ok(())
    } else {
        Err(Error::from_code(code))
    }
}

} // verus!

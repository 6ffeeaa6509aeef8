//! Checked conversions shared by the CUPTI wrappers.
use vstd::prelude::*;
use crate::cupti::error::{Error, Result};
use vstd::string::StringSliceAdditionalSpecFns;

verus! {

/// Number of bytes taken by `count` values of type `T`, or `Error::OutOfRange` naming
/// `name` when that product does not fit in `usize`.
pub fn checked_byte_len<T>(count: usize, name: &str) -> (r: Result<usize>)
    ensures
        match r {
            Ok(len) => len == count * vstd::layout::size_of::<T>(),
            Err(e) => {
                &&& count * vstd::layout::size_of::<T>() > usize::MAX
                &&& e matches Error::OutOfRange { name: n } && n@ == name@
            },
        },
{
    match count.checked_mul(core::mem::size_of::<T>()) {
        Some(len) => Ok(len),
        None => Err(Error::OutOfRange { name: name.to_owned() }),
    }
}

/// Converts `value` to the `u32` that CUPTI expects, or `Error::OutOfRange` naming
/// `name` when it does not fit.
pub fn to_u32(value: u64, name: &str) -> (r: Result<u32>)
    ensures
        match r {
            Ok(v) => value <= u32::MAX && v == value,
            Err(e) => value > u32::MAX && (e matches Error::OutOfRange { name: n } && n@ == name@),
        },
{
    if value > u32::MAX as u64 {
        Err(Error::OutOfRange { name: name.to_owned() })
    } else {
        Ok(value as u32)
    }
}

/// The bytes of `s` as the C string CUPTI reads (without the terminating nul), or
/// `Error::InteriorNul` when `s` holds a nul byte and so cannot be one.
pub fn c_string_bytes(s: &str) -> (r: Result<Vec<u8>>)
    ensures
        s.spec_bytes().contains(0u8) ==> (r matches Err(Error::InteriorNul)),
        !s.spec_bytes().contains(0u8) ==> (r matches Ok(b) && b@ == s.spec_bytes()),
{
    let bytes = s.as_bytes();
    let mut copy: Vec<u8> = Vec::new();
    let mut i: usize = 0;
    while i < bytes.len()
        invariant
            i <= bytes@.len(),
            bytes@ == s.spec_bytes(),
            copy@ == bytes@.subrange(0, i as int),
            forall|j: int| 0 <= j < i ==> bytes@[j] != 0u8,
        decreases bytes.len() - i,
    {
        if bytes[i] == 0 {
            assert(bytes@[i as int] == 0u8);
            return Err(Error::InteriorNul);
        }
        copy.push(bytes[i]);
        i += 1;
        assert(copy@ =~= bytes@.subrange(0, i as int));
    }
    assert(copy@ =~= bytes@);
    assert(!bytes@.contains(0u8));
    Ok(copy)
}

} // verus!

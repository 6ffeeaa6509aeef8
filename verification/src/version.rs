//! Library versions reported as packed integers.
use vstd::prelude::*;

verus! {

/// A library version.
#[derive(Debug, Clone, Copy, PartialEq, Eq, Hash, Structural)]
pub struct LibraryVersion {
    pub major: u64,
    pub minor: u64,
    pub patch: u64,
}

impl LibraryVersion {
    /// The version `major.minor.patch`.
    pub fn new(major: u64, minor: u64, patch: u64) -> (r: Self)
        ensures
            r.major == major,
            r.minor == minor,
            r.patch == patch,
    {
        LibraryVersion { major, minor, patch }
    }

    /// Unpacks a version packed as `major * 10000 + minor * 100 + patch`: the major
    /// version is the quotient by 10000, the minor the hundreds of the remainder, and
    /// the patch the last two decimal digits.
    pub fn from_packed(version: u64) -> (r: Self)
        ensures
            r.major == version / 10000,
            r.minor == (version % 10000) / 100,
            r.patch == version % 100,
    {
        LibraryVersion::new(version / 10000, (version % 10000) / 100, version % 100)
    }
}

/// Packing a version with minor and patch numbers below 100 and unpacking it gives
/// the version back.
pub proof fn lemma_packed_version_round_trip(major: u64, minor: u64, patch: u64)
    requires
        minor < 100,
        patch < 100,
        major * 10000 + minor * 100 + patch <= u64::MAX,
    ensures
        (major * 10000 + minor * 100 + patch) / 10000 == major,
        ((major * 10000 + minor * 100 + patch) % 10000) / 100 == minor,
        (major * 10000 + minor * 100 + patch) % 100 == patch,
{
    let v = major * 10000 + minor * 100 + patch;
    assert(v / 10000 == major && v % 10000 == minor * 100 + patch) by (nonlinear_arith)
        requires
            v == major * 10000 + minor * 100 + patch,
            minor < 100,
            patch < 100,
    ;
    assert((minor * 100 + patch) / 100 == minor && (minor * 100 + patch) % 100 == patch) by (nonlinear_arith)
        requires
            minor < 100,
            patch < 100,
    ;
    assert(v % 100 == patch) by (nonlinear_arith)
        requires
            v == major * 10000 + minor * 100 + patch,
            patch < 100,
    ;
}

} // verus!

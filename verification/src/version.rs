use vstd::prelude::*;

verus! {

/// The driver's 32-bit version encoding: ten bits of major, ten bits of
/// minor, twelve bits of patch, packed from the high end down.
pub open spec fn version_encoding(major: u32, minor: u32, patch: u32) -> int {
    major * 0x40_0000 + minor * 0x1000 + patch
}

/// Packs a `(major, minor, patch)` version triple into the single 32-bit
/// value the driver expects for application and API versions.
pub fn make_version(major: u32, minor: u32, patch: u32) -> (encoded: u32)
    requires
        major < 1024,
        minor < 1024,
        patch < 4096,
    ensures
        encoded == version_encoding(major, minor, patch),
{
    major * 0x40_0000 + minor * 0x1000 + patch
}

} // verus!

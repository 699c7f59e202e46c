use vstd::prelude::*;

verus! {

/// A negotiated protocol version.
#[derive(Debug, Clone, Copy, PartialEq, Eq)]
pub enum Version {
    V4,
    V4_1,
}

/// Whether `marker` opens an encoded text value under `version`.
///
/// Every supported version shares one marker table for text: the sixteen
/// tiny markers `0x80..=0x8F` and the three sized markers `0xD0..=0xD2`.
pub open spec fn string_marker_legal(version: Version, marker: u8) -> bool {
    (0x80 <= marker && marker <= 0x8F) || marker == 0xD0 || marker == 0xD1 || marker == 0xD2
}

/// Executable form of the text marker table.
pub fn is_string_marker(version: Version, marker: u8) -> (r: bool)
    ensures
        r == string_marker_legal(version, marker),
{
    match version {
        Version::V4 | Version::V4_1 => (0x80 <= marker && marker <= 0x8F) || marker == 0xD0
            || marker == 0xD1 || marker == 0xD2,
    }
}

} // verus!

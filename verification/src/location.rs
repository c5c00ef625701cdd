//! The location codec.
//!
//! A successful lookup returns a non-negative signed 64-bit value whose high
//! 32 bits are a byte offset and whose low 32 bits are a byte length within
//! the buffer that was searched. Negative values are reserved for error codes
//! and never denote a location, so decoding is gated behind a sign check.

use vstd::prelude::*;

verus! {

/// A byte range within a serialized object.
#[derive(Clone, Copy, Debug, PartialEq, Eq, Structural)]
pub struct BufRange {
    /// Index of the first byte of the range.
    pub start: u64,
    /// Index one past the last byte of the range.
    pub end: u64,
}

/// The byte offset packed into a location value: its high 32 bits.
pub open spec fn spec_loc_start(location: i64) -> i64 {
    location >> 32
}

/// The byte length packed into a location value: its low 32 bits.
pub open spec fn spec_loc_len(location: i64) -> i64 {
    location & 0xFFFF_FFFF
}

/// Unpacks a non-negative location value into the byte range it denotes.
///
/// The range starts at the packed offset and ends at the offset plus the
/// packed length. Negative values are error codes, not locations: callers
/// check the sign first and never decode them.
pub fn range_from_location(location: i64) -> (r: BufRange)
    requires
        location >= 0,
    ensures
        r.start == spec_loc_start(location),
        r.start <= r.end,
        r.end == spec_loc_start(location) + spec_loc_len(location),
        r.end - r.start == location & 0xFFFF_FFFF,
        r.start <= 0x7FFF_FFFF,
        r.end <= 0x1_7FFF_FFFE,
{
    proof {
        assert(location >= 0 ==> {
            &&& 0 <= (location >> 32) <= 0x7FFF_FFFF
            &&& 0 <= (location & 0xFFFF_FFFF) <= 0xFFFF_FFFF
        }) by (bit_vector);
    }
    let offset: u64 = (location >> 32) as u64;
    let length: u64 = (location & 0xFFFF_FFFF) as u64;
    BufRange { start: offset, end: offset + length }
}

} // verus!

//! Conversion between binary values and the binary-coded-decimal (BCD) bytes
//! that the clock chip stores in its registers.
//!
//! A BCD byte keeps one decimal digit in each four-bit nibble.  Neither
//! direction validates its input: a nibble above 9 decodes "garbage in,
//! garbage out", and a binary value above 99 has its tens digit truncated to
//! the four bits of the high nibble.

use vstd::prelude::*;

verus! {

/// The value a BCD byte denotes: ten times the high nibble plus the low
/// nibble.
pub open spec fn spec_bcd_to_binary(b: u8) -> u8 {
    (((b >> 4) & 0x0f) * 10 + (b & 0x0f)) as u8
}

/// The BCD byte for a binary value: the tens digit (kept to four bits) in the
/// high nibble, the ones digit in the low nibble.
pub open spec fn spec_binary_to_bcd(b: u8) -> u8 {
    (((b / 10) as u8) << 4) | ((b % 10) as u8)
}

/// Decode a BCD byte to its binary value.
///
/// No bounds are checked: if either nibble exceeds 9 the result follows the
/// same formula but is not a valid decimal digit pair.
pub fn bcd_to_binary(b: u8) -> (r: u8)
    ensures
        r == spec_bcd_to_binary(b),
{
    proof {
        assert(((b >> 4) & 0x0f) * 10 + (b & 0x0f) < 256) by (bit_vector);
    }
    ((b >> 4) & 0x0f) * 10 + (b & 0x0f)
}

/// Encode a binary value as a BCD byte.
///
/// Valid for values 0..=99; above that the tens digit wraps in its four-bit
/// field.
pub fn binary_to_bcd(b: u8) -> (r: u8)
    ensures
        r == spec_binary_to_bcd(b),
{
    ((b / 10) << 4) | (b % 10)
}

/// A byte whose nibbles are both decimal digits survives a decode followed by
/// a re-encode unchanged.
pub proof fn lemma_bcd_round_trip(b: u8)
    by (bit_vector)
    requires
        (b >> 4) <= 9,
        (b & 0x0f) <= 9,
    ensures
        spec_binary_to_bcd(spec_bcd_to_binary(b)) == b,
{
}

/// A value 0..=99 survives an encode to BCD followed by a decode unchanged.
pub proof fn lemma_binary_round_trip(v: u8)
    by (bit_vector)
    requires
        v <= 99,
    ensures
        spec_bcd_to_binary(spec_binary_to_bcd(v)) == v,
{
}

} // verus!

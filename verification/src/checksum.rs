//! Checksum engine: the vendor's 8-bit CRC over each 2-byte data word.
//!
//! Every word transmitted to or received from the sensor is protected by one
//! checksum byte computed over exactly those two bytes, independent of the
//! word's position in a larger message. The driver computes the checksum when
//! building outgoing payloads and verifies it for every incoming word.

use vstd::prelude::*;

verus! {

/// The vendor's 8-bit CRC of the 2-byte word `(hi, lo)`.
///
/// The polynomial computation itself is carried out by an outside crate and
/// is not restated here; contracts speak of its result through this name.
pub uninterp spec fn crc8_of(hi: u8, lo: u8) -> u8;

/// Relies on `sensirion_i2c::crc8::calculate`: the vendor CRC-8 of a byte
/// slice, a pure function of the bytes alone; applied here to one 2-byte word.
#[verifier::external_body]
fn crc8_word(hi: u8, lo: u8) -> (r: u8)
    ensures
        r == crc8_of(hi, lo),
{
    sensirion_i2c::crc8::calculate(&[hi, lo])
}

/// Whether `c` is the correct checksum byte for the word `(hi, lo)`.
pub open spec fn checksum_ok(hi: u8, lo: u8, c: u8) -> bool {
    c == crc8_of(hi, lo)
}

/// Compute the checksum byte for one 2-byte data word.
pub fn checksum(hi: u8, lo: u8) -> (r: u8)
    ensures
        r == crc8_of(hi, lo),
{
    crc8_word(hi, lo)
}

/// Check a purported checksum byte against the word it claims to protect.
pub fn verify(hi: u8, lo: u8, c: u8) -> (r: bool)
    ensures
        r == checksum_ok(hi, lo, c),
{
    let expected = crc8_word(hi, lo);
    c == expected
}

/// The correct checksum of a word verifies, and flipping the low bit of the
/// checksum byte always makes verification fail.
pub proof fn lemma_verify_checksum(hi: u8, lo: u8)
    ensures
        checksum_ok(hi, lo, crc8_of(hi, lo)),
        !checksum_ok(hi, lo, crc8_of(hi, lo) ^ 1),
{
    let c = crc8_of(hi, lo);
    assert(c ^ 1 != c) by (bit_vector);
}

} // verus!

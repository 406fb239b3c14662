//! Byte-level layout of the values that travel in a frame.
//!
//! Every 16-bit field on the wire is little-endian: the low byte first, the
//! high byte second.

use vstd::prelude::*;

verus! {

/// The low byte of a 16-bit value: `value mod 256`.
pub open spec fn low_byte(value: u16) -> u8 {
    (value % 256) as u8
}

/// The high byte of a 16-bit value: `value div 256`.
pub open spec fn high_byte(value: u16) -> u8 {
    (value / 256) as u8
}

/// The 16-bit value whose little-endian encoding is `low`, `high`.
pub open spec fn word_of(low: u8, high: u8) -> u16 {
    (low + 256 * high) as u16
}

/// Splits a 16-bit value into its wire bytes, low byte first.
pub fn split_word(value: u16) -> (bytes: (u8, u8))
    ensures
        bytes.0 == low_byte(value),
        bytes.1 == high_byte(value),
        bytes.0 == value & 0xFF,
        bytes.1 == (value >> 8) & 0xFF,
{
    assert(value & 0xFF == value % 256) by (bit_vector);
    assert((value >> 8) & 0xFF == value / 256) by (bit_vector);
    assert(value / 256 < 256);
    let low = (value & 0xFF) as u8;
    let high = ((value >> 8) & 0xFF) as u8;
    (low, high)
}

/// Assembles a 16-bit value from its wire bytes, low byte first.
pub fn join_word(low: u8, high: u8) -> (value: u16)
    ensures
        value == word_of(low, high),
        value == low + 256 * high,
{
    let wide: u16 = high as u16;
    wide * 256 + low as u16
}

/// Splitting a value and joining the bytes gives the value back, and the
/// other way round: the encoding loses nothing.
pub proof fn lemma_word_round_trip(value: u16, low: u8, high: u8)
    ensures
        word_of(low_byte(value), high_byte(value)) == value,
        low_byte(word_of(low, high)) == low,
        high_byte(word_of(low, high)) == high,
{
}

} // verus!

//! Unsigned fixed-point ratios with 64 integer and 64 fractional bits.
use crate::wire::le_value;
use vstd::prelude::*;

verus! {

/// An unsigned fixed-point number held in 128 bits, the low 64 of them after
/// the binary point: its value is `bits / 2^64`.
#[derive(Clone, Copy, Debug, PartialEq, Eq)]
pub struct U64F64 {
    pub bits: u128,
}

impl U64F64 {
    /// The number whose representation is `bits`.
    pub fn from_bits(bits: u128) -> (ratio: U64F64)
        ensures
            ratio.bits == bits,
    {
        U64F64 { bits }
    }

    /// The representation of the number.
    pub fn to_bits(self) -> (bits: u128)
        ensures
            bits == self.bits,
    {
        self.bits
    }

    /// The number whose representation the 16 bytes spell, least significant
    /// byte first.
    pub fn from_le_bytes(bytes: [u8; 16]) -> (ratio: U64F64)
        ensures
            ratio.bits == le_value(bytes@),
    {
        U64F64 { bits: bits_from_le_bytes(bytes) }
    }
}

/// Has `fixed::types::U64F64::from_le_bytes` read the 16 bytes and hands back
/// the bits of what it made. Trusted, not proved: the fixed-point number is
/// made of the 128-bit integer that the bytes spell in little-endian order,
/// and `to_bits` gives that integer back.
#[verifier::external_body]
pub(crate) fn bits_from_le_bytes(bytes: [u8; 16]) -> (bits: u128)
    ensures
        bits == le_value(bytes@),
{
    fixed::types::U64F64::from_le_bytes(bytes).to_bits()
}

} // verus!

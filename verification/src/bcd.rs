//! Packed binary-coded-decimal codec.
//!
//! The peripheral stores every date-time field as two decimal digits packed
//! into one byte, one digit per nibble. The two conversions here are pure and
//! free of bus concerns, so they carry exact contracts.

use vstd::prelude::*;

verus! {

/// Packed BCD byte for a decimal value: tens digit in the high nibble, ones
/// digit in the low nibble. Meaningful for values up to 99.
pub open spec fn dec_to_bcd(v: u8) -> u8 {
    ((v / 10) * 16 + (v % 10)) as u8
}

/// Decimal value of a packed BCD byte: ten times the high nibble plus the low
/// nibble. Total over all bytes; a nibble above 9 yields a numerically wrong
/// but well-defined result, as the wire format allows no error reporting here.
pub open spec fn bcd_to_dec(b: u8) -> u8 {
    ((b / 16) * 10 + (b % 16)) as u8
}

/// Converts a decimal value in 0..=99 to its packed BCD byte.
pub fn dec2bcd(value: u8) -> (r: u8)
    requires
        value <= 99,
    ensures
        r == dec_to_bcd(value),
        r <= 0x99,
{
    proof {
        assert((value / 10) * 16 + (value % 10) <= 0x99) by (bit_vector)
            requires
                value <= 99,
        ;
    }
    (value / 10 * 16) + (value % 10)
}

/// Converts a packed BCD byte to its decimal value.
pub fn bcd2dec(value: u8) -> (r: u8)
    ensures
        r == bcd_to_dec(value),
        r <= 165,
{
    proof {
        assert((value / 16) * 10 + (value % 16) <= 165) by (bit_vector);
    }
    (value / 16 * 10) + (value % 16)
}

/// Law: decoding the encoding of any decimal value in 0..=99 returns the
/// value itself.
pub proof fn lemma_bcd_round_trip(v: u8)
    requires
        v <= 99,
    ensures
        bcd_to_dec(dec_to_bcd(v)) == v,
{
    assert((v / 10) * 16 + (v % 10) <= 0x99) by (bit_vector)
        requires
            v <= 99,
    ;
    assert((((v / 10) * 16 + (v % 10)) / 16) * 10 + (((v / 10) * 16 + (v % 10)) % 16) == v)
        by (bit_vector)
        requires
            v <= 99,
    ;
}

} // verus!

//! Hexadecimal digits of percent-triplets.
//!
//! A percent-triplet is `%` followed by two ASCII hex digits. The encoder
//! always emits uppercase digits; the decoder accepts either case.

use vstd::prelude::*;

verus! {

/// True when `b` is an ASCII hex digit: `0-9`, `a-f`, or `A-F`.
pub open spec fn is_hex_digit(b: u8) -> bool {
    (0x30 <= b <= 0x39) || (0x41 <= b <= 0x46) || (0x61 <= b <= 0x66)
}

/// The numeric value of the ASCII hex digit `b`.
pub open spec fn hex_digit_value(b: u8) -> u8
    recommends
        is_hex_digit(b),
{
    if 0x30 <= b <= 0x39 {
        (b - 0x30) as u8
    } else if 0x41 <= b <= 0x46 {
        (b - 0x41 + 10) as u8
    } else {
        (b - 0x61 + 10) as u8
    }
}

/// The byte encoded by the two ASCII hex digits `hi` and `lo`.
pub open spec fn hex_pair_value(hi: u8, lo: u8) -> u8
    recommends
        is_hex_digit(hi),
        is_hex_digit(lo),
{
    (hex_digit_value(hi) * 16 + hex_digit_value(lo)) as u8
}

/// The uppercase ASCII hex digit for the value `v`.
pub open spec fn upper_hex_digit(v: u8) -> u8
    recommends
        v < 16,
{
    if v < 10 {
        (0x30 + v) as u8
    } else {
        (0x37 + v) as u8
    }
}

/// Whether `b` is an ASCII hex digit.
pub fn hex_digit(b: u8) -> (r: bool)
    ensures
        r == is_hex_digit(b),
{
    (0x30 <= b && b <= 0x39) || (0x41 <= b && b <= 0x46) || (0x61 <= b && b <= 0x66)
}

/// The numeric value of the ASCII hex digit `b`.
pub fn hex_value(b: u8) -> (r: u8)
    requires
        is_hex_digit(b),
    ensures
        r == hex_digit_value(b),
{
    if 0x30 <= b && b <= 0x39 {
        b - 0x30
    } else if 0x41 <= b && b <= 0x46 {
        b - 0x41 + 10
    } else {
        b - 0x61 + 10
    }
}

/// The uppercase ASCII hex digit for the value `v`.
pub fn upper_hex(v: u8) -> (r: u8)
    requires
        v < 16,
    ensures
        r == upper_hex_digit(v),
{
    if v < 10 {
        0x30 + v
    } else {
        0x37 + v
    }
}

/// The uppercase hex digits of a value below 16 read back as that value, and
/// are themselves hex digits that no encode set needs to escape: every hex
/// digit lies outside the control range and below `0x80`.
pub proof fn lemma_upper_hex_digit(v: u8)
    requires
        v < 16,
    ensures
        is_hex_digit(upper_hex_digit(v)),
        hex_digit_value(upper_hex_digit(v)) == v,
        0x20 <= upper_hex_digit(v) < 0x80,
{
}

/// Reading the two uppercase hex digits of a byte yields that byte back.
pub proof fn lemma_hex_pair_of_byte(b: u8)
    ensures
        hex_pair_value(upper_hex_digit(b / 16), upper_hex_digit(b % 16)) == b,
{
    lemma_upper_hex_digit(b / 16);
    lemma_upper_hex_digit(b % 16);
}

} // verus!

//! Conversions between byte sequences and text.
//!
//! The decoder produces raw bytes that may not be valid UTF-8; turning them
//! into text goes through the standard library's lossy conversion, which
//! substitutes U+FFFD REPLACEMENT CHARACTER for each invalid sequence. The
//! encoder produces ASCII bytes, which are always valid UTF-8. Both
//! conversions are stated against vstd's model of UTF-8 ([`encode_utf8`],
//! [`decode_utf8`], [`valid_utf8`]).

use vstd::prelude::*;
use vstd::utf8::{
    decode_utf8, encode_utf8, is_leading_byte_width_1, pop_first_scalar, valid_first_scalar,
    valid_utf8,
};

verus! {

/// The text that the standard library's lossy UTF-8 conversion makes of a byte
/// sequence. It depends on the bytes alone; on valid UTF-8 it agrees with
/// [`decode_utf8`], and on invalid input it leaves at least one U+FFFD.
pub uninterp spec fn utf8_lossy_of(bytes: Seq<u8>) -> Seq<char>;

/// Relies on `String::from_utf8_lossy`: the result is a function of the bytes
/// alone; valid UTF-8 decodes to exactly its characters, and each invalid
/// sequence is replaced with U+FFFD REPLACEMENT CHARACTER, so an invalid
/// input leaves at least one U+FFFD in the result.
#[verifier::external_body]
pub(crate) fn utf8_lossy_to_string(bytes: &[u8]) -> (r: String)
    ensures
        r@ == utf8_lossy_of(bytes@),
        valid_utf8(bytes@) ==> r@ == decode_utf8(bytes@),
        !valid_utf8(bytes@) ==> r@.contains('\u{fffd}'),
{
    String::from_utf8_lossy(bytes).into_owned()
}

/// Relies on `String::from_utf8`: a string built from valid UTF-8 bytes has
/// exactly those bytes as its UTF-8 form.
#[verifier::external_body]
pub(crate) fn utf8_to_string(bytes: &[u8]) -> (r: String)
    requires
        valid_utf8(bytes@),
    ensures
        encode_utf8(r@) == bytes@,
{
    match String::from_utf8(bytes.to_vec()) {
        Ok(s) => s,
        Err(_) => String::new(),
    }
}

/// A sequence of ASCII bytes is valid UTF-8: each byte is its own one-byte
/// scalar encoding.
pub proof fn lemma_ascii_valid_utf8(bs: Seq<u8>)
    requires
        forall|i: int| 0 <= i < bs.len() ==> bs[i] < 0x80,
    ensures
        valid_utf8(bs),
    decreases bs.len(),
{
    if bs.len() != 0 {
        let b0 = bs[0];
        assert(is_leading_byte_width_1(b0));
        assert(b0 & 0x7f < 0x80) by (bit_vector);
        assert(valid_first_scalar(bs));
        assert(pop_first_scalar(bs) =~= bs.skip(1));
        lemma_ascii_valid_utf8(bs.skip(1));
    }
}

} // verus!

//! The percent-encoder.
//!
//! Encoding walks the UTF-8 bytes of the input in order. A byte below `0x80`
//! that is not a member of the active encode set is emitted as itself; every
//! other byte is emitted as `%` followed by its two uppercase hex digits.
//! [`encode_bytes`] is the specification of the whole pass; the executable
//! functions are proved against it.

use vstd::prelude::*;
use vstd::slice::slice_to_vec;
use vstd::string::StringExecFns;
use vstd::utf8::{decode_utf8, encode_utf8, valid_utf8};

use crate::ascii_set::AsciiSet;
use crate::hex::{lemma_upper_hex_digit, upper_hex, upper_hex_digit};
use crate::sink::write_all_bytes;
use crate::unicode::{lemma_ascii_valid_utf8, utf8_to_string};

verus! {

/// True when the encoder escapes the byte `b` under the encode set `s`: every
/// byte of `0x80` and above, and every member of the set.
pub open spec fn must_escape(b: u8, s: Set<u8>) -> bool {
    b >= 0x80 || s.contains(b)
}

/// The three ASCII bytes `%XX` that escape the byte `b`, with uppercase hex
/// digits.
pub open spec fn percent_triplet(b: u8) -> Seq<u8> {
    seq![0x25u8, upper_hex_digit(b / 16), upper_hex_digit(b % 16)]
}

/// The output unit for one input byte: the byte itself, or its escape
/// triplet.
pub open spec fn encode_one(b: u8, s: Set<u8>) -> Seq<u8> {
    if must_escape(b, s) {
        percent_triplet(b)
    } else {
        seq![b]
    }
}

/// The encoded form of a byte sequence under the encode set `s`: the output
/// units of its bytes, in input order.
pub open spec fn encode_bytes(bs: Seq<u8>, s: Set<u8>) -> Seq<u8>
    decreases bs.len(),
{
    if bs.len() == 0 {
        Seq::<u8>::empty()
    } else {
        encode_one(bs[0], s) + encode_bytes(bs.skip(1), s)
    }
}

/// The text whose UTF-8 bytes are the encoded form of the UTF-8 bytes of
/// `input`: what the encoding functions return.
pub open spec fn encoded_text(input: Seq<char>, s: Set<u8>) -> Seq<char> {
    decode_utf8(encode_bytes(encode_utf8(input), s))
}

/// Every byte of an encoded sequence is ASCII.
pub proof fn lemma_encode_bytes_ascii(bs: Seq<u8>, s: Set<u8>)
    ensures
        forall|i: int| 0 <= i < encode_bytes(bs, s).len() ==> encode_bytes(bs, s)[i] < 0x80,
    decreases bs.len(),
{
    if bs.len() != 0 {
        lemma_upper_hex_digit(bs[0] / 16);
        lemma_upper_hex_digit(bs[0] % 16);
        lemma_encode_bytes_ascii(bs.skip(1), s);
        let unit = encode_one(bs[0], s);
        let tail = encode_bytes(bs.skip(1), s);
        assert forall|i: int| 0 <= i < encode_bytes(bs, s).len() implies encode_bytes(bs, s)[i]
            < 0x80 by {
            if i < unit.len() {
                assert(encode_bytes(bs, s)[i] == unit[i]);
            } else {
                assert(encode_bytes(bs, s)[i] == tail[i - unit.len()]);
            }
        }
    }
}

/// The output unit for the byte `b` under the given encode set.
fn encode_unit(b: u8, ascii_set: &AsciiSet) -> (r: Vec<u8>)
    ensures
        r@ == encode_one(b, ascii_set@),
{
    let mut unit: Vec<u8> = Vec::new();
    if b >= 0x80 || ascii_set.contains(b) {
        unit.push(0x25);
        unit.push(upper_hex(b / 16));
        unit.push(upper_hex(b % 16));
        proof {
            assert(unit@ =~= percent_triplet(b));
        }
    } else {
        unit.push(b);
        proof {
            assert(unit@ =~= seq![b]);
        }
    }
    unit
}

/// Encode every byte of `bs` into a fresh buffer.
fn encode_bytes_to_vec(bs: &[u8], ascii_set: &AsciiSet) -> (r: Vec<u8>)
    ensures
        r@ == encode_bytes(bs@, ascii_set@),
{
    let ghost s = ascii_set@;
    let mut out: Vec<u8> = Vec::new();
    let mut i: usize = 0;
    proof {
        assert(bs@.skip(0) =~= bs@);
        assert(Seq::<u8>::empty() + encode_bytes(bs@, s) =~= encode_bytes(bs@, s));
    }
    while i < bs.len()
        invariant
            i <= bs@.len(),
            encode_bytes(bs@, s) == out@ + encode_bytes(bs@.skip(i as int), s),
            s == ascii_set@,
        decreases bs@.len() - i,
    {
        let ghost suffix = bs@.skip(i as int);
        let b = bs[i];
        let mut unit = encode_unit(b, ascii_set);
        proof {
            assert(suffix[0] == b);
            assert(suffix.skip(1) =~= bs@.skip(i as int + 1));
            assert((out@ + unit@) + encode_bytes(bs@.skip(i as int + 1), s) =~= out@
                + encode_bytes(suffix, s));
        }
        out.append(&mut unit);
        i += 1;
    }
    proof {
        assert(bs@.skip(i as int) =~= Seq::<u8>::empty());
        assert(out@ =~= encode_bytes(bs@, s));
    }
    out
}

/// Encode `text` under the given encode set and return the encoded text.
///
/// The result's UTF-8 bytes are exactly the encoded form of the input's UTF-8
/// bytes, so the result is ASCII.
pub fn encode(text: &str, ascii_set: &AsciiSet) -> (r: String)
    ensures
        encode_utf8(r@) == encode_bytes(encode_utf8(text@), ascii_set@),
        r@ == encoded_text(text@, ascii_set@),
{
    let bytes = text.as_bytes();
    let encoded = encode_bytes_to_vec(bytes, ascii_set);
    proof {
        lemma_encode_bytes_ascii(bytes@, ascii_set@);
        lemma_ascii_valid_utf8(encoded@);
    }
    let r = utf8_to_string(encoded.as_slice());
    proof {
        vstd::utf8::encode_utf8_decode_utf8(r@);
    }
    r
}

/// Encode `text` under the given encode set, append the encoded text to
/// `output`, and also return it.
pub fn encode_to_string(text: &str, ascii_set: &AsciiSet, output: &mut String) -> (r: String)
    ensures
        encode_utf8(r@) == encode_bytes(encode_utf8(text@), ascii_set@),
        r@ == encoded_text(text@, ascii_set@),
        final(output)@ == old(output)@ + r@,
{
    let r = encode(text, ascii_set);
    output.append(r.as_str());
    r
}

/// Encode `text` under the given encode set, append the encoded bytes to
/// `output`, and also return them.
pub fn encode_to_vec(text: &str, ascii_set: &AsciiSet, output: &mut Vec<u8>) -> (r: Vec<u8>)
    ensures
        r@ == encode_bytes(encode_utf8(text@), ascii_set@),
        final(output)@ == old(output)@ + r@,
{
    let r = encode_bytes_to_vec(text.as_bytes(), ascii_set);
    let mut copy = slice_to_vec(r.as_slice());
    output.append(&mut copy);
    r
}

/// Encode `text` under the given encode set and write each output unit to the
/// writer as it is produced, stopping at the first failed write and handing
/// its error back unchanged. An error can only come from the writer, so on
/// empty input, where nothing is written, the call succeeds.
pub fn encode_to_writer<W: std::io::Write>(
    text: &str,
    ascii_set: &AsciiSet,
    output: &mut W,
) -> (r: Result<(), std::io::Error>)
    ensures
        text@.len() == 0 ==> r is Ok,
{
    let bytes = text.as_bytes();
    proof {
        if text@.len() == 0 {
            assert(encode_utf8(text@).len() == 0);
        }
    }
    let mut i: usize = 0;
    while i < bytes.len()
        invariant
            i <= bytes@.len(),
            text@.len() == 0 ==> bytes@.len() == 0,
        decreases bytes@.len() - i,
    {
        let unit = encode_unit(bytes[i], ascii_set);
        match write_all_bytes(output, unit.as_slice()) {
            Ok(()) => {},
            Err(e) => {
                return Err(e);
            },
        }
        i += 1;
    }
    Ok(())
}

/// Encoding never shrinks its input, and at worst triples it: each byte
/// becomes one literal byte or one three-byte triplet.
pub proof fn lemma_encode_bytes_len(bs: Seq<u8>, s: Set<u8>)
    ensures
        bs.len() <= encode_bytes(bs, s).len() <= 3 * bs.len(),
    decreases bs.len(),
{
    if bs.len() != 0 {
        lemma_encode_bytes_len(bs.skip(1), s);
    }
}

/// A byte of `0x80` or above is escaped under every encode set, always.
pub proof fn lemma_high_byte_always_escaped(b: u8, s: Set<u8>)
    requires
        b >= 0x80,
    ensures
        encode_one(b, s) == percent_triplet(b),
{
}

} // verus!

//! The percent-decoder.
//!
//! Decoding scans the input bytes left to right. A `%` followed by two ASCII
//! hex digits becomes the byte they encode; any other byte, including a `%`
//! whose triplet is malformed or truncated, passes through unchanged.
//! [`decode_bytes`] is the specification of the whole pass; the executable
//! functions are proved against it. The raw result may not be valid UTF-8,
//! so the text-producing variants repair it, substituting U+FFFD for each
//! invalid sequence.

use vstd::prelude::*;
use vstd::slice::slice_to_vec;
use vstd::string::StringExecFns;
use vstd::utf8::{decode_utf8, encode_utf8, valid_utf8};

use crate::hex::{hex_digit, hex_pair_value, hex_value, is_hex_digit};
use crate::sink::write_all_bytes;
use crate::unicode::{utf8_lossy_of, utf8_lossy_to_string};

verus! {

/// The decoded form of a byte sequence: every valid `%XX` triplet becomes its
/// byte, and every other byte, a malformed or truncated `%` included, passes
/// through unchanged.
pub open spec fn decode_bytes(bs: Seq<u8>) -> Seq<u8>
    decreases bs.len(),
{
    if bs.len() == 0 {
        Seq::<u8>::empty()
    } else if bs[0] == 0x25 && bs.len() >= 3 && is_hex_digit(bs[1]) && is_hex_digit(bs[2]) {
        seq![hex_pair_value(bs[1], bs[2])] + decode_bytes(bs.skip(3))
    } else {
        seq![bs[0]] + decode_bytes(bs.skip(1))
    }
}

/// True when no valid `%XX` triplet occurs anywhere in the sequence.
pub open spec fn triplet_free(bs: Seq<u8>) -> bool {
    forall|i: int|
        0 <= i && i + 2 < bs.len() ==> !(#[trigger] bs[i] == 0x25 && is_hex_digit(bs[i + 1])
            && is_hex_digit(bs[i + 2]))
}

/// Decoding a sequence free of `%XX` triplets is the identity.
pub proof fn lemma_decode_triplet_free(bs: Seq<u8>)
    requires
        triplet_free(bs),
    ensures
        decode_bytes(bs) == bs,
    decreases bs.len(),
{
    if bs.len() != 0 {
        assert(!(bs[0] == 0x25 && bs.len() >= 3 && is_hex_digit(bs[1]) && is_hex_digit(bs[2])));
        assert(bs.skip(1).len() == bs.len() - 1);
        assert forall|i: int| 0 <= i && i + 2 < bs.skip(1).len() implies !(#[trigger] bs.skip(1)[i]
            == 0x25 && is_hex_digit(bs.skip(1)[i + 1]) && is_hex_digit(bs.skip(1)[i + 2])) by {
            assert(bs.skip(1)[i] == bs[i + 1]);
            assert(bs.skip(1)[i + 1] == bs[i + 2]);
            assert(bs.skip(1)[i + 2] == bs[i + 3]);
        }
        lemma_decode_triplet_free(bs.skip(1));
        assert(seq![bs[0]] + bs.skip(1) =~= bs);
    }
}

/// Decoding never grows its input: a triplet shrinks to one byte and every
/// other byte stays.
pub proof fn lemma_decode_bytes_len(bs: Seq<u8>)
    ensures
        decode_bytes(bs).len() <= bs.len(),
    decreases bs.len(),
{
    if bs.len() != 0 {
        if bs[0] == 0x25 && bs.len() >= 3 && is_hex_digit(bs[1]) && is_hex_digit(bs[2]) {
            lemma_decode_bytes_len(bs.skip(3));
        } else {
            lemma_decode_bytes_len(bs.skip(1));
        }
    }
}

/// Decode every byte of `bs` into a fresh buffer of raw bytes.
fn decode_bytes_to_vec(bs: &[u8]) -> (r: Vec<u8>)
    ensures
        r@ == decode_bytes(bs@),
{
    let mut out: Vec<u8> = Vec::new();
    let mut i: usize = 0;
    proof {
        assert(bs@.skip(0) =~= bs@);
        assert(Seq::<u8>::empty() + decode_bytes(bs@) =~= decode_bytes(bs@));
    }
    while i < bs.len()
        invariant
            i <= bs@.len(),
            decode_bytes(bs@) == out@ + decode_bytes(bs@.skip(i as int)),
        decreases bs@.len() - i,
    {
        let ghost suffix = bs@.skip(i as int);
        let ghost out0 = out@;
        let b = bs[i];
        proof {
            assert(suffix[0] == b);
        }
        if b == 0x25 && bs.len() - i > 2 {
            let h1 = bs[i + 1];
            let h2 = bs[i + 2];
            proof {
                assert(suffix[1] == h1);
                assert(suffix[2] == h2);
            }
            if hex_digit(h1) && hex_digit(h2) {
                out.push(hex_value(h1) * 16 + hex_value(h2));
                proof {
                    assert(suffix.skip(3) =~= bs@.skip(i as int + 3));
                    assert(out@ =~= out0 + seq![hex_pair_value(h1, h2)]);
                    assert((out0 + seq![hex_pair_value(h1, h2)]) + decode_bytes(suffix.skip(3))
                        =~= out0 + (seq![hex_pair_value(h1, h2)] + decode_bytes(suffix.skip(3))));
                }
                i += 3;
            } else {
                out.push(b);
                proof {
                    assert(suffix.skip(1) =~= bs@.skip(i as int + 1));
                    assert(out@ =~= out0 + seq![b]);
                    assert((out0 + seq![b]) + decode_bytes(suffix.skip(1)) =~= out0 + (seq![b]
                        + decode_bytes(suffix.skip(1))));
                }
                i += 1;
            }
        } else {
            out.push(b);
            proof {
                assert(suffix.skip(1) =~= bs@.skip(i as int + 1));
                assert(out@ =~= out0 + seq![b]);
                assert((out0 + seq![b]) + decode_bytes(suffix.skip(1)) =~= out0 + (seq![b]
                    + decode_bytes(suffix.skip(1))));
            }
            i += 1;
        }
    }
    proof {
        assert(bs@.skip(i as int) =~= Seq::<u8>::empty());
        assert(out@ =~= decode_bytes(bs@));
    }
    out
}

/// Decode every `%XX` triplet in `text` and repair the raw bytes into text,
/// substituting U+FFFD REPLACEMENT CHARACTER for each invalid UTF-8 sequence.
///
/// When the raw decoded bytes are valid UTF-8, the result is exactly their
/// decoding; otherwise it contains at least one U+FFFD.
pub fn decode(text: &str) -> (r: String)
    ensures
        r@ == utf8_lossy_of(decode_bytes(encode_utf8(text@))),
        valid_utf8(decode_bytes(encode_utf8(text@))) ==> r@ == decode_utf8(
            decode_bytes(encode_utf8(text@)),
        ),
        !valid_utf8(decode_bytes(encode_utf8(text@))) ==> r@.contains('\u{fffd}'),
{
    let raw = decode_bytes_to_vec(text.as_bytes());
    utf8_lossy_to_string(raw.as_slice())
}

/// Decode `text`, repair the raw bytes into text as [`decode`] does, append
/// that text to `output`, and also return it.
pub fn decode_to_string(text: &str, output: &mut String) -> (r: String)
    ensures
        r@ == utf8_lossy_of(decode_bytes(encode_utf8(text@))),
        valid_utf8(decode_bytes(encode_utf8(text@))) ==> r@ == decode_utf8(
            decode_bytes(encode_utf8(text@)),
        ),
        !valid_utf8(decode_bytes(encode_utf8(text@))) ==> r@.contains('\u{fffd}'),
        final(output)@ == old(output)@ + r@,
{
    let r = decode(text);
    output.append(r.as_str());
    r
}

/// Decode `text`, append the raw decoded bytes to `output`, and also return
/// them.
pub fn decode_to_vec(text: &str, output: &mut Vec<u8>) -> (r: Vec<u8>)
    ensures
        r@ == decode_bytes(encode_utf8(text@)),
        final(output)@ == old(output)@ + r@,
{
    let r = decode_bytes_to_vec(text.as_bytes());
    let mut copy = slice_to_vec(r.as_slice());
    output.append(&mut copy);
    r
}

/// Decode `text` and write each raw decoded byte to the writer as it is
/// produced, stopping at the first failed write and handing its error back
/// unchanged. An error can only come from the writer, so on empty input,
/// where nothing is written, the call succeeds.
pub fn decode_to_writer<W: std::io::Write>(text: &str, output: &mut W) -> (r: Result<
    (),
    std::io::Error,
>)
    ensures
        text@.len() == 0 ==> r is Ok,
{
    let raw = decode_bytes_to_vec(text.as_bytes());
    proof {
        if text@.len() == 0 {
            assert(encode_utf8(text@).len() == 0);
            assert(decode_bytes(encode_utf8(text@)).len() == 0);
        }
    }
    let mut i: usize = 0;
    while i < raw.len()
        invariant
            i <= raw@.len(),
            text@.len() == 0 ==> raw@.len() == 0,
        decreases raw@.len() - i,
    {
        let mut unit: Vec<u8> = Vec::new();
        unit.push(raw[i]);
        match write_all_bytes(output, unit.as_slice()) {
            Ok(()) => {},
            Err(e) => {
                return Err(e);
            },
        }
        i += 1;
    }
    Ok(())
}

} // verus!

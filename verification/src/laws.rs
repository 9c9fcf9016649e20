//! Round-trip laws relating the encoder and the decoder.
//!
//! Every triplet the encoder emits is read back by the decoder as the byte it
//! came from. A round trip can only be broken by a `%` that the encoder
//! passes through literally and that happens to be followed by two literal
//! hex digits: the decoder then mistakes it for a triplet. The lemmas here
//! state the round trip under the hypotheses that rule that case out.

use vstd::prelude::*;
use vstd::utf8::{decode_utf8, encode_utf8, valid_utf8};

use crate::decode::{decode_bytes, lemma_decode_triplet_free, triplet_free};
use crate::encode::{encode_bytes, encode_one, must_escape};
use crate::hex::{
    hex_pair_value, is_hex_digit, lemma_hex_pair_of_byte, lemma_upper_hex_digit, upper_hex_digit,
};

verus! {

/// True when no `%` that the encoder emits literally under `s` is followed by
/// two hex digits that are also emitted literally. Encoded output is then
/// unambiguous: the only `%` starting a valid triplet in it is one the
/// encoder wrote itself.
pub open spec fn unambiguous_under(bs: Seq<u8>, s: Set<u8>) -> bool {
    forall|i: int|
        #![trigger bs[i]]
        0 <= i && i + 2 < bs.len() && bs[i] == 0x25 && !must_escape(bs[i], s) ==> !(is_hex_digit(
            bs[i + 1],
        ) && !must_escape(bs[i + 1], s) && is_hex_digit(bs[i + 2]) && !must_escape(bs[i + 2], s))
}

/// The first byte of an encoded sequence: `%` when the first input byte is
/// escaped, the byte itself otherwise.
proof fn lemma_encode_head(bs: Seq<u8>, s: Set<u8>)
    requires
        bs.len() > 0,
    ensures
        encode_bytes(bs, s).len() >= 1,
        must_escape(bs[0], s) ==> encode_bytes(bs, s)[0] == 0x25,
        !must_escape(bs[0], s) ==> encode_bytes(bs, s)[0] == bs[0],
{
    assert(encode_bytes(bs, s)[0] == encode_one(bs[0], s)[0]);
}

/// Decoding an encoded sequence gives the input back, whenever the input
/// leaves no ambiguous literal `%` in the output.
pub proof fn lemma_decode_of_encode(bs: Seq<u8>, s: Set<u8>)
    requires
        unambiguous_under(bs, s),
    ensures
        decode_bytes(encode_bytes(bs, s)) == bs,
    decreases bs.len(),
{
    if bs.len() == 0 {
        assert(bs =~= Seq::<u8>::empty());
    } else {
        let b = bs[0];
        let rest = bs.skip(1);
        assert forall|i: int|
            #![trigger rest[i]]
            0 <= i && i + 2 < rest.len() && rest[i] == 0x25 && !must_escape(
                rest[i],
                s,
            ) implies !(is_hex_digit(rest[i + 1]) && !must_escape(rest[i + 1], s) && is_hex_digit(
            rest[i + 2],
        ) && !must_escape(rest[i + 2], s)) by {
            assert(rest[i] == bs[i + 1]);
            assert(rest[i + 1] == bs[i + 2]);
            assert(rest[i + 2] == bs[i + 3]);
        }
        lemma_decode_of_encode(rest, s);
        let eb = encode_bytes(bs, s);
        let erest = encode_bytes(rest, s);
        assert(eb == encode_one(b, s) + erest);
        if must_escape(b, s) {
            lemma_upper_hex_digit(b / 16);
            lemma_upper_hex_digit(b % 16);
            lemma_hex_pair_of_byte(b);
            assert(eb.len() >= 3);
            assert(eb[0] == 0x25);
            assert(eb[1] == upper_hex_digit(b / 16));
            assert(eb[2] == upper_hex_digit(b % 16));
            assert(hex_pair_value(eb[1], eb[2]) == b);
            assert(eb.skip(3) =~= erest);
            assert(decode_bytes(eb) == seq![b] + decode_bytes(erest));
            assert(seq![b] + rest =~= bs);
        } else if b != 0x25 {
            assert(encode_one(b, s) =~= seq![b]);
            assert(eb[0] == b);
            assert(eb.skip(1) =~= erest);
            assert(decode_bytes(eb) == seq![b] + decode_bytes(erest));
            assert(seq![b] + rest =~= bs);
        } else {
            // A literal `%`: the decoder must not see two literal hex digits
            // after it, which the hypothesis rules out byte by byte.
            assert(encode_one(b, s) =~= seq![0x25u8]);
            assert(eb[0] == 0x25);
            assert(eb.skip(1) =~= erest);
            if rest.len() == 0 {
                assert(erest =~= Seq::<u8>::empty());
                assert(eb.len() == 1);
                assert(!(eb.len() >= 3 && is_hex_digit(eb[1]) && is_hex_digit(eb[2])));
            } else {
                lemma_encode_head(rest, s);
                assert(eb[1] == erest[0]);
                if must_escape(rest[0], s) {
                    assert(eb[1] == 0x25);
                    assert(!(eb.len() >= 3 && is_hex_digit(eb[1]) && is_hex_digit(eb[2])));
                } else if !is_hex_digit(rest[0]) {
                    assert(eb[1] == rest[0]);
                    assert(!(eb.len() >= 3 && is_hex_digit(eb[1]) && is_hex_digit(eb[2])));
                } else {
                    let rest2 = rest.skip(1);
                    assert(erest == encode_one(rest[0], s) + encode_bytes(rest2, s));
                    assert(encode_one(rest[0], s) =~= seq![rest[0]]);
                    if rest.len() == 1 {
                        assert(rest2.len() == 0);
                        assert(encode_bytes(rest2, s) =~= Seq::<u8>::empty());
                        assert(erest =~= seq![rest[0]]);
                        assert(eb.len() == 2);
                        assert(!(eb.len() >= 3 && is_hex_digit(eb[1]) && is_hex_digit(eb[2])));
                    } else {
                        lemma_encode_head(rest2, s);
                        assert(erest[1] == encode_bytes(rest2, s)[0]);
                        assert(eb[2] == erest[1]);
                        if must_escape(rest2[0], s) {
                            assert(eb[2] == 0x25);
                            assert(!(eb.len() >= 3 && is_hex_digit(eb[1]) && is_hex_digit(
                                eb[2],
                            )));
                        } else {
                            assert(eb[2] == rest2[0]);
                            assert(bs[1] == rest[0] && bs[2] == rest2[0]);
                            assert(!(is_hex_digit(bs[1]) && !must_escape(bs[1], s)
                                && is_hex_digit(bs[2]) && !must_escape(bs[2], s)));
                            assert(!is_hex_digit(eb[2]));
                            assert(!(eb.len() >= 3 && is_hex_digit(eb[1]) && is_hex_digit(
                                eb[2],
                            )));
                        }
                    }
                }
            }
            assert(decode_bytes(eb) == seq![b] + decode_bytes(eb.skip(1)));
            assert(seq![b] + rest =~= bs);
        }
    }
}

/// When the encode set contains `%`, the round trip holds for every input:
/// the encoder escapes every `%`, so the output is always unambiguous.
pub proof fn lemma_round_trip_percent_escaped(bs: Seq<u8>, s: Set<u8>)
    requires
        s.contains(0x25u8),
    ensures
        decode_bytes(encode_bytes(bs, s)) == bs,
{
    lemma_decode_of_encode(bs, s);
}

/// Round trip at the byte level, for input that holds no member of the
/// encode set (an ASCII byte in the set; bytes of `0x80` and above are never
/// members and may appear) and is free of `%XX` triplets.
pub proof fn lemma_round_trip_bytes(bs: Seq<u8>, s: Set<u8>)
    requires
        forall|i: int| #![trigger bs[i]] 0 <= i < bs.len() ==> !(bs[i] < 0x80 && s.contains(bs[i])),
        triplet_free(bs),
    ensures
        decode_bytes(encode_bytes(bs, s)) == bs,
{
    assert forall|i: int|
        #![trigger bs[i]]
        0 <= i && i + 2 < bs.len() && bs[i] == 0x25 && !must_escape(
            bs[i],
            s,
        ) implies !(is_hex_digit(bs[i + 1]) && !must_escape(bs[i + 1], s) && is_hex_digit(
        bs[i + 2],
    ) && !must_escape(bs[i + 2], s)) by {
        if is_hex_digit(bs[i + 1]) && is_hex_digit(bs[i + 2]) {
            assert(!(bs[i] == 0x25 && is_hex_digit(bs[i + 1]) && is_hex_digit(bs[i + 2])));
        }
    }
    lemma_decode_of_encode(bs, s);
}

/// Round trip for text: encoding under `s` and then decoding gives the text
/// back, for text whose UTF-8 bytes contain no member of `s` (an ASCII byte
/// in the set; bytes of `0x80` and above are never members and may appear)
/// and no `%XX` triplet. A text with a literal triplet, such as `%41` under a
/// set without `%`, decodes to something shorter instead.
pub proof fn lemma_round_trip(t: Seq<char>, s: Set<u8>)
    requires
        forall|i: int|
            #![trigger encode_utf8(t)[i]]
            0 <= i < encode_utf8(t).len() ==> !(encode_utf8(t)[i] < 0x80 && s.contains(
                encode_utf8(t)[i],
            )),
        triplet_free(encode_utf8(t)),
    ensures
        decode_bytes(encode_bytes(encode_utf8(t), s)) == encode_utf8(t),
        valid_utf8(decode_bytes(encode_bytes(encode_utf8(t), s))),
        decode_utf8(decode_bytes(encode_bytes(encode_utf8(t), s))) == t,
{
    lemma_round_trip_bytes(encode_utf8(t), s);
    vstd::utf8::encode_utf8_valid_utf8(t);
    vstd::utf8::encode_utf8_decode_utf8(t);
}

/// Decoding text that is free of `%XX` triplets is the identity: the decoded
/// bytes are the text's own UTF-8 bytes, and they decode to the text itself.
pub proof fn lemma_decode_identity(t: Seq<char>)
    requires
        triplet_free(encode_utf8(t)),
    ensures
        decode_bytes(encode_utf8(t)) == encode_utf8(t),
        valid_utf8(encode_utf8(t)),
        decode_utf8(decode_bytes(encode_utf8(t))) == t,
{
    lemma_decode_triplet_free(encode_utf8(t));
    vstd::utf8::encode_utf8_valid_utf8(t);
    vstd::utf8::encode_utf8_decode_utf8(t);
}

} // verus!


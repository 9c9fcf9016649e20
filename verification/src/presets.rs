//! Encoding functions pre-bound to each named encode set.
//!
//! Each family of four works like [`encode`], [`encode_to_string`],
//! [`encode_to_vec`] and [`encode_to_writer`] with the corresponding set from
//! [`crate::ascii_set`] already chosen.

use vstd::prelude::*;
use vstd::utf8::encode_utf8;

use crate::ascii_set::{
    component, component_set, fragment, fragment_set, path, path_set, query, query_set,
    special_query, special_query_set, userinfo, userinfo_set, www_form_urlencoded_set,
    x_www_form_urlencoded,
};
use crate::encode::{
    encode, encode_bytes, encode_to_string, encode_to_vec, encode_to_writer, encoded_text,
};

verus! {

/// Encode text used in a fragment part.
pub fn encode_fragment(text: &str) -> (r: String)
    ensures
        encode_utf8(r@) == encode_bytes(encode_utf8(text@), fragment_set()),
        r@ == encoded_text(text@, fragment_set()),
{
    encode(text, &fragment())
}

/// Encode text used in a fragment part, appending to a string.
pub fn encode_fragment_to_string(text: &str, output: &mut String) -> (r: String)
    ensures
        encode_utf8(r@) == encode_bytes(encode_utf8(text@), fragment_set()),
        r@ == encoded_text(text@, fragment_set()),
        final(output)@ == old(output)@ + r@,
{
    encode_to_string(text, &fragment(), output)
}

/// Encode text used in a fragment part, appending the encoded bytes to a buffer.
pub fn encode_fragment_to_vec(text: &str, output: &mut Vec<u8>) -> (r: Vec<u8>)
    ensures
        r@ == encode_bytes(encode_utf8(text@), fragment_set()),
        final(output)@ == old(output)@ + r@,
{
    encode_to_vec(text, &fragment(), output)
}

/// Encode text used in a fragment part, writing each output unit to a writer; on empty input, where nothing is written, the call succeeds.
pub fn encode_fragment_to_writer<W: std::io::Write>(text: &str, output: &mut W) -> (r: Result<
    (),
    std::io::Error,
>)
    ensures
        text@.len() == 0 ==> r is Ok,
{
    encode_to_writer(text, &fragment(), output)
}

/// Encode text used in the query part.
pub fn encode_query(text: &str) -> (r: String)
    ensures
        encode_utf8(r@) == encode_bytes(encode_utf8(text@), query_set()),
        r@ == encoded_text(text@, query_set()),
{
    encode(text, &query())
}

/// Encode text used in the query part, appending to a string.
pub fn encode_query_to_string(text: &str, output: &mut String) -> (r: String)
    ensures
        encode_utf8(r@) == encode_bytes(encode_utf8(text@), query_set()),
        r@ == encoded_text(text@, query_set()),
        final(output)@ == old(output)@ + r@,
{
    encode_to_string(text, &query(), output)
}

/// Encode text used in the query part, appending the encoded bytes to a buffer.
pub fn encode_query_to_vec(text: &str, output: &mut Vec<u8>) -> (r: Vec<u8>)
    ensures
        r@ == encode_bytes(encode_utf8(text@), query_set()),
        final(output)@ == old(output)@ + r@,
{
    encode_to_vec(text, &query(), output)
}

/// Encode text used in the query part, writing each output unit to a writer; on empty input, where nothing is written, the call succeeds.
pub fn encode_query_to_writer<W: std::io::Write>(text: &str, output: &mut W) -> (r: Result<
    (),
    std::io::Error,
>)
    ensures
        text@.len() == 0 ==> r is Ok,
{
    encode_to_writer(text, &query(), output)
}

/// Encode text used in the query part of a special URL.
pub fn encode_special_query(text: &str) -> (r: String)
    ensures
        encode_utf8(r@) == encode_bytes(encode_utf8(text@), special_query_set()),
        r@ == encoded_text(text@, special_query_set()),
{
    encode(text, &special_query())
}

/// Encode text used in the query part of a special URL, appending to a string.
pub fn encode_special_query_to_string(text: &str, output: &mut String) -> (r: String)
    ensures
        encode_utf8(r@) == encode_bytes(encode_utf8(text@), special_query_set()),
        r@ == encoded_text(text@, special_query_set()),
        final(output)@ == old(output)@ + r@,
{
    encode_to_string(text, &special_query(), output)
}

/// Encode text used in the query part of a special URL, appending the encoded bytes to a buffer.
pub fn encode_special_query_to_vec(text: &str, output: &mut Vec<u8>) -> (r: Vec<u8>)
    ensures
        r@ == encode_bytes(encode_utf8(text@), special_query_set()),
        final(output)@ == old(output)@ + r@,
{
    encode_to_vec(text, &special_query(), output)
}

/// Encode text used in the query part of a special URL, writing each output unit to a writer; on empty input, where nothing is written, the call succeeds.
pub fn encode_special_query_to_writer<W: std::io::Write>(text: &str, output: &mut W) -> (r: Result<
    (),
    std::io::Error,
>)
    ensures
        text@.len() == 0 ==> r is Ok,
{
    encode_to_writer(text, &special_query(), output)
}

/// Encode text used in the path part.
pub fn encode_path(text: &str) -> (r: String)
    ensures
        encode_utf8(r@) == encode_bytes(encode_utf8(text@), path_set()),
        r@ == encoded_text(text@, path_set()),
{
    encode(text, &path())
}

/// Encode text used in the path part, appending to a string.
pub fn encode_path_to_string(text: &str, output: &mut String) -> (r: String)
    ensures
        encode_utf8(r@) == encode_bytes(encode_utf8(text@), path_set()),
        r@ == encoded_text(text@, path_set()),
        final(output)@ == old(output)@ + r@,
{
    encode_to_string(text, &path(), output)
}

/// Encode text used in the path part, appending the encoded bytes to a buffer.
pub fn encode_path_to_vec(text: &str, output: &mut Vec<u8>) -> (r: Vec<u8>)
    ensures
        r@ == encode_bytes(encode_utf8(text@), path_set()),
        final(output)@ == old(output)@ + r@,
{
    encode_to_vec(text, &path(), output)
}

/// Encode text used in the path part, writing each output unit to a writer; on empty input, where nothing is written, the call succeeds.
pub fn encode_path_to_writer<W: std::io::Write>(text: &str, output: &mut W) -> (r: Result<
    (),
    std::io::Error,
>)
    ensures
        text@.len() == 0 ==> r is Ok,
{
    encode_to_writer(text, &path(), output)
}

/// Encode text used in the userinfo part.
pub fn encode_userinfo(text: &str) -> (r: String)
    ensures
        encode_utf8(r@) == encode_bytes(encode_utf8(text@), userinfo_set()),
        r@ == encoded_text(text@, userinfo_set()),
{
    encode(text, &userinfo())
}

/// Encode text used in the userinfo part, appending to a string.
pub fn encode_userinfo_to_string(text: &str, output: &mut String) -> (r: String)
    ensures
        encode_utf8(r@) == encode_bytes(encode_utf8(text@), userinfo_set()),
        r@ == encoded_text(text@, userinfo_set()),
        final(output)@ == old(output)@ + r@,
{
    encode_to_string(text, &userinfo(), output)
}

/// Encode text used in the userinfo part, appending the encoded bytes to a buffer.
pub fn encode_userinfo_to_vec(text: &str, output: &mut Vec<u8>) -> (r: Vec<u8>)
    ensures
        r@ == encode_bytes(encode_utf8(text@), userinfo_set()),
        final(output)@ == old(output)@ + r@,
{
    encode_to_vec(text, &userinfo(), output)
}

/// Encode text used in the userinfo part, writing each output unit to a writer; on empty input, where nothing is written, the call succeeds.
pub fn encode_userinfo_to_writer<W: std::io::Write>(text: &str, output: &mut W) -> (r: Result<
    (),
    std::io::Error,
>)
    ensures
        text@.len() == 0 ==> r is Ok,
{
    encode_to_writer(text, &userinfo(), output)
}

/// Encode text used in a component.
pub fn encode_component(text: &str) -> (r: String)
    ensures
        encode_utf8(r@) == encode_bytes(encode_utf8(text@), component_set()),
        r@ == encoded_text(text@, component_set()),
{
    encode(text, &component())
}

/// Encode text used in a component, appending to a string.
pub fn encode_component_to_string(text: &str, output: &mut String) -> (r: String)
    ensures
        encode_utf8(r@) == encode_bytes(encode_utf8(text@), component_set()),
        r@ == encoded_text(text@, component_set()),
        final(output)@ == old(output)@ + r@,
{
    encode_to_string(text, &component(), output)
}

/// Encode text used in a component, appending the encoded bytes to a buffer.
pub fn encode_component_to_vec(text: &str, output: &mut Vec<u8>) -> (r: Vec<u8>)
    ensures
        r@ == encode_bytes(encode_utf8(text@), component_set()),
        final(output)@ == old(output)@ + r@,
{
    encode_to_vec(text, &component(), output)
}

/// Encode text used in a component, writing each output unit to a writer; on empty input, where nothing is written, the call succeeds.
pub fn encode_component_to_writer<W: std::io::Write>(text: &str, output: &mut W) -> (r: Result<
    (),
    std::io::Error,
>)
    ensures
        text@.len() == 0 ==> r is Ok,
{
    encode_to_writer(text, &component(), output)
}

/// Encode text used in application/x-www-form-urlencoded text.
pub fn encode_www_form_urlencoded(text: &str) -> (r: String)
    ensures
        encode_utf8(r@) == encode_bytes(encode_utf8(text@), www_form_urlencoded_set()),
        r@ == encoded_text(text@, www_form_urlencoded_set()),
{
    encode(text, &x_www_form_urlencoded())
}

/// Encode text used in application/x-www-form-urlencoded text, appending to a string.
pub fn encode_www_form_urlencoded_to_string(text: &str, output: &mut String) -> (r: String)
    ensures
        encode_utf8(r@) == encode_bytes(encode_utf8(text@), www_form_urlencoded_set()),
        r@ == encoded_text(text@, www_form_urlencoded_set()),
        final(output)@ == old(output)@ + r@,
{
    encode_to_string(text, &x_www_form_urlencoded(), output)
}

/// Encode text used in application/x-www-form-urlencoded text, appending the encoded bytes to a buffer.
pub fn encode_www_form_urlencoded_to_vec(text: &str, output: &mut Vec<u8>) -> (r: Vec<u8>)
    ensures
        r@ == encode_bytes(encode_utf8(text@), www_form_urlencoded_set()),
        final(output)@ == old(output)@ + r@,
{
    encode_to_vec(text, &x_www_form_urlencoded(), output)
}

/// Encode text used in application/x-www-form-urlencoded text, writing each output unit to a writer; on empty input, where nothing is written, the call succeeds.
pub fn encode_www_form_urlencoded_to_writer<W: std::io::Write>(text: &str, output: &mut W) -> (r: Result<
    (),
    std::io::Error,
>)
    ensures
        text@.len() == 0 ==> r is Ok,
{
    encode_to_writer(text, &x_www_form_urlencoded(), output)
}

} // verus!

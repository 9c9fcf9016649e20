//! Percent-encoding and percent-decoding of text for URL components.
//!
//! Encoding walks the UTF-8 bytes of the input and escapes each byte that is a
//! member of the chosen encode set, and every byte of `0x80` and above, as a
//! `%XX` triplet with uppercase hex digits. Decoding turns every valid `%XX`
//! triplet back into its byte, passes malformed or truncated triplets through
//! unchanged, and repairs the raw bytes into text, substituting U+FFFD for
//! invalid UTF-8.
//!
//! The encode sets are the named [`AsciiSet`] values of the URL
//! specification's model, each built from the previous one by adding a fixed
//! list of bytes.

pub mod ascii_set;
pub mod decode;
pub mod encode;
pub mod hex;
pub mod laws;
pub mod presets;
pub mod sink;
pub mod unicode;

pub use ascii_set::AsciiSet;
pub use ascii_set::component;
pub use ascii_set::controls;
pub use ascii_set::fragment;
pub use ascii_set::lemma_encode_set_chain;
pub use ascii_set::path;
pub use ascii_set::query;
pub use ascii_set::special_query;
pub use ascii_set::userinfo;
pub use ascii_set::x_www_form_urlencoded;

pub use decode::decode;
pub use decode::decode_to_string;
pub use decode::decode_to_vec;
pub use decode::decode_to_writer;

pub use encode::encode;
pub use encode::encode_to_string;
pub use encode::encode_to_vec;
pub use encode::encode_to_writer;
pub use encode::lemma_high_byte_always_escaped;

pub use laws::lemma_decode_identity;
pub use laws::lemma_decode_of_encode;
pub use laws::lemma_round_trip;
pub use laws::lemma_round_trip_bytes;
pub use laws::lemma_round_trip_percent_escaped;

pub use presets::encode_component;
pub use presets::encode_component_to_string;
pub use presets::encode_component_to_vec;
pub use presets::encode_component_to_writer;
pub use presets::encode_fragment;
pub use presets::encode_fragment_to_string;
pub use presets::encode_fragment_to_vec;
pub use presets::encode_fragment_to_writer;
pub use presets::encode_path;
pub use presets::encode_path_to_string;
pub use presets::encode_path_to_vec;
pub use presets::encode_path_to_writer;
pub use presets::encode_query;
pub use presets::encode_query_to_string;
pub use presets::encode_query_to_vec;
pub use presets::encode_query_to_writer;
pub use presets::encode_special_query;
pub use presets::encode_special_query_to_string;
pub use presets::encode_special_query_to_vec;
pub use presets::encode_special_query_to_writer;
pub use presets::encode_userinfo;
pub use presets::encode_userinfo_to_string;
pub use presets::encode_userinfo_to_vec;
pub use presets::encode_userinfo_to_writer;
pub use presets::encode_www_form_urlencoded;
pub use presets::encode_www_form_urlencoded_to_string;
pub use presets::encode_www_form_urlencoded_to_vec;
pub use presets::encode_www_form_urlencoded_to_writer;

use url_escape::decode;
use url_escape::decode_to_string;
use url_escape::decode_to_vec;
use url_escape::decode_to_writer;
use url_escape::encode;
use url_escape::encode_component;
use url_escape::encode_fragment;
use url_escape::encode_path;
use url_escape::encode_query;
use url_escape::encode_special_query;
use url_escape::encode_to_string;
use url_escape::encode_to_vec;
use url_escape::encode_to_writer;
use url_escape::encode_userinfo;
use url_escape::encode_www_form_urlencoded_to_vec;
use url_escape::fragment;

fn www_form_urlencoded_cases() -> Vec<(&'static str, &'static str)> {
    vec![
        ("", ""),
        ("%E5%93%88%E5%9B%89%EF%BC%8C%E4%B8%AD%E6%96%87%EF%BC%81", "哈囉，中文！"),
        ("%E9%BA%B5%E5%8C%85%20%26%20butter", "麵包 & butter"),
        ("%22bread%22%20%26%20%E5%A5%B6%E6%B2%B9", "\"bread\" & 奶油"),
        ("%3C%20less%20than", "< less than"),
        ("greater%20than%20%3E", "greater than >"),
        ("https%3A%2F%2Fmagiclen.org", "https://magiclen.org"),
    ]
}

#[test]
fn encode_www_form_urlencoded() {
    for (expect, text) in www_form_urlencoded_cases() {
        assert_eq!(expect, url_escape::encode_www_form_urlencoded(text));
    }
}

#[test]
fn encode_www_form_urlencoded_to_string() {
    for (expect, text) in www_form_urlencoded_cases() {
        assert_eq!(
            expect,
            url_escape::encode_www_form_urlencoded_to_string(text, &mut String::new())
        );
    }
}

#[test]
fn encode_www_form_urlencoded_to_writer() {
    for (expect, text) in www_form_urlencoded_cases() {
        let mut v = Vec::new();
        url_escape::encode_www_form_urlencoded_to_writer(text, &mut v).unwrap();

        assert_eq!(expect.as_bytes(), v.as_slice());
    }
}

#[test]
fn decode_www_form_urlencoded() {
    for (text, expect) in www_form_urlencoded_cases() {
        assert_eq!(expect, decode(text));
    }
}

#[test]
fn decode_www_form_urlencoded_to_string() {
    for (text, expect) in www_form_urlencoded_cases() {
        assert_eq!(expect, decode_to_string(text, &mut String::new()));
    }
}

#[test]
fn decode_www_form_urlencoded_to_writer() {
    for (text, expect) in www_form_urlencoded_cases() {
        let mut v = Vec::new();
        decode_to_writer(text, &mut v).unwrap();

        assert_eq!(expect.as_bytes(), v.as_slice());
    }
}

#[test]
fn decode_malformed_triplet_passes_through() {
    assert_eq!("100% done", decode("100% done"));
    assert_eq!("100%zz", decode("100%zz"));
    assert_eq!("%", decode("%"));
    assert_eq!("%A", decode("%A"));
    assert_eq!("%AA", decode("%%41A"));
}

#[test]
fn decode_truncated_triplet_passes_through() {
    assert_eq!("abc%2", decode("abc%2"));
    assert_eq!("abc%", decode("abc%"));
}

#[test]
fn decode_is_case_insensitive() {
    assert_eq!("/", decode("%2f"));
    assert_eq!("/", decode("%2F"));
    assert_eq!("\u{7f}", decode("%7f"));
}

#[test]
fn decode_invalid_utf8_yields_replacement_character() {
    let decoded = decode("%FF%FE");
    assert!(decoded.contains('\u{fffd}'));
    assert_eq!("\u{fffd}\u{fffd}", decoded);

    let mut raw = Vec::new();
    decode_to_vec("%FF%FE", &mut raw);
    assert_eq!(vec![0xff_u8, 0xfe], raw);
}

#[test]
fn decode_twice_is_not_decode_once() {
    let once = decode("%2541");
    assert_eq!("%41", once);
    let twice = decode(once.as_str());
    assert_eq!("A", twice);
    assert_ne!(once, twice);
}

#[test]
fn decode_of_triplet_free_text_is_identity() {
    for text in ["", "plain text", "a%zb%", "100% done", "%%%", "中文 %4"] {
        assert_eq!(text, decode(text));
    }
}

#[test]
fn every_set_escapes_high_bytes() {
    assert_eq!("%C3%A9", encode_fragment("é"));
    assert_eq!("%C3%A9", encode_query("é"));
    assert_eq!("%C3%A9", encode_special_query("é"));
    assert_eq!("%C3%A9", encode_path("é"));
    assert_eq!("%C3%A9", encode_userinfo("é"));
    assert_eq!("%C3%A9", encode_component("é"));
    assert_eq!("%C3%A9", url_escape::encode_www_form_urlencoded("é"));
}

#[test]
fn round_trip_through_every_set() {
    let text = "safe text with 中文 and é";
    assert_eq!(text, decode(&encode_fragment(text)));
    assert_eq!(text, decode(&encode_query(text)));
    assert_eq!(text, decode(&encode_special_query(text)));
    assert_eq!(text, decode(&encode_path(text)));
    assert_eq!(text, decode(&encode_userinfo(text)));
    assert_eq!(text, decode(&encode_component(text)));
    assert_eq!(text, decode(&url_escape::encode_www_form_urlencoded(text)));

    let tricky = "100% + 50% = %%";
    assert_eq!(tricky, decode(&encode_component(tricky)));
    assert_eq!(tricky, decode(&url_escape::encode_www_form_urlencoded(tricky)));

    // A literal triplet under a set that leaves `%` unescaped does not round-trip:
    // the decoder reads the `%41` that passed through untouched.
    assert_eq!("%41", encode_fragment("%41"));
    assert_eq!("A", decode(&encode_fragment("%41")));
}

#[test]
fn sets_differ_on_their_own_bytes() {
    assert_eq!("#x", encode_fragment("#x"));
    assert_eq!("%23", encode_query("#"));
    assert_eq!("%60", encode_query("`"));
    assert_eq!("'", encode_query("'"));
    assert_eq!("%27", encode_special_query("'"));
    assert_eq!("?", encode_query("?"));
    assert_eq!("%3F", encode_path("?"));
    assert_eq!("/", encode_path("/"));
    assert_eq!("%2F", encode_userinfo("/"));
    assert_eq!("+", encode_userinfo("+"));
    assert_eq!("%2B", encode_component("+"));
    assert_eq!("100%", encode_fragment("100%"));
    assert_eq!("100%25", encode_component("100%"));
    assert_eq!("~", encode_component("~"));
    assert_eq!("%7E", url_escape::encode_www_form_urlencoded("~"));
}

#[test]
fn encode_and_decode_empty() {
    assert_eq!("", encode_fragment(""));
    assert_eq!("", decode(""));
}

#[test]
fn encode_to_string_appends() {
    let mut output = String::from("prefix:");
    let returned = url_escape::encode_www_form_urlencoded_to_string("a b", &mut output);
    assert_eq!("a%20b", returned);
    assert_eq!("prefix:a%20b", output);
}

#[test]
fn encode_to_vec_appends() {
    let mut output = b"prefix:".to_vec();
    let returned = encode_www_form_urlencoded_to_vec("a b", &mut output);
    assert_eq!(b"a%20b".to_vec(), returned);
    assert_eq!(b"prefix:a%20b".to_vec(), output);
}

#[test]
fn decode_to_string_appends() {
    let mut output = String::from("prefix:");
    let returned = decode_to_string("a%20b", &mut output);
    assert_eq!("a b", returned);
    assert_eq!("prefix:a b", output);
}

#[test]
fn decode_to_vec_appends() {
    let mut output = b"prefix:".to_vec();
    let returned = decode_to_vec("a%20b", &mut output);
    assert_eq!(b"a b".to_vec(), returned);
    assert_eq!(b"prefix:a b".to_vec(), output);
}

#[test]
fn generic_encode_and_decode_with_chosen_set() {
    let set = fragment();
    assert_eq!("a%20b#c", encode("a b#c", &set));

    let mut v = Vec::new();
    let returned = encode_to_vec("a b", &set, &mut v);
    assert_eq!(b"a%20b".to_vec(), returned);
    assert_eq!(b"a%20b".to_vec(), v);

    let mut s = String::new();
    assert_eq!("a%20b", encode_to_string("a b", &set, &mut s));
    assert_eq!("a%20b", s);

    let mut w = Vec::new();
    encode_to_writer("a b", &set, &mut w).unwrap();
    assert_eq!(b"a%20b".to_vec(), w);
}

#[test]
fn uppercase_hex_is_emitted() {
    assert_eq!("%0A%1F%7F", encode_fragment("\u{0a}\u{1f}\u{7f}"));
}

struct FailingWriter;

impl std::io::Write for FailingWriter {
    fn write(&mut self, _buf: &[u8]) -> std::io::Result<usize> {
        Err(std::io::Error::new(std::io::ErrorKind::Other, "destination refused the write"))
    }

    fn flush(&mut self) -> std::io::Result<()> {
        Ok(())
    }
}

#[test]
fn writer_failure_is_propagated() {
    assert!(url_escape::encode_www_form_urlencoded_to_writer("abc", &mut FailingWriter).is_err());
    assert!(decode_to_writer("a%20b", &mut FailingWriter).is_err());
    assert!(encode_to_writer("abc", &fragment(), &mut FailingWriter).is_err());

    assert!(encode_to_writer("", &fragment(), &mut FailingWriter).is_ok());
    assert!(decode_to_writer("", &mut FailingWriter).is_ok());
}

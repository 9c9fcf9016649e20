use url_escape::AsciiSet;
use url_escape::component;
use url_escape::controls;
use url_escape::encode_component;
use url_escape::encode_fragment;
use url_escape::encode_path;
use url_escape::encode_query;
use url_escape::encode_special_query;
use url_escape::encode_userinfo;
use url_escape::encode_www_form_urlencoded;
use url_escape::fragment;
use url_escape::path;
use url_escape::query;
use url_escape::special_query;
use url_escape::userinfo;
use url_escape::x_www_form_urlencoded;

fn controls_member(b: u8) -> bool {
    b <= 0x1f || b == 0x7f
}

fn fragment_member(b: u8) -> bool {
    controls_member(b) || [0x20, 0x22, 0x3c, 0x3e, 0x60].contains(&b)
}

fn query_member(b: u8) -> bool {
    fragment_member(b) || b == 0x23
}

fn special_query_member(b: u8) -> bool {
    query_member(b) || b == 0x27
}

fn path_member(b: u8) -> bool {
    query_member(b) || [0x3f, 0x60, 0x7b, 0x7d].contains(&b)
}

fn userinfo_member(b: u8) -> bool {
    path_member(b)
        || [0x2f, 0x3a, 0x3b, 0x3d, 0x40, 0x5b, 0x5c, 0x5d, 0x5e, 0x7c].contains(&b)
}

fn component_member(b: u8) -> bool {
    userinfo_member(b) || [0x24, 0x25, 0x26, 0x2b, 0x2c].contains(&b)
}

fn www_form_urlencoded_member(b: u8) -> bool {
    component_member(b) || [0x21, 0x27, 0x28, 0x29, 0x7e].contains(&b)
}

fn check_membership(set: &AsciiSet, member: impl Fn(u8) -> bool) {
    for b in 0..=255u16 {
        let b = b as u8;
        assert_eq!(set.contains(b), b < 0x80 && member(b), "byte {:#04x}", b);
    }
}

#[test]
fn controls_membership_table() {
    check_membership(&controls(), controls_member);
}

#[test]
fn fragment_membership_table() {
    check_membership(&fragment(), fragment_member);
}

#[test]
fn query_membership_table() {
    check_membership(&query(), query_member);
}

#[test]
fn special_query_membership_table() {
    check_membership(&special_query(), special_query_member);
}

#[test]
fn path_membership_table() {
    check_membership(&path(), path_member);
}

#[test]
fn userinfo_membership_table() {
    check_membership(&userinfo(), userinfo_member);
}

#[test]
fn component_membership_table() {
    check_membership(&component(), component_member);
}

#[test]
fn www_form_urlencoded_membership_table() {
    check_membership(&x_www_form_urlencoded(), www_form_urlencoded_member);
}

#[test]
fn membership_ascends_the_chain() {
    for b in 0..=255u16 {
        let b = b as u8;
        let fragment = fragment().contains(b);
        let query = query().contains(b);
        let special_query = special_query().contains(b);
        let path = path().contains(b);
        let userinfo = userinfo().contains(b);
        let component = component().contains(b);
        let www_form = x_www_form_urlencoded().contains(b);
        assert!(!controls().contains(b) || fragment);
        assert!(!fragment || query);
        assert!(!query || special_query);
        assert!(!query || path);
        assert!(!path || userinfo);
        assert!(!userinfo || component);
        assert!(!component || www_form);
    }
}

#[test]
fn add_extends_a_set() {
    let set = controls();
    assert!(!set.contains(0x61));
    let extended = set.add(0x61);
    assert!(extended.contains(0x61));
    assert!(extended.contains(0x00));
    assert!(!extended.contains(0x62));
    assert!(!set.contains(0x61));
}

#[test]
fn encoding_uses_each_set_exactly() {
    let inputs: Vec<(fn(&str) -> String, fn(u8) -> bool)> = vec![
        (|t| encode_fragment(t), fragment_member),
        (|t| encode_query(t), query_member),
        (|t| encode_special_query(t), special_query_member),
        (|t| encode_path(t), path_member),
        (|t| encode_userinfo(t), userinfo_member),
        (|t| encode_component(t), component_member),
        (|t| encode_www_form_urlencoded(t), www_form_urlencoded_member),
    ];
    for (encode_fn, member) in inputs {
        for b in 0..=0x7fu8 {
            let c = b as char;
            let text = c.to_string();
            let encoded = encode_fn(&text);
            if member(b) {
                assert_eq!(format!("%{:02X}", b), encoded);
            } else {
                assert_eq!(text, encoded);
            }
        }
    }
}

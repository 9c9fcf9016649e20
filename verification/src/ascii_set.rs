//! Sets of ASCII bytes, and the named percent-encode sets for URL components.
//!
//! An [`AsciiSet`] answers, for every byte value, whether that byte must be
//! escaped in a given URL context. Only bytes `0x00..=0x7f` can be members;
//! the encoder escapes bytes of `0x80` and above unconditionally, so the set
//! never needs to speak of them.

use vstd::prelude::*;

verus! {

/// A set of ASCII byte values, stored as a 128-bit mask.
///
/// `contains` answers whether a byte is a member; bytes of `0x80` and above
/// are never members. `add` returns a new set with one more byte, which lets
/// each named encode set be built from the previous one by a short chain of
/// additions.
#[derive(Clone, Copy, Debug)]
pub struct AsciiSet {
    /// Membership bits for bytes `0x00..=0x3f`.
    lo: u64,
    /// Membership bits for bytes `0x40..=0x7f`.
    hi: u64,
}

impl View for AsciiSet {
    type V = Set<u8>;

    open spec fn view(&self) -> Set<u8> {
        Set::new(|b: u8| self.spec_contains(b))
    }
}

impl AsciiSet {
    /// True when the bit for `b` is set in the mask; always false for `b >= 0x80`.
    pub closed spec fn spec_contains(self, b: u8) -> bool {
        if b < 64 {
            (self.lo >> (b as u64)) & 1u64 == 1u64
        } else if b < 128 {
            (self.hi >> ((b - 64) as u64)) & 1u64 == 1u64
        } else {
            false
        }
    }

    /// Whether `b` is a member of this set.
    pub fn contains(&self, b: u8) -> (r: bool)
        ensures
            r == self@.contains(b),
    {
        if b < 64 {
            (self.lo >> (b as u64)) & 1u64 == 1u64
        } else if b < 128 {
            (self.hi >> ((b as u64) - 64)) & 1u64 == 1u64
        } else {
            false
        }
    }

    /// A new set holding every member of this set, plus the ASCII byte `b`.
    pub fn add(&self, b: u8) -> (r: AsciiSet)
        requires
            b < 128,
        ensures
            r@ == self@.insert(b),
    {
        let r = if b < 64 {
            AsciiSet { lo: self.lo | (1u64 << (b as u64)), hi: self.hi }
        } else {
            AsciiSet { lo: self.lo, hi: self.hi | (1u64 << ((b as u64) - 64)) }
        };
        proof {
            assert forall|c: u8| r.spec_contains(c) == (self.spec_contains(c) || c == b) by {
                if b < 64 {
                    if c < 64 {
                        lemma_u64_set_bit(self.lo, b as u64, c as u64);
                    }
                } else {
                    if 64 <= c < 128 {
                        lemma_u64_set_bit(self.hi, (b - 64) as u64, (c - 64) as u64);
                    }
                }
            }
            assert(r@ =~= self@.insert(b));
        }
        r
    }
}

/// Setting bit `i` of a mask leaves every other bit as it was.
proof fn lemma_u64_set_bit(m: u64, i: u64, j: u64)
    requires
        i < 64,
        j < 64,
    ensures
        (((m | (1u64 << i)) >> j) & 1u64 == 1u64) <==> (((m >> j) & 1u64 == 1u64) || j == i),
{
    assert((((m | (1u64 << i)) >> j) & 1u64 == 1u64) <==> (((m >> j) & 1u64 == 1u64) || j == i))
        by (bit_vector)
        requires
            i < 64,
            j < 64,
    ;
}

/// Membership in the C0 control percent-encode set: the C0 controls
/// (`0x00..=0x1f`) and U+007F DELETE.
pub open spec fn controls_contains(b: u8) -> bool {
    b <= 0x1f || b == 0x7f
}

/// Membership in the fragment percent-encode set: the C0 control set and
/// U+0020 SPACE, U+0022 ("), U+003C (<), U+003E (>), U+0060 (`).
pub open spec fn fragment_contains(b: u8) -> bool {
    controls_contains(b) || b == 0x20 || b == 0x22 || b == 0x3c || b == 0x3e || b == 0x60
}

/// Membership in the query percent-encode set: the fragment set and U+0023 (#).
pub open spec fn query_contains(b: u8) -> bool {
    fragment_contains(b) || b == 0x23
}

/// Membership in the special-query percent-encode set: the query set and U+0027 (').
pub open spec fn special_query_contains(b: u8) -> bool {
    query_contains(b) || b == 0x27
}

/// Membership in the path percent-encode set: the query set and U+003F (?),
/// U+0060 (`), U+007B ({), U+007D (}).
pub open spec fn path_contains(b: u8) -> bool {
    query_contains(b) || b == 0x3f || b == 0x60 || b == 0x7b || b == 0x7d
}

/// Membership in the userinfo percent-encode set: the path set and U+002F (/),
/// U+003A (:), U+003B (;), U+003D (=), U+0040 (@), U+005B ([) to U+005E (^)
/// inclusive, and U+007C (|).
pub open spec fn userinfo_contains(b: u8) -> bool {
    path_contains(b) || b == 0x2f || b == 0x3a || b == 0x3b || b == 0x3d || b == 0x40 || b == 0x5b
        || b == 0x5c || b == 0x5d || b == 0x5e || b == 0x7c
}

/// Membership in the component percent-encode set: the userinfo set and
/// U+0024 ($), U+0025 (%), U+0026 (&), U+002B (+), U+002C (,).
pub open spec fn component_contains(b: u8) -> bool {
    userinfo_contains(b) || b == 0x24 || b == 0x25 || b == 0x26 || b == 0x2b || b == 0x2c
}

/// Membership in the application/x-www-form-urlencoded percent-encode set: the
/// component set and U+0021 (!), U+0027 (') to U+0029 ()) inclusive, U+007E (~).
pub open spec fn www_form_urlencoded_contains(b: u8) -> bool {
    component_contains(b) || b == 0x21 || b == 0x27 || b == 0x28 || b == 0x29 || b == 0x7e
}

/// The C0 control percent-encode set, as a mathematical set of bytes.
pub open spec fn controls_set() -> Set<u8> {
    Set::new(|b: u8| controls_contains(b))
}

/// The fragment percent-encode set, as a mathematical set of bytes.
pub open spec fn fragment_set() -> Set<u8> {
    Set::new(|b: u8| fragment_contains(b))
}

/// The query percent-encode set, as a mathematical set of bytes.
pub open spec fn query_set() -> Set<u8> {
    Set::new(|b: u8| query_contains(b))
}

/// The special-query percent-encode set, as a mathematical set of bytes.
pub open spec fn special_query_set() -> Set<u8> {
    Set::new(|b: u8| special_query_contains(b))
}

/// The path percent-encode set, as a mathematical set of bytes.
pub open spec fn path_set() -> Set<u8> {
    Set::new(|b: u8| path_contains(b))
}

/// The userinfo percent-encode set, as a mathematical set of bytes.
pub open spec fn userinfo_set() -> Set<u8> {
    Set::new(|b: u8| userinfo_contains(b))
}

/// The component percent-encode set, as a mathematical set of bytes.
pub open spec fn component_set() -> Set<u8> {
    Set::new(|b: u8| component_contains(b))
}

/// The application/x-www-form-urlencoded percent-encode set, as a mathematical
/// set of bytes.
pub open spec fn www_form_urlencoded_set() -> Set<u8> {
    Set::new(|b: u8| www_form_urlencoded_contains(b))
}

/// The C0 control percent-encode set: the C0 controls and U+007F DELETE.
pub fn controls() -> (r: AsciiSet)
    ensures
        r@ == controls_set(),
{
    let r = AsciiSet { lo: 0x0000_0000_ffff_ffffu64, hi: 0x8000_0000_0000_0000u64 };
    proof {
        assert forall|b: u8| r.spec_contains(b) == controls_contains(b) by {
            if b < 64 {
                assert(((0x0000_0000_ffff_ffffu64 >> (b as u64)) & 1u64 == 1u64) == (b <= 0x1f))
                    by (bit_vector)
                    requires
                        b < 64,
                ;
            } else if b < 128 {
                assert(((0x8000_0000_0000_0000u64 >> ((b - 64) as u64)) & 1u64 == 1u64) == (b
                    == 0x7f))
                    by (bit_vector)
                    requires
                        64 <= b && b < 128,
                ;
            }
        }
        assert(r@ =~= controls_set());
    }
    r
}

/// The fragment percent-encode set: the C0 control set and SPACE, `"`, `<`,
/// `>`, and backtick.
pub fn fragment() -> (r: AsciiSet)
    ensures
        r@ == fragment_set(),
{
    let r = controls().add(0x20).add(0x22).add(0x3c).add(0x3e).add(0x60);
    proof {
        assert(r@ =~= fragment_set());
    }
    r
}

/// The query percent-encode set: the fragment set and `#`.
pub fn query() -> (r: AsciiSet)
    ensures
        r@ == query_set(),
{
    let r = fragment().add(0x23);
    proof {
        assert(r@ =~= query_set());
    }
    r
}

/// The special-query percent-encode set: the query set and `'`.
pub fn special_query() -> (r: AsciiSet)
    ensures
        r@ == special_query_set(),
{
    let r = query().add(0x27);
    proof {
        assert(r@ =~= special_query_set());
    }
    r
}

/// The path percent-encode set: the query set and `?`, backtick, `{`, `}`.
pub fn path() -> (r: AsciiSet)
    ensures
        r@ == path_set(),
{
    let r = query().add(0x3f).add(0x60).add(0x7b).add(0x7d);
    proof {
        assert(r@ =~= path_set());
    }
    r
}

/// The userinfo percent-encode set: the path set and `/`, `:`, `;`, `=`, `@`,
/// `[`, `\`, `]`, `^`, `|`.
pub fn userinfo() -> (r: AsciiSet)
    ensures
        r@ == userinfo_set(),
{
    let r = path()
        .add(0x2f)
        .add(0x3a)
        .add(0x3b)
        .add(0x3d)
        .add(0x40)
        .add(0x5b)
        .add(0x5c)
        .add(0x5d)
        .add(0x5e)
        .add(0x7c);
    proof {
        assert(r@ =~= userinfo_set());
    }
    r
}

/// The component percent-encode set: the userinfo set and `$`, `%`, `&`, `+`,
/// `,`.
pub fn component() -> (r: AsciiSet)
    ensures
        r@ == component_set(),
{
    let r = userinfo().add(0x24).add(0x25).add(0x26).add(0x2b).add(0x2c);
    proof {
        assert(r@ =~= component_set());
    }
    r
}

/// The application/x-www-form-urlencoded percent-encode set: the component set
/// and `!`, `'`, `(`, `)`, `~`.
pub fn x_www_form_urlencoded() -> (r: AsciiSet)
    ensures
        r@ == www_form_urlencoded_set(),
{
    let r = component().add(0x21).add(0x27).add(0x28).add(0x29).add(0x7e);
    proof {
        assert(r@ =~= www_form_urlencoded_set());
    }
    r
}

/// Each encode set contains every byte of the set it is built from: membership
/// ascends the chain CONTROLS, FRAGMENT, QUERY, PATH, USERINFO, COMPONENT,
/// X-WWW-FORM-URLENCODED, and from QUERY also to SPECIAL-QUERY.
pub proof fn lemma_encode_set_chain(b: u8)
    ensures
        controls_contains(b) ==> fragment_contains(b),
        fragment_contains(b) ==> query_contains(b),
        query_contains(b) ==> special_query_contains(b),
        query_contains(b) ==> path_contains(b),
        path_contains(b) ==> userinfo_contains(b),
        userinfo_contains(b) ==> component_contains(b),
        component_contains(b) ==> www_form_urlencoded_contains(b),
{
}

} // verus!

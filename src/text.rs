//! UTF-16 little-endian text, transcoded by the `encoding` crate.

use vstd::prelude::*;
use encoding::{DecoderTrap, EncoderTrap, Encoding};
use encoding::all::UTF_16LE;

verus! {

/// The UTF-16 little-endian bytes of one character: one code unit below
/// U+10000, a surrogate pair above.
pub open spec fn utf16le_char(c: char) -> Seq<u8> {
    let u = c as u32;
    if u < 0x10000 {
        seq![(u % 256) as u8, (u / 256) as u8]
    } else {
        let v = (u - 0x10000) as u32;
        let hi = (0xD800 + v / 1024) as u32;
        let lo = (0xDC00 + v % 1024) as u32;
        seq![(hi % 256) as u8, (hi / 256) as u8, (lo % 256) as u8, (lo / 256) as u8]
    }
}

/// The UTF-16 little-endian encoding of a text, character by character.
pub open spec fn utf16le(s: Seq<char>) -> Seq<u8>
    decreases s.len(),
{
    if s.len() == 0 {
        Seq::empty()
    } else {
        utf16le(s.drop_last()) + utf16le_char(s.last())
    }
}

/// What the UTF-16LE decoder makes of `b`, replacing ill-formed units.
pub uninterp spec fn utf16le_decoded(b: Seq<u8>) -> Seq<char>;

pub proof fn lemma_utf16le_even(s: Seq<char>)
    ensures
        utf16le(s).len() % 2 == 0,
        s.len() > 0 ==> utf16le(s).len() > 0,
    decreases s.len(),
{
    if s.len() > 0 {
        lemma_utf16le_even(s.drop_last());
    }
}

/// The code unit stored little-endian at `b[i..i + 2]`.
pub open spec fn unit_at(b: Seq<u8>, i: int) -> int {
    b[i] as int + 256 * b[i + 1] as int
}

proof fn lemma_char_units(c: char)
    ensures
        (c as u32) < 0x10000 ==> {
            &&& utf16le_char(c).len() == 2
            &&& unit_at(utf16le_char(c), 0) == c as u32
            &&& !(0xDC00 <= c as u32 <= 0xDFFF)
        },
        (c as u32) >= 0x10000 ==> {
            &&& utf16le_char(c).len() == 4
            &&& 0xDC00 <= unit_at(utf16le_char(c), 2) <= 0xDFFF
            &&& (unit_at(utf16le_char(c), 0) - 0xD800) * 1024 + unit_at(utf16le_char(c), 2)
                - 0xDC00 + 0x10000 == c as u32
        },
{
    vstd::utf8::char_is_scalar(c);
    let u = c as u32;
    let e = utf16le_char(c);
    if u < 0x10000 {
        assert((u % 256) + 256 * (u / 256) == u) by (nonlinear_arith);
    } else {
        let v = (u - 0x10000) as u32;
        let hi = (0xD800 + v / 1024) as u32;
        let lo = (0xDC00 + v % 1024) as u32;
        assert(v < 0x100000);
        assert((hi % 256) + 256 * (hi / 256) == hi && (lo % 256) + 256 * (lo / 256) == lo)
            by (nonlinear_arith);
        assert(v / 1024 < 1024 && (v / 1024) * 1024 + v % 1024 == v) by (nonlinear_arith)
            requires
                v < 0x100000,
        ;
        assert(unit_at(e, 0) == hi && unit_at(e, 2) == lo);
    }
}

proof fn lemma_char_injective(c1: char, c2: char)
    requires
        utf16le_char(c1) == utf16le_char(c2),
    ensures
        c1 == c2,
{
    lemma_char_units(c1);
    lemma_char_units(c2);
    let u = c1 as u32;
    vstd::utf8::char_u32_cast(c1, u);
    vstd::utf8::char_u32_cast(c2, c2 as u32);
}

/// Different texts have different encodings.
pub proof fn lemma_utf16le_injective(s1: Seq<char>, s2: Seq<char>)
    requires
        utf16le(s1) == utf16le(s2),
    ensures
        s1 == s2,
    decreases s1.len(),
{
    lemma_utf16le_even(s1);
    lemma_utf16le_even(s2);
    if s1.len() == 0 || s2.len() == 0 {
        assert(s1 =~= s2);
    } else {
        let e = utf16le(s1);
        let (p1, p2) = (utf16le(s1.drop_last()), utf16le(s2.drop_last()));
        let (e1, e2) = (utf16le_char(s1.last()), utf16le_char(s2.last()));
        lemma_char_units(s1.last());
        lemma_char_units(s2.last());
        let n = e.len() as int;
        assert(unit_at(e, n - 2) == unit_at(e1, e1.len() - 2));
        assert(unit_at(e, n - 2) == unit_at(e2, e2.len() - 2));
        assert(e1.len() == e2.len());
        assert(e.subrange(n - e1.len(), n) =~= e1);
        assert(e.subrange(n - e2.len(), n) =~= e2);
        assert(e.subrange(0, n - e1.len()) =~= p1);
        assert(e.subrange(0, n - e2.len()) =~= p2);
        lemma_char_injective(s1.last(), s2.last());
        lemma_utf16le_injective(s1.drop_last(), s2.drop_last());
        assert(s1 =~= s1.drop_last().push(s1.last()));
        assert(s2 =~= s2.drop_last().push(s2.last()));
    }
}

/// Relies on `encoding`'s UTF_16LE encoder: it writes each character as one
/// little-endian code unit, or as a surrogate pair above U+FFFF, and reports
/// no error.
#[verifier::external_body]
pub(crate) fn encode_utf16le(s: &str) -> (r: Option<Vec<u8>>)
    ensures
        r is Some,
        r->0@ == utf16le(s@),
{
    UTF_16LE.encode(s, EncoderTrap::Replace).ok()
}

/// Relies on `encoding`'s UTF_16LE decoder under the replacing trap: it
/// always yields a text, and gives back exactly the characters whose
/// encoding it was handed.
#[verifier::external_body]
pub(crate) fn decode_utf16le(b: &[u8]) -> (r: Option<String>)
    ensures
        r is Some,
        r->0@ == utf16le_decoded(b@),
        forall|s: Seq<char>| #[trigger] utf16le(s) == b@ ==> r->0@ == s,
{
    UTF_16LE.decode(b, DecoderTrap::Replace).ok()
}

} // verus!

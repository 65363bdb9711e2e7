//! The textual form of addresses: octets in hexadecimal, separated by colons.
use vstd::prelude::*;

verus! {

/// `b` split at every colon, as `str::split(':')` splits it: `n` colons
/// give `n + 1` parts, which may be empty.
pub open spec fn spec_split_colon(b: Seq<u8>) -> Seq<Seq<u8>>
    decreases b.len(),
{
    if b.len() == 0 {
        seq![Seq::<u8>::empty()]
    } else {
        let parts = spec_split_colon(b.drop_last());
        if b.last() == 0x3a {
            parts.push(Seq::<u8>::empty())
        } else {
            parts.update(parts.len() - 1, parts.last().push(b.last()))
        }
    }
}

/// A split always has at least one part.
pub proof fn lemma_split_nonempty(b: Seq<u8>)
    ensures
        spec_split_colon(b).len() >= 1,
    decreases b.len(),
{
    if b.len() > 0 {
        lemma_split_nonempty(b.drop_last());
    }
}

/// The octet `c` is an ASCII hexadecimal digit.
pub open spec fn is_hex_digit(c: u8) -> bool {
    (0x30 <= c <= 0x39) || (0x41 <= c <= 0x46) || (0x61 <= c <= 0x66)
}

/// The value of the hexadecimal digit `c`.
pub open spec fn hex_digit_value(c: u8) -> nat {
    if 0x30 <= c <= 0x39 {
        (c - 0x30) as nat
    } else if 0x41 <= c <= 0x46 {
        (c - 0x41 + 10) as nat
    } else {
        (c - 0x61 + 10) as nat
    }
}

/// The value of the hexadecimal digits `d`, most significant first.
pub open spec fn hex_value(d: Seq<u8>) -> nat
    decreases d.len(),
{
    if d.len() == 0 {
        0
    } else {
        16 * hex_value(d.drop_last()) + hex_digit_value(d.last())
    }
}

/// The digits of `p` once an optional leading `+` is taken off.
pub open spec fn hex_digits_of(p: Seq<u8>) -> Seq<u8> {
    if p.len() > 0 && p[0] == 0x2b {
        p.subrange(1, p.len() as int)
    } else {
        p
    }
}

/// The octet `p` denotes as `u8::from_str_radix(p, 16)` reads it: an
/// optional `+` followed by at least one hexadecimal digit, with a value
/// that fits in an octet; `None` when `p` is no such text.
pub open spec fn spec_hex_u8(p: Seq<u8>) -> Option<u8> {
    let d = hex_digits_of(p);
    if d.len() > 0 && (forall|i: int| 0 <= i < d.len() ==> is_hex_digit(#[trigger] d[i])) && hex_value(d) <= 255 {
        Some(hex_value(d) as u8)
    } else {
        None
    }
}

/// A prefix of a digit string has no larger value than the whole.
proof fn lemma_hex_prefix(d: Seq<u8>, j: int)
    requires
        0 <= j <= d.len(),
    ensures
        hex_value(d.subrange(0, j)) <= hex_value(d),
    decreases d.len(),
{
    if j == d.len() {
        assert(d.subrange(0, j) =~= d);
    } else {
        lemma_hex_prefix(d.drop_last(), j);
        assert(d.drop_last().subrange(0, j) =~= d.subrange(0, j));
    }
}

/// Read the octet written in hexadecimal in `p`.
pub fn parse_hex_u8(p: &[u8]) -> (r: u8)
    requires
        spec_hex_u8(p@) is Some,
    ensures
        Some(r) == spec_hex_u8(p@),
{
    let start: usize = if p.len() > 0 && p[0] == 0x2b { 1 } else { 0 };
    let ghost d = hex_digits_of(p@);
    assert(d =~= p@.subrange(start as int, p@.len() as int));
    let mut acc: u32 = 0;
    let mut i: usize = start;
    while i < p.len()
        invariant
            start <= i <= p.len(),
            d == p@.subrange(start as int, p@.len() as int),
            forall|k: int| 0 <= k < d.len() ==> is_hex_digit(#[trigger] d[k]),
            hex_value(d) <= 255,
            acc == hex_value(p@.subrange(start as int, i as int)),
        decreases p.len() - i,
    {
        let c = p[i];
        assert(c == d[i - start]);
        let v: u32 = if 0x30 <= c && c <= 0x39 {
            (c - 0x30) as u32
        } else if 0x41 <= c && c <= 0x46 {
            (c - 0x41 + 10) as u32
        } else {
            (c - 0x61 + 10) as u32
        };
        let ghost next = p@.subrange(start as int, i + 1);
        assert(next.drop_last() =~= p@.subrange(start as int, i as int));
        assert(next =~= d.subrange(0, i + 1 - start));
        proof {
            lemma_hex_prefix(d, i + 1 - start);
        }
        acc = 16 * acc + v;
        i = i + 1;
    }
    assert(p@.subrange(start as int, i as int) =~= d);
    acc as u8
}

/// The parts of `b` split at every colon.
pub fn split_colon(b: &[u8]) -> (r: Vec<Vec<u8>>)
    ensures
        r@.map_values(|v: Vec<u8>| v@) == spec_split_colon(b@),
{
    let mut parts: Vec<Vec<u8>> = Vec::new();
    parts.push(Vec::new());
    let mut i: usize = 0;
    assert(b@.subrange(0, 0) =~= Seq::<u8>::empty());
    assert(parts@.map_values(|v: Vec<u8>| v@) =~= spec_split_colon(b@.subrange(0, 0)));
    while i < b.len()
        invariant
            i <= b.len(),
            parts@.len() >= 1,
            parts@.map_values(|v: Vec<u8>| v@) == spec_split_colon(b@.subrange(0, i as int)),
        decreases b.len() - i,
    {
        let c = b[i];
        let ghost before = parts@.map_values(|v: Vec<u8>| v@);
        assert(b@.subrange(0, i + 1).drop_last() =~= b@.subrange(0, i as int));
        if c == 0x3a {
            parts.push(Vec::new());
            assert(parts@.map_values(|v: Vec<u8>| v@) =~= before.push(Seq::<u8>::empty()));
        } else {
            let mut last = parts.pop().unwrap();
            last.push(c);
            parts.push(last);
            assert(parts@.map_values(|v: Vec<u8>| v@) =~= before.update(before.len() - 1, before.last().push(c)));
        }
        i = i + 1;
    }
    assert(b@.subrange(0, i as int) =~= b@);
    parts
}

/// The lower-case hexadecimal digit of the value `v` (below 16).
pub open spec fn hex_char(v: int) -> u8 {
    if v < 10 { (0x30 + v) as u8 } else { (0x61 + v - 10) as u8 }
}

/// The two hexadecimal digits of the octet `x`.
pub open spec fn octet_text(x: u8) -> Seq<u8> {
    seq![hex_char(x as int / 16), hex_char(x as int % 16)]
}

/// The octets `s` in hexadecimal, separated by colons.
pub open spec fn octets_text(s: Seq<u8>) -> Seq<u8>
    decreases s.len(),
{
    if s.len() <= 1 {
        if s.len() == 0 { seq![] } else { octet_text(s[0]) }
    } else {
        octets_text(s.drop_last()) + seq![0x3au8] + octet_text(s.last())
    }
}

/// A digit written by `hex_char` is a hexadecimal digit of that value, and
/// no colon.
proof fn lemma_hex_char(v: int)
    requires
        0 <= v < 16,
    ensures
        is_hex_digit(hex_char(v)),
        hex_digit_value(hex_char(v)) == v,
        hex_char(v) != 0x3a,
{
}

/// The two digits of an octet read back as the octet.
proof fn lemma_octet_text_hex(x: u8)
    ensures
        spec_hex_u8(octet_text(x)) == Some(x),
        octet_text(x)[0] != 0x3a && octet_text(x)[1] != 0x3a,
{
    let t = octet_text(x);
    let hi = x as int / 16;
    let lo = x as int % 16;
    lemma_hex_char(hi);
    lemma_hex_char(lo);
    assert(hex_digits_of(t) == t);
    let t1 = t.drop_last();
    assert(t1.drop_last() =~= Seq::<u8>::empty());
    assert(hex_value(t1.drop_last()) == 0);
    assert(t1.last() == t[0]);
    assert(hex_value(t1) == hex_digit_value(t[0]));
    assert(hex_value(t) == 16 * hex_value(t1) + hex_digit_value(t[1]));
    assert(hex_value(t) == 16 * hi + lo);
    assert(forall|i: int| 0 <= i < t.len() ==> is_hex_digit(#[trigger] t[i]));
}

/// The parts of a text with no colon but its last octet, which is none.
proof fn lemma_split_push(b: Seq<u8>, c: u8)
    requires
        c != 0x3a,
    ensures
        spec_split_colon(b.push(c)) == spec_split_colon(b).update(
            spec_split_colon(b).len() - 1,
            spec_split_colon(b).last().push(c),
        ),
{
    assert(b.push(c).drop_last() =~= b);
}

/// The parts of a text whose last octet is a colon.
proof fn lemma_split_push_colon(b: Seq<u8>)
    ensures
        spec_split_colon(b.push(0x3a)) == spec_split_colon(b).push(Seq::<u8>::empty()),
{
    assert(b.push(0x3a).drop_last() =~= b);
}

/// Splitting the text of the octets `s` at its colons gives the two digits
/// of each octet.
pub proof fn lemma_octets_text_split(s: Seq<u8>)
    requires
        s.len() >= 1,
    ensures
        spec_split_colon(octets_text(s)).len() == s.len(),
        forall|k: int| 0 <= k < s.len() ==> #[trigger] spec_split_colon(octets_text(s))[k] == octet_text(s[k]),
    decreases s.len(),
{
    lemma_octet_text_hex(s.last());
    let c = octet_text(s.last());
    let e = Seq::<u8>::empty();
    if s.len() == 1 {
        let t = octets_text(s);
        assert(t == c);
        assert(e.push(c[0]).push(c[1]) =~= t);
        lemma_split_push(e, c[0]);
        lemma_split_push(e.push(c[0]), c[1]);
        assert(spec_split_colon(e) =~= seq![e]);
        assert(spec_split_colon(e.push(c[0])) =~= seq![seq![c[0]]]);
        assert(seq![c[0]].push(c[1]) =~= c);
        assert(spec_split_colon(t) =~= seq![c]);
    } else {
        lemma_octets_text_split(s.drop_last());
        let p = octets_text(s.drop_last());
        let t = octets_text(s);
        assert(p.push(0x3a).push(c[0]).push(c[1]) =~= t);
        let ps = spec_split_colon(p);
        lemma_split_push_colon(p);
        lemma_split_push(p.push(0x3a), c[0]);
        lemma_split_push(p.push(0x3a).push(c[0]), c[1]);
        assert(spec_split_colon(p.push(0x3a)) =~= ps.push(e));
        assert(spec_split_colon(p.push(0x3a).push(c[0])) =~= ps.push(seq![c[0]]));
        assert(seq![c[0]].push(c[1]) =~= c);
        assert(spec_split_colon(t) =~= ps.push(c));
        assert forall|k: int| 0 <= k < s.len() implies #[trigger] spec_split_colon(octets_text(s))[k] == octet_text(s[k]) by {
            if k < s.len() - 1 {
                assert(s.drop_last()[k] == s[k]);
            }
        }
    }
}

/// The text of at least one octet is not empty.
pub proof fn lemma_text_nonempty(s: Seq<u8>)
    requires
        s.len() >= 1,
    ensures
        octets_text(s).len() >= 2,
    decreases s.len(),
{
    if s.len() > 1 {
        lemma_text_nonempty(s.drop_last());
    }
}

/// Each part of the text of the octets `s` reads back as its octet.
pub proof fn lemma_octets_text_hex(s: Seq<u8>)
    requires
        s.len() >= 1,
    ensures
        forall|k: int| 0 <= k < s.len() ==> spec_hex_u8(#[trigger] spec_split_colon(octets_text(s))[k]) == Some(s[k]),
{
    lemma_octets_text_split(s);
    assert forall|k: int| 0 <= k < s.len() implies spec_hex_u8(#[trigger] spec_split_colon(octets_text(s))[k]) == Some(s[k]) by {
        lemma_octet_text_hex(s[k]);
    }
}

/// The lower-case hexadecimal digit of the value `v`.
fn hex_digit(v: u8) -> (r: u8)
    requires
        v < 16,
    ensures
        r == hex_char(v as int),
{
    if v < 10 { 0x30 + v } else { 0x61 + v - 10 }
}

/// The octets `s` in lower-case hexadecimal, two digits each, separated by
/// colons.
pub fn octets_hex_text(s: &[u8]) -> (r: Vec<u8>)
    ensures
        r@ == octets_text(s@),
{
    let mut r: Vec<u8> = Vec::new();
    let mut i: usize = 0;
    assert(s@.subrange(0, 0).len() == 0);
    while i < s.len()
        invariant
            i <= s.len(),
            r@ == octets_text(s@.subrange(0, i as int)),
        decreases s.len() - i,
    {
        let x = s[i];
        let ghost before = r@;
        let ghost next = s@.subrange(0, i + 1);
        assert(next.drop_last() =~= s@.subrange(0, i as int));
        assert(next.last() == x);
        if i > 0 {
            r.push(0x3a);
        }
        r.push(hex_digit(x / 16));
        r.push(hex_digit(x % 16));
        if i == 0 {
            assert(r@ =~= octet_text(x));
            assert(next =~= seq![x]);
        } else {
            assert(r@ =~= before + seq![0x3au8] + octet_text(x));
        }
        i = i + 1;
    }
    assert(s@.subrange(0, i as int) =~= s@);
    r
}

} // verus!

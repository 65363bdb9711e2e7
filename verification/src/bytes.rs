//! Little-endian integer fields in byte buffers.
use vstd::prelude::*;

verus! {

/// The 16-bit value of the little-endian bytes `lo`, `hi`.
pub open spec fn le16(lo: u8, hi: u8) -> u16 {
    ((hi as u16) << 8u16) | (lo as u16)
}

/// Splitting a 16-bit value into bytes and joining them again gives the value back.
pub proof fn lemma_le16_split(v: u16)
    ensures
        le16((v & 0xff) as u8, (v >> 8u16) as u8) == v,
{
    assert((((v >> 8u16) as u8 as u16) << 8u16) | ((v & 0xff) as u8 as u16) == v) by (bit_vector);
}

/// Joining two bytes and splitting the value gives the bytes back.
pub proof fn lemma_le16_join(lo: u8, hi: u8)
    ensures
        (le16(lo, hi) & 0xff) as u8 == lo,
        (le16(lo, hi) >> 8u16) as u8 == hi,
{
    assert(((((hi as u16) << 8u16) | (lo as u16)) & 0xff) as u8 == lo) by (bit_vector);
    assert(((((hi as u16) << 8u16) | (lo as u16)) >> 8u16) as u8 == hi) by (bit_vector);
}

/// Bounds of the small bit fields of an octet.
pub proof fn lemma_u8_fields(x: u8)
    by (bit_vector)
    ensures
        x & 1 <= 1,
        x & 7 <= 7,
        x & 0xf <= 15,
        (x >> 4u8) & 7 <= 7,
        (x >> 4u8) & 0xf <= 15,
        x >> 4u8 <= 15,
{
}

/// Read the little-endian 16-bit value at `i`.
pub fn read_le16(b: &[u8], i: usize) -> (r: u16)
    requires
        i + 2 <= b.len(),
    ensures
        r == le16(b@[i as int], b@[i + 1]),
{
    ((b[i + 1] as u16) << 8u16) | (b[i] as u16)
}

/// Write `v` as two little-endian bytes at `i`.
pub fn write_le16(b: &mut [u8], i: usize, v: u16)
    requires
        i + 2 <= old(b)@.len(),
    ensures
        final(b)@ == old(b)@.update(i as int, (v & 0xff) as u8).update(i + 1, (v >> 8u16) as u8),
{
    b[i] = (v & 0xff) as u8;
    b[i + 1] = (v >> 8u16) as u8;
}

/// The little-endian value of `n` bytes starting at `i` (least significant first).
pub open spec fn le_value(b: Seq<u8>, i: int, n: nat) -> int
    decreases n,
{
    if n == 0 {
        0
    } else {
        b[i] as int + 256 * le_value(b, i + 1, (n - 1) as nat)
    }
}

/// `le_value` of `n` bytes is below `256^n`.
pub proof fn lemma_le_value_bound(b: Seq<u8>, i: int, n: nat)
    ensures
        0 <= le_value(b, i, n) < pow256(n),
    decreases n,
{
    if n > 0 {
        lemma_le_value_bound(b, i + 1, (n - 1) as nat);
    }
}

/// `256` to the power `n`.
pub open spec fn pow256(n: nat) -> int
    decreases n,
{
    if n == 0 {
        1
    } else {
        256 * pow256((n - 1) as nat)
    }
}

/// Read an unsigned little-endian integer of `n <= 8` bytes at `i`.
pub fn read_le_uint(b: &[u8], i: usize, n: usize) -> (r: u64)
    requires
        n <= 8,
        i + n <= b.len(),
    ensures
        r as int == le_value(b@, i as int, n as nat),
{
    let mut acc: u64 = 0;
    let mut k: usize = n;
    while k > 0
        invariant
            k <= n <= 8,
            i + n <= b.len(),
            acc as int == le_value(b@, (i + k) as int, (n - k) as nat),
        decreases k,
    {
        k = k - 1;
        proof {
            lemma_le_value_bound(b@, (i + k + 1) as int, (n - k - 1) as nat);
            lemma_pow256_le(((n - k - 1) as nat), 7);
        }
        assert(acc < 0x0100_0000_0000_0000) by {
            reveal_with_fuel(pow256, 8);
        }
        acc = acc * 256 + (b[i + k] as u64);
    }
    acc
}

/// `pow256` is monotonic.
pub proof fn lemma_pow256_le(m: nat, n: nat)
    requires
        m <= n,
    ensures
        1 <= pow256(m) <= pow256(n),
    decreases n,
{
    if m < n {
        lemma_pow256_le(m, (n - 1) as nat);
    } else if n > 0 {
        lemma_pow256_le((n - 1) as nat, (n - 1) as nat);
    }
}


/// `s` with the octets from `off` on replaced by `x`.
pub open spec fn splice(s: Seq<u8>, off: int, x: Seq<u8>) -> Seq<u8> {
    s.subrange(0, off) + x + s.skip(off + x.len())
}

/// Two adjacent splices are one splice of the concatenation.
pub proof fn lemma_splice_splice(s: Seq<u8>, off: int, a: Seq<u8>, b: Seq<u8>)
    requires
        0 <= off,
        off + a.len() + b.len() <= s.len(),
    ensures
        splice(splice(s, off, a), off + a.len(), b) == splice(s, off, a + b),
{
    assert(splice(splice(s, off, a), off + a.len(), b) =~= splice(s, off, a + b));
}

/// Write `v` as two little-endian bytes at `i`, stated as a splice.
pub fn write_le16_at(b: &mut [u8], i: usize, v: u16)
    requires
        i + 2 <= old(b)@.len(),
    ensures
        final(b)@ == splice(old(b)@, i as int, seq![(v & 0xff) as u8, (v >> 8u16) as u8]),
{
    let ghost old_b = b@;
    write_le16(b, i, v);
    assert(b@ =~= splice(old_b, i as int, seq![(v & 0xff) as u8, (v >> 8u16) as u8]));
}

/// Copy `src` into `b` at `off`.
pub fn copy_at(b: &mut [u8], off: usize, src: &[u8])
    requires
        off + src@.len() <= old(b)@.len(),
    ensures
        final(b)@ == splice(old(b)@, off as int, src@),
{
    let ghost old_b = b@;
    let len = b.len();
    let n = src.len();
    let mut i: usize = 0;
    while i < n
        invariant
            n == src@.len(),
            len == old_b.len(),
            off + n <= len,
            i <= n,
            b@.len() == old_b.len(),
            forall|j: int| 0 <= j < off ==> b@[j] == old_b[j],
            forall|j: int| off + n <= j < old_b.len() ==> b@[j] == old_b[j],
            forall|k: int| off <= k < off + i ==> #[trigger] b@[k] == src@[k - off],
        decreases n - i,
    {
        b[off + i] = src[i];
        i = i + 1;
    }
    assert(b@ =~= splice(old_b, off as int, src@));
}

/// The `n` little-endian octets of `v` (its `n` least significant octets).
pub open spec fn le_bytes(v: u64, n: nat) -> Seq<u8>
    decreases n,
{
    if n == 0 {
        seq![]
    } else {
        seq![(v & 0xff) as u8] + le_bytes(v >> 8u64, (n - 1) as nat)
    }
}

/// `le_bytes(v, n)` has `n` octets.
pub proof fn lemma_le_bytes_len(v: u64, n: nat)
    ensures
        le_bytes(v, n).len() == n,
    decreases n,
{
    if n > 0 {
        lemma_le_bytes_len(v >> 8u64, (n - 1) as nat);
    }
}

/// Reading back `n` little-endian octets of `v` gives `v` modulo `256^n`.
pub proof fn lemma_le_bytes_value(v: u64, n: nat, b: Seq<u8>, i: int)
    requires
        0 <= i,
        i + n <= b.len(),
        b.subrange(i, i + n) == le_bytes(v, n),
    ensures
        le_value(b, i, n) == v as int % pow256(n),
    decreases n,
{
    if n > 0 {
        lemma_le_bytes_len(v >> 8u64, (n - 1) as nat);
        assert(b[i] == b.subrange(i, i + n)[0]);
        assert(b.subrange(i + 1, i + n) =~= b.subrange(i, i + n).subrange(1, n as int));
        assert(le_bytes(v, n).subrange(1, n as int) =~= le_bytes(v >> 8u64, (n - 1) as nat));
        assert(b.subrange(i + 1, i + 1 + (n - 1)) =~= b.subrange(i + 1, i + n));
        lemma_le_bytes_value(v >> 8u64, (n - 1) as nat, b, i + 1);
        assert((v & 0xff) == v % 256 && v >> 8u64 == v / 256) by (bit_vector);
        lemma_pow256_le(0, (n - 1) as nat);
        vstd::arithmetic::div_mod::lemma_breakdown(v as int, 256, pow256((n - 1) as nat));
    }
}

/// Write the `n <= 8` least significant octets of `value`, little-endian, at
/// `off`.
pub fn write_le_uint(b: &mut [u8], off: usize, n: usize, value: u64)
    requires
        n <= 8,
        off + n <= old(b)@.len(),
    ensures
        final(b)@ == splice(old(b)@, off as int, le_bytes(value, n as nat)),
    decreases n,
{
    let _len = b.len();
    proof {
        lemma_le_bytes_len(value, n as nat);
    }
    if n == 0 {
        assert(b@ =~= splice(b@, off as int, le_bytes(value, 0)));
        return;
    }
    let ghost old_b = b@;
    b[off] = (value & 0xff) as u8;
    let ghost mid = b@;
    write_le_uint(b, off + 1, n - 1, value >> 8u64);
    let ghost rest = le_bytes(value >> 8u64, (n - 1) as nat);
    proof {
        lemma_le_bytes_len(value >> 8u64, (n - 1) as nat);
    }
    assert(le_bytes(value, n as nat) == seq![(value & 0xff) as u8] + rest);
    assert(mid == old_b.update(off as int, (value & 0xff) as u8));
    assert(b@ == splice(mid, off + 1, rest));
    assert(b@ =~= splice(old_b, off as int, seq![(value & 0xff) as u8] + rest));
}

/// `n` zero octets.
pub open spec fn zeros(n: nat) -> Seq<u8> {
    Seq::new(n, |i: int| 0u8)
}

/// Set every octet of `b` to zero.
pub fn fill_zero(b: &mut [u8])
    ensures
        final(b)@ == zeros(old(b)@.len()),
{
    let n = b.len();
    let mut i: usize = 0;
    while i < n
        invariant
            n == b@.len(),
            i <= n,
            forall|j: int| 0 <= j < i ==> b@[j] == 0u8,
        decreases n - i,
    {
        b[i] = 0;
        i = i + 1;
    }
    assert(b@ =~= zeros(n as nat));
}

} // verus!

//! High-level representation of the Payload Information Elements.
use vstd::prelude::*;

use crate::bytes::{fill_zero, lemma_splice_splice, splice, write_le16_at, zeros};
use crate::ie::nested::{nested_step, nie_len};
use crate::ie::payloads::{pie_group_id, pie_len, PayloadGroupId, PayloadInformationElement};
use crate::ie::tsch::le2;
use crate::repr::ie::lists::{nested_new, nested_of, nested_push, nested_slice};
use crate::repr::ie::nested::{
    spec_nested_matches, spec_nested_ok, spec_nested_repr_bytes, NestedInformationElementRepr,
};
use crate::Error;

verus! {

/// The nested IEs the iteration over `d` yields from the state (`o`,
/// `terminated`): the octets from where each one starts.
pub open spec fn spec_nested_ies(d: Seq<u8>, o: int, terminated: bool) -> Seq<Seq<u8>>
    decreases d.len() - o,
{
    if terminated {
        seq![]
    } else {
        match nested_step(d, o) {
            None => seq![],
            Some((next, t)) => if t || next <= o {
                seq![d.subrange(o, d.len() as int)]
            } else {
                seq![d.subrange(o, d.len() as int)] + spec_nested_ies(d, next, false)
            },
        }
    }
}

/// The number of elements the parse reads: at most seventeen, the last of
/// which no longer fits the list.
pub open spec fn spec_nested_read(n: nat) -> nat {
    if n <= 17 { n } else { 17 }
}

/// The number of elements the parse keeps: at most sixteen.
pub open spec fn spec_nested_kept(n: nat) -> nat {
    if n <= 16 { n } else { 16 }
}

/// The nested IEs read hold their whole content.
pub open spec fn spec_nested_ies_fit(ies: Seq<Seq<u8>>) -> bool {
    forall|i: int| 0 <= i < spec_nested_read(ies.len()) ==> #[trigger] ies[i].len() >= 2 + nie_len(ies[i][0], ies[i][1])
}

/// The content of the Payload IE `b`.
pub open spec fn spec_payload_content(b: Seq<u8>) -> Seq<u8> {
    b.subrange(2, 2 + pie_len(b[0], b[1]) as int)
}

/// The nested IEs of the Payload IE `b`.
pub open spec fn spec_payload_nested(b: Seq<u8>) -> Seq<Seq<u8>> {
    let c = spec_payload_content(b);
    spec_nested_ies(c, 0, c.len() == 0)
}

/// The octets of a list of nested IE representations.
pub open spec fn spec_nested_list_bytes(s: Seq<NestedInformationElementRepr>) -> Seq<u8>
    decreases s.len(),
{
    if s.len() == 0 {
        seq![]
    } else {
        spec_nested_list_bytes(s.drop_last()) + spec_nested_repr_bytes(s.last())
    }
}

/// A high-level representation of a Payload Information Element.
#[derive(Debug)]
#[allow(clippy::large_enum_variant)]
pub enum PayloadInformationElementRepr {
    /// An MLME Payload IE and its nested IEs.
    Mlme(heapless::Vec<NestedInformationElementRepr, 16>),
    /// A Payload Termination IE.
    PayloadTermination,
}

/// The octets the content of a representation is written as.
pub open spec fn spec_payload_inner_bytes(r: PayloadInformationElementRepr) -> Seq<u8> {
    match r {
        PayloadInformationElementRepr::Mlme(l) => spec_nested_list_bytes(nested_of(l)),
        PayloadInformationElementRepr::PayloadTermination => seq![],
    }
}

/// The group ID of a representation.
pub open spec fn spec_payload_repr_group(r: PayloadInformationElementRepr) -> PayloadGroupId {
    match r {
        PayloadInformationElementRepr::Mlme(_) => PayloadGroupId::Mlme,
        PayloadInformationElementRepr::PayloadTermination => PayloadGroupId::PayloadTermination,
    }
}

/// The header word of a Payload IE with content length `len` and group
/// `id`, written over a cleared word.
pub open spec fn spec_payload_word(len: u16, id: PayloadGroupId) -> u16 {
    (((0u16 & !0b0000_0111_1111_1111u16) | (len & 0b0000_0111_1111_1111)) & !0b0111_1000_0000_0000u16)
        | ((id.spec_value() as u16) << 11u16) | 0b1000_0000_0000_0000
}

/// The octets a representation is written as.
pub open spec fn spec_payload_repr_bytes(r: PayloadInformationElementRepr) -> Seq<u8> {
    le2(spec_payload_word(spec_payload_inner_bytes(r).len() as u16, spec_payload_repr_group(r))) + spec_payload_inner_bytes(r)
}

/// The Payload IE `b` is an MLME IE whose nested IEs read are supported and
/// accepted.
pub open spec fn spec_payload_ok(b: Seq<u8>) -> bool {
    let ies = spec_payload_nested(b);
    &&& pie_group_id(b[0], b[1]) is Mlme
    &&& forall|i: int| 0 <= i < spec_nested_read(ies.len()) ==> spec_nested_ok(#[trigger] ies[i])
}

/// `r` represents the Payload IE `b`: its first nested IEs, at most
/// sixteen.
pub open spec fn spec_payload_matches(r: PayloadInformationElementRepr, b: Seq<u8>) -> bool {
    let ies = spec_payload_nested(b);
    &&& r matches PayloadInformationElementRepr::Mlme(l)
    &&& nested_of(l).len() == spec_nested_kept(ies.len())
    &&& forall|i: int| 0 <= i < nested_of(l).len() ==> spec_nested_matches(#[trigger] nested_of(l)[i], ies[i])
}

/// Stepping the nested IE iteration.
proof fn lemma_nested_ies_step(d: Seq<u8>, o: int, next: int, t: bool)
    requires
        0 <= o < d.len(),
        nested_step(d, o) == Some((next, t)),
    ensures
        spec_nested_ies(d, o, false) == seq![d.subrange(o, d.len() as int)] + spec_nested_ies(d, next, t),
{
    if !t {
        assert(next > o);
    }
}

impl PayloadInformationElementRepr {
    /// Parse a Payload Information Element: an MLME IE and its nested IEs,
    /// at most sixteen kept; fails for other groups and for a nested IE
    /// that cannot be parsed.
    pub fn parse(ie: &PayloadInformationElement<&[u8]>) -> (r: Result<Self, Error>)
        requires
            ie@.len() >= 2 + ie.spec_length(),
            ie.spec_group_id() is Mlme ==> spec_nested_ies_fit(spec_payload_nested(ie@)),
        ensures
            r is Ok <==> spec_payload_ok(ie@),
            r matches Ok(v) ==> spec_payload_matches(v, ie@),
    {
        match ie.group_id() {
            PayloadGroupId::Mlme => {
                let ghost c = spec_payload_content(ie@);
                let ghost ies = spec_payload_nested(ie@);
                let mut list = nested_new();
                let mut iter = ie.nested_information_elements();
                let ghost mut k: nat = 0;
                loop
                    invariant_except_break
                        ies.subrange(k as int, ies.len() as int) == spec_nested_ies(c, iter.offset as int, iter.terminated),
                        nested_of(list).len() == k,
                    invariant
                        iter.wf(),
                        iter.data@ == c,
                        c == spec_payload_content(ie@),
                        ies == spec_payload_nested(ie@),
                        ies == spec_nested_ies(c, 0, c.len() == 0),
                        spec_nested_ies_fit(ies),
                        k <= ies.len(),
                        k <= 16,
                        nested_of(list).len() <= k,
                        nested_of(list).len() == spec_nested_kept(k),
                        forall|i: int| 0 <= i < k ==> spec_nested_ok(#[trigger] ies[i]),
                        forall|i: int| 0 <= i < nested_of(list).len() ==> spec_nested_matches(#[trigger] nested_of(list)[i], ies[i]),
                    ensures
                        nested_of(list).len() == spec_nested_kept(ies.len()),
                        forall|i: int| 0 <= i < spec_nested_read(ies.len()) ==> spec_nested_ok(#[trigger] ies[i]),
                        forall|i: int| 0 <= i < nested_of(list).len() ==> spec_nested_matches(#[trigger] nested_of(list)[i], ies[i]),
                    decreases (if iter.terminated { 0int } else { c.len() - iter.offset + 1 }),
                {
                    let ghost o = iter.offset as int;
                    let ghost t0 = iter.terminated;
                    match iter.next() {
                        Some(nested) => {
                            proof {
                                assert(!t0);
                                assert(0 <= o < c.len());
                                assert(nested_step(c, o) is Some);
                                let (next, t) = nested_step(c, o).unwrap();
                                lemma_nested_ies_step(c, o, next, t);
                                assert(spec_nested_ies(c, o, false)[0] == c.subrange(o, c.len() as int));
                                assert(ies.subrange(k as int, ies.len() as int)[0] == c.subrange(o, c.len() as int));
                                assert(spec_nested_ies(c, o, false).len() >= 1);
                                assert(ies.subrange(k as int, ies.len() as int).len() >= 1);
                                assert(k < ies.len());
                                assert(ies[k as int] == c.subrange(o, c.len() as int));
                                assert(nested@ =~= c.subrange(o, c.len() as int));
                            }
                            let repr = match NestedInformationElementRepr::parse(&nested) {
                                Ok(repr) => repr,
                                Err(e) => {
                                    assert(!spec_nested_ok(ies[k as int]));
                                    assert(k < spec_nested_read(ies.len()));
                                    return Err(e);
                                },
                            };
                            assert(spec_nested_ok(ies[k as int]));
                            if nested_push(&mut list, repr).is_err() {
                                assert(k == 16);
                                break;
                            }
                            proof {
                                assert(ies.subrange((k + 1) as int, ies.len() as int) =~= ies.subrange(k as int, ies.len() as int).skip(1));
                                k = k + 1;
                            }
                        },
                        None => {
                            proof {
                                assert(spec_nested_ies(c, o, t0) =~= Seq::<Seq<u8>>::empty());
                            }
                            break;
                        },
                    }
                }
                Ok(Self::Mlme(list))
            },
            _ => Err(Error),
        }
    }

    /// The group ID of this element.
    pub fn group_id(&self) -> (r: PayloadGroupId)
        ensures
            r == spec_payload_repr_group(*self),
    {
        match self {
            Self::Mlme(_) => PayloadGroupId::Mlme,
            Self::PayloadTermination => PayloadGroupId::PayloadTermination,
        }
    }

    /// The buffer length required to emit the element.
    pub fn buffer_len(&self) -> (r: usize)
        ensures
            r == spec_payload_repr_bytes(*self).len(),
            r <= 1202,
    {
        2 + self.inner_len()
    }

    /// The length of the content of the element.
    fn inner_len(&self) -> (r: usize)
        ensures
            r == spec_payload_inner_bytes(*self).len(),
            r <= 1200,
    {
        match self {
            Self::Mlme(nested_ies) => {
                let s = nested_slice(nested_ies);
                let mut len: usize = 0;
                let mut i: usize = 0;
                while i < s.len()
                    invariant
                        s@.len() <= 16,
                        i <= s@.len(),
                        len == spec_nested_list_bytes(s@.take(i as int)).len(),
                        len <= 75 * i,
                    decreases s@.len() - i,
                {
                    let l = s[i].buffer_len();
                    assert(s@.take(i + 1).drop_last() =~= s@.take(i as int));
                    len = len + l;
                    i = i + 1;
                }
                assert(s@.take(s@.len() as int) =~= s@);
                len
            },
            Self::PayloadTermination => 0,
        }
    }

    /// Emit the element into `buffer`; the octets after it are cleared. A
    /// Payload Termination IE cannot be emitted.
    pub fn emit(&self, buffer: &mut [u8])
        requires
            *self is Mlme,
            old(buffer)@.len() >= spec_payload_repr_bytes(*self).len(),
        ensures
            final(buffer)@ == spec_payload_repr_bytes(*self) + zeros((old(buffer)@.len() - spec_payload_repr_bytes(*self).len()) as nat),
    {
        let ghost n = buffer@.len();
        let len = self.inner_len() as u16;
        let id = self.group_id();
        fill_zero(buffer);
        let v: u16 = 0;
        let w1 = (v & !0b0000_0111_1111_1111u16) | (len & 0b0000_0111_1111_1111);
        let word = (w1 & !0b0111_1000_0000_0000u16) | ((id.value() as u16) << 11u16) | 0b1000_0000_0000_0000;
        write_le16_at(buffer, 0, word);
        let ghost head = le2(word);
        let (_head, content) = buffer.split_at_mut(2);
        let ghost c0 = content@;
        match self {
            Self::Mlme(nested_ies) => {
                let s = nested_slice(nested_ies);
                let clen = content.len();
                let mut offset: usize = 0;
                let mut i: usize = 0;
                while i < s.len()
                    invariant
                        s@ == nested_of(*nested_ies),
                        s@.len() <= 16,
                        i <= s@.len(),
                        clen == content@.len(),
                        clen >= spec_nested_list_bytes(s@).len(),
                        offset == spec_nested_list_bytes(s@.take(i as int)).len(),
                        offset <= clen,
                        content@ == spec_nested_list_bytes(s@.take(i as int)) + zeros((clen - offset) as nat),
                    decreases s@.len() - i,
                {
                    proof {
                        lemma_nested_list_prefix(s@, i as int);
                    }
                    let l = s[i].buffer_len();
                    let (_done, rest) = content.split_at_mut(offset);
                    s[i].emit(rest);
                    proof {
                        assert(s@.take(i + 1).drop_last() =~= s@.take(i as int));
                        assert(content@ =~= spec_nested_list_bytes(s@.take(i + 1)) + zeros((clen - offset - l) as nat));
                    }
                    offset = offset + l;
                    i = i + 1;
                }
                assert(s@.take(s@.len() as int) =~= s@);
            },
            Self::PayloadTermination => {},
        }
        assert(buffer@ =~= spec_payload_repr_bytes(*self) + zeros((n - spec_payload_repr_bytes(*self).len()) as nat));
    }
}

/// A prefix of a list is written as a prefix of its octets.
proof fn lemma_nested_list_prefix(s: Seq<NestedInformationElementRepr>, i: int)
    requires
        0 <= i < s.len(),
    ensures
        spec_nested_list_bytes(s.take(i + 1)).len() <= spec_nested_list_bytes(s).len(),
        spec_nested_list_bytes(s.take(i + 1)) == spec_nested_list_bytes(s.take(i)) + spec_nested_repr_bytes(s[i]),
    decreases s.len() - i,
{
    assert(s.take(i + 1).drop_last() =~= s.take(i));
    if i + 1 < s.len() {
        lemma_nested_list_prefix(s, i + 1);
    } else {
        assert(s.take(i + 1) =~= s);
    }
}

} // verus!

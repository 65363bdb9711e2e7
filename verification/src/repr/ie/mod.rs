//! High-level representations of Information Elements.
use vstd::prelude::*;

pub mod headers;
pub mod nested;
pub mod payloads;
pub mod lists;
pub mod roundtrip;

use crate::bytes::{lemma_splice_splice, splice};
use crate::ie::headers::{header_step, hie_len};
use crate::ie::payloads::{payload_step, pie_group_id, pie_len};
use crate::ie::{spec_headers_end, InformationElements};
use crate::repr::ie::headers::{spec_header_repr_bytes, spec_parse_header_ie, HeaderInformationElementRepr};
use crate::repr::ie::lists::{
    header_ies_new, header_ies_of, header_ies_push, header_ies_slice, payload_ies_new, payload_ies_of,
    payload_ies_push, payload_ies_slice,
};
use crate::repr::ie::payloads::{
    spec_nested_ies_fit, spec_nested_kept, spec_nested_read, spec_payload_matches, spec_payload_nested,
    spec_payload_ok, spec_payload_repr_bytes, PayloadInformationElementRepr,
};
use crate::Error;

verus! {

/// The Header IEs the iteration over `d` yields from the state (`o`,
/// `terminated`): the octets from where each one starts.
pub open spec fn spec_header_ies(d: Seq<u8>, o: int, terminated: bool) -> Seq<Seq<u8>>
    decreases d.len() - o,
{
    if terminated {
        seq![]
    } else {
        match header_step(d, o) {
            None => seq![],
            Some((next, t)) => if t || next <= o {
                seq![d.subrange(o, d.len() as int)]
            } else {
                seq![d.subrange(o, d.len() as int)] + spec_header_ies(d, next, false)
            },
        }
    }
}

/// The Payload IEs the iteration over `d` yields from the state (`o`,
/// `terminated`).
pub open spec fn spec_payload_ies(d: Seq<u8>, o: int, terminated: bool) -> Seq<Seq<u8>>
    decreases d.len() - o,
{
    if terminated {
        seq![]
    } else {
        match payload_step(d, o) {
            None => seq![],
            Some((next, t)) => if t || next <= o {
                seq![d.subrange(o, d.len() as int)]
            } else {
                seq![d.subrange(o, d.len() as int)] + spec_payload_ies(d, next, false)
            },
        }
    }
}

/// The Header IEs of the Information Elements `d`.
pub open spec fn spec_ie_headers(d: Seq<u8>) -> Seq<Seq<u8>> {
    spec_header_ies(d, 0, d.len() == 0)
}

/// The Payload IEs of the Information Elements `d`: they follow the Header
/// IEs.
pub open spec fn spec_ie_payloads(d: Seq<u8>) -> Seq<Seq<u8>> {
    let h = spec_headers_end(d);
    spec_payload_ies(d.subrange(h, d.len() as int), 0, h >= d.len())
}

/// The Header IE `b` holds its whole content.
pub open spec fn spec_header_fits(b: Seq<u8>) -> bool {
    b.len() >= 2 + hie_len(b[0], b[1])
}

/// The Payload IE `b` holds its whole content, and so do its nested IEs.
pub open spec fn spec_payload_fits(b: Seq<u8>) -> bool {
    &&& b.len() >= 2 + pie_len(b[0], b[1])
    &&& (pie_group_id(b[0], b[1]) is Mlme ==> spec_nested_ies_fit(spec_payload_nested(b)))
}

/// The elements read from the Information Elements `d` hold their contents,
/// up to the first one that cannot be parsed.
pub open spec fn spec_ies_parse_safe(d: Seq<u8>) -> bool {
    let hs = spec_ie_headers(d);
    let ps = spec_ie_payloads(d);
    &&& d.len() <= usize::MAX / 2
    &&& forall|i: int| 0 <= i < spec_nested_read(hs.len()) && (forall|j: int| 0 <= j < i ==> #[trigger] spec_parse_header_ie(hs[j]) is Some)
        ==> spec_header_fits(#[trigger] hs[i])
    &&& (forall|i: int| 0 <= i < spec_nested_read(hs.len()) ==> #[trigger] spec_parse_header_ie(hs[i]) is Some) ==> {
        &&& spec_headers_end(d) <= d.len()
        &&& forall|i: int| 0 <= i < spec_nested_read(ps.len()) && (forall|j: int| 0 <= j < i ==> #[trigger] spec_payload_ok(ps[j]))
            ==> spec_payload_fits(#[trigger] ps[i])
    }
}

/// Every element read from the Information Elements `d` can be parsed.
pub open spec fn spec_ies_parse_ok(d: Seq<u8>) -> bool {
    let hs = spec_ie_headers(d);
    let ps = spec_ie_payloads(d);
    &&& forall|i: int| 0 <= i < spec_nested_read(hs.len()) ==> #[trigger] spec_parse_header_ie(hs[i]) is Some
    &&& forall|i: int| 0 <= i < spec_nested_read(ps.len()) ==> #[trigger] spec_payload_ok(ps[i])
}

/// `r` represents the Information Elements `d`: their first Header and
/// Payload IEs, at most sixteen of each.
pub open spec fn spec_ies_matches(r: InformationElementsRepr, d: Seq<u8>) -> bool {
    let hs = spec_ie_headers(d);
    let ps = spec_ie_payloads(d);
    let rh = header_ies_of(r.header_information_elements);
    let rp = payload_ies_of(r.payload_information_elements);
    &&& rh.len() == spec_nested_kept(hs.len())
    &&& forall|i: int| 0 <= i < rh.len() ==> spec_parse_header_ie(hs[i]) == Some(#[trigger] rh[i])
    &&& rp.len() == spec_nested_kept(ps.len())
    &&& forall|i: int| 0 <= i < rp.len() ==> spec_payload_matches(#[trigger] rp[i], ps[i])
}

/// The octets of a list of Header IE representations.
pub open spec fn spec_header_list_bytes(s: Seq<HeaderInformationElementRepr>) -> Seq<u8>
    decreases s.len(),
{
    if s.len() == 0 {
        seq![]
    } else {
        spec_header_list_bytes(s.drop_last()) + spec_header_repr_bytes(s.last())
    }
}

/// The octets of a list of Payload IE representations.
pub open spec fn spec_payload_list_bytes(s: Seq<PayloadInformationElementRepr>) -> Seq<u8>
    decreases s.len(),
{
    if s.len() == 0 {
        seq![]
    } else {
        spec_payload_list_bytes(s.drop_last()) + spec_payload_repr_bytes(s.last())
    }
}

/// The termination elements written: a Header Termination 1 before Payload
/// IEs, a Header Termination 2 after Header IEs that the payload follows,
/// and a Payload Termination after Payload IEs that the payload follows.
pub open spec fn spec_terminations(has_headers: bool, has_payloads: bool, contains_payload: bool) -> (bool, bool, bool) {
    (has_payloads, has_headers && !has_payloads && contains_payload, has_payloads && contains_payload)
}

/// The octets Information Elements are written as (the Payload
/// Termination, which cannot be written, left out).
pub open spec fn spec_ies_repr_bytes(
    hs: Seq<HeaderInformationElementRepr>,
    ps: Seq<PayloadInformationElementRepr>,
    contains_payload: bool,
) -> Seq<u8> {
    let t = spec_terminations(hs.len() > 0, ps.len() > 0, contains_payload);
    spec_header_list_bytes(hs)
        + (if t.0 { spec_header_repr_bytes(HeaderInformationElementRepr::HeaderTermination1) } else { seq![] })
        + (if t.1 { spec_header_repr_bytes(HeaderInformationElementRepr::HeaderTermination2) } else { seq![] })
        + spec_payload_list_bytes(ps)
}

/// A high-level representation of Information Elements.
#[derive(Debug)]
pub struct InformationElementsRepr {
    /// The header information elements.
    pub header_information_elements: heapless::Vec<HeaderInformationElementRepr, 16>,
    /// The payload information elements.
    pub payload_information_elements: heapless::Vec<PayloadInformationElementRepr, 16>,
}

impl Default for InformationElementsRepr {
    /// No Information Element.
    fn default() -> (r: Self)
        ensures
            header_ies_of(r.header_information_elements).len() == 0,
            payload_ies_of(r.payload_information_elements).len() == 0,
    {
        Self { header_information_elements: header_ies_new(), payload_information_elements: payload_ies_new() }
    }
}

/// Stepping the Header IE iteration.
proof fn lemma_header_ies_step(d: Seq<u8>, o: int, next: int, t: bool)
    requires
        0 <= o < d.len(),
        header_step(d, o) == Some((next, t)),
    ensures
        spec_header_ies(d, o, false) == seq![d.subrange(o, d.len() as int)] + spec_header_ies(d, next, t),
{
    if !t {
        assert(next > o);
    }
}

/// Stepping the Payload IE iteration.
proof fn lemma_payload_ies_step(d: Seq<u8>, o: int, next: int, t: bool)
    requires
        0 <= o < d.len(),
        payload_step(d, o) == Some((next, t)),
    ensures
        spec_payload_ies(d, o, false) == seq![d.subrange(o, d.len() as int)] + spec_payload_ies(d, next, t),
{
    if !t {
        assert(next > o);
    }
}

impl InformationElementsRepr {
    /// Parse Information Elements: their first Header and Payload IEs, at
    /// most sixteen of each; fails when an element read cannot be parsed.
    pub fn parse(ie: InformationElements<&[u8]>) -> (r: Result<Self, Error>)
        requires
            spec_ies_parse_safe(ie@),
        ensures
            r is Ok <==> spec_ies_parse_ok(ie@),
            r matches Ok(v) ==> spec_ies_matches(v, ie@),
    {
        let ghost d = ie@;
        let ghost hs = spec_ie_headers(d);
        let mut headers = header_ies_new();
        let mut iter = ie.header_information_elements();
        let ghost mut k: nat = 0;
        loop
            invariant_except_break
                hs.subrange(k as int, hs.len() as int) == spec_header_ies(d, iter.offset as int, iter.terminated),
                header_ies_of(headers).len() == k,
            invariant
                iter.wf(),
                iter.data@ == d,
                d == ie@,
                hs == spec_ie_headers(d),
                spec_ies_parse_safe(d),
                k <= hs.len(),
                k <= 16,
                header_ies_of(headers).len() == spec_nested_kept(k),
                forall|i: int| 0 <= i < k ==> #[trigger] spec_parse_header_ie(hs[i]) is Some,
                forall|i: int| 0 <= i < header_ies_of(headers).len() ==> spec_parse_header_ie(hs[i]) == Some(#[trigger] header_ies_of(headers)[i]),
            ensures
                header_ies_of(headers).len() == spec_nested_kept(hs.len()),
                forall|i: int| 0 <= i < spec_nested_read(hs.len()) ==> #[trigger] spec_parse_header_ie(hs[i]) is Some,
                forall|i: int| 0 <= i < header_ies_of(headers).len() ==> spec_parse_header_ie(hs[i]) == Some(#[trigger] header_ies_of(headers)[i]),
            decreases (if iter.terminated { 0int } else { d.len() - iter.offset + 1 }),
        {
            let ghost o = iter.offset as int;
            let ghost t0 = iter.terminated;
            match iter.next() {
                Some(h) => {
                    proof {
                        let (next, t) = header_step(d, o).unwrap();
                        lemma_header_ies_step(d, o, next, t);
                        assert(spec_header_ies(d, o, false).len() >= 1);
                        assert(hs.subrange(k as int, hs.len() as int).len() >= 1);
                        assert(hs.subrange(k as int, hs.len() as int)[0] == d.subrange(o, d.len() as int));
                        assert(hs[k as int] =~= h@);
                        assert(spec_header_fits(hs[k as int]));
                    }
                    let repr = match HeaderInformationElementRepr::parse(&h) {
                        Ok(repr) => repr,
                        Err(e) => {
                            assert(!(spec_parse_header_ie(hs[k as int]) is Some));
                            assert(k < spec_nested_read(hs.len()));
                            return Err(e);
                        },
                    };
                    if header_ies_push(&mut headers, repr).is_err() {
                        break;
                    }
                    proof {
                        assert(hs.subrange((k + 1) as int, hs.len() as int) =~= hs.subrange(k as int, hs.len() as int).skip(1));
                        k = k + 1;
                    }
                },
                None => {
                    proof {
                        assert(spec_header_ies(d, o, t0) =~= Seq::<Seq<u8>>::empty());
                    }
                    break;
                },
            }
        }
        let ghost ps = spec_ie_payloads(d);
        let mut payloads = payload_ies_new();
        let mut piter = ie.payload_information_elements();
        let ghost pd = piter.data@;
        let ghost mut m: nat = 0;
        loop
            invariant_except_break
                ps.subrange(m as int, ps.len() as int) == spec_payload_ies(pd, piter.offset as int, piter.terminated),
                payload_ies_of(payloads).len() == m,
            invariant
                piter.wf(),
                piter.data@ == pd,
                d == ie@,
                ps == spec_ie_payloads(d),
                spec_ies_parse_safe(d),
                forall|i: int| 0 <= i < spec_nested_read(hs.len()) ==> #[trigger] spec_parse_header_ie(hs[i]) is Some,
                hs == spec_ie_headers(d),
                m <= ps.len(),
                m <= 16,
                payload_ies_of(payloads).len() == spec_nested_kept(m),
                forall|i: int| 0 <= i < m ==> #[trigger] spec_payload_ok(ps[i]),
                forall|i: int| 0 <= i < payload_ies_of(payloads).len() ==> spec_payload_matches(#[trigger] payload_ies_of(payloads)[i], ps[i]),
            ensures
                payload_ies_of(payloads).len() == spec_nested_kept(ps.len()),
                forall|i: int| 0 <= i < spec_nested_read(ps.len()) ==> #[trigger] spec_payload_ok(ps[i]),
                forall|i: int| 0 <= i < payload_ies_of(payloads).len() ==> spec_payload_matches(#[trigger] payload_ies_of(payloads)[i], ps[i]),
            decreases (if piter.terminated { 0int } else { pd.len() - piter.offset + 1 }),
        {
            let ghost o = piter.offset as int;
            let ghost t0 = piter.terminated;
            match piter.next() {
                Some(p) => {
                    proof {
                        let (next, t) = payload_step(pd, o).unwrap();
                        lemma_payload_ies_step(pd, o, next, t);
                        assert(spec_payload_ies(pd, o, false).len() >= 1);
                        assert(ps.subrange(m as int, ps.len() as int).len() >= 1);
                        assert(ps.subrange(m as int, ps.len() as int)[0] == pd.subrange(o, pd.len() as int));
                        assert(ps[m as int] =~= p@);
                        assert(spec_payload_fits(ps[m as int]));
                    }
                    let repr = match PayloadInformationElementRepr::parse(&p) {
                        Ok(repr) => repr,
                        Err(e) => {
                            assert(!spec_payload_ok(ps[m as int]));
                            assert(m < spec_nested_read(ps.len()));
                            return Err(e);
                        },
                    };
                    if payload_ies_push(&mut payloads, repr).is_err() {
                        break;
                    }
                    proof {
                        assert(ps.subrange((m + 1) as int, ps.len() as int) =~= ps.subrange(m as int, ps.len() as int).skip(1));
                        m = m + 1;
                    }
                },
                None => {
                    proof {
                        assert(spec_payload_ies(pd, o, t0) =~= Seq::<Seq<u8>>::empty());
                    }
                    break;
                },
            }
        }
        Ok(Self { header_information_elements: headers, payload_information_elements: payloads })
    }
}

impl InformationElementsRepr {
    /// The termination elements required (see [`spec_terminations`]).
    fn header_terminations(&self, contains_payload: bool) -> (r: (bool, bool, bool))
        ensures
            r == spec_terminations(
                header_ies_of(self.header_information_elements).len() > 0,
                payload_ies_of(self.payload_information_elements).len() > 0,
                contains_payload,
            ),
    {
        let has_headers = header_ies_slice(&self.header_information_elements).len() > 0;
        let has_payloads = payload_ies_slice(&self.payload_information_elements).len() > 0;
        match (has_headers, has_payloads, contains_payload) {
            (false, false, false) => (false, false, false),
            (true, false, false) => (false, false, false),
            (false, true, false) => (true, false, false),
            (true, true, false) => (true, false, false),
            (false, false, true) => (false, false, false),
            (true, false, true) => (false, true, false),
            (false, true, true) => (true, false, true),
            (true, true, true) => (true, false, true),
        }
    }

    /// The buffer length required to emit the Information Elements: the
    /// elements and the terminations required.
    pub fn buffer_len(&self, contains_payload: bool) -> (r: usize)
        ensures
            r == spec_ies_repr_bytes(
                header_ies_of(self.header_information_elements),
                payload_ies_of(self.payload_information_elements),
                contains_payload,
            ).len() + (if spec_terminations(
                header_ies_of(self.header_information_elements).len() > 0,
                payload_ies_of(self.payload_information_elements).len() > 0,
                contains_payload,
            ).2 { 2int } else { 0int }),
            r <= 19300,
    {
        let (ht1, ht2, pt) = self.header_terminations(contains_payload);
        let hs = header_ies_slice(&self.header_information_elements);
        let ps = payload_ies_slice(&self.payload_information_elements);
        let mut len: usize = 0;
        let mut i: usize = 0;
        while i < hs.len()
            invariant
                hs@.len() <= 16,
                i <= hs@.len(),
                len == spec_header_list_bytes(hs@.take(i as int)).len(),
                len <= 4 * i,
            decreases hs@.len() - i,
        {
            let l = hs[i].buffer_len();
            assert(hs@.take(i + 1).drop_last() =~= hs@.take(i as int));
            len = len + l;
            i = i + 1;
        }
        assert(hs@.take(hs@.len() as int) =~= hs@);
        if ht1 {
            len = len + HeaderInformationElementRepr::HeaderTermination1.buffer_len();
        }
        if ht2 {
            len = len + HeaderInformationElementRepr::HeaderTermination1.buffer_len();
        }
        let ghost before_payloads = len;
        let mut j: usize = 0;
        while j < ps.len()
            invariant
                ps@.len() <= 16,
                j <= ps@.len(),
                len == before_payloads + spec_payload_list_bytes(ps@.take(j as int)).len(),
                before_payloads <= 68,
                len <= before_payloads + 1202 * j,
            decreases ps@.len() - j,
        {
            let l = ps[j].buffer_len();
            assert(ps@.take(j + 1).drop_last() =~= ps@.take(j as int));
            len = len + l;
            j = j + 1;
        }
        assert(ps@.take(ps@.len() as int) =~= ps@);
        if pt {
            len = len + 2;
        }
        len
    }

    /// Emit the Information Elements into `buffer`. A Payload Termination
    /// IE cannot be emitted: the payload IEs are MLME IEs and, when there
    /// are some, no payload follows them.
    pub fn emit(&self, buffer: &mut [u8], contains_payload: bool)
        requires
            forall|i: int| 0 <= i < payload_ies_of(self.payload_information_elements).len()
                ==> #[trigger] payload_ies_of(self.payload_information_elements)[i] is Mlme,
            !(payload_ies_of(self.payload_information_elements).len() > 0 && contains_payload),
            old(buffer)@.len() >= spec_ies_repr_bytes(
                header_ies_of(self.header_information_elements),
                payload_ies_of(self.payload_information_elements),
                contains_payload,
            ).len(),
        ensures
            final(buffer)@ == splice(old(buffer)@, 0, spec_ies_repr_bytes(
                header_ies_of(self.header_information_elements),
                payload_ies_of(self.payload_information_elements),
                contains_payload,
            )),
    {
        let ghost o = buffer@;
        let blen = buffer.len();
        let (ht1, ht2, _pt) = self.header_terminations(contains_payload);
        let hs = header_ies_slice(&self.header_information_elements);
        let ps = payload_ies_slice(&self.payload_information_elements);
        let ghost total = spec_ies_repr_bytes(hs@, ps@, contains_payload);
        let ghost t1 = if ht1 { spec_header_repr_bytes(HeaderInformationElementRepr::HeaderTermination1) } else { seq![] };
        let ghost t2 = if ht2 { spec_header_repr_bytes(HeaderInformationElementRepr::HeaderTermination2) } else { seq![] };
        proof {
            lemma_header_list_prefix_len(hs@, hs@.len() as int);
            lemma_payload_list_prefix_len(ps@, ps@.len() as int);
            assert(hs@.take(hs@.len() as int) =~= hs@);
            assert(ps@.take(ps@.len() as int) =~= ps@);
        }
        let mut offset: usize = 0;
        let mut i: usize = 0;
        assert(buffer@ =~= splice(o, 0, spec_header_list_bytes(hs@.take(0))));
        while i < hs.len()
            invariant
                hs@.len() <= 16,
                i <= hs@.len(),
                blen == o.len(),
                buffer@.len() == o.len(),
                o.len() >= total.len(),
                total == spec_header_list_bytes(hs@) + t1 + t2 + spec_payload_list_bytes(ps@),
                offset == spec_header_list_bytes(hs@.take(i as int)).len(),
                spec_header_list_bytes(hs@.take(i as int)).len() <= spec_header_list_bytes(hs@).len(),
                buffer@ == splice(o, 0, spec_header_list_bytes(hs@.take(i as int))),
            decreases hs@.len() - i,
        {
            proof {
                lemma_header_list_prefix_len(hs@, i + 1);
                assert(hs@.take(i + 1).drop_last() =~= hs@.take(i as int));
            }
            let ghost before = buffer@;
            let l = hs[i].buffer_len();
            let (_done, rest) = buffer.split_at_mut(offset);
            let (window, _after) = rest.split_at_mut(l);
            hs[i].emit(window);
            proof {
                assert(buffer@ =~= splice(before, offset as int, spec_header_repr_bytes(hs@[i as int])));
                lemma_splice_splice(o, 0, spec_header_list_bytes(hs@.take(i as int)), spec_header_repr_bytes(hs@[i as int]));
            }
            offset = offset + l;
            i = i + 1;
        }
        assert(hs@.take(hs@.len() as int) =~= hs@);
        let ghost after_headers = spec_header_list_bytes(hs@);
        if ht1 {
            let (_done, rest) = buffer.split_at_mut(offset);
            let (window, _after) = rest.split_at_mut(2);
            HeaderInformationElementRepr::HeaderTermination1.emit(window);
            proof {
                lemma_splice_splice(o, 0, after_headers, t1);
            }
            offset = offset + 2;
        }
        assert(buffer@ =~= splice(o, 0, after_headers + t1));
        if ht2 {
            let (_done, rest) = buffer.split_at_mut(offset);
            let (window, _after) = rest.split_at_mut(2);
            HeaderInformationElementRepr::HeaderTermination2.emit(window);
            proof {
                lemma_splice_splice(o, 0, after_headers + t1, t2);
            }
            offset = offset + 2;
        }
        assert(buffer@ =~= splice(o, 0, after_headers + t1 + t2));
        let ghost prefix = after_headers + t1 + t2;
        let mut j: usize = 0;
        assert(prefix + spec_payload_list_bytes(ps@.take(0)) =~= prefix);
        while j < ps.len()
            invariant
                ps@.len() <= 16,
                j <= ps@.len(),
                blen == o.len(),
                buffer@.len() == o.len(),
                o.len() >= total.len(),
                total == prefix + spec_payload_list_bytes(ps@),
                forall|x: int| 0 <= x < ps@.len() ==> #[trigger] ps@[x] is Mlme,
                offset == prefix.len() + spec_payload_list_bytes(ps@.take(j as int)).len(),
                spec_payload_list_bytes(ps@.take(j as int)).len() <= spec_payload_list_bytes(ps@).len(),
                buffer@ == splice(o, 0, prefix + spec_payload_list_bytes(ps@.take(j as int))),
            decreases ps@.len() - j,
        {
            proof {
                lemma_payload_list_prefix_len(ps@, j + 1);
                assert(ps@.take(j + 1).drop_last() =~= ps@.take(j as int));
            }
            let ghost before = buffer@;
            let l = ps[j].buffer_len();
            let (_done, rest) = buffer.split_at_mut(offset);
            let (window, _after) = rest.split_at_mut(l);
            ps[j].emit(window);
            proof {
                assert(buffer@ =~= splice(before, offset as int, spec_payload_repr_bytes(ps@[j as int])));
                lemma_splice_splice(o, 0, prefix + spec_payload_list_bytes(ps@.take(j as int)), spec_payload_repr_bytes(ps@[j as int]));
                assert(prefix + spec_payload_list_bytes(ps@.take(j + 1)) =~= prefix + spec_payload_list_bytes(ps@.take(j as int)) + spec_payload_repr_bytes(ps@[j as int]));
            }
            offset = offset + l;
            j = j + 1;
        }
        assert(ps@.take(ps@.len() as int) =~= ps@);
    }
}

/// A prefix of a list of Header IEs is written as no more octets than the
/// list.
proof fn lemma_header_list_prefix_len(s: Seq<HeaderInformationElementRepr>, i: int)
    requires
        0 <= i <= s.len(),
    ensures
        spec_header_list_bytes(s.take(i)).len() <= spec_header_list_bytes(s).len(),
    decreases s.len() - i,
{
    if i < s.len() {
        lemma_header_list_prefix_len(s, i + 1);
        assert(s.take(i + 1).drop_last() =~= s.take(i));
    } else {
        assert(s.take(i) =~= s);
    }
}

/// A prefix of a list of Payload IEs is written as no more octets than the
/// list.
proof fn lemma_payload_list_prefix_len(s: Seq<PayloadInformationElementRepr>, i: int)
    requires
        0 <= i <= s.len(),
    ensures
        spec_payload_list_bytes(s.take(i)).len() <= spec_payload_list_bytes(s).len(),
    decreases s.len() - i,
{
    if i < s.len() {
        lemma_payload_list_prefix_len(s, i + 1);
        assert(s.take(i + 1).drop_last() =~= s.take(i));
    } else {
        assert(s.take(i) =~= s);
    }
}

} // verus!

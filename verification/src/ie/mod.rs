//! Information Elements readers and writers.
use vstd::prelude::*;

pub mod headers;
pub mod payloads;
pub mod nested;
pub mod tsch;

use crate::ie::headers::{header_end, header_step, HeaderInformationElementsIterator};
use crate::ie::payloads::{payload_end, payload_step, PayloadInformationElementsIterator};
use crate::Error;

verus! {

/// The offset at which the Header IEs of `data` end: where the iteration
/// over them stops.
pub open spec fn spec_headers_end(data: Seq<u8>) -> int {
    header_end(data, 0, data.len() == 0)
}

/// The length of the Payload IEs that follow the Header IEs of `data`.
pub open spec fn spec_payloads_len(data: Seq<u8>) -> int {
    let h = spec_headers_end(data);
    payload_end(data.subrange(h, data.len() as int), 0, h >= data.len())
}

/// The length of the Information Elements at the start of `data`: the Header
/// IEs followed by the Payload IEs.
pub open spec fn spec_ies_len(data: Seq<u8>) -> int {
    spec_headers_end(data) + spec_payloads_len(data)
}

/// The Header IE iteration reads only the octets before where it stops:
/// data of the same length that agrees on them stops at the same place.
proof fn lemma_header_end_local(d: Seq<u8>, d2: Seq<u8>, o: int, t: bool)
    requires
        d.len() == d2.len(),
        0 <= o,
        forall|i: int| 0 <= i < header_end(d, o, t) && i < d.len() ==> d[i] == d2[i],
    ensures
        header_end(d2, o, t) == header_end(d, o, t),
        header_end(d, o, t) >= o,
    decreases d.len() - o,
{
    if !t {
        match header_step(d, o) {
            None => {},
            Some((next, t2)) => {
                if !t2 {
                    lemma_header_end_local(d, d2, next, false);
                }
                assert(d[o] == d2[o] && d[o + 1] == d2[o + 1]);
                assert(header_step(d2, o) == header_step(d, o));
            },
        }
    }
}

/// The Payload IE iteration reads only the octets before where it stops.
proof fn lemma_payload_end_local(d: Seq<u8>, d2: Seq<u8>, o: int, t: bool)
    requires
        d.len() == d2.len(),
        0 <= o,
        forall|i: int| 0 <= i < payload_end(d, o, t) && i < d.len() ==> d[i] == d2[i],
    ensures
        payload_end(d2, o, t) == payload_end(d, o, t),
        payload_end(d, o, t) >= o,
    decreases d.len() - o,
{
    if !t {
        match payload_step(d, o) {
            None => {},
            Some((next, t2)) => {
                if !t2 {
                    lemma_payload_end_local(d, d2, next, false);
                }
                assert(d[o] == d2[o] && d[o + 1] == d2[o + 1]);
                assert(payload_step(d2, o) == payload_step(d, o));
            },
        }
    }
}

/// Reading the Information Elements at the start of `d` reads only their
/// own octets: data of the same length that agrees on them holds the same
/// elements.
pub proof fn lemma_ies_local(d: Seq<u8>, d2: Seq<u8>)
    requires
        d.len() == d2.len(),
        spec_headers_end(d) <= d.len(),
        spec_ies_len(d) <= d.len(),
        d.subrange(0, spec_ies_len(d)) == d2.subrange(0, spec_ies_len(d)),
    ensures
        spec_headers_end(d2) == spec_headers_end(d),
        spec_ies_len(d2) == spec_ies_len(d),
        0 <= spec_headers_end(d) <= spec_ies_len(d),
{
    let n = spec_ies_len(d);
    let h = spec_headers_end(d);
    let dp = d.subrange(h, d.len() as int);
    let dp2 = d2.subrange(h, d2.len() as int);
    lemma_payload_end_local(dp, dp, 0, h >= d.len());
    assert forall|i: int| 0 <= i < header_end(d, 0, d.len() == 0) && i < d.len() implies d[i] == d2[i] by {
        assert(d.subrange(0, n)[i] == d2.subrange(0, n)[i]);
    }
    lemma_header_end_local(d, d2, 0, d.len() == 0);
    assert forall|i: int| 0 <= i < payload_end(dp, 0, h >= d.len()) && i < dp.len() implies dp[i] == dp2[i] by {
        assert(d.subrange(0, n)[h + i] == d2.subrange(0, n)[h + i]);
    }
    lemma_payload_end_local(dp, dp2, 0, h >= d.len());
}

/// Run the Header IE iteration over `data` to its end.
fn headers_end(data: &[u8]) -> (r: usize)
    requires
        data@.len() <= usize::MAX / 2,
    ensures
        r == spec_headers_end(data@),
        r <= data@.len() + 0x1_0001,
{
    let mut iter = HeaderInformationElementsIterator { data, offset: 0, terminated: data.len() == 0 };
    loop
        invariant
            iter.wf(),
            iter.data@ == data@,
            iter.spec_end() == spec_headers_end(data@),
            iter.offset <= data@.len() + 0x1_0001,
        ensures
            iter.offset == spec_headers_end(data@),
        decreases (if iter.terminated { 0int } else { data@.len() - iter.offset + 1 }),
    {
        match iter.next() {
            Some(_) => {},
            None => break,
        }
    }
    iter.offset
}

/// Run the Payload IE iteration over `data` from the state
/// (`0`, `terminated`) to its end.
fn payloads_end(data: &[u8], terminated: bool) -> (r: usize)
    requires
        data@.len() <= usize::MAX / 2,
        !terminated ==> data@.len() > 0,
    ensures
        r == payload_end(data@, 0, terminated),
        r <= data@.len() + 0x1_0001,
{
    let mut iter = PayloadInformationElementsIterator { data, offset: 0, terminated };
    loop
        invariant
            iter.wf(),
            iter.data@ == data@,
            iter.spec_end() == payload_end(data@, 0, terminated),
            iter.offset <= data@.len() + 0x1_0001,
        ensures
            iter.offset == payload_end(data@, 0, terminated),
        decreases (if iter.terminated { 0int } else { data@.len() - iter.offset + 1 }),
    {
        match iter.next() {
            Some(_) => {},
            None => break,
        }
    }
    iter.offset
}

/// IEEE 802.15.4 Information Elements reader.
#[derive(Debug)]
pub struct InformationElements<T> {
    data: T,
}

impl<T: View<V = Seq<u8>>> View for InformationElements<T> {
    type V = Seq<u8>;

    closed spec fn view(&self) -> Seq<u8> {
        self.data@
    }
}

impl<'a> InformationElements<&'a [u8]> {
    /// Create a new [`InformationElements`] reader from a given buffer; fails
    /// when the buffer is too short to contain the Information Elements.
    pub fn new(data: &'a [u8]) -> (r: Result<Self, Error>)
        requires
            data@.len() <= usize::MAX / 2,
        ensures
            r is Ok <==> (spec_headers_end(data@) <= data@.len() && spec_ies_len(data@) <= data@.len()),
            r matches Ok(ie) ==> ie@ == data@,
    {
        let ie = Self::new_unchecked(data);
        if !ie.check_len() {
            return Err(Error);
        }
        Ok(ie)
    }

    /// Returns `false` if the buffer is too short to contain the Information
    /// Elements.
    fn check_len(&self) -> (r: bool)
        requires
            self@.len() <= usize::MAX / 2,
        ensures
            r == (spec_headers_end(self@) <= self@.len() && spec_ies_len(self@) <= self@.len()),
    {
        let h = headers_end(self.data);
        if h > self.data.len() {
            return false;
        }
        let p = payloads_end(&self.data[h..self.data.len()], h >= self.data.len());
        self.data.len() >= h + p
    }

    /// Create a new [`InformationElements`] reader without length checking.
    pub fn new_unchecked(data: &'a [u8]) -> (r: Self)
        ensures
            r@ == data@,
    {
        Self { data }
    }

    /// Returns the length of the Information Elements.
    #[allow(clippy::len_without_is_empty)]
    pub fn len(&self) -> (r: usize)
        requires
            self@.len() <= usize::MAX / 2,
            spec_headers_end(self@) <= self@.len(),
        ensures
            r == spec_ies_len(self@),
    {
        let h = headers_end(self.data);
        let p = payloads_end(&self.data[h..self.data.len()], h >= self.data.len());
        h + p
    }

    /// Returns an iterator over the Header Information Elements.
    pub fn header_information_elements(&self) -> (r: HeaderInformationElementsIterator<'a>)
        ensures
            r.data@ == self@,
            r.offset == 0,
            r.terminated == (self@.len() == 0),
            self@.len() <= usize::MAX / 2 ==> r.wf(),
    {
        HeaderInformationElementsIterator { data: self.data, offset: 0, terminated: self.data.len() == 0 }
    }

    /// Returns an iterator over the Payload Information Elements, which
    /// start where the Header Information Elements end.
    pub fn payload_information_elements(&self) -> (r: PayloadInformationElementsIterator<'a>)
        requires
            self@.len() <= usize::MAX / 2,
            spec_headers_end(self@) <= self@.len(),
        ensures
            r.data@ == self@.subrange(spec_headers_end(self@), self@.len() as int),
            r.offset == 0,
            r.terminated == (spec_headers_end(self@) >= self@.len()),
            r.wf(),
    {
        let start = headers_end(self.data);
        let terminated = start >= self.data.len();
        PayloadInformationElementsIterator { data: &self.data[start..self.data.len()], offset: 0, terminated }
    }
}

} // verus!

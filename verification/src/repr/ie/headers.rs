//! High-level representation of the Header Information Elements.
use vstd::prelude::*;

use crate::bytes::{fill_zero, le16, lemma_le16_join, lemma_le16_split, splice, write_le16_at, zeros};
use crate::ie::headers::{
    hie_id, hie_len, spec_time_correction, spec_time_correction_word, lemma_time_correction_roundtrip,
    HeaderElementId, HeaderInformationElement, TimeCorrection,
};
use crate::ie::tsch::le2;
use crate::time::Duration;
use crate::Error;

verus! {

/// A high-level representation of a Time Correction Header Information
/// Element.
#[derive(Debug, Clone, Copy, PartialEq, Eq, Structural)]
pub struct TimeCorrectionRepr {
    /// The time correction value in microseconds.
    pub time_correction: Duration,
    /// The negative acknowledgment flag.
    pub nack: bool,
}

/// The Time Correction stored in the content `b`.
pub open spec fn spec_parse_time_correction(b: Seq<u8>) -> TimeCorrectionRepr {
    TimeCorrectionRepr {
        time_correction: Duration(spec_time_correction(le16(b[0], b[1])) as i64),
        nack: le16(b[0], b[1]) & 0x8000 != 0,
    }
}

/// The word a Time Correction is written as: the low 12 bits of the
/// correction and the NACK bit.
pub open spec fn spec_time_correction_repr_word(r: TimeCorrectionRepr) -> u16 {
    if r.nack {
        spec_time_correction_word(r.time_correction.0) | 0x8000
    } else {
        spec_time_correction_word(r.time_correction.0) & 0x7fff
    }
}

impl TimeCorrectionRepr {
    /// Parse a Time Correction Header Information Element.
    pub fn parse(tc: &TimeCorrection<&[u8]>) -> (r: Self)
        requires
            tc@.len() >= 2,
        ensures
            r == spec_parse_time_correction(tc@),
    {
        Self { time_correction: tc.time_correction(), nack: tc.nack() }
    }

    /// The buffer length required to emit the Time Correction.
    pub fn buffer_len(&self) -> (r: usize)
        ensures
            r == 2,
    {
        2
    }

    /// Emit the Time Correction into the first two octets of `buffer`.
    pub fn emit(&self, buffer: &mut [u8])
        requires
            old(buffer)@.len() >= 2,
        ensures
            final(buffer)@ == splice(old(buffer)@, 0, le2(spec_time_correction_repr_word(*self))),
    {
        let time = (self.time_correction.as_us() as u16) & 0x0fff;
        let word = if self.nack { time | 0x8000 } else { time & 0x7fff };
        write_le16_at(buffer, 0, word);
    }
}

/// Emitting a Time Correction whose value fits the 12-bit field and parsing
/// it back gives it back.
pub proof fn lemma_time_correction_repr_roundtrip(r: TimeCorrectionRepr)
    requires
        -2048 <= r.time_correction.0 < 2048,
    ensures
        spec_parse_time_correction(le2(spec_time_correction_repr_word(r))) == r,
{
    let w = spec_time_correction_word(r.time_correction.0);
    let word = spec_time_correction_repr_word(r);
    lemma_time_correction_roundtrip(r.time_correction.0);
    lemma_le16_split(word);
    lemma_tc_word_bits(r.time_correction.0 as u16);
    let b = le2(word);
    assert(le16(b[0], b[1]) == word);
}

proof fn lemma_tc_word_bits(x: u16)
    by (bit_vector)
    ensures
        ((x & 0x0fff) | 0x8000) & 0x8000 != 0,
        ((x & 0x0fff) & 0x7fff) & 0x8000 == 0,
        (x & 0x0fff) & 0x7fff == x & 0x0fff,
{
}

/// A high-level representation of a Header Information Element.
#[derive(Debug, Clone, Copy, PartialEq, Eq, Structural)]
pub enum HeaderInformationElementRepr {
    /// Time Correction Header Information Element.
    TimeCorrection(TimeCorrectionRepr),
    /// Header Termination 1.
    HeaderTermination1,
    /// Header Termination 2.
    HeaderTermination2,
}

/// The element ID of a representation.
pub open spec fn spec_header_repr_id(r: HeaderInformationElementRepr) -> HeaderElementId {
    match r {
        HeaderInformationElementRepr::TimeCorrection(_) => HeaderElementId::TimeCorrection,
        HeaderInformationElementRepr::HeaderTermination1 => HeaderElementId::HeaderTermination1,
        HeaderInformationElementRepr::HeaderTermination2 => HeaderElementId::HeaderTermination2,
    }
}

/// The length of the content of a representation.
pub open spec fn spec_header_repr_inner_len(r: HeaderInformationElementRepr) -> nat {
    match r {
        HeaderInformationElementRepr::TimeCorrection(_) => 2,
        _ => 0,
    }
}

/// The header word of a Header IE with content length `len` and ID `id`.
pub open spec fn spec_hie_word(len: u16, id: HeaderElementId) -> u16 {
    (len & 0b0111_1111) | (((id.spec_value() as u16) << 7u16) & 0b0111_1111_1000_0000)
}

/// The octets a representation is written as.
pub open spec fn spec_header_repr_bytes(r: HeaderInformationElementRepr) -> Seq<u8> {
    le2(spec_hie_word(spec_header_repr_inner_len(r) as u16, spec_header_repr_id(r))) + match r {
        HeaderInformationElementRepr::TimeCorrection(tc) => le2(spec_time_correction_repr_word(tc)),
        _ => seq![],
    }
}

/// The representation of the Header IE `b`, when it is one of the
/// supported ones.
pub open spec fn spec_parse_header_ie(b: Seq<u8>) -> Option<HeaderInformationElementRepr> {
    let id = hie_id(b[0], b[1]);
    if id is TimeCorrection {
        if hie_len(b[0], b[1]) >= 2 {
            Some(HeaderInformationElementRepr::TimeCorrection(
                spec_parse_time_correction(b.subrange(2, 2 + hie_len(b[0], b[1]) as int)),
            ))
        } else {
            None
        }
    } else if id is HeaderTermination1 {
        Some(HeaderInformationElementRepr::HeaderTermination1)
    } else if id is HeaderTermination2 {
        Some(HeaderInformationElementRepr::HeaderTermination2)
    } else {
        None
    }
}

impl HeaderInformationElementRepr {
    /// Parse a Header Information Element; fails for an unsupported element
    /// and for a Time Correction shorter than two octets.
    pub fn parse(ie: &HeaderInformationElement<&[u8]>) -> (r: Result<Self, Error>)
        requires
            ie@.len() >= 2 + ie.spec_len(),
        ensures
            r is Ok <==> spec_parse_header_ie(ie@) is Some,
            r matches Ok(v) ==> spec_parse_header_ie(ie@) == Some(v),
    {
        match ie.element_id() {
            HeaderElementId::TimeCorrection => match TimeCorrection::new(ie.content()) {
                Ok(tc) => Ok(Self::TimeCorrection(TimeCorrectionRepr::parse(&tc))),
                Err(e) => Err(e),
            },
            HeaderElementId::HeaderTermination1 => Ok(Self::HeaderTermination1),
            HeaderElementId::HeaderTermination2 => Ok(Self::HeaderTermination2),
            _ => Err(Error),
        }
    }

    /// The element ID of this element.
    pub fn element_id(&self) -> (r: HeaderElementId)
        ensures
            r == spec_header_repr_id(*self),
    {
        match self {
            Self::TimeCorrection(_) => HeaderElementId::TimeCorrection,
            Self::HeaderTermination1 => HeaderElementId::HeaderTermination1,
            Self::HeaderTermination2 => HeaderElementId::HeaderTermination2,
        }
    }

    /// The buffer length required to emit the element.
    pub fn buffer_len(&self) -> (r: usize)
        ensures
            r == spec_header_repr_bytes(*self).len(),
            r <= 4,
    {
        2 + self.inner_len()
    }

    /// The length of the content of the element.
    fn inner_len(&self) -> (r: usize)
        ensures
            r == spec_header_repr_inner_len(*self),
    {
        match self {
            Self::TimeCorrection(tc) => tc.buffer_len(),
            Self::HeaderTermination1 => 0,
            Self::HeaderTermination2 => 0,
        }
    }

    /// Emit the element into `buffer`; the octets after it are cleared.
    pub fn emit(&self, buffer: &mut [u8])
        requires
            old(buffer)@.len() >= spec_header_repr_bytes(*self).len(),
        ensures
            final(buffer)@ == spec_header_repr_bytes(*self) + zeros((old(buffer)@.len() - spec_header_repr_bytes(*self).len()) as nat),
    {
        let ghost n = buffer@.len();
        fill_zero(buffer);
        let len = self.inner_len() as u16;
        let word = (len & 0b0111_1111) | (((self.element_id().value() as u16) << 7u16) & 0b0111_1111_1000_0000);
        write_le16_at(buffer, 0, word);
        let ghost after_word = buffer@;
        match self {
            Self::TimeCorrection(repr) => {
                let (_head, content) = buffer.split_at_mut(2);
                repr.emit(content);
            },
            Self::HeaderTermination1 => {},
            Self::HeaderTermination2 => {},
        }
        assert(buffer@ =~= spec_header_repr_bytes(*self) + zeros((n - spec_header_repr_bytes(*self).len()) as nat));
    }
}

/// Emitting a supported Header Information Element and parsing it back gives
/// it back, for a Time Correction that fits the 12-bit field.
pub proof fn lemma_header_ie_roundtrip(r: HeaderInformationElementRepr)
    requires
        r matches HeaderInformationElementRepr::TimeCorrection(tc) ==> -2048 <= tc.time_correction.0 < 2048,
    ensures
        spec_parse_header_ie(spec_header_repr_bytes(r)) == Some(r),
        ({
            let b = spec_header_repr_bytes(r);
            &&& hie_id(b[0], b[1]) == spec_header_repr_id(r)
            &&& hie_len(b[0], b[1]) == spec_header_repr_inner_len(r)
        }),
{
    let b = spec_header_repr_bytes(r);
    let len = spec_header_repr_inner_len(r) as u16;
    let id = spec_header_repr_id(r);
    let word = spec_hie_word(len, id);
    lemma_le16_split(word);
    lemma_hie_word_bits(len, id.spec_value());
    assert(le16(b[0], b[1]) == word);
    assert(hie_id(b[0], b[1]) == id);
    if let HeaderInformationElementRepr::TimeCorrection(tc) = r {
        assert(hie_len(b[0], b[1]) == len as nat);
        lemma_time_correction_repr_roundtrip(tc);
        assert(b.subrange(2, 4) =~= le2(spec_time_correction_repr_word(tc)));
    }
}

/// The length field (bits 0-6) and the element ID (bits 7-14) read back as
/// written.
proof fn lemma_hie_word_bits(len: u16, id: u8)
    requires
        len == 0 || len == 2,
        id < 0x80,
    ensures
        ((len & 0b0111_1111u16) | (((id as u16) << 7u16) & 0b0111_1111_1000_0000u16)) & 0b0111_1111u16 == len,
        (((len & 0b0111_1111u16) | (((id as u16) << 7u16) & 0b0111_1111_1000_0000u16)) >> 7u16) & 0b1111_1111u16 == id as u16,
{
    let i = id as u16;
    assert(i < 0x80);
    assert((((len & 0b0111_1111u16) | ((i << 7u16) & 0b0111_1111_1000_0000u16)) & 0b0111_1111u16 == len)
        && (((len & 0b0111_1111u16) | ((i << 7u16) & 0b0111_1111_1000_0000u16)) >> 7u16) & 0b1111_1111u16 == i) by (bit_vector)
        requires
            len == 0 || len == 2,
            i < 0x80,
    ;
}

} // verus!

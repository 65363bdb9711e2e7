//! IEEE 802.15.4 Header Information Element readers and writers.
use vstd::prelude::*;

use crate::bytes::{le16, read_le16, le_value, read_le_uint, splice, write_le16_at, lemma_le16_split, lemma_le16_join};
use crate::time::Duration;
use crate::Error;

verus! {

/// The length field of a Header IE whose first two octets are `b0`, `b1`.
pub open spec fn hie_len(b0: u8, b1: u8) -> nat {
    (le16(b0, b1) & 0b0111_1111) as nat
}

/// The element ID field of a Header IE whose first two octets are `b0`, `b1`.
pub open spec fn hie_id(b0: u8, b1: u8) -> HeaderElementId {
    HeaderElementId::spec_from(((le16(b0, b1) >> 7u16) & 0b1111_1111) as u8)
}

/// A reader/writer for the IEEE 802.15.4 Header Information Elements.
#[derive(Debug)]
pub struct HeaderInformationElement<T> {
    data: T,
}

impl<T: View<V = Seq<u8>>> View for HeaderInformationElement<T> {
    type V = Seq<u8>;

    closed spec fn view(&self) -> Seq<u8> {
        self.data@
    }
}

impl<T: View<V = Seq<u8>>> HeaderInformationElement<T> {
    /// The length field value.
    pub open spec fn spec_len(&self) -> nat {
        hie_len(self@[0], self@[1])
    }

    /// The element ID field value.
    pub open spec fn spec_element_id(&self) -> HeaderElementId {
        hie_id(self@[0], self@[1])
    }
}

impl<'a> HeaderInformationElement<&'a [u8]> {
    /// Create a new [`HeaderInformationElement`] reader; fails when the
    /// buffer holds fewer than two octets.
    pub fn new(data: &'a [u8]) -> (r: Result<Self, Error>)
        ensures
            r is Ok <==> data@.len() >= 2,
            r matches Ok(ie) ==> ie@ == data@,
    {
        let ie = Self::new_unchecked(data);
        if !ie.check_len() {
            return Err(Error);
        }
        Ok(ie)
    }

    /// Returns `false` if the buffer is too short to contain the Header
    /// Information Element.
    fn check_len(&self) -> (r: bool)
        ensures
            r == (self@.len() >= 2),
    {
        self.data.len() >= 2
    }

    /// Create a new [`HeaderInformationElement`] reader without length
    /// checking.
    pub fn new_unchecked(data: &'a [u8]) -> (r: Self)
        ensures
            r@ == data@,
    {
        Self { data }
    }

    /// Returns `true` when the length field is 0.
    pub fn is_empty(&self) -> (r: bool)
        requires
            self@.len() >= 2,
        ensures
            r == (self.spec_len() == 0),
    {
        self.len() == 0
    }

    /// Return the length field value (bits 0-6 of the little-endian header
    /// word).
    pub fn len(&self) -> (r: usize)
        requires
            self@.len() >= 2,
        ensures
            r == self.spec_len(),
            r <= 127,
    {
        let v = read_le16(self.data, 0);
        proof {
            assert(v & 0b0111_1111 <= 127) by (bit_vector);
        }
        (v & 0b0111_1111) as usize
    }

    /// Return the [`HeaderElementId`] (bits 7-14 of the header word).
    pub fn element_id(&self) -> (r: HeaderElementId)
        requires
            self@.len() >= 2,
        ensures
            r == self.spec_element_id(),
    {
        let v = read_le16(self.data, 0);
        let id = (v >> 7u16) & 0b1111_1111;
        HeaderElementId::from(id as u8)
    }

    /// Return the content of this Header Information Element.
    pub fn content(&self) -> (r: &'a [u8])
        requires
            self@.len() >= 2 + self.spec_len(),
        ensures
            r@ == self@.subrange(2, 2 + self.spec_len() as int),
    {
        let l = self.len();
        &self.data[2..2 + l]
    }
}

impl HeaderInformationElement<Vec<u8>> {
    /// Create a new [`HeaderInformationElement`] writer owning its buffer.
    pub fn new_owned(data: Vec<u8>) -> (r: Self)
        ensures
            r@ == data@,
    {
        Self { data }
    }

    /// The bytes of this element.
    pub fn as_bytes(&self) -> (r: &[u8])
        ensures
            r@ == self@,
    {
        self.data.as_slice()
    }

    /// Clear the content of this Header Information Element.
    pub fn clear(&mut self)
        ensures
            final(self)@ == Seq::new(old(self)@.len(), |i: int| 0u8),
    {
        let n = self.data.len();
        let mut i: usize = 0;
        while i < n
            invariant
                n == self.data@.len(),
                i <= n,
                forall|j: int| 0 <= j < i ==> self.data@[j] == 0u8,
            decreases n - i,
        {
            self.data.set(i, 0);
            i = i + 1;
        }
        assert(self.data@ =~= Seq::new(n as nat, |i: int| 0u8));
    }

    /// Set the length field (bits 0-6 of the header word).
    pub fn set_length(&mut self, len: u16)
        requires
            old(self)@.len() >= 2,
        ensures
            final(self)@ == splice(
                old(self)@,
                0,
                seq![
                    (((le16(old(self)@[0], old(self)@[1]) & !0b0111_1111u16) | (len & 0b0111_1111)) & 0xff) as u8,
                    (((le16(old(self)@[0], old(self)@[1]) & !0b0111_1111u16) | (len & 0b0111_1111)) >> 8u16) as u8,
                ],
            ),
    {
        let v = read_le16(self.data.as_slice(), 0);
        let value = (v & !0b0111_1111u16) | (len & 0b0111_1111);
        write_le16_at(self.data.as_mut_slice(), 0, value);
    }

    /// Set the element ID field (bits 7-14 of the header word).
    pub fn set_element_id(&mut self, id: HeaderElementId)
        requires
            old(self)@.len() >= 2,
        ensures
            final(self)@ == splice(
                old(self)@,
                0,
                seq![
                    (((le16(old(self)@[0], old(self)@[1]) & !0b0111_1111_1000_0000u16) | (((id.spec_value() as u16) << 7u16) & 0b0111_1111_1000_0000)) & 0xff) as u8,
                    (((le16(old(self)@[0], old(self)@[1]) & !0b0111_1111_1000_0000u16) | (((id.spec_value() as u16) << 7u16) & 0b0111_1111_1000_0000)) >> 8u16) as u8,
                ],
            ),
    {
        let v = read_le16(self.data.as_slice(), 0);
        let value = (v & !0b0111_1111_1000_0000u16) | (((id.value() as u16) << 7u16) & 0b0111_1111_1000_0000);
        write_le16_at(self.data.as_mut_slice(), 0, value);
    }

    /// Return the content of this Header Information Element for writing.
    pub fn content_mut(&mut self) -> (r: &mut [u8])
        requires
            old(self)@.len() >= 2,
        ensures
            r@ == old(self)@.skip(2),
            final(self)@ == old(self)@.subrange(0, 2) + final(r)@,
    {
        let s = self.data.as_mut_slice();
        let (_head, tail) = s.split_at_mut(2);
        tail
    }
}

/// Header Information Element ID.
#[derive(Debug, Eq, PartialEq, Clone, Copy, Structural)]
pub enum HeaderElementId {
    /// Vendor specific header.
    VendorSpecificHeader,
    /// Csl header.
    Csl,
    /// Rit header.
    Rit,
    /// Dsme Pan Descriptor header.
    DsmePanDescriptor,
    /// Rendezvous Time header.
    RendezvousTime,
    /// Time Correction header.
    TimeCorrection,
    /// Extended Dsme Pan Descriptor header.
    ExtendedDsmePanDescriptor,
    /// Fragment Sequence Context Description header.
    FragmentSequenceContextDescription,
    /// Simplified Superframe Specification header.
    SimplifiedSuperframeSpecification,
    /// Simplified Gts Specification header.
    SimplifiedGtsSpecification,
    /// Lecim Capabilities header.
    LecimCapabilities,
    /// Trle Descriptor header.
    TrleDescriptor,
    /// Rcc Capabilities header.
    RccCapabilities,
    /// Rccn Descriptor header.
    RccnDescriptor,
    /// Global Time header.
    GlobalTime,
    /// Da header.
    Da,
    /// Header Termination 1.
    HeaderTermination1,
    /// Header Termination 2.
    HeaderTermination2,
    /// Unkown header.
    Unkown,
}

impl HeaderElementId {
    /// The element ID with value `value`.
    pub open spec fn spec_from(value: u8) -> HeaderElementId {
        match value {
            0x00 => HeaderElementId::VendorSpecificHeader,
            0x1a => HeaderElementId::Csl,
            0x1b => HeaderElementId::Rit,
            0x1c => HeaderElementId::DsmePanDescriptor,
            0x1d => HeaderElementId::RendezvousTime,
            0x1e => HeaderElementId::TimeCorrection,
            0x21 => HeaderElementId::ExtendedDsmePanDescriptor,
            0x22 => HeaderElementId::FragmentSequenceContextDescription,
            0x23 => HeaderElementId::SimplifiedSuperframeSpecification,
            0x24 => HeaderElementId::SimplifiedGtsSpecification,
            0x25 => HeaderElementId::LecimCapabilities,
            0x26 => HeaderElementId::TrleDescriptor,
            0x27 => HeaderElementId::RccCapabilities,
            0x28 => HeaderElementId::RccnDescriptor,
            0x29 => HeaderElementId::GlobalTime,
            0x2b => HeaderElementId::Da,
            0x7e => HeaderElementId::HeaderTermination1,
            0x7f => HeaderElementId::HeaderTermination2,
            _ => HeaderElementId::Unkown,
        }
    }

    /// The value of this element ID (`0x80`, outside the 7-bit range of IDs
    /// written, for [`HeaderElementId::Unkown`]).
    pub open spec fn spec_value(self) -> u8 {
        match self {
            HeaderElementId::VendorSpecificHeader => 0x00,
            HeaderElementId::Csl => 0x1a,
            HeaderElementId::Rit => 0x1b,
            HeaderElementId::DsmePanDescriptor => 0x1c,
            HeaderElementId::RendezvousTime => 0x1d,
            HeaderElementId::TimeCorrection => 0x1e,
            HeaderElementId::ExtendedDsmePanDescriptor => 0x21,
            HeaderElementId::FragmentSequenceContextDescription => 0x22,
            HeaderElementId::SimplifiedSuperframeSpecification => 0x23,
            HeaderElementId::SimplifiedGtsSpecification => 0x24,
            HeaderElementId::LecimCapabilities => 0x25,
            HeaderElementId::TrleDescriptor => 0x26,
            HeaderElementId::RccCapabilities => 0x27,
            HeaderElementId::RccnDescriptor => 0x28,
            HeaderElementId::GlobalTime => 0x29,
            HeaderElementId::Da => 0x2b,
            HeaderElementId::HeaderTermination1 => 0x7e,
            HeaderElementId::HeaderTermination2 => 0x7f,
            HeaderElementId::Unkown => 0x80,
        }
    }

    /// The value of this element ID.
    pub fn value(&self) -> (r: u8)
        ensures
            r == self.spec_value(),
    {
        match self {
            HeaderElementId::VendorSpecificHeader => 0x00,
            HeaderElementId::Csl => 0x1a,
            HeaderElementId::Rit => 0x1b,
            HeaderElementId::DsmePanDescriptor => 0x1c,
            HeaderElementId::RendezvousTime => 0x1d,
            HeaderElementId::TimeCorrection => 0x1e,
            HeaderElementId::ExtendedDsmePanDescriptor => 0x21,
            HeaderElementId::FragmentSequenceContextDescription => 0x22,
            HeaderElementId::SimplifiedSuperframeSpecification => 0x23,
            HeaderElementId::SimplifiedGtsSpecification => 0x24,
            HeaderElementId::LecimCapabilities => 0x25,
            HeaderElementId::TrleDescriptor => 0x26,
            HeaderElementId::RccCapabilities => 0x27,
            HeaderElementId::RccnDescriptor => 0x28,
            HeaderElementId::GlobalTime => 0x29,
            HeaderElementId::Da => 0x2b,
            HeaderElementId::HeaderTermination1 => 0x7e,
            HeaderElementId::HeaderTermination2 => 0x7f,
            HeaderElementId::Unkown => 0x80,
        }
    }
}

/// The element IDs are the numbers of the standard's table of Header IEs:
/// each ID is read from exactly its own value of the 8-bit ID field and
/// written as that value; every other value reads as unknown.
pub proof fn lemma_header_element_id_numbers(v: u8)
    ensures
        HeaderElementId::spec_from(v) is VendorSpecificHeader <==> v == 0x00,
        HeaderElementId::spec_from(v) is Csl <==> v == 0x1a,
        HeaderElementId::spec_from(v) is Rit <==> v == 0x1b,
        HeaderElementId::spec_from(v) is DsmePanDescriptor <==> v == 0x1c,
        HeaderElementId::spec_from(v) is RendezvousTime <==> v == 0x1d,
        HeaderElementId::spec_from(v) is TimeCorrection <==> v == 0x1e,
        HeaderElementId::spec_from(v) is ExtendedDsmePanDescriptor <==> v == 0x21,
        HeaderElementId::spec_from(v) is FragmentSequenceContextDescription <==> v == 0x22,
        HeaderElementId::spec_from(v) is SimplifiedSuperframeSpecification <==> v == 0x23,
        HeaderElementId::spec_from(v) is SimplifiedGtsSpecification <==> v == 0x24,
        HeaderElementId::spec_from(v) is LecimCapabilities <==> v == 0x25,
        HeaderElementId::spec_from(v) is TrleDescriptor <==> v == 0x26,
        HeaderElementId::spec_from(v) is RccCapabilities <==> v == 0x27,
        HeaderElementId::spec_from(v) is RccnDescriptor <==> v == 0x28,
        HeaderElementId::spec_from(v) is GlobalTime <==> v == 0x29,
        HeaderElementId::spec_from(v) is Da <==> v == 0x2b,
        HeaderElementId::spec_from(v) is HeaderTermination1 <==> v == 0x7e,
        HeaderElementId::spec_from(v) is HeaderTermination2 <==> v == 0x7f,
        HeaderElementId::VendorSpecificHeader.spec_value() == 0x00,
        HeaderElementId::Csl.spec_value() == 0x1a,
        HeaderElementId::Rit.spec_value() == 0x1b,
        HeaderElementId::DsmePanDescriptor.spec_value() == 0x1c,
        HeaderElementId::RendezvousTime.spec_value() == 0x1d,
        HeaderElementId::TimeCorrection.spec_value() == 0x1e,
        HeaderElementId::ExtendedDsmePanDescriptor.spec_value() == 0x21,
        HeaderElementId::FragmentSequenceContextDescription.spec_value() == 0x22,
        HeaderElementId::SimplifiedSuperframeSpecification.spec_value() == 0x23,
        HeaderElementId::SimplifiedGtsSpecification.spec_value() == 0x24,
        HeaderElementId::LecimCapabilities.spec_value() == 0x25,
        HeaderElementId::TrleDescriptor.spec_value() == 0x26,
        HeaderElementId::RccCapabilities.spec_value() == 0x27,
        HeaderElementId::RccnDescriptor.spec_value() == 0x28,
        HeaderElementId::GlobalTime.spec_value() == 0x29,
        HeaderElementId::Da.spec_value() == 0x2b,
        HeaderElementId::HeaderTermination1.spec_value() == 0x7e,
        HeaderElementId::HeaderTermination2.spec_value() == 0x7f,
{
}

impl From<u8> for HeaderElementId {
    fn from(value: u8) -> (r: Self) {
        match value {
            0x00 => Self::VendorSpecificHeader,
            0x1a => Self::Csl,
            0x1b => Self::Rit,
            0x1c => Self::DsmePanDescriptor,
            0x1d => Self::RendezvousTime,
            0x1e => Self::TimeCorrection,
            0x21 => Self::ExtendedDsmePanDescriptor,
            0x22 => Self::FragmentSequenceContextDescription,
            0x23 => Self::SimplifiedSuperframeSpecification,
            0x24 => Self::SimplifiedGtsSpecification,
            0x25 => Self::LecimCapabilities,
            0x26 => Self::TrleDescriptor,
            0x27 => Self::RccCapabilities,
            0x28 => Self::RccnDescriptor,
            0x29 => Self::GlobalTime,
            0x2b => Self::Da,
            0x7e => Self::HeaderTermination1,
            0x7f => Self::HeaderTermination2,
            _ => Self::Unkown,
        }
    }
}

impl vstd::std_specs::convert::FromSpecImpl<u8> for HeaderElementId {
    open spec fn obeys_from_spec() -> bool {
        true
    }

    open spec fn from_spec(v: u8) -> Self {
        HeaderElementId::spec_from(v)
    }
}

/// One step of the Header IE iteration over `data` from `offset`:
/// `None` when no element starts there, else the offset after the element
/// and whether the iteration ends (a termination element, or the end of the
/// data reached).
pub open spec fn header_step(data: Seq<u8>, offset: int) -> Option<(int, bool)> {
    if data.len() - offset < 2 {
        None
    } else {
        let next = offset + hie_len(data[offset], data[offset + 1]) + 2;
        let id = hie_id(data[offset], data[offset + 1]);
        Some((next, id is HeaderTermination1 || id is HeaderTermination2 || next >= data.len()))
    }
}

/// The offset at which the Header IE iteration over `data` stops, from the
/// state (`offset`, `terminated`).
pub open spec fn header_end(data: Seq<u8>, offset: int, terminated: bool) -> int
    decreases data.len() - offset,
{
    if terminated || offset < 0 {
        offset
    } else {
        match header_step(data, offset) {
            None => offset,
            Some((next, t)) => if t { next } else { header_end(data, next, false) },
        }
    }
}

/// An iterator over [`HeaderInformationElement`].
#[derive(Debug)]
pub struct HeaderInformationElementsIterator<'f> {
    pub data: &'f [u8],
    pub offset: usize,
    pub terminated: bool,
}

impl<'f> HeaderInformationElementsIterator<'f> {
    /// The iterator state is consistent: an unterminated iterator points
    /// inside its data.
    pub open spec fn wf(&self) -> bool {
        &&& self.data@.len() <= usize::MAX / 2
        &&& (!self.terminated ==> self.offset < self.data@.len())
    }

    /// The offset at which this iteration stops.
    pub open spec fn spec_end(&self) -> int {
        header_end(self.data@, self.offset as int, self.terminated)
    }

    /// Returns the offset of the next Header Information Element.
    pub fn offset(&self) -> (r: usize)
        ensures
            r == self.offset,
    {
        self.offset
    }

    /// Return the next Header Information Element: the one at the current
    /// offset, unless the iteration has terminated or fewer than two octets
    /// are left.
    pub fn next(&mut self) -> (r: Option<HeaderInformationElement<&'f [u8]>>)
        requires
            old(self).wf(),
        ensures
            final(self).wf(),
            final(self).data == old(self).data,
            final(self).spec_end() == old(self).spec_end(),
            old(self).terminated ==> r is None && *final(self) == *old(self),
            !old(self).terminated ==> match header_step(old(self).data@, old(self).offset as int) {
                None => r is None && *final(self) == *old(self),
                Some((next, t)) => r matches Some(ie) && ie@ == old(self).data@.skip(old(self).offset as int)
                    && final(self).offset == next && final(self).terminated == t,
            },
    {
        if self.terminated {
            return None;
        }
        let rest = &self.data[self.offset..self.data.len()];
        let ie = match HeaderInformationElement::new(rest) {
            Ok(ie) => ie,
            Err(_) => return None,
        };
        let id = ie.element_id();
        self.terminated = id == HeaderElementId::HeaderTermination1 || id == HeaderElementId::HeaderTermination2;
        self.offset = self.offset + ie.len() + 2;
        if self.offset >= self.data.len() {
            self.terminated = true;
        }
        Some(ie)
    }
}


/// The signed 12-bit time correction, in microseconds, of the header word `v`.
pub open spec fn spec_time_correction(v: u16) -> int {
    let t = (v & 0x0fff) as int;
    if t >= 0x800 { t - 0x1000 } else { t }
}

/// A reader/writer for the IEEE 802.15.4 Time Correction Header Information
/// Element.
pub struct TimeCorrection<T> {
    buffer: T,
}

impl<T: View<V = Seq<u8>>> View for TimeCorrection<T> {
    type V = Seq<u8>;

    closed spec fn view(&self) -> Seq<u8> {
        self.buffer@
    }
}

impl<'a> TimeCorrection<&'a [u8]> {
    /// Create a new [`TimeCorrection`] reader; fails when the buffer holds
    /// fewer than two octets.
    pub fn new(buffer: &'a [u8]) -> (r: Result<Self, Error>)
        ensures
            r is Ok <==> buffer@.len() >= 2,
            r matches Ok(tc) ==> tc@ == buffer@,
    {
        let ie = Self::new_unchecked(buffer);
        if !ie.check_len() {
            return Err(Error);
        }
        Ok(ie)
    }

    /// Returns `false` if the buffer is too short to contain the Time
    /// Correction field.
    fn check_len(&self) -> (r: bool)
        ensures
            r == (self@.len() >= 2),
    {
        self.buffer.len() >= 2
    }

    /// Create a new [`TimeCorrection`] reader without length checking.
    pub fn new_unchecked(buffer: &'a [u8]) -> (r: Self)
        ensures
            r@ == buffer@,
    {
        Self { buffer }
    }

    /// Returns the length of the Time Correction field.
    #[allow(clippy::len_without_is_empty)]
    pub fn len(&self) -> (r: usize)
        ensures
            r == 2,
    {
        2
    }

    /// Return the time correction value in us: the low 12 bits of the
    /// little-endian word, as a two's complement number.
    pub fn time_correction(&self) -> (r: Duration)
        requires
            self@.len() >= 2,
        ensures
            r.0 == spec_time_correction(le16(self@[0], self@[1])),
    {
        let v = read_le16(self.buffer, 0);
        let t = v & 0x0fff;
        if t >= 0x800 {
            Duration::from_us(t as i64 - 0x1000)
        } else {
            Duration::from_us(t as i64)
        }
    }

    /// Returns `true` when the frame is not acknowledged (bit 15 of the word).
    pub fn nack(&self) -> (r: bool)
        requires
            self@.len() >= 2,
        ensures
            r == (le16(self@[0], self@[1]) & 0x8000 != 0),
    {
        let v = read_le16(self.buffer, 0);
        v & 0x8000 != 0
    }
}

/// The word written for a time correction of `us` microseconds: its low 12
/// bits (two's complement), the NACK bit cleared.
pub open spec fn spec_time_correction_word(us: i64) -> u16 {
    (us as u16) & 0x0fff
}

impl TimeCorrection<Vec<u8>> {
    /// Create a new [`TimeCorrection`] writer owning its buffer.
    pub fn new_owned(buffer: Vec<u8>) -> (r: Self)
        ensures
            r@ == buffer@,
    {
        Self { buffer }
    }

    /// The bytes of this element.
    pub fn as_bytes(&self) -> (r: &[u8])
        ensures
            r@ == self@,
    {
        self.buffer.as_slice()
    }

    /// Set the time correction value; this clears the NACK bit.
    pub fn set_time_correction(&mut self, time_correction: Duration)
        requires
            old(self)@.len() >= 2,
        ensures
            final(self)@ == splice(
                old(self)@,
                0,
                seq![
                    (spec_time_correction_word(time_correction.0) & 0xff) as u8,
                    (spec_time_correction_word(time_correction.0) >> 8u16) as u8,
                ],
            ),
    {
        let time = (time_correction.as_us() as u16) & 0x0fff;
        write_le16_at(self.buffer.as_mut_slice(), 0, time);
    }

    /// Set the NACK field (bit 15 of the word).
    pub fn set_nack(&mut self, nack: bool)
        requires
            old(self)@.len() >= 2,
        ensures
            final(self)@ == splice(
                old(self)@,
                0,
                seq![
                    ((if nack { le16(old(self)@[0], old(self)@[1]) | 0x8000 } else { le16(old(self)@[0], old(self)@[1]) & 0x7fff }) & 0xff) as u8,
                    ((if nack { le16(old(self)@[0], old(self)@[1]) | 0x8000 } else { le16(old(self)@[0], old(self)@[1]) & 0x7fff }) >> 8u16) as u8,
                ],
            ),
    {
        let value = read_le16(self.buffer.as_slice(), 0);
        let v = if nack { value | 0x8000 } else { value & 0x7fff };
        write_le16_at(self.buffer.as_mut_slice(), 0, v);
    }
}

/// Reading back the time correction written gives the value written, for
/// values in the 12-bit range; the NACK bit reads back as set.
pub proof fn lemma_time_correction_roundtrip(us: i64)
    requires
        -2048 <= us < 2048,
    ensures
        spec_time_correction(spec_time_correction_word(us) | 0x8000) == us,
        spec_time_correction(spec_time_correction_word(us)) == us,
{
    let w = spec_time_correction_word(us);
    assert((((us as u16) & 0x0fffu16) | 0x8000u16) & 0x0fffu16 == (us as u16) & 0x0fffu16) by (bit_vector);
    assert(((us as u16) & 0x0fffu16) & 0x0fffu16 == (us as u16) & 0x0fffu16) by (bit_vector);
    if us >= 0 {
        assert(0 <= us < 2048 ==> (us as u16) & 0x0fff == us) by (bit_vector);
    } else {
        assert(-2048 <= us < 0 ==> ((us as u16) & 0x0fff) as int == us + 4096) by (bit_vector);
    }
}

/// Vendor Specific Header Information Element.
pub struct VendorSpecific<T> {
    buffer: T,
}

impl<T: View<V = Seq<u8>>> View for VendorSpecific<T> {
    type V = Seq<u8>;

    closed spec fn view(&self) -> Seq<u8> {
        self.buffer@
    }
}

impl<'a> VendorSpecific<&'a [u8]> {
    /// Create a new [`VendorSpecific`] reader; fails when the buffer holds fewer
    /// than 3 octets.
    pub fn new(buffer: &'a [u8]) -> (r: Result<Self, Error>)
        ensures
            r is Ok <==> buffer@.len() >= 3,
            r matches Ok(s) ==> s@ == buffer@,
    {
        let s = Self::new_unchecked(buffer);
        if !s.check_len() {
            return Err(Error);
        }
        Ok(s)
    }

    /// Returns `false` if the buffer is too short to contain this structure.
    fn check_len(&self) -> (r: bool)
        ensures
            r == (self@.len() >= 3),
    {
        self.buffer.len() >= Self::size()
    }

    /// Create a new [`VendorSpecific`] reader without length checking.
    pub fn new_unchecked(buffer: &'a [u8]) -> (r: Self)
        ensures
            r@ == buffer@,
    {
        Self { buffer }
    }

    /// Returns the size of this structure in bytes.
    pub fn size() -> (r: usize)
        ensures
            r == 3,
    {
        3
    }

    /// Returns the vendor OUI field (the three octets as the upper octets of a little-endian word).
    pub fn vendor_oui(&self) -> (r: u32)
        requires
            self@.len() >= 3,
        ensures
            r == ((self@[0] as u32) << 8u32) | ((self@[1] as u32) << 16u32) | ((self@[2] as u32) << 24u32),
    {
        ((self.buffer[0] as u32) << 8u32) | ((self.buffer[1] as u32) << 16u32) | ((self.buffer[2] as u32) << 24u32)
    }

    /// Returns the vendor specific payload.
    pub fn vendor_specific_payload(&self) -> (r: &'a [u8])
        requires
            self@.len() >= 3,
        ensures
            r@ == self@.skip(3),
    {
        &self.buffer[3..self.buffer.len()]
    }

}

/// CSL Header Information Element.
pub struct Csl<T> {
    buffer: T,
}

impl<T: View<V = Seq<u8>>> View for Csl<T> {
    type V = Seq<u8>;

    closed spec fn view(&self) -> Seq<u8> {
        self.buffer@
    }
}

impl<'a> Csl<&'a [u8]> {
    /// Create a new [`Csl`] reader; fails when the buffer holds fewer
    /// than 6 octets.
    pub fn new(buffer: &'a [u8]) -> (r: Result<Self, Error>)
        ensures
            r is Ok <==> buffer@.len() >= 6,
            r matches Ok(s) ==> s@ == buffer@,
    {
        let s = Self::new_unchecked(buffer);
        if !s.check_len() {
            return Err(Error);
        }
        Ok(s)
    }

    /// Returns `false` if the buffer is too short to contain this structure.
    fn check_len(&self) -> (r: bool)
        ensures
            r == (self@.len() >= 6),
    {
        self.buffer.len() >= Self::size()
    }

    /// Create a new [`Csl`] reader without length checking.
    pub fn new_unchecked(buffer: &'a [u8]) -> (r: Self)
        ensures
            r@ == buffer@,
    {
        Self { buffer }
    }

    /// Returns the size of this structure in bytes.
    pub fn size() -> (r: usize)
        ensures
            r == 6,
    {
        6
    }

    /// Return the CSL phase field value.
    pub fn csl_phase(&self) -> (r: u16)
        requires
            self@.len() >= 2,
        ensures
            r == le16(self@[0], self@[1]),
    {
        read_le16(self.buffer, 0)
    }

    /// Return the CSL period field value.
    pub fn csl_period(&self) -> (r: u16)
        requires
            self@.len() >= 4,
        ensures
            r == le16(self@[2], self@[3]),
    {
        read_le16(self.buffer, 2)
    }

    /// Return the rendezvous time field value, present when the buffer is longer than four octets.
    pub fn rendezvous_time(&self) -> (r: Option<u16>)
        requires
            self@.len() >= 6,
        ensures
            (self@.len() > 4 ==> r == Some(le16(self@[4], self@[5]))) && (self@.len() <= 4 ==> r is None),
    {
        if self.buffer.len() > 4 { Some(read_le16(self.buffer, 4)) } else { None }
    }

}

/// RIT Header Information Element.
pub struct Rit<T> {
    buffer: T,
}

impl<T: View<V = Seq<u8>>> View for Rit<T> {
    type V = Seq<u8>;

    closed spec fn view(&self) -> Seq<u8> {
        self.buffer@
    }
}

impl<'a> Rit<&'a [u8]> {
    /// Create a new [`Rit`] reader; fails when the buffer holds fewer
    /// than 4 octets.
    pub fn new(buffer: &'a [u8]) -> (r: Result<Self, Error>)
        ensures
            r is Ok <==> buffer@.len() >= 4,
            r matches Ok(s) ==> s@ == buffer@,
    {
        let s = Self::new_unchecked(buffer);
        if !s.check_len() {
            return Err(Error);
        }
        Ok(s)
    }

    /// Returns `false` if the buffer is too short to contain this structure.
    fn check_len(&self) -> (r: bool)
        ensures
            r == (self@.len() >= 4),
    {
        self.buffer.len() >= Self::size()
    }

    /// Create a new [`Rit`] reader without length checking.
    pub fn new_unchecked(buffer: &'a [u8]) -> (r: Self)
        ensures
            r@ == buffer@,
    {
        Self { buffer }
    }

    /// Returns the size of this structure in bytes.
    pub fn size() -> (r: usize)
        ensures
            r == 4,
    {
        4
    }

    /// Return the time to first listen field value.
    pub fn time_to_first_listen(&self) -> (r: u8)
        requires
            self@.len() >= 1,
        ensures
            r == self@[0],
    {
        self.buffer[0]
    }

    /// Return the number of repeat listen field value.
    pub fn number_of_repeat_listen(&self) -> (r: u8)
        requires
            self@.len() >= 2,
        ensures
            r == self@[1],
    {
        self.buffer[1]
    }

    /// Return the repeat listen interval field value.
    pub fn repeat_listen_interval(&self) -> (r: u16)
        requires
            self@.len() >= 4,
        ensures
            r == le16(self@[2], self@[3]),
    {
        read_le16(self.buffer, 2)
    }

}

/// DSME Superframe Specification Header Information Element.
pub struct DsmeSuperframeSpecification<T> {
    buffer: T,
}

impl<T: View<V = Seq<u8>>> View for DsmeSuperframeSpecification<T> {
    type V = Seq<u8>;

    closed spec fn view(&self) -> Seq<u8> {
        self.buffer@
    }
}

impl<'a> DsmeSuperframeSpecification<&'a [u8]> {
    /// Create a new [`DsmeSuperframeSpecification`] reader; fails when the buffer holds fewer
    /// than 1 octets.
    pub fn new(buffer: &'a [u8]) -> (r: Result<Self, Error>)
        ensures
            r is Ok <==> buffer@.len() >= 1,
            r matches Ok(s) ==> s@ == buffer@,
    {
        let s = Self::new_unchecked(buffer);
        if !s.check_len() {
            return Err(Error);
        }
        Ok(s)
    }

    /// Returns `false` if the buffer is too short to contain this structure.
    fn check_len(&self) -> (r: bool)
        ensures
            r == (self@.len() >= 1),
    {
        self.buffer.len() >= Self::size()
    }

    /// Create a new [`DsmeSuperframeSpecification`] reader without length checking.
    pub fn new_unchecked(buffer: &'a [u8]) -> (r: Self)
        ensures
            r@ == buffer@,
    {
        Self { buffer }
    }

    /// Returns the size of this structure in bytes.
    pub fn size() -> (r: usize)
        ensures
            r == 1,
    {
        1
    }

    /// Return the multi superframe order field value.
    pub fn multi_superframe_order(&self) -> (r: u8)
        requires
            self@.len() >= 1,
        ensures
            r == (self@[0] >> 0u8) & 15,
    {
        (self.buffer[0] >> 0u8) & 15
    }

    /// Return the channel diversity mode field value.
    pub fn channel_diversity_mode(&self) -> (r: bool)
        requires
            self@.len() >= 1,
        ensures
            r == ((self@[0] >> 4u8) & 1 != 0),
    {
        ((self.buffer[0] >> 4u8) & 1) != 0
    }

    /// Return the cap reduction field value.
    pub fn cap_reduction(&self) -> (r: bool)
        requires
            self@.len() >= 1,
        ensures
            r == ((self@[0] >> 6u8) & 1 != 0),
    {
        ((self.buffer[0] >> 6u8) & 1) != 0
    }

    /// Return the deferred beacon field value.
    pub fn deferred_beacon(&self) -> (r: bool)
        requires
            self@.len() >= 1,
        ensures
            r == ((self@[0] >> 7u8) & 1 != 0),
    {
        ((self.buffer[0] >> 7u8) & 1) != 0
    }

}

/// Time Synchronization Specification Header Information Element.
pub struct TimeSynchronizationSpecification<T> {
    buffer: T,
}

impl<T: View<V = Seq<u8>>> View for TimeSynchronizationSpecification<T> {
    type V = Seq<u8>;

    closed spec fn view(&self) -> Seq<u8> {
        self.buffer@
    }
}

impl<'a> TimeSynchronizationSpecification<&'a [u8]> {
    /// Create a new [`TimeSynchronizationSpecification`] reader; fails when the buffer holds fewer
    /// than 10 octets.
    pub fn new(buffer: &'a [u8]) -> (r: Result<Self, Error>)
        ensures
            r is Ok <==> buffer@.len() >= 10,
            r matches Ok(s) ==> s@ == buffer@,
    {
        let s = Self::new_unchecked(buffer);
        if !s.check_len() {
            return Err(Error);
        }
        Ok(s)
    }

    /// Returns `false` if the buffer is too short to contain this structure.
    fn check_len(&self) -> (r: bool)
        ensures
            r == (self@.len() >= 10),
    {
        self.buffer.len() >= Self::size()
    }

    /// Create a new [`TimeSynchronizationSpecification`] reader without length checking.
    pub fn new_unchecked(buffer: &'a [u8]) -> (r: Self)
        ensures
            r@ == buffer@,
    {
        Self { buffer }
    }

    /// Returns the size of this structure in bytes.
    pub fn size() -> (r: usize)
        ensures
            r == 10,
    {
        10
    }

    /// Return the beacon timestamp field value.
    pub fn beacon_timestamp(&self) -> (r: &'a [u8])
        requires
            self@.len() >= 8,
        ensures
            r@ == self@.subrange(0, 8),
    {
        &self.buffer[0..8]
    }

    /// Return the beacon offset timestamp field value.
    pub fn beacon_offset_timestamp(&self) -> (r: u16)
        requires
            self@.len() >= 10,
        ensures
            r == le16(self@[8], self@[9]),
    {
        read_le16(self.buffer, 8)
    }

}

/// Channel Hopping Specification Header Information Element.
pub struct ChannelHoppingSpecification<T> {
    buffer: T,
}

impl<T: View<V = Seq<u8>>> View for ChannelHoppingSpecification<T> {
    type V = Seq<u8>;

    closed spec fn view(&self) -> Seq<u8> {
        self.buffer@
    }
}

impl<'a> ChannelHoppingSpecification<&'a [u8]> {
    /// Create a new [`ChannelHoppingSpecification`] reader; fails when the buffer holds fewer
    /// than 5 octets.
    pub fn new(buffer: &'a [u8]) -> (r: Result<Self, Error>)
        ensures
            r is Ok <==> buffer@.len() >= 5,
            r matches Ok(s) ==> s@ == buffer@,
    {
        let s = Self::new_unchecked(buffer);
        if !s.check_len() {
            return Err(Error);
        }
        Ok(s)
    }

    /// Returns `false` if the buffer is too short to contain this structure.
    fn check_len(&self) -> (r: bool)
        ensures
            r == (self@.len() >= 5),
    {
        self.buffer.len() >= Self::size()
    }

    /// Create a new [`ChannelHoppingSpecification`] reader without length checking.
    pub fn new_unchecked(buffer: &'a [u8]) -> (r: Self)
        ensures
            r@ == buffer@,
    {
        Self { buffer }
    }

    /// Returns the size of this structure in bytes.
    pub fn size() -> (r: usize)
        ensures
            r == 5,
    {
        5
    }

    /// Return the hopping sequence ID field value.
    pub fn hopping_sequence_id(&self) -> (r: u8)
        requires
            self@.len() >= 1,
        ensures
            r == self@[0],
    {
        self.buffer[0]
    }

    /// Return the PAN coordinator BSN field value.
    pub fn pan_coordinator_bsn(&self) -> (r: u8)
        requires
            self@.len() >= 2,
        ensures
            r == self@[1],
    {
        self.buffer[1]
    }

    /// Return the channel offset field value.
    pub fn channel_offset(&self) -> (r: u16)
        requires
            self@.len() >= 4,
        ensures
            r == le16(self@[2], self@[3]),
    {
        read_le16(self.buffer, 2)
    }

    /// Return the channel offset bitmap length field value.
    pub fn channel_offset_bitmap_length(&self) -> (r: u8)
        requires
            self@.len() >= 5,
        ensures
            r == self@[4],
    {
        self.buffer[4]
    }

    /// Return the channel offset bitmap field value.
    pub fn channel_offset_bitmap(&self) -> (r: &'a [u8])
        requires
            self@.len() >= 5,
        ensures
            r@ == self@.skip(5),
    {
        &self.buffer[5..self.buffer.len()]
    }

}

/// Rendezvous Time Header Information Element.
pub struct RendezvousTime<T> {
    buffer: T,
}

impl<T: View<V = Seq<u8>>> View for RendezvousTime<T> {
    type V = Seq<u8>;

    closed spec fn view(&self) -> Seq<u8> {
        self.buffer@
    }
}

impl<'a> RendezvousTime<&'a [u8]> {
    /// Create a new [`RendezvousTime`] reader; fails when the buffer holds fewer
    /// than 4 octets.
    pub fn new(buffer: &'a [u8]) -> (r: Result<Self, Error>)
        ensures
            r is Ok <==> buffer@.len() >= 4,
            r matches Ok(s) ==> s@ == buffer@,
    {
        let s = Self::new_unchecked(buffer);
        if !s.check_len() {
            return Err(Error);
        }
        Ok(s)
    }

    /// Returns `false` if the buffer is too short to contain this structure.
    fn check_len(&self) -> (r: bool)
        ensures
            r == (self@.len() >= 4),
    {
        self.buffer.len() >= Self::size()
    }

    /// Create a new [`RendezvousTime`] reader without length checking.
    pub fn new_unchecked(buffer: &'a [u8]) -> (r: Self)
        ensures
            r@ == buffer@,
    {
        Self { buffer }
    }

    /// Returns the size of this structure in bytes.
    pub fn size() -> (r: usize)
        ensures
            r == 4,
    {
        4
    }

    /// Return the rendezvous time field value.
    pub fn rendezvous_time(&self) -> (r: u16)
        requires
            self@.len() >= 2,
        ensures
            r == le16(self@[0], self@[1]),
    {
        read_le16(self.buffer, 0)
    }

    /// Return the wake-up interval field value.
    pub fn wake_up_interval(&self) -> (r: u16)
        requires
            self@.len() >= 4,
        ensures
            r == le16(self@[2], self@[3]),
    {
        read_le16(self.buffer, 2)
    }

}

/// A reader for the IEEE 802.15.4 Simplified Superframe Specification Header Information Element.
pub struct SimplifiedSuperframeSpecification<T> {
    buffer: T,
}

impl<T: View<V = Seq<u8>>> View for SimplifiedSuperframeSpecification<T> {
    type V = Seq<u8>;

    closed spec fn view(&self) -> Seq<u8> {
        self.buffer@
    }
}

impl<'a> SimplifiedSuperframeSpecification<&'a [u8]> {
    /// Create a new [`SimplifiedSuperframeSpecification`] reader; fails when the buffer holds fewer
    /// than 6 octets.
    pub fn new(buffer: &'a [u8]) -> (r: Result<Self, Error>)
        ensures
            r is Ok <==> buffer@.len() >= 6,
            r matches Ok(s) ==> s@ == buffer@,
    {
        let s = Self::new_unchecked(buffer);
        if !s.check_len() {
            return Err(Error);
        }
        Ok(s)
    }

    /// Returns `false` if the buffer is too short to contain this structure.
    fn check_len(&self) -> (r: bool)
        ensures
            r == (self@.len() >= 6),
    {
        self.buffer.len() >= Self::size()
    }

    /// Create a new [`SimplifiedSuperframeSpecification`] reader without length checking.
    pub fn new_unchecked(buffer: &'a [u8]) -> (r: Self)
        ensures
            r@ == buffer@,
    {
        Self { buffer }
    }

    /// Returns the size of this structure in bytes.
    pub fn size() -> (r: usize)
        ensures
            r == 6,
    {
        6
    }

    /// Returns the timestamp field value.
    pub fn timestamp(&self) -> (r: u16)
        requires
            self@.len() >= 2,
        ensures
            r == le16(self@[0], self@[1]),
    {
        read_le16(self.buffer, 0)
    }

    /// Returns the superframe specification field value.
    pub fn superframe_specification(&self) -> (r: Result<SuperframeSpecification<&'a [u8]>, Error>)
        requires
            self@.len() >= 4,
        ensures
            r matches Ok(s) && s@ == self@.subrange(2, 4),
    {
        SuperframeSpecification::new(&self.buffer[2..4])
    }

    /// Returns the CFP specification field value.
    pub fn cfp_specification(&self) -> (r: Result<CfpSpecification<&'a [u8]>, Error>)
        requires
            self@.len() >= 5,
        ensures
            r matches Ok(s) && s@ == self@.subrange(4, 5),
    {
        CfpSpecification::new(&self.buffer[4..5])
    }

}

/// A reader for the IEEE 802.15.4 Superframe Specification field of a Simplified Superframe Specification.
pub struct SuperframeSpecification<T> {
    buffer: T,
}

impl<T: View<V = Seq<u8>>> View for SuperframeSpecification<T> {
    type V = Seq<u8>;

    closed spec fn view(&self) -> Seq<u8> {
        self.buffer@
    }
}

impl<'a> SuperframeSpecification<&'a [u8]> {
    /// Create a new [`SuperframeSpecification`] reader; fails when the buffer holds fewer
    /// than 2 octets.
    pub fn new(buffer: &'a [u8]) -> (r: Result<Self, Error>)
        ensures
            r is Ok <==> buffer@.len() >= 2,
            r matches Ok(s) ==> s@ == buffer@,
    {
        let s = Self::new_unchecked(buffer);
        if !s.check_len() {
            return Err(Error);
        }
        Ok(s)
    }

    /// Returns `false` if the buffer is too short to contain this structure.
    fn check_len(&self) -> (r: bool)
        ensures
            r == (self@.len() >= 2),
    {
        self.buffer.len() >= Self::size()
    }

    /// Create a new [`SuperframeSpecification`] reader without length checking.
    pub fn new_unchecked(buffer: &'a [u8]) -> (r: Self)
        ensures
            r@ == buffer@,
    {
        Self { buffer }
    }

    /// Returns the size of this structure in bytes.
    pub fn size() -> (r: usize)
        ensures
            r == 2,
    {
        2
    }

    /// Return the beacon order field value.
    pub fn beacon_order(&self) -> (r: u8)
        requires
            self@.len() >= 1,
        ensures
            r == (self@[0] >> 0u8) & 15,
    {
        (self.buffer[0] >> 0u8) & 15
    }

    /// Return the superframe order field value.
    pub fn superframe_order(&self) -> (r: u8)
        requires
            self@.len() >= 1,
        ensures
            r == (self@[0] >> 4u8) & 15,
    {
        (self.buffer[0] >> 4u8) & 15
    }

    /// Return the final cap slot field value.
    pub fn final_cap_slot(&self) -> (r: u8)
        requires
            self@.len() >= 2,
        ensures
            r == (self@[1] >> 0u8) & 15,
    {
        (self.buffer[1] >> 0u8) & 15
    }

    /// Return the battery life extension field value.
    pub fn battery_life_extension(&self) -> (r: bool)
        requires
            self@.len() >= 2,
        ensures
            r == ((self@[1] >> 4u8) & 1 != 0),
    {
        ((self.buffer[1] >> 4u8) & 1) != 0
    }

    /// Return the PAN coordinator field value.
    pub fn pan_coordinator(&self) -> (r: bool)
        requires
            self@.len() >= 2,
        ensures
            r == ((self@[1] >> 6u8) & 1 != 0),
    {
        ((self.buffer[1] >> 6u8) & 1) != 0
    }

    /// Return the association permit field value.
    pub fn association_permit(&self) -> (r: bool)
        requires
            self@.len() >= 2,
        ensures
            r == ((self@[1] >> 7u8) & 1 != 0),
    {
        ((self.buffer[1] >> 7u8) & 1) != 0
    }

}

/// A reader for the IEEE 802.15.4 CFP Specification field.
pub struct CfpSpecification<T> {
    buffer: T,
}

impl<T: View<V = Seq<u8>>> View for CfpSpecification<T> {
    type V = Seq<u8>;

    closed spec fn view(&self) -> Seq<u8> {
        self.buffer@
    }
}

impl<'a> CfpSpecification<&'a [u8]> {
    /// Create a new [`CfpSpecification`] reader; fails when the buffer holds fewer
    /// than 1 octets.
    pub fn new(buffer: &'a [u8]) -> (r: Result<Self, Error>)
        ensures
            r is Ok <==> buffer@.len() >= 1,
            r matches Ok(s) ==> s@ == buffer@,
    {
        let s = Self::new_unchecked(buffer);
        if !s.check_len() {
            return Err(Error);
        }
        Ok(s)
    }

    /// Returns `false` if the buffer is too short to contain this structure.
    fn check_len(&self) -> (r: bool)
        ensures
            r == (self@.len() >= 1),
    {
        self.buffer.len() >= Self::size()
    }

    /// Create a new [`CfpSpecification`] reader without length checking.
    pub fn new_unchecked(buffer: &'a [u8]) -> (r: Self)
        ensures
            r@ == buffer@,
    {
        Self { buffer }
    }

    /// Returns the size of this structure in bytes.
    pub fn size() -> (r: usize)
        ensures
            r == 1,
    {
        1
    }

    /// Return the GTS field value.
    pub fn gts_count(&self) -> (r: u8)
        requires
            self@.len() >= 1,
        ensures
            r == (self@[0] >> 0u8) & 7,
    {
        (self.buffer[0] >> 0u8) & 7
    }

    /// Return the first CFP slot field value.
    pub fn first_cfp_slot(&self) -> (r: u8)
        requires
            self@.len() >= 1,
        ensures
            r == (self@[0] >> 3u8) & 31,
    {
        (self.buffer[0] >> 3u8) & 31
    }

    /// Return the last CFP slot field value.
    pub fn last_cfp_slot(&self) -> (r: u8)
        requires
            self@.len() >= 2,
        ensures
            r == (self@[1] >> 0u8) & 15,
    {
        (self.buffer[1] >> 0u8) & 15
    }

    /// Return the CFP field value.
    pub fn gts_permit(&self) -> (r: bool)
        requires
            self@.len() >= 2,
        ensures
            r == ((self@[1] >> 4u8) & 1 != 0),
    {
        ((self.buffer[1] >> 4u8) & 1) != 0
    }

}

} // verus!

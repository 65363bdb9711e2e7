//! IEEE 802.15.4 nested Information Elements (inside MLME Payload IEs).
use vstd::prelude::*;

use crate::bytes::{le16, read_le16, le_value, read_le_uint, splice, write_le16_at, le_bytes, write_le_uint};
use crate::time::Duration;
use crate::Error;

verus! {

/// The type bit of a nested IE whose second octet is `b1`: `true` for the
/// long format.
pub open spec fn nie_is_long(b1: u8) -> bool {
    (b1 >> 7u8) & 1 == 1
}

/// The length field of a nested IE (bits 0-7 in the short format, 0-10 in
/// the long format).
pub open spec fn nie_len(b0: u8, b1: u8) -> nat {
    if nie_is_long(b1) {
        (le16(b0, b1) & 0b111_1111_1111) as nat
    } else {
        (le16(b0, b1) & 0b1111_1111) as nat
    }
}

/// The sub-ID of a nested IE (bits 8-14 in the short format, 11-14 in the
/// long format).
pub open spec fn nie_sub_id(b0: u8, b1: u8) -> NestedSubId {
    if nie_is_long(b1) {
        NestedSubId::Long(NestedSubIdLong::spec_from(((le16(b0, b1) >> 11u16) & 0b1111) as u8))
    } else {
        NestedSubId::Short(NestedSubIdShort::spec_from(((le16(b0, b1) >> 8u16) & 0b111_1111) as u8))
    }
}

/// A reader/writer for an IEEE 802.15.4 nested Information Element.
#[derive(Debug)]
pub struct NestedInformationElement<T> {
    data: T,
}

impl<T: View<V = Seq<u8>>> View for NestedInformationElement<T> {
    type V = Seq<u8>;

    closed spec fn view(&self) -> Seq<u8> {
        self.data@
    }
}

impl<T: View<V = Seq<u8>>> NestedInformationElement<T> {
    /// The length field value.
    pub open spec fn spec_length(&self) -> nat {
        nie_len(self@[0], self@[1])
    }

    /// The sub-ID field value.
    pub open spec fn spec_sub_id(&self) -> NestedSubId {
        nie_sub_id(self@[0], self@[1])
    }
}

impl<'a> NestedInformationElement<&'a [u8]> {
    /// Create a new [`NestedInformationElement`] reader; fails when the
    /// buffer holds fewer than two octets.
    pub fn new(data: &'a [u8]) -> (r: Result<Self, Error>)
        ensures
            r is Ok <==> data@.len() >= 2,
            r matches Ok(ie) ==> ie@ == data@,
    {
        if data.len() < 2 {
            return Err(Error);
        }
        Ok(Self::new_unchecked(data))
    }

    /// Create a new [`NestedInformationElement`] reader without length
    /// checking.
    pub fn new_unchecked(data: &'a [u8]) -> (r: Self)
        ensures
            r@ == data@,
    {
        Self { data }
    }

    /// Returns `true` for the long format.
    pub fn is_long(&self) -> (r: bool)
        requires
            self@.len() >= 2,
        ensures
            r == nie_is_long(self@[1]),
    {
        (self.data[1] >> 7u8) & 1 == 1
    }

    /// Returns `true` for the short format.
    pub fn is_short(&self) -> (r: bool)
        requires
            self@.len() >= 2,
        ensures
            r == !nie_is_long(self@[1]),
    {
        !self.is_long()
    }

    /// Return the length field value (the length of the content).
    pub fn length(&self) -> (r: usize)
        requires
            self@.len() >= 2,
        ensures
            r == self.spec_length(),
            r < 2048,
    {
        let v = read_le16(self.data, 0);
        proof {
            assert(v & 0b111_1111_1111 < 2048) by (bit_vector);
            assert(v & 0b1111_1111 < 2048) by (bit_vector);
        }
        if self.is_long() {
            (v & 0b111_1111_1111) as usize
        } else {
            (v & 0b1111_1111) as usize
        }
    }

    /// Return the [`NestedSubId`].
    pub fn sub_id(&self) -> (r: NestedSubId)
        requires
            self@.len() >= 2,
        ensures
            r == self.spec_sub_id(),
    {
        let v = read_le16(self.data, 0);
        if self.is_long() {
            NestedSubId::Long(NestedSubIdLong::from(((v >> 11u16) & 0b1111) as u8))
        } else {
            NestedSubId::Short(NestedSubIdShort::from(((v >> 8u16) & 0b111_1111) as u8))
        }
    }

    /// Return the content of this nested Information Element.
    pub fn content(&self) -> (r: &'a [u8])
        requires
            self@.len() >= 2 + self.spec_length(),
        ensures
            r@ == self@.subrange(2, 2 + self.spec_length() as int),
    {
        let l = self.length();
        &self.data[2..2 + l]
    }
}

/// The header word written by `set_length` for the sub-ID `id`.
pub open spec fn spec_nested_length_word(v: u16, len: u16, id: NestedSubId) -> u16 {
    match id {
        NestedSubId::Long(_) => (v & !0b111_1111_1111u16) | (len & 0b111_1111_1111),
        NestedSubId::Short(_) => (v & !0b1111_1111u16) | (len & 0b1111_1111),
    }
}

/// The header word written by `set_sub_id`.
pub open spec fn spec_nested_sub_id_word(v: u16, id: NestedSubId) -> u16 {
    match id {
        NestedSubId::Long(l) => (v & !0b0111_1000_0000_0000u16) | (((l.spec_value() as u16) & 0b1111) << 11u16) | 0b1000_0000_0000_0000,
        NestedSubId::Short(s) => (v & !0b1111_1111_0000_0000u16) | (((s.spec_value() as u16) & 0b111_1111) << 8u16),
    }
}

impl NestedInformationElement<Vec<u8>> {
    /// Create a new [`NestedInformationElement`] writer owning its buffer.
    pub fn new_owned(data: Vec<u8>) -> (r: Self)
        ensures
            r@ == data@,
    {
        Self { data }
    }

    /// The bytes of this element.
    pub fn as_bytes(&self) -> (r: &[u8])
        ensures
            r@ == self@,
    {
        self.data.as_slice()
    }

    /// Clear the content of this nested Information Element.
    pub fn clear(&mut self)
        ensures
            final(self)@ == Seq::new(old(self)@.len(), |i: int| 0u8),
    {
        let n = self.data.len();
        let mut i: usize = 0;
        while i < n
            invariant
                n == self.data@.len(),
                i <= n,
                forall|j: int| 0 <= j < i ==> self.data@[j] == 0u8,
            decreases n - i,
        {
            self.data.set(i, 0);
            i = i + 1;
        }
        assert(self.data@ =~= Seq::new(n as nat, |i: int| 0u8));
    }

    /// Set the length field, in the format of the sub-ID `id`.
    pub fn set_length(&mut self, len: u16, id: NestedSubId)
        requires
            old(self)@.len() >= 2,
        ensures
            final(self)@ == splice(
                old(self)@,
                0,
                seq![
                    (spec_nested_length_word(le16(old(self)@[0], old(self)@[1]), len, id) & 0xff) as u8,
                    (spec_nested_length_word(le16(old(self)@[0], old(self)@[1]), len, id) >> 8u16) as u8,
                ],
            ),
    {
        let v = read_le16(self.data.as_slice(), 0);
        let value = match id {
            NestedSubId::Long(_) => (v & !0b111_1111_1111u16) | (len & 0b111_1111_1111),
            NestedSubId::Short(_) => (v & !0b1111_1111u16) | (len & 0b1111_1111),
        };
        write_le16_at(self.data.as_mut_slice(), 0, value);
    }

    /// Set the sub-ID field and the type bit.
    pub fn set_sub_id(&mut self, id: NestedSubId)
        requires
            old(self)@.len() >= 2,
        ensures
            final(self)@ == splice(
                old(self)@,
                0,
                seq![
                    (spec_nested_sub_id_word(le16(old(self)@[0], old(self)@[1]), id) & 0xff) as u8,
                    (spec_nested_sub_id_word(le16(old(self)@[0], old(self)@[1]), id) >> 8u16) as u8,
                ],
            ),
    {
        let v = read_le16(self.data.as_slice(), 0);
        let value = match id {
            NestedSubId::Long(l) => (v & !0b0111_1000_0000_0000u16) | (((l.value() as u16) & 0b1111) << 11u16) | 0b1000_0000_0000_0000,
            NestedSubId::Short(s) => (v & !0b1111_1111_0000_0000u16) | (((s.value() as u16) & 0b111_1111) << 8u16),
        };
        write_le16_at(self.data.as_mut_slice(), 0, value);
    }

    /// Return the content of this nested Information Element for writing.
    pub fn content_mut(&mut self) -> (r: &mut [u8])
        requires
            old(self)@.len() >= 2,
        ensures
            r@ == old(self)@.skip(2),
            final(self)@ == old(self)@.subrange(0, 2) + final(r)@,
    {
        let s = self.data.as_mut_slice();
        let (_head, tail) = s.split_at_mut(2);
        tail
    }
}

/// Nested Information Element sub-ID.
#[derive(Debug, Eq, PartialEq, Clone, Copy, Structural)]
pub enum NestedSubId {
    /// Short nested Information Element sub-ID.
    Short(NestedSubIdShort),
    /// Long nested Information Element sub-ID.
    Long(NestedSubIdLong),
}

/// One step of the nested IE iteration over `data` from `offset`: `None`
/// when no element starts there, else the offset after the element and
/// whether the end of the data is reached.
pub open spec fn nested_step(data: Seq<u8>, offset: int) -> Option<(int, bool)> {
    if data.len() - offset < 2 {
        None
    } else {
        let next = offset + nie_len(data[offset], data[offset + 1]) + 2;
        Some((next, next >= data.len()))
    }
}

/// An iterator over [`NestedInformationElement`].
#[derive(Debug)]
pub struct NestedInformationElementsIterator<'f> {
    pub data: &'f [u8],
    pub offset: usize,
    pub terminated: bool,
}

impl<'f> NestedInformationElementsIterator<'f> {
    /// The iterator state is consistent.
    pub open spec fn wf(&self) -> bool {
        &&& self.data@.len() <= usize::MAX / 2
        &&& (!self.terminated ==> self.offset < self.data@.len())
    }

    /// Create a new iterator over the nested Information Elements in `data`.
    pub fn new(data: &'f [u8]) -> (r: Self)
        ensures
            r.data@ == data@,
            r.offset == 0,
            r.terminated == (data@.len() == 0),
            data@.len() <= usize::MAX / 2 ==> r.wf(),
    {
        Self { data, offset: 0, terminated: data.len() == 0 }
    }

    /// Return the next nested Information Element: the one at the current
    /// offset, unless the iteration has terminated or fewer than two octets
    /// are left.
    pub fn next(&mut self) -> (r: Option<NestedInformationElement<&'f [u8]>>)
        requires
            old(self).wf(),
        ensures
            final(self).wf(),
            final(self).data == old(self).data,
            old(self).terminated ==> r is None && *final(self) == *old(self),
            !old(self).terminated ==> match nested_step(old(self).data@, old(self).offset as int) {
                None => r is None && *final(self) == *old(self),
                Some((next, t)) => r matches Some(ie) && ie@ == old(self).data@.skip(old(self).offset as int)
                    && final(self).offset == next && final(self).terminated == t,
            },
    {
        if self.terminated {
            return None;
        }
        let rest = &self.data[self.offset..self.data.len()];
        let nested = match NestedInformationElement::new(rest) {
            Ok(ie) => ie,
            Err(_) => return None,
        };
        self.offset = self.offset + nested.length() + 2;
        self.terminated = self.offset >= self.data.len();
        Some(nested)
    }
}

/// Short nested Information Element sub-ID.
#[derive(Debug, Eq, PartialEq, Clone, Copy, Structural)]
pub enum NestedSubIdShort {
    /// Sub-ID 0x1a.
    TschSynchronization,
    /// Sub-ID 0x1b.
    TschSlotframeAndLink,
    /// Sub-ID 0x1c.
    TschTimeslot,
    /// Sub-ID 0x1d.
    HoppingTiming,
    /// Sub-ID 0x1e.
    EnhancedBeaconFilter,
    /// Sub-ID 0x1f.
    MacMetrics,
    /// Sub-ID 0x20.
    AllMacMetrics,
    /// Sub-ID 0x21.
    CoexistenceSpecification,
    /// Sub-ID 0x22.
    SunDeviceCapabilities,
    /// Sub-ID 0x23.
    SunFskGenericPhy,
    /// Sub-ID 0x24.
    ModeSwitchParameter,
    /// Sub-ID 0x25.
    PhyParameterChange,
    /// Sub-ID 0x26.
    OQpskPhyMode,
    /// Sub-ID 0x27.
    PcaAllocation,
    /// Sub-ID 0x28.
    LecimDsssOperatingMode,
    /// Sub-ID 0x29.
    LecimFskOperatingMode,
    /// Sub-ID 0x2b.
    TvwsPhyOperatingMode,
    /// Sub-ID 0x2c.
    TvwsDeviceCapabilities,
    /// Sub-ID 0x2d.
    TvwsDeviceCategory,
    /// Sub-ID 0x2e.
    TvwsDeviceIdentification,
    /// Sub-ID 0x2f.
    TvwsDeviceLocation,
    /// Sub-ID 0x30.
    TvwsChannelInformationQuery,
    /// Sub-ID 0x31.
    TvwsChannelInformationSource,
    /// Sub-ID 0x32.
    Ctm,
    /// Sub-ID 0x33.
    Timestamp,
    /// Sub-ID 0x34.
    TimestampDifference,
    /// Sub-ID 0x35.
    TmctpSpecification,
    /// Sub-ID 0x36.
    RccPhyOperatingMode,
    /// Sub-ID 0x37.
    LinkMargin,
    /// Sub-ID 0x38.
    RsGfskDeviceCapabilities,
    /// Sub-ID 0x39.
    MultiPhy,
    /// Sub-ID 0x40.
    VendorSpecific,
    /// Sub-ID 0x46.
    Srm,
    /// Unknown sub-ID.
    Unkown,
}

/// The short sub-IDs are the numbers of the standard's table of short
/// nested IEs: each is read from exactly its own value of the sub-ID field
/// and written as it; every other value reads as unknown.
pub proof fn lemma_nested_short_sub_id_numbers(v: u8)
    ensures
        NestedSubIdShort::spec_from(v) is TschSynchronization <==> v == 0x1a,
        NestedSubIdShort::spec_from(v) is TschSlotframeAndLink <==> v == 0x1b,
        NestedSubIdShort::spec_from(v) is TschTimeslot <==> v == 0x1c,
        NestedSubIdShort::spec_from(v) is HoppingTiming <==> v == 0x1d,
        NestedSubIdShort::spec_from(v) is EnhancedBeaconFilter <==> v == 0x1e,
        NestedSubIdShort::spec_from(v) is MacMetrics <==> v == 0x1f,
        NestedSubIdShort::spec_from(v) is AllMacMetrics <==> v == 0x20,
        NestedSubIdShort::spec_from(v) is CoexistenceSpecification <==> v == 0x21,
        NestedSubIdShort::spec_from(v) is SunDeviceCapabilities <==> v == 0x22,
        NestedSubIdShort::spec_from(v) is SunFskGenericPhy <==> v == 0x23,
        NestedSubIdShort::spec_from(v) is ModeSwitchParameter <==> v == 0x24,
        NestedSubIdShort::spec_from(v) is PhyParameterChange <==> v == 0x25,
        NestedSubIdShort::spec_from(v) is OQpskPhyMode <==> v == 0x26,
        NestedSubIdShort::spec_from(v) is PcaAllocation <==> v == 0x27,
        NestedSubIdShort::spec_from(v) is LecimDsssOperatingMode <==> v == 0x28,
        NestedSubIdShort::spec_from(v) is LecimFskOperatingMode <==> v == 0x29,
        NestedSubIdShort::spec_from(v) is TvwsPhyOperatingMode <==> v == 0x2b,
        NestedSubIdShort::spec_from(v) is TvwsDeviceCapabilities <==> v == 0x2c,
        NestedSubIdShort::spec_from(v) is TvwsDeviceCategory <==> v == 0x2d,
        NestedSubIdShort::spec_from(v) is TvwsDeviceIdentification <==> v == 0x2e,
        NestedSubIdShort::spec_from(v) is TvwsDeviceLocation <==> v == 0x2f,
        NestedSubIdShort::spec_from(v) is TvwsChannelInformationQuery <==> v == 0x30,
        NestedSubIdShort::spec_from(v) is TvwsChannelInformationSource <==> v == 0x31,
        NestedSubIdShort::spec_from(v) is Ctm <==> v == 0x32,
        NestedSubIdShort::spec_from(v) is Timestamp <==> v == 0x33,
        NestedSubIdShort::spec_from(v) is TimestampDifference <==> v == 0x34,
        NestedSubIdShort::spec_from(v) is TmctpSpecification <==> v == 0x35,
        NestedSubIdShort::spec_from(v) is RccPhyOperatingMode <==> v == 0x36,
        NestedSubIdShort::spec_from(v) is LinkMargin <==> v == 0x37,
        NestedSubIdShort::spec_from(v) is RsGfskDeviceCapabilities <==> v == 0x38,
        NestedSubIdShort::spec_from(v) is MultiPhy <==> v == 0x39,
        NestedSubIdShort::spec_from(v) is VendorSpecific <==> v == 0x40,
        NestedSubIdShort::spec_from(v) is Srm <==> v == 0x46,
        NestedSubIdShort::TschSynchronization.spec_value() == 0x1a,
        NestedSubIdShort::TschSlotframeAndLink.spec_value() == 0x1b,
        NestedSubIdShort::TschTimeslot.spec_value() == 0x1c,
        NestedSubIdShort::HoppingTiming.spec_value() == 0x1d,
        NestedSubIdShort::EnhancedBeaconFilter.spec_value() == 0x1e,
        NestedSubIdShort::MacMetrics.spec_value() == 0x1f,
        NestedSubIdShort::AllMacMetrics.spec_value() == 0x20,
        NestedSubIdShort::CoexistenceSpecification.spec_value() == 0x21,
        NestedSubIdShort::SunDeviceCapabilities.spec_value() == 0x22,
        NestedSubIdShort::SunFskGenericPhy.spec_value() == 0x23,
        NestedSubIdShort::ModeSwitchParameter.spec_value() == 0x24,
        NestedSubIdShort::PhyParameterChange.spec_value() == 0x25,
        NestedSubIdShort::OQpskPhyMode.spec_value() == 0x26,
        NestedSubIdShort::PcaAllocation.spec_value() == 0x27,
        NestedSubIdShort::LecimDsssOperatingMode.spec_value() == 0x28,
        NestedSubIdShort::LecimFskOperatingMode.spec_value() == 0x29,
        NestedSubIdShort::TvwsPhyOperatingMode.spec_value() == 0x2b,
        NestedSubIdShort::TvwsDeviceCapabilities.spec_value() == 0x2c,
        NestedSubIdShort::TvwsDeviceCategory.spec_value() == 0x2d,
        NestedSubIdShort::TvwsDeviceIdentification.spec_value() == 0x2e,
        NestedSubIdShort::TvwsDeviceLocation.spec_value() == 0x2f,
        NestedSubIdShort::TvwsChannelInformationQuery.spec_value() == 0x30,
        NestedSubIdShort::TvwsChannelInformationSource.spec_value() == 0x31,
        NestedSubIdShort::Ctm.spec_value() == 0x32,
        NestedSubIdShort::Timestamp.spec_value() == 0x33,
        NestedSubIdShort::TimestampDifference.spec_value() == 0x34,
        NestedSubIdShort::TmctpSpecification.spec_value() == 0x35,
        NestedSubIdShort::RccPhyOperatingMode.spec_value() == 0x36,
        NestedSubIdShort::LinkMargin.spec_value() == 0x37,
        NestedSubIdShort::RsGfskDeviceCapabilities.spec_value() == 0x38,
        NestedSubIdShort::MultiPhy.spec_value() == 0x39,
        NestedSubIdShort::VendorSpecific.spec_value() == 0x40,
        NestedSubIdShort::Srm.spec_value() == 0x46,
{
}

impl NestedSubIdShort {
    /// The sub-ID with value `value`.
    pub open spec fn spec_from(value: u8) -> NestedSubIdShort {
        match value {
            0x1a => NestedSubIdShort::TschSynchronization,
            0x1b => NestedSubIdShort::TschSlotframeAndLink,
            0x1c => NestedSubIdShort::TschTimeslot,
            0x1d => NestedSubIdShort::HoppingTiming,
            0x1e => NestedSubIdShort::EnhancedBeaconFilter,
            0x1f => NestedSubIdShort::MacMetrics,
            0x20 => NestedSubIdShort::AllMacMetrics,
            0x21 => NestedSubIdShort::CoexistenceSpecification,
            0x22 => NestedSubIdShort::SunDeviceCapabilities,
            0x23 => NestedSubIdShort::SunFskGenericPhy,
            0x24 => NestedSubIdShort::ModeSwitchParameter,
            0x25 => NestedSubIdShort::PhyParameterChange,
            0x26 => NestedSubIdShort::OQpskPhyMode,
            0x27 => NestedSubIdShort::PcaAllocation,
            0x28 => NestedSubIdShort::LecimDsssOperatingMode,
            0x29 => NestedSubIdShort::LecimFskOperatingMode,
            0x2b => NestedSubIdShort::TvwsPhyOperatingMode,
            0x2c => NestedSubIdShort::TvwsDeviceCapabilities,
            0x2d => NestedSubIdShort::TvwsDeviceCategory,
            0x2e => NestedSubIdShort::TvwsDeviceIdentification,
            0x2f => NestedSubIdShort::TvwsDeviceLocation,
            0x30 => NestedSubIdShort::TvwsChannelInformationQuery,
            0x31 => NestedSubIdShort::TvwsChannelInformationSource,
            0x32 => NestedSubIdShort::Ctm,
            0x33 => NestedSubIdShort::Timestamp,
            0x34 => NestedSubIdShort::TimestampDifference,
            0x35 => NestedSubIdShort::TmctpSpecification,
            0x36 => NestedSubIdShort::RccPhyOperatingMode,
            0x37 => NestedSubIdShort::LinkMargin,
            0x38 => NestedSubIdShort::RsGfskDeviceCapabilities,
            0x39 => NestedSubIdShort::MultiPhy,
            0x40 => NestedSubIdShort::VendorSpecific,
            0x46 => NestedSubIdShort::Srm,
            _ => NestedSubIdShort::Unkown,
        }
    }

    /// The value of this sub-ID (0x7f, a value no sub-ID has, for `Unkown`).
    pub open spec fn spec_value(self) -> u8 {
        match self {
            NestedSubIdShort::TschSynchronization => 0x1a,
            NestedSubIdShort::TschSlotframeAndLink => 0x1b,
            NestedSubIdShort::TschTimeslot => 0x1c,
            NestedSubIdShort::HoppingTiming => 0x1d,
            NestedSubIdShort::EnhancedBeaconFilter => 0x1e,
            NestedSubIdShort::MacMetrics => 0x1f,
            NestedSubIdShort::AllMacMetrics => 0x20,
            NestedSubIdShort::CoexistenceSpecification => 0x21,
            NestedSubIdShort::SunDeviceCapabilities => 0x22,
            NestedSubIdShort::SunFskGenericPhy => 0x23,
            NestedSubIdShort::ModeSwitchParameter => 0x24,
            NestedSubIdShort::PhyParameterChange => 0x25,
            NestedSubIdShort::OQpskPhyMode => 0x26,
            NestedSubIdShort::PcaAllocation => 0x27,
            NestedSubIdShort::LecimDsssOperatingMode => 0x28,
            NestedSubIdShort::LecimFskOperatingMode => 0x29,
            NestedSubIdShort::TvwsPhyOperatingMode => 0x2b,
            NestedSubIdShort::TvwsDeviceCapabilities => 0x2c,
            NestedSubIdShort::TvwsDeviceCategory => 0x2d,
            NestedSubIdShort::TvwsDeviceIdentification => 0x2e,
            NestedSubIdShort::TvwsDeviceLocation => 0x2f,
            NestedSubIdShort::TvwsChannelInformationQuery => 0x30,
            NestedSubIdShort::TvwsChannelInformationSource => 0x31,
            NestedSubIdShort::Ctm => 0x32,
            NestedSubIdShort::Timestamp => 0x33,
            NestedSubIdShort::TimestampDifference => 0x34,
            NestedSubIdShort::TmctpSpecification => 0x35,
            NestedSubIdShort::RccPhyOperatingMode => 0x36,
            NestedSubIdShort::LinkMargin => 0x37,
            NestedSubIdShort::RsGfskDeviceCapabilities => 0x38,
            NestedSubIdShort::MultiPhy => 0x39,
            NestedSubIdShort::VendorSpecific => 0x40,
            NestedSubIdShort::Srm => 0x46,
            NestedSubIdShort::Unkown => 0x7f,
        }
    }

    /// The value of this sub-ID.
    pub fn value(&self) -> (r: u8)
        ensures
            r == self.spec_value(),
    {
        match self {
            NestedSubIdShort::TschSynchronization => 0x1a,
            NestedSubIdShort::TschSlotframeAndLink => 0x1b,
            NestedSubIdShort::TschTimeslot => 0x1c,
            NestedSubIdShort::HoppingTiming => 0x1d,
            NestedSubIdShort::EnhancedBeaconFilter => 0x1e,
            NestedSubIdShort::MacMetrics => 0x1f,
            NestedSubIdShort::AllMacMetrics => 0x20,
            NestedSubIdShort::CoexistenceSpecification => 0x21,
            NestedSubIdShort::SunDeviceCapabilities => 0x22,
            NestedSubIdShort::SunFskGenericPhy => 0x23,
            NestedSubIdShort::ModeSwitchParameter => 0x24,
            NestedSubIdShort::PhyParameterChange => 0x25,
            NestedSubIdShort::OQpskPhyMode => 0x26,
            NestedSubIdShort::PcaAllocation => 0x27,
            NestedSubIdShort::LecimDsssOperatingMode => 0x28,
            NestedSubIdShort::LecimFskOperatingMode => 0x29,
            NestedSubIdShort::TvwsPhyOperatingMode => 0x2b,
            NestedSubIdShort::TvwsDeviceCapabilities => 0x2c,
            NestedSubIdShort::TvwsDeviceCategory => 0x2d,
            NestedSubIdShort::TvwsDeviceIdentification => 0x2e,
            NestedSubIdShort::TvwsDeviceLocation => 0x2f,
            NestedSubIdShort::TvwsChannelInformationQuery => 0x30,
            NestedSubIdShort::TvwsChannelInformationSource => 0x31,
            NestedSubIdShort::Ctm => 0x32,
            NestedSubIdShort::Timestamp => 0x33,
            NestedSubIdShort::TimestampDifference => 0x34,
            NestedSubIdShort::TmctpSpecification => 0x35,
            NestedSubIdShort::RccPhyOperatingMode => 0x36,
            NestedSubIdShort::LinkMargin => 0x37,
            NestedSubIdShort::RsGfskDeviceCapabilities => 0x38,
            NestedSubIdShort::MultiPhy => 0x39,
            NestedSubIdShort::VendorSpecific => 0x40,
            NestedSubIdShort::Srm => 0x46,
            NestedSubIdShort::Unkown => 0x7f,
        }
    }
}

impl From<u8> for NestedSubIdShort {
    fn from(value: u8) -> (r: Self) {
        match value {
            0x1a => NestedSubIdShort::TschSynchronization,
            0x1b => NestedSubIdShort::TschSlotframeAndLink,
            0x1c => NestedSubIdShort::TschTimeslot,
            0x1d => NestedSubIdShort::HoppingTiming,
            0x1e => NestedSubIdShort::EnhancedBeaconFilter,
            0x1f => NestedSubIdShort::MacMetrics,
            0x20 => NestedSubIdShort::AllMacMetrics,
            0x21 => NestedSubIdShort::CoexistenceSpecification,
            0x22 => NestedSubIdShort::SunDeviceCapabilities,
            0x23 => NestedSubIdShort::SunFskGenericPhy,
            0x24 => NestedSubIdShort::ModeSwitchParameter,
            0x25 => NestedSubIdShort::PhyParameterChange,
            0x26 => NestedSubIdShort::OQpskPhyMode,
            0x27 => NestedSubIdShort::PcaAllocation,
            0x28 => NestedSubIdShort::LecimDsssOperatingMode,
            0x29 => NestedSubIdShort::LecimFskOperatingMode,
            0x2b => NestedSubIdShort::TvwsPhyOperatingMode,
            0x2c => NestedSubIdShort::TvwsDeviceCapabilities,
            0x2d => NestedSubIdShort::TvwsDeviceCategory,
            0x2e => NestedSubIdShort::TvwsDeviceIdentification,
            0x2f => NestedSubIdShort::TvwsDeviceLocation,
            0x30 => NestedSubIdShort::TvwsChannelInformationQuery,
            0x31 => NestedSubIdShort::TvwsChannelInformationSource,
            0x32 => NestedSubIdShort::Ctm,
            0x33 => NestedSubIdShort::Timestamp,
            0x34 => NestedSubIdShort::TimestampDifference,
            0x35 => NestedSubIdShort::TmctpSpecification,
            0x36 => NestedSubIdShort::RccPhyOperatingMode,
            0x37 => NestedSubIdShort::LinkMargin,
            0x38 => NestedSubIdShort::RsGfskDeviceCapabilities,
            0x39 => NestedSubIdShort::MultiPhy,
            0x40 => NestedSubIdShort::VendorSpecific,
            0x46 => NestedSubIdShort::Srm,
            _ => NestedSubIdShort::Unkown,
        }
    }
}

impl vstd::std_specs::convert::FromSpecImpl<u8> for NestedSubIdShort {
    open spec fn obeys_from_spec() -> bool {
        true
    }

    open spec fn from_spec(v: u8) -> Self {
        NestedSubIdShort::spec_from(v)
    }
}

/// Long nested Information Element sub-ID.
#[derive(Debug, Eq, PartialEq, Clone, Copy, Structural)]
pub enum NestedSubIdLong {
    /// Sub-ID 0x08.
    VendorSpecificNested,
    /// Sub-ID 0x09.
    ChannelHopping,
    /// Unknown sub-ID.
    Unkown,
}

/// The long sub-IDs are the numbers of the standard's table of long nested
/// IEs: vendor specific is 0x08 and channel hopping 0x09; each is read
/// from exactly that value of the sub-ID field and written as it.
pub proof fn lemma_nested_long_sub_id_numbers(v: u8)
    ensures
        NestedSubIdLong::spec_from(v) is VendorSpecificNested <==> v == 0x08,
        NestedSubIdLong::spec_from(v) is ChannelHopping <==> v == 0x09,
        NestedSubIdLong::VendorSpecificNested.spec_value() == 0x08,
        NestedSubIdLong::ChannelHopping.spec_value() == 0x09,
{
}

impl NestedSubIdLong {
    /// The sub-ID with value `value`.
    pub open spec fn spec_from(value: u8) -> NestedSubIdLong {
        match value {
            0x08 => NestedSubIdLong::VendorSpecificNested,
            0x09 => NestedSubIdLong::ChannelHopping,
            _ => NestedSubIdLong::Unkown,
        }
    }

    /// The value of this sub-ID (0x0f, a value no sub-ID has, for `Unkown`).
    pub open spec fn spec_value(self) -> u8 {
        match self {
            NestedSubIdLong::VendorSpecificNested => 0x08,
            NestedSubIdLong::ChannelHopping => 0x09,
            NestedSubIdLong::Unkown => 0x0f,
        }
    }

    /// The value of this sub-ID.
    pub fn value(&self) -> (r: u8)
        ensures
            r == self.spec_value(),
    {
        match self {
            NestedSubIdLong::VendorSpecificNested => 0x08,
            NestedSubIdLong::ChannelHopping => 0x09,
            NestedSubIdLong::Unkown => 0x0f,
        }
    }
}

impl From<u8> for NestedSubIdLong {
    fn from(value: u8) -> (r: Self) {
        match value {
            0x08 => NestedSubIdLong::VendorSpecificNested,
            0x09 => NestedSubIdLong::ChannelHopping,
            _ => NestedSubIdLong::Unkown,
        }
    }
}

impl vstd::std_specs::convert::FromSpecImpl<u8> for NestedSubIdLong {
    open spec fn obeys_from_spec() -> bool {
        true
    }

    open spec fn from_spec(v: u8) -> Self {
        NestedSubIdLong::spec_from(v)
    }
}

/// A reader/writer for the TSCH Synchronization nested Information Element.
#[derive(Debug)]
pub struct TschSynchronization<T> {
    buffer: T,
}

impl<T: View<V = Seq<u8>>> View for TschSynchronization<T> {
    type V = Seq<u8>;

    closed spec fn view(&self) -> Seq<u8> {
        self.buffer@
    }
}

impl<'a> TschSynchronization<&'a [u8]> {
    /// Create a new reader; fails when the buffer holds fewer than six octets.
    pub fn new(buffer: &'a [u8]) -> (r: Result<Self, Error>)
        ensures
            r is Ok <==> buffer@.len() >= 6,
            r matches Ok(s) ==> s@ == buffer@,
    {
        if buffer.len() < 6 {
            return Err(Error);
        }
        Ok(Self::new_unchecked(buffer))
    }

    /// Create a new reader without length checking.
    pub fn new_unchecked(buffer: &'a [u8]) -> (r: Self)
        ensures
            r@ == buffer@,
    {
        Self { buffer }
    }

    /// Return the absolute slot number (five little-endian octets).
    pub fn absolute_slot_number(&self) -> (r: u64)
        requires
            self@.len() >= 6,
        ensures
            r as int == le_value(self@, 0, 5),
    {
        read_le_uint(self.buffer, 0, 5)
    }

    /// Return the join metric (octet 5).
    pub fn join_metric(&self) -> (r: u8)
        requires
            self@.len() >= 6,
        ensures
            r == self@[5],
    {
        self.buffer[5]
    }
}

impl TschSynchronization<Vec<u8>> {
    /// Create a new writer owning its buffer.
    pub fn new_owned(buffer: Vec<u8>) -> (r: Self)
        ensures
            r@ == buffer@,
    {
        Self { buffer }
    }

    /// The bytes of this element.
    pub fn as_bytes(&self) -> (r: &[u8])
        ensures
            r@ == self@,
    {
        self.buffer.as_slice()
    }

    /// Set the absolute slot number: its five least significant octets,
    /// little-endian.
    pub fn set_absolute_slot_number(&mut self, asn: u64)
        requires
            old(self)@.len() >= 6,
        ensures
            final(self)@ == splice(old(self)@, 0, le_bytes(asn, 5)),
    {
        write_le_uint(self.buffer.as_mut_slice(), 0, 5, asn);
    }

    /// Set the join metric (octet 5).
    pub fn set_join_metric(&mut self, join_metric: u8)
        requires
            old(self)@.len() >= 6,
        ensures
            final(self)@ == old(self)@.update(5, join_metric),
    {
        self.buffer.set(5, join_metric);
    }
}

} // verus!

//! IEEE 802.15.4 Payload Information Element readers and writers.
use vstd::prelude::*;

use crate::bytes::{le16, read_le16, splice, write_le16_at};
use crate::ie::nested::NestedInformationElementsIterator;
use crate::Error;

verus! {

/// The length field of a Payload IE whose first two octets are `b0`, `b1`.
pub open spec fn pie_len(b0: u8, b1: u8) -> nat {
    (le16(b0, b1) & 0b111_1111_1111) as nat
}

/// The group ID field of a Payload IE whose first two octets are `b0`, `b1`.
pub open spec fn pie_group_id(b0: u8, b1: u8) -> PayloadGroupId {
    PayloadGroupId::spec_from(((le16(b0, b1) >> 11u16) & 0b1111) as u8)
}

/// A reader/writer for the IEEE 802.15.4 Payload Information Elements.
#[derive(Debug)]
pub struct PayloadInformationElement<T> {
    data: T,
}

impl<T: View<V = Seq<u8>>> View for PayloadInformationElement<T> {
    type V = Seq<u8>;

    closed spec fn view(&self) -> Seq<u8> {
        self.data@
    }
}

impl<T: View<V = Seq<u8>>> PayloadInformationElement<T> {
    /// The length field value.
    pub open spec fn spec_length(&self) -> nat {
        pie_len(self@[0], self@[1])
    }

    /// The group ID field value.
    pub open spec fn spec_group_id(&self) -> PayloadGroupId {
        pie_group_id(self@[0], self@[1])
    }
}

impl<'a> PayloadInformationElement<&'a [u8]> {
    /// Create a new [`PayloadInformationElement`] reader; fails when the
    /// buffer holds fewer than two octets.
    pub fn new(data: &'a [u8]) -> (r: Result<Self, Error>)
        ensures
            r is Ok <==> data@.len() >= 2,
            r matches Ok(ie) ==> ie@ == data@,
    {
        let ie = Self::new_unchecked(data);
        if !ie.check_len() {
            return Err(Error);
        }
        Ok(ie)
    }

    /// Returns `false` if the buffer is too short to contain a payload
    /// information element.
    fn check_len(&self) -> (r: bool)
        ensures
            r == (self@.len() >= 2),
    {
        self.data.len() >= 2
    }

    /// Create a new [`PayloadInformationElement`] reader without length
    /// checking.
    pub fn new_unchecked(data: &'a [u8]) -> (r: Self)
        ensures
            r@ == data@,
    {
        Self { data }
    }

    /// Return the length field value, the length of the content (bits 0-10 of
    /// the little-endian header word).
    pub fn length(&self) -> (r: usize)
        requires
            self@.len() >= 2,
        ensures
            r == self.spec_length(),
            r < 2048,
    {
        let v = read_le16(self.data, 0);
        proof {
            assert(v & 0b111_1111_1111 < 2048) by (bit_vector);
        }
        (v & 0b111_1111_1111) as usize
    }

    /// Return the length field value (see [`PayloadInformationElement::length`]).
    #[allow(clippy::len_without_is_empty)]
    pub fn len(&self) -> (r: usize)
        requires
            self@.len() >= 2,
        ensures
            r == self.spec_length(),
    {
        self.length()
    }

    /// Return the [`PayloadGroupId`] (bits 11-14 of the header word).
    pub fn group_id(&self) -> (r: PayloadGroupId)
        requires
            self@.len() >= 2,
        ensures
            r == self.spec_group_id(),
    {
        let v = read_le16(self.data, 0);
        let id = (v >> 11u16) & 0b1111;
        PayloadGroupId::from(id as u8)
    }

    /// Return the content of this Payload Information Element.
    pub fn content(&self) -> (r: &'a [u8])
        requires
            self@.len() >= 2 + self.spec_length(),
        ensures
            r@ == self@.subrange(2, 2 + self.spec_length() as int),
    {
        let l = self.length();
        &self.data[2..2 + l]
    }

    /// Returns an iterator over the nested Information Elements of an MLME
    /// Payload Information Element.
    pub fn nested_information_elements(&self) -> (r: NestedInformationElementsIterator<'a>)
        requires
            self@.len() >= 2 + self.spec_length(),
            self.spec_group_id() == PayloadGroupId::Mlme,
        ensures
            r.data@ == self@.subrange(2, 2 + self.spec_length() as int),
            r.offset == 0,
            r.terminated == (self.spec_length() == 0),
            r.wf(),
    {
        NestedInformationElementsIterator::new(self.content())
    }
}

impl PayloadInformationElement<Vec<u8>> {
    /// Create a new [`PayloadInformationElement`] writer owning its buffer.
    pub fn new_owned(data: Vec<u8>) -> (r: Self)
        ensures
            r@ == data@,
    {
        Self { data }
    }

    /// The bytes of this element.
    pub fn as_bytes(&self) -> (r: &[u8])
        ensures
            r@ == self@,
    {
        self.data.as_slice()
    }

    /// Clear the content of this Payload Information Element.
    pub fn clear(&mut self)
        ensures
            final(self)@ == Seq::new(old(self)@.len(), |i: int| 0u8),
    {
        let n = self.data.len();
        let mut i: usize = 0;
        while i < n
            invariant
                n == self.data@.len(),
                i <= n,
                forall|j: int| 0 <= j < i ==> self.data@[j] == 0u8,
            decreases n - i,
        {
            self.data.set(i, 0);
            i = i + 1;
        }
        assert(self.data@ =~= Seq::new(n as nat, |i: int| 0u8));
    }

    /// Set the length field value (bits 0-10 of the header word).
    pub fn set_length(&mut self, len: u16)
        requires
            old(self)@.len() >= 2,
        ensures
            final(self)@ == splice(
                old(self)@,
                0,
                seq![
                    (((le16(old(self)@[0], old(self)@[1]) & !0b0000_0111_1111_1111u16) | (len & 0b0000_0111_1111_1111)) & 0xff) as u8,
                    (((le16(old(self)@[0], old(self)@[1]) & !0b0000_0111_1111_1111u16) | (len & 0b0000_0111_1111_1111)) >> 8u16) as u8,
                ],
            ),
    {
        let v = read_le16(self.data.as_slice(), 0);
        let value = (v & !0b0000_0111_1111_1111u16) | (len & 0b0000_0111_1111_1111);
        write_le16_at(self.data.as_mut_slice(), 0, value);
    }

    /// Set the [`PayloadGroupId`] (bits 11-14) and the type bit (bit 15).
    pub fn set_group_id(&mut self, id: PayloadGroupId)
        requires
            old(self)@.len() >= 2,
        ensures
            final(self)@ == splice(
                old(self)@,
                0,
                seq![
                    (((le16(old(self)@[0], old(self)@[1]) & !0b0111_1000_0000_0000u16) | ((id.spec_value() as u16) << 11u16) | 0b1000_0000_0000_0000) & 0xff) as u8,
                    (((le16(old(self)@[0], old(self)@[1]) & !0b0111_1000_0000_0000u16) | ((id.spec_value() as u16) << 11u16) | 0b1000_0000_0000_0000) >> 8u16) as u8,
                ],
            ),
    {
        let v = read_le16(self.data.as_slice(), 0);
        let value = (v & !0b0111_1000_0000_0000u16) | ((id.value() as u16) << 11u16) | 0b1000_0000_0000_0000;
        write_le16_at(self.data.as_mut_slice(), 0, value);
    }

    /// Return the content of this Payload Information Element for writing.
    pub fn content_mut(&mut self) -> (r: &mut [u8])
        requires
            old(self)@.len() >= 2,
        ensures
            r@ == old(self)@.skip(2),
            final(self)@ == old(self)@.subrange(0, 2) + final(r)@,
    {
        let s = self.data.as_mut_slice();
        let (_head, tail) = s.split_at_mut(2);
        tail
    }
}

/// Payload Information Element ID.
#[derive(Debug, Eq, PartialEq, Clone, Copy, Structural)]
pub enum PayloadGroupId {
    /// Encapsulated Service Data Unit Information Elements
    Esdu,
    /// MAC sublayer Management Entity Information Elements
    Mlme,
    /// Vendor specific Nested Information Elements
    VendorSpecific,
    /// Payload Termination
    PayloadTermination,
    /// Unknown
    Unknown,
}

impl PayloadGroupId {
    /// The group with value `value`.
    pub open spec fn spec_from(value: u8) -> PayloadGroupId {
        match value {
            0x00 => PayloadGroupId::Esdu,
            0x01 => PayloadGroupId::Mlme,
            0x02 => PayloadGroupId::VendorSpecific,
            0x0f => PayloadGroupId::PayloadTermination,
            _ => PayloadGroupId::Unknown,
        }
    }

    /// The value of this group ID (`0x10` for [`PayloadGroupId::Unknown`]).
    pub open spec fn spec_value(self) -> u8 {
        match self {
            PayloadGroupId::Esdu => 0x00,
            PayloadGroupId::Mlme => 0x01,
            PayloadGroupId::VendorSpecific => 0x02,
            PayloadGroupId::PayloadTermination => 0x0f,
            PayloadGroupId::Unknown => 0x10,
        }
    }

    /// The value of this group ID.
    pub fn value(&self) -> (r: u8)
        ensures
            r == self.spec_value(),
    {
        match self {
            PayloadGroupId::Esdu => 0x00,
            PayloadGroupId::Mlme => 0x01,
            PayloadGroupId::VendorSpecific => 0x02,
            PayloadGroupId::PayloadTermination => 0x0f,
            PayloadGroupId::Unknown => 0x10,
        }
    }
}

/// The group IDs are the numbers of the standard's table of Payload IEs:
/// ESDU is group 0x0, MLME 0x1, vendor specific 0x2 and Payload
/// Termination 0xf; each is read from exactly that value of the group
/// field and written as it, and every other value reads as unknown.
pub proof fn lemma_payload_group_id_numbers(v: u8)
    ensures
        PayloadGroupId::spec_from(v) is Esdu <==> v == 0x0,
        PayloadGroupId::spec_from(v) is Mlme <==> v == 0x1,
        PayloadGroupId::spec_from(v) is VendorSpecific <==> v == 0x2,
        PayloadGroupId::spec_from(v) is PayloadTermination <==> v == 0xf,
        PayloadGroupId::Esdu.spec_value() == 0x0,
        PayloadGroupId::Mlme.spec_value() == 0x1,
        PayloadGroupId::VendorSpecific.spec_value() == 0x2,
        PayloadGroupId::PayloadTermination.spec_value() == 0xf,
{
}

impl From<u8> for PayloadGroupId {
    fn from(value: u8) -> (r: Self) {
        match value {
            0x00 => Self::Esdu,
            0x01 => Self::Mlme,
            0x02 => Self::VendorSpecific,
            0x0f => Self::PayloadTermination,
            _ => Self::Unknown,
        }
    }
}

impl vstd::std_specs::convert::FromSpecImpl<u8> for PayloadGroupId {
    open spec fn obeys_from_spec() -> bool {
        true
    }

    open spec fn from_spec(v: u8) -> Self {
        PayloadGroupId::spec_from(v)
    }
}

/// One step of the Payload IE iteration over `data` from `offset`: `None`
/// when no element starts there (the iteration then ends), else the offset
/// after the element and whether the iteration ends.
pub open spec fn payload_step(data: Seq<u8>, offset: int) -> Option<(int, bool)> {
    if data.len() - offset < 2 {
        None
    } else {
        let next = offset + pie_len(data[offset], data[offset + 1]) + 2;
        let id = pie_group_id(data[offset], data[offset + 1]);
        Some((next, id is PayloadTermination || next >= data.len()))
    }
}

/// The offset at which the Payload IE iteration over `data` stops.
pub open spec fn payload_end(data: Seq<u8>, offset: int, terminated: bool) -> int
    decreases data.len() - offset,
{
    if terminated || offset < 0 {
        offset
    } else {
        match payload_step(data, offset) {
            None => offset,
            Some((next, t)) => if t { next } else { payload_end(data, next, false) },
        }
    }
}

/// An iterator over [`PayloadInformationElement`].
#[derive(Debug)]
pub struct PayloadInformationElementsIterator<'f> {
    pub data: &'f [u8],
    pub offset: usize,
    pub terminated: bool,
}

impl<'f> PayloadInformationElementsIterator<'f> {
    /// The iterator state is consistent.
    pub open spec fn wf(&self) -> bool {
        &&& self.data@.len() <= usize::MAX / 2
        &&& (!self.terminated ==> self.offset < self.data@.len())
    }

    /// The offset at which this iteration stops.
    pub open spec fn spec_end(&self) -> int {
        payload_end(self.data@, self.offset as int, self.terminated)
    }

    /// Return the offset of the iterator.
    pub fn offset(&self) -> (r: usize)
        ensures
            r == self.offset,
    {
        self.offset
    }

    /// Return the next Payload Information Element: the one at the current
    /// offset; when none starts there the iteration ends.
    pub fn next(&mut self) -> (r: Option<PayloadInformationElement<&'f [u8]>>)
        requires
            old(self).wf(),
        ensures
            final(self).wf(),
            final(self).data == old(self).data,
            final(self).spec_end() == old(self).spec_end(),
            old(self).terminated ==> r is None && *final(self) == *old(self),
            !old(self).terminated ==> match payload_step(old(self).data@, old(self).offset as int) {
                None => r is None && final(self).offset == old(self).offset && final(self).terminated,
                Some((next, t)) => r matches Some(ie) && ie@ == old(self).data@.skip(old(self).offset as int)
                    && final(self).offset == next && final(self).terminated == t,
            },
    {
        if self.terminated {
            return None;
        }
        let rest = &self.data[self.offset..self.data.len()];
        let ie = match PayloadInformationElement::new(rest) {
            Ok(ie) => ie,
            Err(_) => {
                self.terminated = true;
                return None;
            },
        };
        self.terminated = ie.group_id() == PayloadGroupId::PayloadTermination;
        self.offset = self.offset + ie.length() + 2;
        if self.offset >= self.data.len() {
            self.terminated = true;
        }
        Some(ie)
    }
}

} // verus!

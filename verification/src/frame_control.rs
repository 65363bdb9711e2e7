//! The IEEE 802.15.4 Frame Control field.
//!
//! Layout (two octets, least significant bit first):
//! frame type (bits 0-2), security enabled (3), frame pending (4),
//! ack request (5), PAN ID compression (6), reserved (7),
//! sequence number suppression (8), IE present (9),
//! destination addressing mode (10-11), frame version (12-13),
//! source addressing mode (14-15).
use vstd::prelude::*;

use crate::addressing::AddressingMode;
use crate::Error;

verus! {

/// IEEE 802.15.4 frame type.
#[derive(Debug, Clone, Copy, PartialEq, Eq, Structural)]
pub enum FrameType {
    /// Beacon frame.
    Beacon,
    /// Data frame.
    Data,
    /// Acknowledgement frame.
    Ack,
    /// MAC command frame.
    MacCommand,
    /// Multipurpose frame.
    Multipurpose,
    /// Fragment or FRAK frame.
    FragmentOrFrak,
    /// Extended frame.
    Extended,
    /// Reserved frame type.
    Unknown,
}

/// The frame types are the numbers of the standard's Frame Type field:
/// each type is read from exactly its own three-bit value and written as
/// it; the value `0b100` is reserved.
pub proof fn lemma_frame_type_numbers(v: u8)
    ensures
        FrameType::spec_from_bits(v) is Beacon <==> v == 0,
        FrameType::spec_from_bits(v) is Data <==> v == 1,
        FrameType::spec_from_bits(v) is Ack <==> v == 2,
        FrameType::spec_from_bits(v) is MacCommand <==> v == 3,
        FrameType::spec_from_bits(v) is Multipurpose <==> v == 5,
        FrameType::spec_from_bits(v) is FragmentOrFrak <==> v == 6,
        FrameType::spec_from_bits(v) is Extended <==> v == 7,
        FrameType::Beacon.spec_bits() == 0,
        FrameType::Data.spec_bits() == 1,
        FrameType::Ack.spec_bits() == 2,
        FrameType::MacCommand.spec_bits() == 3,
        FrameType::Multipurpose.spec_bits() == 5,
        FrameType::FragmentOrFrak.spec_bits() == 6,
        FrameType::Extended.spec_bits() == 7,
{
}

impl FrameType {
    /// The frame type encoded by the three bits `v`.
    pub open spec fn spec_from_bits(v: u8) -> FrameType {
        match v {
            0 => FrameType::Beacon,
            1 => FrameType::Data,
            2 => FrameType::Ack,
            3 => FrameType::MacCommand,
            5 => FrameType::Multipurpose,
            6 => FrameType::FragmentOrFrak,
            7 => FrameType::Extended,
            _ => FrameType::Unknown,
        }
    }

    /// The three bits that encode this frame type (the reserved value `0b100`
    /// for [`FrameType::Unknown`]).
    pub open spec fn spec_bits(self) -> u8 {
        match self {
            FrameType::Beacon => 0,
            FrameType::Data => 1,
            FrameType::Ack => 2,
            FrameType::MacCommand => 3,
            FrameType::Unknown => 4,
            FrameType::Multipurpose => 5,
            FrameType::FragmentOrFrak => 6,
            FrameType::Extended => 7,
        }
    }

    /// The three bits that encode this frame type.
    pub fn bits(&self) -> (r: u8)
        ensures
            r == self.spec_bits(),
            r < 8,
    {
        match self {
            FrameType::Beacon => 0,
            FrameType::Data => 1,
            FrameType::Ack => 2,
            FrameType::MacCommand => 3,
            FrameType::Unknown => 4,
            FrameType::Multipurpose => 5,
            FrameType::FragmentOrFrak => 6,
            FrameType::Extended => 7,
        }
    }
}

impl From<u8> for FrameType {
    fn from(value: u8) -> (r: Self) {
        match value {
            0 => FrameType::Beacon,
            1 => FrameType::Data,
            2 => FrameType::Ack,
            3 => FrameType::MacCommand,
            5 => FrameType::Multipurpose,
            6 => FrameType::FragmentOrFrak,
            7 => FrameType::Extended,
            _ => FrameType::Unknown,
        }
    }
}

impl vstd::std_specs::convert::FromSpecImpl<u8> for FrameType {
    open spec fn obeys_from_spec() -> bool {
        true
    }

    open spec fn from_spec(v: u8) -> Self {
        FrameType::spec_from_bits(v)
    }
}

/// IEEE 802.15.4 frame version.
#[derive(Debug, Clone, Copy, PartialEq, Eq, Structural)]
pub enum FrameVersion {
    /// IEEE 802.15.4-2003.
    Ieee802154_2003,
    /// IEEE 802.15.4-2006.
    Ieee802154_2006,
    /// IEEE 802.15.4-2020.
    Ieee802154_2020,
    /// Reserved frame version.
    Unknown,
}

/// The frame versions are the numbers of the standard's Frame Version
/// field: 2003 is `0b00`, 2006 `0b01` and 2020 `0b10`; each is read from
/// exactly that value and written as it.
pub proof fn lemma_frame_version_numbers(v: u8)
    ensures
        FrameVersion::spec_from_bits(v) is Ieee802154_2003 <==> v == 0,
        FrameVersion::spec_from_bits(v) is Ieee802154_2006 <==> v == 1,
        FrameVersion::spec_from_bits(v) is Ieee802154_2020 <==> v == 2,
        FrameVersion::Ieee802154_2003.spec_bits() == 0,
        FrameVersion::Ieee802154_2006.spec_bits() == 1,
        FrameVersion::Ieee802154_2020.spec_bits() == 2,
{
}

impl FrameVersion {
    /// The frame version encoded by the two bits `v`.
    pub open spec fn spec_from_bits(v: u8) -> FrameVersion {
        match v {
            0 => FrameVersion::Ieee802154_2003,
            1 => FrameVersion::Ieee802154_2006,
            2 => FrameVersion::Ieee802154_2020,
            _ => FrameVersion::Unknown,
        }
    }

    /// The two bits that encode this frame version (`0b11` for
    /// [`FrameVersion::Unknown`]).
    pub open spec fn spec_bits(self) -> u8 {
        match self {
            FrameVersion::Ieee802154_2003 => 0,
            FrameVersion::Ieee802154_2006 => 1,
            FrameVersion::Ieee802154_2020 => 2,
            FrameVersion::Unknown => 3,
        }
    }

    /// The two bits that encode this frame version.
    pub fn bits(&self) -> (r: u8)
        ensures
            r == self.spec_bits(),
            r < 4,
    {
        match self {
            FrameVersion::Ieee802154_2003 => 0,
            FrameVersion::Ieee802154_2006 => 1,
            FrameVersion::Ieee802154_2020 => 2,
            FrameVersion::Unknown => 3,
        }
    }
}

impl From<u8> for FrameVersion {
    fn from(value: u8) -> (r: Self) {
        match value {
            0 => FrameVersion::Ieee802154_2003,
            1 => FrameVersion::Ieee802154_2006,
            2 => FrameVersion::Ieee802154_2020,
            _ => FrameVersion::Unknown,
        }
    }
}

impl vstd::std_specs::convert::FromSpecImpl<u8> for FrameVersion {
    open spec fn obeys_from_spec() -> bool {
        true
    }

    open spec fn from_spec(v: u8) -> Self {
        FrameVersion::spec_from_bits(v)
    }
}

/// Bit `n` of `b`.
pub open spec fn bit(b: u8, n: u8) -> bool {
    (b >> n) & 1 == 1
}

/// The two-bit field at bits `n`, `n + 1` of `b`.
pub open spec fn two_bits(b: u8, n: u8) -> u8 {
    (b >> n) & 3
}

/// A reader/writer for the IEEE 802.15.4 Frame Control field.
#[derive(Debug, Clone, Copy, PartialEq, Eq)]
pub struct FrameControl<T> {
    buffer: T,
}

impl<T: View<V = Seq<u8>>> View for FrameControl<T> {
    type V = Seq<u8>;

    closed spec fn view(&self) -> Seq<u8> {
        self.buffer@
    }
}

/// The frame type stored in the Frame Control bytes `b`.
pub open spec fn fc_frame_type(b: Seq<u8>) -> FrameType {
    FrameType::spec_from_bits(b[0] & 7)
}

/// The security enabled bit of the Frame Control bytes `b`.
pub open spec fn fc_security_enabled(b: Seq<u8>) -> bool {
    bit(b[0], 3)
}

/// The frame pending bit of the Frame Control bytes `b`.
pub open spec fn fc_frame_pending(b: Seq<u8>) -> bool {
    bit(b[0], 4)
}

/// The acknowledgment request bit of the Frame Control bytes `b`.
pub open spec fn fc_ack_request(b: Seq<u8>) -> bool {
    bit(b[0], 5)
}

/// The PAN ID compression bit of the Frame Control bytes `b`.
pub open spec fn fc_pan_id_compression(b: Seq<u8>) -> bool {
    bit(b[0], 6)
}

/// The sequence number suppression bit of the Frame Control bytes `b`.
pub open spec fn fc_sequence_number_suppression(b: Seq<u8>) -> bool {
    bit(b[1], 0)
}

/// The information elements present bit of the Frame Control bytes `b`.
pub open spec fn fc_information_elements_present(b: Seq<u8>) -> bool {
    bit(b[1], 1)
}

/// The destination addressing mode stored in the Frame Control bytes `b`.
pub open spec fn fc_dst_addressing_mode(b: Seq<u8>) -> AddressingMode {
    AddressingMode::spec_from_bits(two_bits(b[1], 2))
}

/// The frame version stored in the Frame Control bytes `b`.
pub open spec fn fc_frame_version(b: Seq<u8>) -> FrameVersion {
    FrameVersion::spec_from_bits(two_bits(b[1], 4))
}

/// The source addressing mode stored in the Frame Control bytes `b`.
pub open spec fn fc_src_addressing_mode(b: Seq<u8>) -> AddressingMode {
    AddressingMode::spec_from_bits(two_bits(b[1], 6))
}

impl<'a> FrameControl<&'a [u8]> {
    /// Create a new [`FrameControl`] reader; fails when the buffer holds
    /// fewer than two octets.
    pub fn new(buffer: &'a [u8]) -> (r: Result<Self, Error>)
        ensures
            r is Ok <==> buffer@.len() >= 2,
            r matches Ok(fc) ==> fc@ == buffer@,
    {
        if buffer.len() < 2 {
            return Err(Error);
        }
        Ok(Self { buffer })
    }

    /// Create a new [`FrameControl`] reader without length checking.
    pub fn new_unchecked(buffer: &'a [u8]) -> (r: Self)
        ensures
            r@ == buffer@,
    {
        Self { buffer }
    }

    /// Return the frame type field.
    pub fn frame_type(&self) -> (r: FrameType)
        requires
            self@.len() >= 2,
        ensures
            r == fc_frame_type(self@),
    {
        FrameType::from(self.buffer[0] & 7)
    }

    /// Return the security enabled field.
    pub fn security_enabled(&self) -> (r: bool)
        requires
            self@.len() >= 2,
        ensures
            r == fc_security_enabled(self@),
    {
        (self.buffer[0] >> 3u8) & 1 == 1
    }

    /// Return the frame pending field.
    pub fn frame_pending(&self) -> (r: bool)
        requires
            self@.len() >= 2,
        ensures
            r == fc_frame_pending(self@),
    {
        (self.buffer[0] >> 4u8) & 1 == 1
    }

    /// Return the acknowledgment request field.
    pub fn ack_request(&self) -> (r: bool)
        requires
            self@.len() >= 2,
        ensures
            r == fc_ack_request(self@),
    {
        (self.buffer[0] >> 5u8) & 1 == 1
    }

    /// Return the PAN ID compression field.
    pub fn pan_id_compression(&self) -> (r: bool)
        requires
            self@.len() >= 2,
        ensures
            r == fc_pan_id_compression(self@),
    {
        (self.buffer[0] >> 6u8) & 1 == 1
    }

    /// Return the sequence number suppression field.
    pub fn sequence_number_suppression(&self) -> (r: bool)
        requires
            self@.len() >= 2,
        ensures
            r == fc_sequence_number_suppression(self@),
    {
        (self.buffer[1] >> 0u8) & 1 == 1
    }

    /// Return the information elements present field.
    pub fn information_elements_present(&self) -> (r: bool)
        requires
            self@.len() >= 2,
        ensures
            r == fc_information_elements_present(self@),
    {
        (self.buffer[1] >> 1u8) & 1 == 1
    }

    /// Return the destination addressing mode field.
    pub fn dst_addressing_mode(&self) -> (r: AddressingMode)
        requires
            self@.len() >= 2,
        ensures
            r == fc_dst_addressing_mode(self@),
    {
        AddressingMode::from((self.buffer[1] >> 2u8) & 3)
    }

    /// Return the frame version field.
    pub fn frame_version(&self) -> (r: FrameVersion)
        requires
            self@.len() >= 2,
        ensures
            r == fc_frame_version(self@),
    {
        FrameVersion::from((self.buffer[1] >> 4u8) & 3)
    }

    /// Return the source addressing mode field.
    pub fn src_addressing_mode(&self) -> (r: AddressingMode)
        requires
            self@.len() >= 2,
        ensures
            r == fc_src_addressing_mode(self@),
    {
        AddressingMode::from((self.buffer[1] >> 6u8) & 3)
    }
}

/// `b` with the `width`-bit field at `shift` replaced by `v`.
pub open spec fn with_field(b: u8, shift: u8, mask: u8, v: u8) -> u8 {
    (b & !(mask << shift)) | ((v & mask) << shift)
}

/// Reading back a field just written gives the written value; other fields
/// are unchanged.
pub proof fn lemma_with_field(b: u8, shift: u8, mask: u8, v: u8, shift2: u8, mask2: u8)
    requires
        shift < 8,
        shift2 < 8,
        mask == 1 || mask == 3 || mask == 7,
        mask2 == 1 || mask2 == 3 || mask2 == 7,
        mask == 3 ==> shift <= 6,
        mask == 7 ==> shift <= 5,
        mask2 == 3 ==> shift2 <= 6,
        mask2 == 7 ==> shift2 <= 5,
        (mask2 << shift2) & (mask << shift) == 0,
    ensures
        (with_field(b, shift, mask, v) >> shift) & mask == v & mask,
        (with_field(b, shift, mask, v) >> shift2) & mask2 == (b >> shift2) & mask2,
{
    assert(((b & !(mask << shift)) | ((v & mask) << shift)) >> shift & mask == v & mask) by (bit_vector)
        requires
            shift < 8,
            mask == 1 || mask == 3 || mask == 7,
            mask == 3 ==> shift <= 6,
            mask == 7 ==> shift <= 5,
    ;
    assert(((b & !(mask << shift)) | ((v & mask) << shift)) >> shift2 & mask2 == (b >> shift2)
        & mask2) by (bit_vector)
        requires
            shift < 8,
            shift2 < 8,
            mask == 1 || mask == 3 || mask == 7,
            mask2 == 1 || mask2 == 3 || mask2 == 7,
            mask == 3 ==> shift <= 6,
            mask == 7 ==> shift <= 5,
            mask2 == 3 ==> shift2 <= 6,
            mask2 == 7 ==> shift2 <= 5,
            (mask2 << shift2) & (mask << shift) == 0,
    ;
}

impl FrameControl<Vec<u8>> {
    /// Create a new [`FrameControl`] writer owning its buffer, without length
    /// checking.
    pub fn new_owned(buffer: Vec<u8>) -> (r: Self)
        ensures
            r@ == buffer@,
    {
        Self { buffer }
    }

    /// The bytes of this field.
    pub fn as_bytes(&self) -> (r: &[u8])
        ensures
            r@ == self@,
    {
        self.buffer.as_slice()
    }

    /// A reader over this field.
    pub fn reader(&self) -> (r: FrameControl<&[u8]>)
        ensures
            r@ == self@,
    {
        FrameControl { buffer: self.buffer.as_slice() }
    }

    fn set_field(&mut self, byte: usize, shift: u8, mask: u8, v: u8)
        requires
            byte < 2,
            old(self)@.len() >= 2,
            shift < 8,
            mask == 1 || mask == 3 || mask == 7,
        ensures
            final(self)@ == old(self)@.update(byte as int, with_field(old(self)@[byte as int], shift, mask, v)),
    {
        let b = self.buffer[byte];
        let nb = (b & !(mask << shift)) | ((v & mask) << shift);
        self.buffer.set(byte, nb);
    }

    /// Set the frame type field.
    pub fn set_frame_type(&mut self, frame_type: FrameType)
        requires
            old(self)@.len() >= 2,
        ensures
            final(self)@ == old(self)@.update(0, with_field(old(self)@[0], 0, 7, frame_type.spec_bits())),
    {
        let v = frame_type.bits();
        self.set_field(0, 0, 7, v);
    }

    /// Set the security enabled field.
    pub fn set_security_enabled(&mut self, value: bool)
        requires
            old(self)@.len() >= 2,
        ensures
            final(self)@ == old(self)@.update(0, with_field(old(self)@[0], 3, 1, if value { 1 } else { 0 })),
    {
        self.set_field(0, 3, 1, if value { 1 } else { 0 });
    }

    /// Set the frame pending field.
    pub fn set_frame_pending(&mut self, value: bool)
        requires
            old(self)@.len() >= 2,
        ensures
            final(self)@ == old(self)@.update(0, with_field(old(self)@[0], 4, 1, if value { 1 } else { 0 })),
    {
        self.set_field(0, 4, 1, if value { 1 } else { 0 });
    }

    /// Set the acknowledgment request field.
    pub fn set_ack_request(&mut self, value: bool)
        requires
            old(self)@.len() >= 2,
        ensures
            final(self)@ == old(self)@.update(0, with_field(old(self)@[0], 5, 1, if value { 1 } else { 0 })),
    {
        self.set_field(0, 5, 1, if value { 1 } else { 0 });
    }

    /// Set the PAN ID compression field.
    pub fn set_pan_id_compression(&mut self, value: bool)
        requires
            old(self)@.len() >= 2,
        ensures
            final(self)@ == old(self)@.update(0, with_field(old(self)@[0], 6, 1, if value { 1 } else { 0 })),
    {
        self.set_field(0, 6, 1, if value { 1 } else { 0 });
    }

    /// Set the sequence number suppression field.
    pub fn set_sequence_number_suppression(&mut self, value: bool)
        requires
            old(self)@.len() >= 2,
        ensures
            final(self)@ == old(self)@.update(1, with_field(old(self)@[1], 0, 1, if value { 1 } else { 0 })),
    {
        self.set_field(1, 0, 1, if value { 1 } else { 0 });
    }

    /// Set the information elements present field.
    pub fn set_information_elements_present(&mut self, value: bool)
        requires
            old(self)@.len() >= 2,
        ensures
            final(self)@ == old(self)@.update(1, with_field(old(self)@[1], 1, 1, if value { 1 } else { 0 })),
    {
        self.set_field(1, 1, 1, if value { 1 } else { 0 });
    }

    /// Set the destination addressing mode field.
    pub fn set_dst_addressing_mode(&mut self, mode: AddressingMode)
        requires
            old(self)@.len() >= 2,
        ensures
            final(self)@ == old(self)@.update(1, with_field(old(self)@[1], 2, 3, mode.spec_bits())),
    {
        let v = mode.bits();
        self.set_field(1, 2, 3, v);
    }

    /// Set the frame version field.
    pub fn set_frame_version(&mut self, version: FrameVersion)
        requires
            old(self)@.len() >= 2,
        ensures
            final(self)@ == old(self)@.update(1, with_field(old(self)@[1], 4, 3, version.spec_bits())),
    {
        let v = version.bits();
        self.set_field(1, 4, 3, v);
    }

    /// Set the source addressing mode field.
    pub fn set_src_addressing_mode(&mut self, mode: AddressingMode)
        requires
            old(self)@.len() >= 2,
        ensures
            final(self)@ == old(self)@.update(1, with_field(old(self)@[1], 6, 3, mode.spec_bits())),
    {
        let v = mode.bits();
        self.set_field(1, 6, 3, v);
    }
}

} // verus!

//! The IEEE 802.15.4 Beacon and Enhanced Beacon frames, and the fields of a
//! Beacon frame: the Superframe Specification, the GTS Info and the Pending
//! Address fields.
use vstd::prelude::*;

use crate::addressing::{
    spec_fields_len, spec_flags_of, Address, AddressingFields, AddressingMode,
};
use crate::aux_sec_header::{spec_mic_length, AuxiliarySecurityHeader};
use crate::bytes::lemma_u8_fields;
use crate::frame_control::{
    fc_dst_addressing_mode, fc_information_elements_present, fc_security_enabled,
    fc_sequence_number_suppression, fc_src_addressing_mode, FrameControl,
};
use crate::frames::data::{check_frame_header, spec_frame_header_ok};
use crate::frames::layout::{
    addressing_of, aux_header_of, aux_offset_of, frame_control_of, ies_at, lemma_fc_prefix,
    payload_of, sequence_number_of, spec_addressing_offset, spec_aux_offset, spec_has_addressing,
    spec_ies_at, spec_modes_known, spec_payload_offset, spec_readable,
};
use crate::ie::InformationElements;
use crate::Error;

verus! {

/// Indicates the frequency at which the beacon is transmitted.
#[derive(Debug, Eq, PartialEq, Clone, Copy, Structural)]
pub enum BeaconOrder {
    /// The beacon is transmitted at an interval:
    /// `base_super_frame_duration * 2^{beacon_order}`.
    Order(u8),
    /// The beacon is transmitted on demand.
    OnDemand,
}

impl BeaconOrder {
    /// The beacon order encoded by `value`: an order up to 14, on demand
    /// otherwise.
    pub open spec fn spec_from(value: u8) -> BeaconOrder {
        if value <= 14 { BeaconOrder::Order(value) } else { BeaconOrder::OnDemand }
    }

    /// The value that encodes this beacon order (15 for on demand).
    pub open spec fn spec_value(self) -> u8 {
        match self {
            BeaconOrder::Order(v) => v,
            BeaconOrder::OnDemand => 15,
        }
    }
}

impl From<u8> for BeaconOrder {
    fn from(value: u8) -> (r: Self) {
        if value <= 14 { Self::Order(value) } else { Self::OnDemand }
    }
}

impl vstd::std_specs::convert::FromSpecImpl<u8> for BeaconOrder {
    open spec fn obeys_from_spec() -> bool {
        true
    }

    open spec fn from_spec(v: u8) -> Self {
        BeaconOrder::spec_from(v)
    }
}

impl From<BeaconOrder> for u8 {
    fn from(value: BeaconOrder) -> (r: Self) {
        match value {
            BeaconOrder::Order(value) => value,
            BeaconOrder::OnDemand => 15,
        }
    }
}

impl vstd::std_specs::convert::FromSpecImpl<BeaconOrder> for u8 {
    open spec fn obeys_from_spec() -> bool {
        true
    }

    open spec fn from_spec(v: BeaconOrder) -> Self {
        v.spec_value()
    }
}

/// The length of the active portion of the superframe.
#[derive(Debug, Eq, PartialEq, Clone, Copy, Structural)]
pub enum SuperframeOrder {
    /// The superframe duration is calculated with:
    /// `base_super_frame_duration * 2^{superframe_order}`
    Order(u8),
    /// The superframe is inactive after the the beacon.
    Inactive,
}

impl SuperframeOrder {
    /// The superframe order encoded by `value`: an order up to 14, inactive
    /// otherwise.
    pub open spec fn spec_from(value: u8) -> SuperframeOrder {
        if value <= 14 { SuperframeOrder::Order(value) } else { SuperframeOrder::Inactive }
    }

    /// The value that encodes this superframe order (15 for inactive).
    pub open spec fn spec_value(self) -> u8 {
        match self {
            SuperframeOrder::Order(v) => v,
            SuperframeOrder::Inactive => 15,
        }
    }
}

impl From<u8> for SuperframeOrder {
    fn from(value: u8) -> (r: Self) {
        if value <= 14 { Self::Order(value) } else { Self::Inactive }
    }
}

impl vstd::std_specs::convert::FromSpecImpl<u8> for SuperframeOrder {
    open spec fn obeys_from_spec() -> bool {
        true
    }

    open spec fn from_spec(v: u8) -> Self {
        SuperframeOrder::spec_from(v)
    }
}

impl From<SuperframeOrder> for u8 {
    fn from(value: SuperframeOrder) -> (r: Self) {
        match value {
            SuperframeOrder::Order(value) => value,
            SuperframeOrder::Inactive => 15,
        }
    }
}

impl vstd::std_specs::convert::FromSpecImpl<SuperframeOrder> for u8 {
    open spec fn obeys_from_spec() -> bool {
        true
    }

    open spec fn from_spec(v: SuperframeOrder) -> Self {
        v.spec_value()
    }
}

/// Encoding a beacon or superframe order and decoding it gives it back, for
/// every four-bit value and every order that has an encoding.
pub proof fn lemma_orders_roundtrip(v: u8, b: BeaconOrder, s: SuperframeOrder)
    ensures
        v <= 15 ==> BeaconOrder::spec_from(v).spec_value() == v,
        v <= 15 ==> SuperframeOrder::spec_from(v).spec_value() == v,
        (b matches BeaconOrder::Order(o) ==> o <= 14) ==> BeaconOrder::spec_from(b.spec_value()) == b,
        (s matches SuperframeOrder::Order(o) ==> o <= 14) ==> SuperframeOrder::spec_from(s.spec_value()) == s,
{
}

/// GTS direction.
#[derive(Debug, Eq, PartialEq, Clone, Copy, Structural)]
pub enum GtsDirection {
    /// GTS Receive direction.
    Receive,
    /// GTS Transmit direction.
    Transmit,
}

impl GtsDirection {
    /// The direction encoded by `value`: receive for zero, transmit
    /// otherwise.
    pub open spec fn spec_from(value: u8) -> GtsDirection {
        if value == 0 { GtsDirection::Receive } else { GtsDirection::Transmit }
    }

    /// The bit that encodes this direction.
    pub open spec fn spec_value(self) -> u8 {
        match self {
            GtsDirection::Receive => 0,
            GtsDirection::Transmit => 1,
        }
    }
}

impl From<u8> for GtsDirection {
    fn from(value: u8) -> (r: Self) {
        if value == 0 { Self::Receive } else { Self::Transmit }
    }
}

impl vstd::std_specs::convert::FromSpecImpl<u8> for GtsDirection {
    open spec fn obeys_from_spec() -> bool {
        true
    }

    open spec fn from_spec(v: u8) -> Self {
        GtsDirection::spec_from(v)
    }
}

impl From<GtsDirection> for u8 {
    fn from(value: GtsDirection) -> (r: Self) {
        match value {
            GtsDirection::Receive => 0,
            GtsDirection::Transmit => 1,
        }
    }
}

impl vstd::std_specs::convert::FromSpecImpl<GtsDirection> for u8 {
    open spec fn obeys_from_spec() -> bool {
        true
    }

    open spec fn from_spec(v: GtsDirection) -> Self {
        v.spec_value()
    }
}

/// Encoding a GTS direction and decoding it gives it back.
pub proof fn lemma_gts_direction_roundtrip(d: GtsDirection)
    ensures
        GtsDirection::spec_from(d.spec_value()) == d,
{
}

/// A reader for the Superframe Specification field (two octets).
#[derive(Debug)]
pub struct SuperframeSpecification<T> {
    buffer: T,
}

impl<T: View<V = Seq<u8>>> View for SuperframeSpecification<T> {
    type V = Seq<u8>;

    closed spec fn view(&self) -> Seq<u8> {
        self.buffer@
    }
}

impl<'a> SuperframeSpecification<&'a [u8]> {
    /// Create a new reader; fails when the buffer holds fewer than two
    /// octets.
    pub fn new(buffer: &'a [u8]) -> (r: Result<Self, Error>)
        ensures
            r is Ok <==> buffer@.len() >= 2,
            r matches Ok(s) ==> s@ == buffer@,
    {
        if buffer.len() < Self::size() {
            return Err(Error);
        }
        Ok(Self::new_unchecked(buffer))
    }

    /// Create a new reader without length checking.
    pub fn new_unchecked(buffer: &'a [u8]) -> (r: Self)
        ensures
            r@ == buffer@,
    {
        Self { buffer }
    }

    /// The size of the field in octets.
    pub fn size() -> (r: usize)
        ensures
            r == 2,
    {
        2
    }

    /// Return the beacon order field value (bits 0-3).
    pub fn beacon_order(&self) -> (r: BeaconOrder)
        requires
            self@.len() >= 2,
        ensures
            r == BeaconOrder::spec_from(self@[0] & 0xf),
    {
        BeaconOrder::from(self.buffer[0] & 0xf)
    }

    /// Return the superframe order field value (bits 4-7).
    pub fn superframe_order(&self) -> (r: SuperframeOrder)
        requires
            self@.len() >= 2,
        ensures
            r == SuperframeOrder::spec_from((self@[0] >> 4u8) & 0xf),
    {
        SuperframeOrder::from((self.buffer[0] >> 4u8) & 0xf)
    }

    /// Return the final CAP slot field value (bits 8-11).
    pub fn final_cap_slot(&self) -> (r: u8)
        requires
            self@.len() >= 2,
        ensures
            r == self@[1] & 0xf,
    {
        self.buffer[1] & 0xf
    }

    /// Return the battery life extension field value (bit 12).
    pub fn battery_life_extension(&self) -> (r: bool)
        requires
            self@.len() >= 2,
        ensures
            r == ((self@[1] >> 4u8) & 1 != 0),
    {
        (self.buffer[1] >> 4u8) & 1 != 0
    }

    /// Return the PAN coordinator field value (bit 14).
    pub fn pan_coordinator(&self) -> (r: bool)
        requires
            self@.len() >= 2,
        ensures
            r == ((self@[1] >> 6u8) & 1 != 0),
    {
        (self.buffer[1] >> 6u8) & 1 != 0
    }

    /// Return the association permit field value (bit 15).
    pub fn association_permit(&self) -> (r: bool)
        requires
            self@.len() >= 2,
        ensures
            r == ((self@[1] >> 7u8) & 1 != 0),
    {
        (self.buffer[1] >> 7u8) & 1 != 0
    }
}

/// A reader for a Guaranteed Timeslot descriptor (three octets).
#[derive(Debug)]
pub struct GtsSlot<T> {
    buffer: T,
    direction: GtsDirection,
}

impl<T: View<V = Seq<u8>>> View for GtsSlot<T> {
    type V = (Seq<u8>, GtsDirection);

    /// The octets of the descriptor and the direction it was read with.
    closed spec fn view(&self) -> (Seq<u8>, GtsDirection) {
        (self.buffer@, self.direction)
    }
}

impl<T: View<V = Seq<u8>>> GtsSlot<T> {
    /// The direction the descriptor was read with.
    pub open spec fn spec_direction(&self) -> GtsDirection {
        self@.1
    }
}

impl<'a> GtsSlot<&'a [u8]> {
    /// Create a new reader; fails when the buffer holds fewer than three
    /// octets.
    pub fn new(buffer: &'a [u8], direction: GtsDirection) -> (r: Result<Self, Error>)
        ensures
            r is Ok <==> buffer@.len() >= 3,
            r matches Ok(s) ==> s@.0 == buffer@ && s.spec_direction() == direction,
    {
        let s = Self::new_unchecked(buffer, direction);
        if !s.check_len() {
            return Err(Error);
        }
        Ok(s)
    }

    fn check_len(&self) -> (r: bool)
        ensures
            r == (self@.0.len() >= 3),
    {
        self.buffer.len() >= Self::size()
    }

    /// Create a new reader without length checking.
    pub fn new_unchecked(buffer: &'a [u8], direction: GtsDirection) -> (r: Self)
        ensures
            r@.0 == buffer@,
            r.spec_direction() == direction,
    {
        Self { buffer, direction }
    }

    /// The size of a descriptor in octets.
    pub fn size() -> (r: usize)
        ensures
            r == 3,
    {
        3
    }

    /// Short address of the intended device (octets 0-1, as stored).
    pub fn short_address(&self) -> (r: Address)
        requires
            self@.0.len() >= 3,
        ensures
            r matches Address::Short(a) && a@ == self@.0.subrange(0, 2),
    {
        Address::from(&self.buffer[0..2])
    }

    /// Superframe slot at which the GTS is to begin (bits 16-19).
    pub fn starting_slot(&self) -> (r: u8)
        requires
            self@.0.len() >= 3,
        ensures
            r == self@.0[2] & 0xf,
    {
        self.buffer[2] & 0xf
    }

    /// Number of contiguous superframe slots over which the GTS is active
    /// (bits 20-23).
    pub fn length(&self) -> (r: u8)
        requires
            self@.0.len() >= 3,
        ensures
            r == (self@.0[2] >> 4u8) & 0xf,
    {
        (self.buffer[2] >> 4u8) & 0xf
    }

    /// The GTS slot direction.
    pub fn direction(&self) -> (r: GtsDirection)
        ensures
            r == self.spec_direction(),
    {
        self.direction
    }
}

/// A reader for the GTS Specification field (one octet).
#[derive(Debug)]
pub struct GtsSpecification<T> {
    buffer: T,
}

impl<T: View<V = Seq<u8>>> View for GtsSpecification<T> {
    type V = Seq<u8>;

    closed spec fn view(&self) -> Seq<u8> {
        self.buffer@
    }
}

impl<'a> GtsSpecification<&'a [u8]> {
    /// Create a new reader; fails when the buffer is empty.
    pub fn new(buffer: &'a [u8]) -> (r: Result<Self, Error>)
        ensures
            r is Ok <==> buffer@.len() >= 1,
            r matches Ok(s) ==> s@ == buffer@,
    {
        if buffer.len() < Self::size() {
            return Err(Error);
        }
        Ok(Self::new_unchecked(buffer))
    }

    /// Create a new reader without length checking.
    pub fn new_unchecked(buffer: &'a [u8]) -> (r: Self)
        ensures
            r@ == buffer@,
    {
        Self { buffer }
    }

    /// The size of the field in octets.
    pub fn size() -> (r: usize)
        ensures
            r == 1,
    {
        1
    }

    /// GTS descriptor count (bits 0-2).
    pub fn descriptor_count(&self) -> (r: u8)
        requires
            self@.len() >= 1,
        ensures
            r == self@[0] & 7,
            r <= 7,
    {
        proof {
            lemma_u8_fields(self@[0]);
        }
        self.buffer[0] & 7
    }

    /// GTS is permitted (bit 7).
    pub fn gts_permit(&self) -> (r: bool)
        requires
            self@.len() >= 1,
        ensures
            r == ((self@[0] >> 7u8) & 1 != 0),
    {
        (self.buffer[0] >> 7u8) & 1 != 0
    }

    /// Return an iterator over the GTS descriptors: the octets after this
    /// one hold the directions octet and three octets per descriptor.
    pub fn slots(&self) -> (r: GtsSlotIterator<'a>)
        requires
            self@.len() >= 1,
            self@[0] & 7 == 0 || self@.len() >= 2 + 3 * (self@[0] & 7),
        ensures
            r.wf(),
            r.spec_count() == 0,
            self@[0] & 7 == 0 ==> r.spec_terminated() && r.spec_data().len() == 0,
            self@[0] & 7 != 0 ==> !r.spec_terminated()
                && r.spec_data() == self@.subrange(1, 2 + 3 * (self@[0] & 7)),
    {
        let count = self.descriptor_count();
        if count == 0 {
            GtsSlotIterator { data: &[], count: 0, terminated: true }
        } else {
            let n = 1 + (count as usize) * 3;
            GtsSlotIterator { data: &self.buffer[1..1 + n], count: 0, terminated: false }
        }
    }
}

/// An iterator over GTS descriptors.
#[derive(Debug)]
pub struct GtsSlotIterator<'f> {
    data: &'f [u8],
    count: usize,
    terminated: bool,
}

impl<'f> GtsSlotIterator<'f> {
    /// The directions octet and the descriptors.
    pub closed spec fn spec_data(&self) -> Seq<u8> {
        self.data@
    }

    /// The number of descriptors returned so far.
    pub closed spec fn spec_count(&self) -> nat {
        self.count as nat
    }

    /// Whether the iteration has ended.
    pub closed spec fn spec_terminated(&self) -> bool {
        self.terminated
    }

    /// The iterator state is consistent: at most seven descriptors.
    pub open spec fn wf(&self) -> bool {
        &&& self.spec_data().len() <= 22
        &&& self.spec_count() <= 7
    }

    /// Return the next descriptor: the one at `1 + 3 * count`, with the
    /// direction in bit `count` of the first octet, while three octets are
    /// left there.
    pub fn next(&mut self) -> (r: Option<GtsSlot<&'f [u8]>>)
        requires
            old(self).wf(),
        ensures
            final(self).wf(),
            final(self).spec_data() == old(self).spec_data(),
            ({
                let d = old(self).spec_data();
                let c = old(self).spec_count();
                if old(self).spec_terminated() || 1 + 3 * c >= d.len() || d.len() - (1 + 3 * c) < 3 {
                    r is None && final(self).spec_count() == c && final(self).spec_terminated() == old(self).spec_terminated()
                } else {
                    &&& r matches Some(s) && s@.0 == d.subrange((1 + 3 * c) as int, d.len() as int)
                        && s.spec_direction() == GtsDirection::spec_from((d[0] >> (c as u8)) & 1)
                    &&& final(self).spec_count() == c + 1
                    &&& final(self).spec_terminated() == (1 + 3 * (c + 1) >= d.len())
                }
            }),
    {
        if self.terminated {
            return None;
        }
        if 1 + self.count * 3 >= self.data.len() {
            return None;
        }
        let direction = GtsDirection::from((self.data[0] >> (self.count as u8)) & 1);
        let start = 1 + self.count * 3;
        let descriptor = match GtsSlot::new(&self.data[start..self.data.len()], direction) {
            Ok(d) => d,
            Err(_) => return None,
        };
        self.count = self.count + 1;
        if 1 + self.count * 3 >= self.data.len() {
            self.terminated = true;
        }
        Some(descriptor)
    }
}

/// A reader for the GTS Info field.
#[derive(Debug)]
pub struct GtsInfo<T> {
    buffer: T,
}

impl<T: View<V = Seq<u8>>> View for GtsInfo<T> {
    type V = Seq<u8>;

    closed spec fn view(&self) -> Seq<u8> {
        self.buffer@
    }
}

impl<'a> GtsInfo<&'a [u8]> {
    /// Create a new reader; fails when the buffer is empty.
    pub fn new(buffer: &'a [u8]) -> (r: Result<Self, Error>)
        ensures
            r is Ok <==> buffer@.len() >= 1,
            r matches Ok(s) ==> s@ == buffer@,
    {
        if buffer.len() < Self::size() {
            return Err(Error);
        }
        Ok(Self::new_unchecked(buffer))
    }

    /// Create a new reader without length checking.
    pub fn new_unchecked(buffer: &'a [u8]) -> (r: Self)
        ensures
            r@ == buffer@,
    {
        Self { buffer }
    }

    /// The size of the fixed part of the field in octets.
    pub fn size() -> (r: usize)
        ensures
            r == 1,
    {
        1
    }

    /// The GTS Specification (octet 0).
    pub fn gts_spec(&self) -> (r: Result<GtsSpecification<&'a [u8]>, Error>)
        requires
            self@.len() >= 1,
        ensures
            r matches Ok(s) && s@ == self@.subrange(0, 1),
    {
        GtsSpecification::new(&self.buffer[0..1])
    }

    /// The GTS direction (bit 0 of octet 1).
    pub fn gts_direction(&self) -> (r: GtsDirection)
        requires
            self@.len() >= 2,
        ensures
            r == GtsDirection::spec_from(self@[1] & 1),
    {
        GtsDirection::from(self.buffer[1] & 1)
    }

    /// The length of the GTS Info field: one octet and three per
    /// descriptor.
    #[allow(clippy::len_without_is_empty)]
    pub fn len(&self) -> (r: usize)
        requires
            self@.len() >= 1,
        ensures
            r == 1 + 3 * (self@[0] & 7),
    {
        let spec = match self.gts_spec() {
            Ok(s) => s,
            Err(_) => return 1,
        };
        1 + (spec.descriptor_count() as usize) * GtsSlot::<&[u8]>::size()
    }
}

/// A reader for the Pending Address Specification field (one octet).
#[derive(Debug)]
pub struct PendingAddressSpecification<T> {
    buffer: T,
}

impl<T: View<V = Seq<u8>>> View for PendingAddressSpecification<T> {
    type V = Seq<u8>;

    closed spec fn view(&self) -> Seq<u8> {
        self.buffer@
    }
}

impl<'a> PendingAddressSpecification<&'a [u8]> {
    /// Create a new reader; fails when the buffer is empty.
    pub fn new(buffer: &'a [u8]) -> (r: Result<Self, Error>)
        ensures
            r is Ok <==> buffer@.len() >= 1,
            r matches Ok(s) ==> s@ == buffer@,
    {
        if buffer.len() < Self::size() {
            return Err(Error);
        }
        Ok(Self::new_unchecked(buffer))
    }

    /// Create a new reader without length checking.
    pub fn new_unchecked(buffer: &'a [u8]) -> (r: Self)
        ensures
            r@ == buffer@,
    {
        Self { buffer }
    }

    /// The size of the field in octets.
    pub fn size() -> (r: usize)
        ensures
            r == 1,
    {
        1
    }

    /// The number of pending short addresses (bits 0-2).
    pub fn short_address_pending(&self) -> (r: u8)
        requires
            self@.len() >= 1,
        ensures
            r == self@[0] & 7,
            r <= 7,
    {
        proof {
            lemma_u8_fields(self@[0]);
        }
        self.buffer[0] & 7
    }

    /// The number of pending extended addresses (bits 4-6).
    pub fn extended_address_pending(&self) -> (r: u8)
        requires
            self@.len() >= 1,
        ensures
            r == (self@[0] >> 4u8) & 7,
            r <= 7,
    {
        proof {
            lemma_u8_fields(self@[0]);
        }
        (self.buffer[0] >> 4u8) & 7
    }
}

/// The length of the Pending Address field whose first octet is `b`.
pub open spec fn spec_pending_len(b: u8) -> nat {
    (1 + 2 * (b & 7) + 8 * ((b >> 4u8) & 7)) as nat
}

/// A reader for the Pending Address field.
#[derive(Debug)]
pub struct PendingAddress<T> {
    buffer: T,
}

impl<T: View<V = Seq<u8>>> View for PendingAddress<T> {
    type V = Seq<u8>;

    closed spec fn view(&self) -> Seq<u8> {
        self.buffer@
    }
}

impl<'a> PendingAddress<&'a [u8]> {
    /// Create a new reader; fails when the buffer is empty.
    pub fn new(buffer: &'a [u8]) -> (r: Result<Self, Error>)
        ensures
            r is Ok <==> buffer@.len() >= 1,
            r matches Ok(s) ==> s@ == buffer@,
    {
        if buffer.len() < Self::size() {
            return Err(Error);
        }
        Ok(Self::new_unchecked(buffer))
    }

    /// Create a new reader without length checking.
    pub fn new_unchecked(buffer: &'a [u8]) -> (r: Self)
        ensures
            r@ == buffer@,
    {
        Self { buffer }
    }

    /// The size of the fixed part of the field in octets.
    pub fn size() -> (r: usize)
        ensures
            r == 1,
    {
        1
    }

    /// The Pending Address Specification (octet 0).
    pub fn pending_address_spec(&self) -> (r: Result<PendingAddressSpecification<&'a [u8]>, Error>)
        requires
            self@.len() >= 1,
        ensures
            r matches Ok(s) && s@ == self@.subrange(0, 1),
    {
        PendingAddressSpecification::new(&self.buffer[0..1])
    }

    /// The length of the field: one octet, two per short address and eight
    /// per extended address.
    #[allow(clippy::len_without_is_empty)]
    pub fn len(&self) -> (r: usize)
        requires
            self@.len() >= 1,
        ensures
            r == spec_pending_len(self@[0]),
    {
        let spec = match self.pending_address_spec() {
            Ok(s) => s,
            Err(_) => return 1,
        };
        1 + (spec.short_address_pending() as usize) * 2 + (spec.extended_address_pending() as usize) * 8
    }

    /// Return an iterator over the pending addresses.
    pub fn pending_addresses(&self) -> (r: PendingAddressIterator<'a>)
        requires
            self@.len() >= spec_pending_len(self@[0]),
        ensures
            r.spec_data() == self@.subrange(1, spec_pending_len(self@[0]) as int),
            r.spec_short() == self@[0] & 7,
            r.spec_extended() == (self@[0] >> 4u8) & 7,
            !r.spec_terminated(),
    {
        let spec = match self.pending_address_spec() {
            Ok(s) => s,
            Err(_) => return PendingAddressIterator::new(&self.buffer[0..0], 0, 0),
        };
        let len = self.len();
        PendingAddressIterator::new(&self.buffer[1..len], spec.short_address_pending(), spec.extended_address_pending())
    }
}

/// An iterator over pending addresses: first the short addresses, then the
/// extended ones, each stored as is.
#[derive(Debug)]
pub struct PendingAddressIterator<'f> {
    data: &'f [u8],
    short_addresses: u8,
    extended_addresses: u8,
    terminated: bool,
}

impl<'f> PendingAddressIterator<'f> {
    /// The octets left to read.
    pub closed spec fn spec_data(&self) -> Seq<u8> {
        self.data@
    }

    /// The number of short addresses left.
    pub closed spec fn spec_short(&self) -> u8 {
        self.short_addresses
    }

    /// The number of extended addresses left.
    pub closed spec fn spec_extended(&self) -> u8 {
        self.extended_addresses
    }

    /// Whether the iteration has ended.
    pub closed spec fn spec_terminated(&self) -> bool {
        self.terminated
    }

    /// Create a new iterator over `data`.
    pub fn new(data: &'f [u8], short_addresses: u8, extended_addresses: u8) -> (r: Self)
        ensures
            r.spec_data() == data@,
            r.spec_short() == short_addresses,
            r.spec_extended() == extended_addresses,
            !r.spec_terminated(),
    {
        Self { data, short_addresses, extended_addresses, terminated: false }
    }

    /// Return the next pending address.
    pub fn next(&mut self) -> (r: Option<Address>)
        ensures
            ({
                let d = old(self).spec_data();
                if old(self).spec_terminated() {
                    r is None && *final(self) == *old(self)
                } else if old(self).spec_short() > 0 {
                    if d.len() < 2 {
                        r is None && *final(self) == *old(self)
                    } else {
                        &&& r matches Some(Address::Short(a)) && a@ == d.subrange(0, 2)
                        &&& final(self).spec_data() == d.subrange(2, d.len() as int)
                        &&& final(self).spec_short() == old(self).spec_short() - 1
                        &&& final(self).spec_extended() == old(self).spec_extended()
                        &&& !final(self).spec_terminated()
                    }
                } else if old(self).spec_extended() > 0 {
                    if d.len() < 8 {
                        r is None && *final(self) == *old(self)
                    } else {
                        &&& r matches Some(Address::Extended(a)) && a@ == d.subrange(0, 8)
                        &&& final(self).spec_data() == d.subrange(8, d.len() as int)
                        &&& final(self).spec_short() == old(self).spec_short()
                        &&& final(self).spec_extended() == old(self).spec_extended() - 1
                        &&& !final(self).spec_terminated()
                    }
                } else {
                    r is None && final(self).spec_terminated() && final(self).spec_data() == d
                        && final(self).spec_short() == 0 && final(self).spec_extended() == 0
                }
            }),
    {
        if self.terminated {
            return None;
        }
        if self.short_addresses > 0 {
            if self.data.len() < 2 {
                return None;
            }
            let address = Address::from(&self.data[0..2]);
            self.data = &self.data[2..self.data.len()];
            self.short_addresses = self.short_addresses - 1;
            return Some(address);
        }
        if self.extended_addresses > 0 {
            if self.data.len() < 8 {
                return None;
            }
            let address = Address::from(&self.data[0..8]);
            self.data = &self.data[8..self.data.len()];
            self.extended_addresses = self.extended_addresses - 1;
            return Some(address);
        }
        self.terminated = true;
        None
    }
}

/// The length of the Addressing Fields of the Beacon frame `b`, as their
/// reader computes it: the fields that are present, or the two addresses
/// when the Frame Control field describes no valid combination.
pub open spec fn spec_beacon_addressing_len(b: Seq<u8>) -> nat {
    match spec_flags_of(b) {
        Some(f) => spec_fields_len(f),
        None => fc_dst_addressing_mode(b).spec_size() + fc_src_addressing_mode(b).spec_size(),
    }
}

/// The Beacon frame `b` holds its Frame Control field, Sequence Number and
/// Addressing Fields, with no reserved addressing mode.
pub open spec fn spec_beacon_readable(b: Seq<u8>) -> bool {
    &&& 3 <= b.len() <= usize::MAX / 2
    &&& !(fc_dst_addressing_mode(b) is Unknown)
    &&& !(fc_src_addressing_mode(b) is Unknown)
    &&& (spec_flags_of(b) matches Some(f) ==> b.len() - 3 >= spec_fields_len(f))
}

/// The offset of the Auxiliary Security Header of the Beacon frame `b`.
pub open spec fn spec_beacon_aux_offset(b: Seq<u8>) -> int {
    3 + spec_beacon_addressing_len(b) as int
}

/// The offset of the Superframe Specification of the Beacon frame `b`.
pub open spec fn spec_beacon_sf_offset(b: Seq<u8>) -> int {
    spec_beacon_aux_offset(b) + if fc_security_enabled(b) {
        1 + spec_mic_length(b[spec_beacon_aux_offset(b)])
    } else {
        0
    }
}

/// The offset of the GTS Info field of the Beacon frame `b`.
pub open spec fn spec_beacon_gts_offset(b: Seq<u8>) -> int {
    spec_beacon_sf_offset(b) + 2
}

/// The offset of the Pending Address field of the Beacon frame `b`.
pub open spec fn spec_beacon_pending_offset(b: Seq<u8>) -> int {
    spec_beacon_gts_offset(b) + 1 + 3 * (b[spec_beacon_gts_offset(b)] & 7)
}

/// The offset of the payload of the Beacon frame `b`.
pub open spec fn spec_beacon_payload_offset(b: Seq<u8>) -> int {
    spec_beacon_pending_offset(b) + spec_pending_len(b[spec_beacon_pending_offset(b)])
}

/// The Beacon frame `b` holds everything up to its Superframe
/// Specification.
pub open spec fn spec_beacon_holds_sf(b: Seq<u8>) -> bool {
    &&& spec_beacon_readable(b)
    &&& (fc_security_enabled(b) ==> spec_beacon_aux_offset(b) < b.len())
    &&& spec_beacon_sf_offset(b) + 2 <= b.len()
}

/// A reader for an IEEE 802.15.4 Beacon frame.
#[derive(Debug)]
pub struct BeaconFrame<T> {
    buffer: T,
}

impl<T: View<V = Seq<u8>>> View for BeaconFrame<T> {
    type V = Seq<u8>;

    closed spec fn view(&self) -> Seq<u8> {
        self.buffer@
    }
}

impl<'a> BeaconFrame<&'a [u8]> {
    /// Create a new [`BeaconFrame`] reader without checking the buffer.
    pub fn new_unchecked(buffer: &'a [u8]) -> (r: Self)
        ensures
            r@ == buffer@,
    {
        Self { buffer }
    }

    /// Return a [`FrameControl`] reader.
    pub fn frame_control(&self) -> (r: FrameControl<&'a [u8]>)
        requires
            self@.len() >= 2,
        ensures
            r@ == self@.subrange(0, 2),
    {
        frame_control_of(self.buffer)
    }

    /// Return the sequence number of the frame.
    pub fn sequence_number(&self) -> (r: u8)
        requires
            self@.len() >= 3,
        ensures
            r == self@[2],
    {
        self.buffer[2]
    }

    /// Return an [`AddressingFields`] reader over the octets after the
    /// Sequence Number.
    pub fn addressing(&self) -> (r: AddressingFields<&'a [u8], &'a [u8]>)
        requires
            self@.len() >= 3,
        ensures
            r.spec_buffer() == self@.subrange(3, self@.len() as int),
            r.spec_fc() == self@.subrange(0, 2),
    {
        AddressingFields::new_unchecked(&self.buffer[3..self.buffer.len()], self.frame_control())
    }

    fn aux_offset(&self) -> (r: usize)
        requires
            spec_beacon_readable(self@),
        ensures
            r == spec_beacon_aux_offset(self@),
    {
        proof {
            lemma_fc_prefix(self@);
        }
        3 + self.addressing().len()
    }

    /// Return an [`AuxiliarySecurityHeader`] reader when security is
    /// enabled.
    pub fn auxiliary_security_header(&self) -> (r: Option<AuxiliarySecurityHeader<&'a [u8]>>)
        requires
            spec_beacon_readable(self@),
            fc_security_enabled(self@) ==> spec_beacon_aux_offset(self@) <= self@.len(),
        ensures
            fc_security_enabled(self@) ==> (r matches Some(h) && h@ == self@.subrange(spec_beacon_aux_offset(self@), self@.len() as int)),
            !fc_security_enabled(self@) ==> r is None,
    {
        proof {
            lemma_fc_prefix(self@);
        }
        if self.frame_control().security_enabled() {
            let offset = self.aux_offset();
            Some(AuxiliarySecurityHeader::new(&self.buffer[offset..self.buffer.len()]))
        } else {
            None
        }
    }

    fn sf_offset(&self) -> (r: usize)
        requires
            spec_beacon_holds_sf(self@),
        ensures
            r == spec_beacon_sf_offset(self@),
    {
        proof {
            lemma_fc_prefix(self@);
        }
        let mut offset = self.aux_offset();
        if self.frame_control().security_enabled() {
            match self.auxiliary_security_header() {
                Some(h) => {
                    offset = offset + h.len();
                },
                None => {},
            }
        }
        offset
    }

    /// Return a [`SuperframeSpecification`] reader.
    pub fn superframe_specification(&self) -> (r: SuperframeSpecification<&'a [u8]>)
        requires
            spec_beacon_holds_sf(self@),
        ensures
            r@ == self@.subrange(spec_beacon_sf_offset(self@), spec_beacon_sf_offset(self@) + 2),
    {
        let offset = self.sf_offset();
        SuperframeSpecification::new_unchecked(&self.buffer[offset..offset + 2])
    }

    /// Return a [`GtsInfo`] reader.
    pub fn gts_info(&self) -> (r: GtsInfo<&'a [u8]>)
        requires
            spec_beacon_holds_sf(self@),
        ensures
            r@ == self@.subrange(spec_beacon_gts_offset(self@), self@.len() as int),
    {
        let offset = self.sf_offset() + 2;
        GtsInfo::new_unchecked(&self.buffer[offset..self.buffer.len()])
    }

    fn pending_offset(&self) -> (r: usize)
        requires
            spec_beacon_holds_sf(self@),
            spec_beacon_gts_offset(self@) < self@.len(),
            spec_beacon_pending_offset(self@) <= self@.len(),
        ensures
            r == spec_beacon_pending_offset(self@),
    {
        self.sf_offset() + 2 + self.gts_info().len()
    }

    /// Return a [`PendingAddress`] reader.
    pub fn pending_address(&self) -> (r: PendingAddress<&'a [u8]>)
        requires
            spec_beacon_holds_sf(self@),
            spec_beacon_gts_offset(self@) < self@.len(),
            spec_beacon_pending_offset(self@) <= self@.len(),
        ensures
            r@ == self@.subrange(spec_beacon_pending_offset(self@), self@.len() as int),
    {
        let offset = self.pending_offset();
        PendingAddress::new_unchecked(&self.buffer[offset..self.buffer.len()])
    }

    /// Return the payload of the frame: the octets after the Pending
    /// Address field.
    pub fn payload(&self) -> (r: Option<&'a [u8]>)
        requires
            spec_beacon_holds_sf(self@),
            spec_beacon_gts_offset(self@) < self@.len(),
            spec_beacon_pending_offset(self@) < self@.len(),
            spec_beacon_payload_offset(self@) <= self@.len(),
        ensures
            r matches Some(p) && p@ == self@.subrange(spec_beacon_payload_offset(self@), self@.len() as int),
    {
        let offset = self.pending_offset() + self.pending_address().len();
        Some(&self.buffer[offset..self.buffer.len()])
    }
}

/// A reader for an IEEE 802.15.4 Enhanced Beacon frame.
#[derive(Debug)]
pub struct EnhancedBeaconFrame<T> {
    buffer: T,
}

impl<T: View<V = Seq<u8>>> View for EnhancedBeaconFrame<T> {
    type V = Seq<u8>;

    closed spec fn view(&self) -> Seq<u8> {
        self.buffer@
    }
}

impl<'a> EnhancedBeaconFrame<&'a [u8]> {
    /// Create a new [`EnhancedBeaconFrame`] reader; fails unless the buffer
    /// is accepted as [`spec_frame_header_ok`] states.
    pub fn new(buffer: &'a [u8]) -> (r: Result<Self, Error>)
        ensures
            r is Ok <==> spec_frame_header_ok(buffer@),
            r matches Ok(f) ==> f@ == buffer@,
    {
        if !check_frame_header(buffer) {
            return Err(Error);
        }
        Ok(Self::new_unchecked(buffer))
    }

    /// Create a new [`EnhancedBeaconFrame`] reader without checking the
    /// buffer.
    pub fn new_unchecked(buffer: &'a [u8]) -> (r: Self)
        ensures
            r@ == buffer@,
    {
        Self { buffer }
    }

    /// Return a [`FrameControl`] reader.
    pub fn frame_control(&self) -> (r: FrameControl<&'a [u8]>)
        requires
            self@.len() >= 2,
        ensures
            r@ == self@.subrange(0, 2),
    {
        frame_control_of(self.buffer)
    }

    /// Return the sequence number of the frame if not suppressed.
    pub fn sequence_number(&self) -> (r: Option<u8>)
        requires
            spec_readable(self@),
        ensures
            r == (if fc_sequence_number_suppression(self@) { None } else { Some(self@[2]) }),
    {
        sequence_number_of(self.buffer)
    }

    /// Return an [`AddressingFields`] reader, when the Addressing Fields are
    /// valid.
    pub fn addressing(&self) -> (r: Option<AddressingFields<&'a [u8], &'a [u8]>>)
        requires
            spec_readable(self@),
        ensures
            r is Some <==> spec_has_addressing(self@),
            r matches Some(af) ==> af.spec_buffer() == self@.subrange(spec_addressing_offset(self@), self@.len() as int)
                && af.spec_fc() == self@.subrange(0, 2) && af.fits(),
    {
        addressing_of(self.buffer)
    }

    /// Return an [`AuxiliarySecurityHeader`] reader when security is
    /// enabled.
    pub fn auxiliary_security_header(&self) -> (r: Option<AuxiliarySecurityHeader<&'a [u8]>>)
        requires
            spec_readable(self@),
            spec_modes_known(self@),
        ensures
            fc_security_enabled(self@) ==> (r matches Some(h) && h@ == self@.subrange(spec_aux_offset(self@), self@.len() as int)),
            !fc_security_enabled(self@) ==> r is None,
    {
        aux_header_of(self.buffer)
    }

    /// Return an [`InformationElements`] reader, when they are present and
    /// valid; they are read right after the Addressing Fields.
    pub fn information_elements(&self) -> (r: Option<InformationElements<&'a [u8]>>)
        requires
            spec_readable(self@),
            spec_modes_known(self@),
        ensures
            r is Some <==> (fc_information_elements_present(self@) && spec_ies_at(self@, spec_aux_offset(self@))),
            r matches Some(ie) ==> ie@ == self@.subrange(spec_aux_offset(self@), self@.len() as int),
    {
        proof {
            lemma_fc_prefix(self@);
        }
        if self.frame_control().information_elements_present() {
            ies_at(self.buffer, aux_offset_of(self.buffer))
        } else {
            None
        }
    }

    /// Return the payload of the frame, `None` when it is empty.
    pub fn payload(&self) -> (r: Option<&'a [u8]>)
        requires
            spec_readable(self@),
            spec_modes_known(self@),
            fc_security_enabled(self@) ==> spec_aux_offset(self@) < self@.len(),
        ensures
            r is None <==> self@.len() <= spec_payload_offset(self@),
            r matches Some(p) ==> p@ == self@.subrange(spec_payload_offset(self@), self@.len() as int),
    {
        payload_of(self.buffer)
    }
}

} // verus!

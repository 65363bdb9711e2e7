//! A helper for building frame representations.
use vstd::prelude::*;

use crate::addressing::{Address, AddressingMode};
use crate::frame_control::{FrameType, FrameVersion};
use crate::repr::addressing::AddressingFieldsRepr;
use crate::repr::frame::FrameRepr;
use crate::repr::frame_control::FrameControlRepr;
use crate::repr::ie::headers::HeaderInformationElementRepr;
use crate::repr::ie::lists::{header_ies_of, header_ies_push, header_ies_slice, payload_ies_of, payload_ies_push, payload_ies_slice};
use crate::repr::ie::payloads::PayloadInformationElementRepr;
use crate::repr::ie::InformationElementsRepr;
use crate::Error;

verus! {

/// Marker of a builder of Beacon frames.
pub struct Beacon;

/// Marker of a builder of Enhanced Beacon frames.
pub struct EnhancedBeacon;

/// Marker of a builder of Acknowledgment frames.
pub struct Ack;

/// Marker of a builder of Data frames.
pub struct Data;

/// The Frame Control field the builders start from: no flag set, both
/// addresses absent.
pub open spec fn spec_base_fc(frame_type: FrameType, suppressed: bool, version: FrameVersion) -> FrameControlRepr {
    FrameControlRepr {
        frame_type,
        security_enabled: false,
        frame_pending: false,
        ack_request: false,
        pan_id_compression: false,
        sequence_number_suppression: suppressed,
        information_elements_present: false,
        dst_addressing_mode: AddressingMode::Absent,
        src_addressing_mode: AddressingMode::Absent,
        frame_version: version,
    }
}

/// A helper for building IEEE 802.15.4 frames.
pub struct FrameBuilder<'p, T> {
    frame: FrameRepr<'p>,
    kind: core::marker::PhantomData<T>,
}

impl<'p, T> FrameBuilder<'p, T> {
    /// The frame being built.
    pub closed spec fn spec_frame(&self) -> FrameRepr<'p> {
        self.frame
    }
}

/// A frame representation with no field but its Frame Control field,
/// Sequence Number and payload.
pub open spec fn spec_bare_frame<'p>(fc: FrameControlRepr, sequence_number: Option<u8>, payload: Option<&'p [u8]>) -> FrameRepr<'p> {
    FrameRepr { frame_control: fc, sequence_number, addressing_fields: None, information_elements: None, payload }
}

fn base_fc(frame_type: FrameType, suppressed: bool, version: FrameVersion) -> (r: FrameControlRepr)
    ensures
        r == spec_base_fc(frame_type, suppressed, version),
{
    FrameControlRepr {
        frame_type,
        security_enabled: false,
        frame_pending: false,
        ack_request: false,
        pan_id_compression: false,
        sequence_number_suppression: suppressed,
        information_elements_present: false,
        dst_addressing_mode: AddressingMode::Absent,
        src_addressing_mode: AddressingMode::Absent,
        frame_version: version,
    }
}

impl<'p> FrameBuilder<'p, Ack> {
    /// Create a new builder for an immediate acknowledgment frame (version
    /// 2006, with a Sequence Number).
    pub fn new_imm_ack(sequence_number: u8) -> (r: Self)
        ensures
            r.spec_frame() == spec_bare_frame(spec_base_fc(FrameType::Ack, false, FrameVersion::Ieee802154_2006), Some(sequence_number), None),
    {
        Self {
            frame: FrameRepr {
                frame_control: base_fc(FrameType::Ack, false, FrameVersion::Ieee802154_2006),
                sequence_number: Some(sequence_number),
                addressing_fields: None,
                information_elements: None,
                payload: None,
            },
            kind: core::marker::PhantomData,
        }
    }

    /// Create a new builder for an acknowledgment frame (version 2020, the
    /// Sequence Number suppressed).
    pub fn new_ack() -> (r: Self)
        ensures
            r.spec_frame() == spec_bare_frame(spec_base_fc(FrameType::Ack, true, FrameVersion::Ieee802154_2020), None, None),
    {
        Self {
            frame: FrameRepr {
                frame_control: base_fc(FrameType::Ack, true, FrameVersion::Ieee802154_2020),
                sequence_number: None,
                addressing_fields: None,
                information_elements: None,
                payload: None,
            },
            kind: core::marker::PhantomData,
        }
    }
}

impl<'p> FrameBuilder<'p, Beacon> {
    /// Create a new builder for a beacon frame (version 2006, the Sequence
    /// Number suppressed).
    pub fn new_beacon() -> (r: Self)
        ensures
            r.spec_frame() == spec_bare_frame(spec_base_fc(FrameType::Beacon, true, FrameVersion::Ieee802154_2006), None, None),
    {
        Self {
            frame: FrameRepr {
                frame_control: base_fc(FrameType::Beacon, true, FrameVersion::Ieee802154_2006),
                sequence_number: None,
                addressing_fields: None,
                information_elements: None,
                payload: None,
            },
            kind: core::marker::PhantomData,
        }
    }
}

impl<'p> FrameBuilder<'p, EnhancedBeacon> {
    /// Create a new builder for an enhanced beacon frame (version 2020, the
    /// Sequence Number suppressed).
    pub fn new_enhanced_beacon() -> (r: Self)
        ensures
            r.spec_frame() == spec_bare_frame(spec_base_fc(FrameType::Beacon, true, FrameVersion::Ieee802154_2020), None, None),
    {
        Self {
            frame: FrameRepr {
                frame_control: base_fc(FrameType::Beacon, true, FrameVersion::Ieee802154_2020),
                sequence_number: None,
                addressing_fields: None,
                information_elements: None,
                payload: None,
            },
            kind: core::marker::PhantomData,
        }
    }
}

impl<'p> FrameBuilder<'p, Data> {
    /// Create a new builder for a data frame carrying `payload` (version
    /// 2006, the Sequence Number suppressed).
    pub fn new_data(payload: &'p [u8]) -> (r: Self)
        ensures
            r.spec_frame() == spec_bare_frame(spec_base_fc(FrameType::Data, true, FrameVersion::Ieee802154_2006), None, Some(payload)),
    {
        Self {
            frame: FrameRepr {
                frame_control: base_fc(FrameType::Data, true, FrameVersion::Ieee802154_2006),
                sequence_number: None,
                addressing_fields: None,
                information_elements: None,
                payload: Some(payload),
            },
            kind: core::marker::PhantomData,
        }
    }
}

/// The Addressing Fields of `f`, or empty ones.
pub open spec fn spec_fields_or_default(f: Option<AddressingFieldsRepr>) -> AddressingFieldsRepr {
    match f {
        Some(a) => a,
        None => AddressingFieldsRepr { dst_pan_id: None, dst_address: None, src_pan_id: None, src_address: None },
    }
}

/// The PAN ID compression of a version 2020 frame with Addressing Fields
/// `a`, and the fields kept; `None` for a combination that cannot be
/// written.
pub open spec fn spec_compression_2020(a: AddressingFieldsRepr) -> Option<(bool, AddressingFieldsRepr)> {
    let no_src_pan = AddressingFieldsRepr { src_pan_id: None, ..a };
    match (a.dst_address, a.src_address, a.dst_pan_id, a.src_pan_id) {
        (None, None, None, None) => Some((false, a)),
        (None, None, Some(_), None) => Some((true, a)),
        (Some(_), None, Some(_), None) => Some((false, a)),
        (None, Some(_), None, Some(_)) => Some((false, a)),
        (None, Some(_), None, None) => Some((true, a)),
        (Some(Address::Extended(_)), Some(Address::Extended(_)), Some(_), None) => Some((false, a)),
        (Some(Address::Extended(_)), Some(Address::Extended(_)), None, None) => Some((true, a)),
        (Some(Address::Short(_)), Some(Address::Short(_)), Some(d), Some(s))
        | (Some(Address::Short(_)), Some(Address::Extended(_)), Some(d), Some(s))
        | (Some(Address::Extended(_)), Some(Address::Short(_)), Some(d), Some(s)) => {
            if d == s { Some((true, no_src_pan)) } else { Some((false, a)) }
        },
        (Some(Address::Short(_)), Some(Address::Extended(_)), Some(_), None) => Some((true, a)),
        (Some(Address::Extended(_)), Some(Address::Short(_)), Some(_), None) => Some((true, a)),
        (Some(Address::Short(_)), Some(Address::Short(_)), Some(_), None) => Some((true, a)),
        _ => None,
    }
}

/// The PAN ID compression of a 2003 or 2006 frame that is not an
/// acknowledgment with Addressing Fields `a` (`None` when the bit is kept
/// as it is), and the fields kept; `None` for a combination that cannot be
/// written.
pub open spec fn spec_compression_legacy(a: AddressingFieldsRepr) -> Option<(Option<bool>, AddressingFieldsRepr)> {
    match (a.dst_address, a.src_address, a.dst_pan_id, a.src_pan_id) {
        (Some(_), Some(_), Some(d), Some(s)) => if d == s {
            Some((Some(true), AddressingFieldsRepr { src_pan_id: None, ..a }))
        } else {
            Some((None, a))
        },
        (Some(_), None, Some(_), _) => Some((Some(false), AddressingFieldsRepr { src_pan_id: None, ..a })),
        (None, Some(_), _, Some(_)) => Some((Some(false), AddressingFieldsRepr { dst_pan_id: None, ..a })),
        _ => None,
    }
}

/// The frame representation the builder of `f` finalizes to, `None` when
/// it fails.
pub open spec fn spec_finalize<'p>(f: FrameRepr<'p>) -> Option<FrameRepr<'p>> {
    if f.frame_control.frame_version is Ieee802154_2020 {
        match f.addressing_fields {
            None => None,
            Some(a) => match spec_compression_2020(a) {
                None => None,
                Some((c, a2)) => Some(FrameRepr {
                    frame_control: FrameControlRepr { pan_id_compression: c, ..f.frame_control },
                    addressing_fields: Some(a2),
                    ..f
                }),
            },
        }
    } else if f.frame_control.frame_type is Ack {
        if f.sequence_number is None {
            None
        } else {
            Some(FrameRepr { addressing_fields: None, ..f })
        }
    } else {
        match f.addressing_fields {
            None => None,
            Some(a) => match spec_compression_legacy(a) {
                None => None,
                Some((c, a2)) => Some(FrameRepr {
                    frame_control: match c {
                        Some(c) => FrameControlRepr { pan_id_compression: c, ..f.frame_control },
                        None => f.frame_control,
                    },
                    addressing_fields: Some(a2),
                    ..f
                }),
            },
        }
    }
}

/// Finalizing a 2003 or 2006 frame that is not an acknowledgment, with both
/// addresses and both PAN IDs given, keeps the addresses and the
/// destination PAN ID. The PAN ID compression bit is set, and the source PAN
/// ID left out, exactly when the two PAN IDs are equal; when they differ,
/// both are kept and the bit is left as it was. Either way the PAN ID the
/// source is in (its own, or the destination's under compression) is the
/// one given.
pub proof fn lemma_finalize_legacy_pan_ids(f: FrameRepr, a: AddressingFieldsRepr)
    requires
        !(f.frame_control.frame_version is Ieee802154_2020),
        !(f.frame_control.frame_type is Ack),
        f.addressing_fields == Some(a),
        a.dst_address is Some,
        a.src_address is Some,
        a.dst_pan_id is Some,
        a.src_pan_id is Some,
    ensures
        spec_finalize(f) matches Some(g) && g.addressing_fields matches Some(b) && {
            let d = a.dst_pan_id.unwrap();
            let s = a.src_pan_id.unwrap();
            &&& b.dst_address == a.dst_address
            &&& b.src_address == a.src_address
            &&& b.dst_pan_id == Some(d)
            &&& (g.frame_control.pan_id_compression && b.src_pan_id is None) <==> d == s
            &&& d != s ==> b.src_pan_id == Some(s)
                && g.frame_control.pan_id_compression == f.frame_control.pan_id_compression
            &&& (match b.src_pan_id {
                Some(p) => p,
                None => d,
            }) == s
            &&& g.sequence_number == f.sequence_number
            &&& g.payload == f.payload
            &&& g.information_elements == f.information_elements
        },
{
}

/// The Header IEs of the frame representation `f` (none when it has no
/// Information Elements).
pub open spec fn spec_headers_of(f: FrameRepr) -> Seq<HeaderInformationElementRepr> {
    match f.information_elements {
        Some(ie) => header_ies_of(ie.header_information_elements),
        None => Seq::empty(),
    }
}

/// The Payload IEs of the frame representation `f`.
pub open spec fn spec_payloads_of(f: FrameRepr) -> Seq<PayloadInformationElementRepr> {
    match f.information_elements {
        Some(ie) => payload_ies_of(ie.payload_information_elements),
        None => Seq::empty(),
    }
}

impl<'p, T> FrameBuilder<'p, T> {
    /// Set the frame sequence number; this disables sequence number
    /// suppression.
    pub fn set_sequence_number(self, sequence_number: u8) -> (r: Self)
        ensures
            r.spec_frame() == (FrameRepr {
                sequence_number: Some(sequence_number),
                frame_control: FrameControlRepr { sequence_number_suppression: false, ..self.spec_frame().frame_control },
                ..self.spec_frame()
            }),
    {
        let mut b = self;
        b.frame.sequence_number = Some(sequence_number);
        b.frame.frame_control.sequence_number_suppression = false;
        b
    }

    /// Set the destination PAN ID.
    pub fn set_dst_pan_id(self, pan_id: u16) -> (r: Self)
        ensures
            r.spec_frame() == (FrameRepr {
                addressing_fields: Some(AddressingFieldsRepr {
                    dst_pan_id: Some(pan_id),
                    ..spec_fields_or_default(self.spec_frame().addressing_fields)
                }),
                ..self.spec_frame()
            }),
    {
        let mut b = self;
        let mut af = match b.frame.addressing_fields {
            Some(af) => af,
            None => AddressingFieldsRepr { dst_pan_id: None, dst_address: None, src_pan_id: None, src_address: None },
        };
        af.dst_pan_id = Some(pan_id);
        b.frame.addressing_fields = Some(af);
        b
    }

    /// Set the source PAN ID.
    pub fn set_src_pan_id(self, pan_id: u16) -> (r: Self)
        ensures
            r.spec_frame() == (FrameRepr {
                addressing_fields: Some(AddressingFieldsRepr {
                    src_pan_id: Some(pan_id),
                    ..spec_fields_or_default(self.spec_frame().addressing_fields)
                }),
                ..self.spec_frame()
            }),
    {
        let mut b = self;
        let mut af = match b.frame.addressing_fields {
            Some(af) => af,
            None => AddressingFieldsRepr { dst_pan_id: None, dst_address: None, src_pan_id: None, src_address: None },
        };
        af.src_pan_id = Some(pan_id);
        b.frame.addressing_fields = Some(af);
        b
    }

    /// Set the destination address; the destination addressing mode follows
    /// the address.
    pub fn set_dst_address(self, address: Address) -> (r: Self)
        ensures
            r.spec_frame() == (FrameRepr {
                frame_control: FrameControlRepr { dst_addressing_mode: address.spec_mode(), ..self.spec_frame().frame_control },
                addressing_fields: Some(AddressingFieldsRepr {
                    dst_address: Some(address),
                    ..spec_fields_or_default(self.spec_frame().addressing_fields)
                }),
                ..self.spec_frame()
            }),
    {
        let mut b = self;
        b.frame.frame_control.dst_addressing_mode = AddressingMode::from(address);
        let mut af = match b.frame.addressing_fields {
            Some(af) => af,
            None => AddressingFieldsRepr { dst_pan_id: None, dst_address: None, src_pan_id: None, src_address: None },
        };
        af.dst_address = Some(address);
        b.frame.addressing_fields = Some(af);
        b
    }

    /// Set the source address; the source addressing mode follows the
    /// address.
    pub fn set_src_address(self, address: Address) -> (r: Self)
        ensures
            r.spec_frame() == (FrameRepr {
                frame_control: FrameControlRepr { src_addressing_mode: address.spec_mode(), ..self.spec_frame().frame_control },
                addressing_fields: Some(AddressingFieldsRepr {
                    src_address: Some(address),
                    ..spec_fields_or_default(self.spec_frame().addressing_fields)
                }),
                ..self.spec_frame()
            }),
    {
        let mut b = self;
        b.frame.frame_control.src_addressing_mode = AddressingMode::from(address);
        let mut af = match b.frame.addressing_fields {
            Some(af) => af,
            None => AddressingFieldsRepr { dst_pan_id: None, dst_address: None, src_pan_id: None, src_address: None },
        };
        af.src_address = Some(address);
        b.frame.addressing_fields = Some(af);
        b
    }

    /// Add a Header Information Element; this sets the Information
    /// Elements Present bit and the frame version to IEEE 802.15.4-2020.
    /// At most sixteen can be added.
    pub fn add_header_information_element(self, ie: HeaderInformationElementRepr) -> (r: Self)
        requires
            spec_headers_of(self.spec_frame()).len() < 16,
        ensures
            r.spec_frame().frame_control == (FrameControlRepr {
                information_elements_present: true,
                frame_version: FrameVersion::Ieee802154_2020,
                ..self.spec_frame().frame_control
            }),
            r.spec_frame().sequence_number == self.spec_frame().sequence_number,
            r.spec_frame().addressing_fields == self.spec_frame().addressing_fields,
            r.spec_frame().payload == self.spec_frame().payload,
            r.spec_frame().information_elements is Some,
            spec_headers_of(r.spec_frame()) == spec_headers_of(self.spec_frame()).push(ie),
            spec_payloads_of(r.spec_frame()) == spec_payloads_of(self.spec_frame()),
    {
        let FrameBuilder { frame, kind } = self;
        let FrameRepr { frame_control, sequence_number, addressing_fields, information_elements, payload } = frame;
        let mut ies = match information_elements {
            Some(ies) => ies,
            None => InformationElementsRepr::default(),
        };
        match header_ies_push(&mut ies.header_information_elements, ie) {
            Ok(()) => {},
            Err(_) => {
                proof {
                    assert(false);
                }
            },
        }
        let mut fc = frame_control;
        fc.information_elements_present = true;
        fc.frame_version = FrameVersion::Ieee802154_2020;
        FrameBuilder {
            frame: FrameRepr { frame_control: fc, sequence_number, addressing_fields, information_elements: Some(ies), payload },
            kind,
        }
    }

    /// Add a Payload Information Element; this sets the Information
    /// Elements Present bit and the frame version to IEEE 802.15.4-2020.
    /// At most sixteen can be added.
    pub fn add_payload_information_element(self, ie: PayloadInformationElementRepr) -> (r: Self)
        requires
            spec_payloads_of(self.spec_frame()).len() < 16,
        ensures
            r.spec_frame().frame_control == (FrameControlRepr {
                information_elements_present: true,
                frame_version: FrameVersion::Ieee802154_2020,
                ..self.spec_frame().frame_control
            }),
            r.spec_frame().sequence_number == self.spec_frame().sequence_number,
            r.spec_frame().addressing_fields == self.spec_frame().addressing_fields,
            r.spec_frame().payload == self.spec_frame().payload,
            r.spec_frame().information_elements is Some,
            spec_headers_of(r.spec_frame()) == spec_headers_of(self.spec_frame()),
            spec_payloads_of(r.spec_frame()) == spec_payloads_of(self.spec_frame()).push(ie),
    {
        let FrameBuilder { frame, kind } = self;
        let FrameRepr { frame_control, sequence_number, addressing_fields, information_elements, payload } = frame;
        let mut ies = match information_elements {
            Some(ies) => ies,
            None => InformationElementsRepr::default(),
        };
        match payload_ies_push(&mut ies.payload_information_elements, ie) {
            Ok(()) => {},
            Err(_) => {
                proof {
                    assert(false);
                }
            },
        }
        let mut fc = frame_control;
        fc.information_elements_present = true;
        fc.frame_version = FrameVersion::Ieee802154_2020;
        FrameBuilder {
            frame: FrameRepr { frame_control: fc, sequence_number, addressing_fields, information_elements: Some(ies), payload },
            kind,
        }
    }

    /// Set the frame payload.
    pub fn set_payload(self, payload: &'p [u8]) -> (r: Self)
        ensures
            r.spec_frame() == (FrameRepr { payload: Some(payload), ..self.spec_frame() }),
    {
        let mut b = self;
        b.frame.payload = Some(payload);
        b
    }

    /// Finalize the frame builder, returning the frame representation (see
    /// [`spec_finalize`]): the PAN ID compression bit is set from the
    /// Addressing Fields and the frame version, and the PAN ID it makes
    /// redundant is dropped.
    pub fn finalize(self) -> (r: Result<FrameRepr<'p>, Error>)
        ensures
            r is Ok <==> spec_finalize(self.spec_frame()) is Some,
            r matches Ok(f) ==> spec_finalize(self.spec_frame()) == Some(f),
    {
        let mut frame = self.frame;
        if frame.frame_control.frame_version == FrameVersion::Ieee802154_2020 {
            let mut addr = match frame.addressing_fields {
                Some(a) => a,
                None => return Err(Error),
            };
            let compression = match (addr.dst_address, addr.src_address, addr.dst_pan_id, addr.src_pan_id) {
                (None, None, None, None) => false,
                (None, None, Some(_), None) => true,
                (Some(_), None, Some(_), None) => false,
                (None, Some(_), None, Some(_)) => false,
                (None, Some(_), None, None) => true,
                (Some(Address::Extended(_)), Some(Address::Extended(_)), Some(_), None) => false,
                (Some(Address::Extended(_)), Some(Address::Extended(_)), None, None) => true,
                (Some(Address::Short(_)), Some(Address::Short(_)), Some(dst), Some(src)) => {
                    if dst == src {
                        addr.src_pan_id = None;
                    }
                    dst == src
                },
                (Some(Address::Short(_)), Some(Address::Extended(_)), Some(dst), Some(src)) => {
                    if dst == src {
                        addr.src_pan_id = None;
                    }
                    dst == src
                },
                (Some(Address::Extended(_)), Some(Address::Short(_)), Some(dst), Some(src)) => {
                    if dst == src {
                        addr.src_pan_id = None;
                    }
                    dst == src
                },
                (Some(Address::Short(_)), Some(Address::Extended(_)), Some(_), None) => true,
                (Some(Address::Extended(_)), Some(Address::Short(_)), Some(_), None) => true,
                (Some(Address::Short(_)), Some(Address::Short(_)), Some(_), None) => true,
                _ => return Err(Error),
            };
            frame.frame_control.pan_id_compression = compression;
            frame.addressing_fields = Some(addr);
        } else {
            if frame.frame_control.frame_type == FrameType::Ack {
                if frame.sequence_number.is_none() {
                    return Err(Error);
                }
                frame.addressing_fields = None;
                return Ok(frame);
            }
            let mut addr = match frame.addressing_fields {
                Some(a) => a,
                None => return Err(Error),
            };
            match (addr.dst_address, addr.src_address, addr.dst_pan_id, addr.src_pan_id) {
                (Some(_), Some(_), Some(dst_pan_id), Some(src_pan_id)) => {
                    if dst_pan_id == src_pan_id {
                        frame.frame_control.pan_id_compression = true;
                        addr.src_pan_id = None;
                    }
                },
                (Some(_), None, Some(_), _) => {
                    frame.frame_control.pan_id_compression = false;
                    addr.src_pan_id = None;
                },
                (None, Some(_), _, Some(_)) => {
                    frame.frame_control.pan_id_compression = false;
                    addr.dst_pan_id = None;
                },
                _ => return Err(Error),
            }
            frame.addressing_fields = Some(addr);
        }
        Ok(frame)
    }
}

} // verus!

//! A frame of any of the supported kinds.
use vstd::prelude::*;

use crate::addressing::AddressingFields;
use crate::aux_sec_header::AuxiliarySecurityHeader;
use crate::frame_control::{
    fc_frame_type, fc_frame_version, fc_information_elements_present, fc_security_enabled,
    fc_sequence_number_suppression, FrameControl, FrameType, FrameVersion,
};
use crate::frames::ack::{spec_eack_complete, spec_eack_ies_offset, spec_eack_payload_offset, Ack, EnhancedAck};
use crate::frames::beacon::{
    spec_beacon_aux_offset, spec_beacon_gts_offset, spec_beacon_holds_sf, spec_beacon_payload_offset,
    spec_beacon_pending_offset, spec_beacon_readable, BeaconFrame, EnhancedBeaconFrame,
};
use crate::frames::data::{spec_data_frame_ok, spec_frame_header_ok, DataFrame};
use crate::frames::layout::{
    frame_control_of, lemma_fc_prefix, spec_addressing_offset, spec_aux_offset, spec_has_addressing,
    spec_ies_at, spec_modes_known, spec_payload_offset, spec_readable,
};
use crate::ie::InformationElements;
use crate::Error;

verus! {

/// A high-level representation of an IEEE 802.15.4 frame.
#[derive(Debug)]
pub enum Frame<T> {
    /// An acknowledgment frame.
    Ack(Ack<T>),
    /// An enhanced acknowledgment frame.
    EnhancedAck(EnhancedAck<T>),
    /// A beacon frame.
    Beacon(BeaconFrame<T>),
    /// An enhanced beacon frame.
    EnhancedBeacon(EnhancedBeaconFrame<T>),
    /// A data frame.
    Data(DataFrame<T>),
}

/// The kinds of frames a [`Frame`] holds.
#[derive(Debug, Clone, Copy, PartialEq, Eq, Structural)]
pub enum FrameKind {
    /// An acknowledgment frame.
    Ack,
    /// An enhanced acknowledgment frame.
    EnhancedAck,
    /// A beacon frame.
    Beacon,
    /// An enhanced beacon frame.
    EnhancedBeacon,
    /// A data frame.
    Data,
}

/// The kind of frame [`Frame::new`] reads `b` as, `None` when it fails.
pub open spec fn spec_new_kind(b: Seq<u8>) -> Option<FrameKind> {
    if b.len() < 2 {
        None
    } else if fc_frame_type(b) is Ack {
        if spec_is_legacy(b) {
            if b.len() == 3 { Some(FrameKind::Ack) } else { None }
        } else if fc_frame_version(b) is Ieee802154_2020 {
            Some(FrameKind::EnhancedAck)
        } else {
            None
        }
    } else if fc_frame_type(b) is Beacon {
        if fc_frame_version(b) is Ieee802154_2020 && spec_frame_header_ok(b) { Some(FrameKind::EnhancedBeacon) } else { None }
    } else if fc_frame_type(b) is Data {
        if spec_data_frame_ok(b) { Some(FrameKind::Data) } else { None }
    } else {
        None
    }
}

/// The Sequence Number of the frame `b` of kind `k`.
pub open spec fn spec_sequence_number_of(k: FrameKind, b: Seq<u8>) -> Option<u8> {
    match k {
        FrameKind::Ack => Some(b[2]),
        FrameKind::Beacon => Some(b[2]),
        _ => if fc_sequence_number_suppression(b) { None } else { Some(b[2]) },
    }
}

/// The octets the Addressing Fields of the frame `b` of kind `k` are read
/// from, when there are some.
pub open spec fn spec_addressing_of(k: FrameKind, b: Seq<u8>) -> Option<Seq<u8>> {
    match k {
        FrameKind::Ack => None,
        FrameKind::Beacon => Some(b.subrange(3, b.len() as int)),
        _ => if spec_has_addressing(b) { Some(b.subrange(spec_addressing_offset(b), b.len() as int)) } else { None },
    }
}

/// The octets the Information Elements of the frame `b` of kind `k` are
/// read from, when there are some.
pub open spec fn spec_information_elements_of(k: FrameKind, b: Seq<u8>) -> Option<Seq<u8>> {
    match k {
        FrameKind::Ack => None,
        FrameKind::Beacon => None,
        FrameKind::EnhancedAck => if fc_information_elements_present(b) {
            Some(b.subrange(spec_eack_ies_offset(b), b.len() as int))
        } else {
            None
        },
        _ => if fc_information_elements_present(b) && spec_ies_at(b, spec_aux_offset(b)) {
            Some(b.subrange(spec_aux_offset(b), b.len() as int))
        } else {
            None
        },
    }
}

/// The payload of the frame `b` of kind `k`.
pub open spec fn spec_payload_of(k: FrameKind, b: Seq<u8>) -> Option<Seq<u8>> {
    match k {
        FrameKind::Ack => None,
        FrameKind::EnhancedAck => Some(b.subrange(spec_eack_payload_offset(b), b.len() as int)),
        FrameKind::Beacon => Some(b.subrange(spec_beacon_payload_offset(b), b.len() as int)),
        _ => if b.len() <= spec_payload_offset(b) { None } else { Some(b.subrange(spec_payload_offset(b), b.len() as int)) },
    }
}

/// The frame version is one of the 2003 and 2006 versions.
pub open spec fn spec_is_legacy(b: Seq<u8>) -> bool {
    fc_frame_version(b) is Ieee802154_2003 || fc_frame_version(b) is Ieee802154_2006
}

impl<T: View<V = Seq<u8>>> Frame<T> {
    /// The octets of the frame.
    pub open spec fn spec_bytes(&self) -> Seq<u8> {
        match self {
            Frame::Ack(f) => f@,
            Frame::EnhancedAck(f) => f@,
            Frame::Beacon(f) => f@,
            Frame::EnhancedBeacon(f) => f@,
            Frame::Data(f) => f@,
        }
    }

    /// The frame holds what its Sequence Number and Addressing Fields are
    /// read from.
    pub open spec fn spec_readable(&self) -> bool {
        match self {
            Frame::Ack(f) => f@.len() >= 3,
            Frame::Beacon(f) => f@.len() >= 3,
            _ => spec_readable(self.spec_bytes()),
        }
    }

    /// The frame holds what its Auxiliary Security Header is read from.
    pub open spec fn spec_aux_readable(&self) -> bool {
        match self {
            Frame::Ack(_) => true,
            Frame::Beacon(f) => spec_beacon_readable(f@) && (fc_security_enabled(f@) ==> spec_beacon_aux_offset(f@) <= f@.len()),
            _ => spec_readable(self.spec_bytes()) && spec_modes_known(self.spec_bytes()),
        }
    }

    /// The frame holds what its Information Elements are read from.
    pub open spec fn spec_ies_readable(&self) -> bool {
        match self {
            Frame::Ack(_) => true,
            Frame::Beacon(_) => true,
            Frame::EnhancedAck(f) => spec_readable(f@) && spec_modes_known(f@) && spec_eack_complete(f@),
            _ => spec_readable(self.spec_bytes()) && spec_modes_known(self.spec_bytes()),
        }
    }

    /// The frame holds what its payload is read after.
    pub open spec fn spec_payload_readable(&self) -> bool {
        match self {
            Frame::Ack(_) => true,
            Frame::EnhancedAck(f) => spec_readable(f@) && spec_modes_known(f@) && spec_eack_complete(f@)
                && spec_eack_payload_offset(f@) <= f@.len(),
            Frame::Beacon(f) => spec_beacon_holds_sf(f@) && spec_beacon_gts_offset(f@) < f@.len()
                && spec_beacon_pending_offset(f@) < f@.len() && spec_beacon_payload_offset(f@) <= f@.len(),
            _ => spec_readable(self.spec_bytes()) && spec_modes_known(self.spec_bytes())
                && (fc_security_enabled(self.spec_bytes()) ==> spec_aux_offset(self.spec_bytes()) < self.spec_bytes().len()),
        }
    }
}

impl<T: View<V = Seq<u8>>> Frame<T> {
    /// The kind of the frame.
    pub open spec fn spec_kind(&self) -> FrameKind {
        match self {
            Frame::Ack(_) => FrameKind::Ack,
            Frame::EnhancedAck(_) => FrameKind::EnhancedAck,
            Frame::Beacon(_) => FrameKind::Beacon,
            Frame::EnhancedBeacon(_) => FrameKind::EnhancedBeacon,
            Frame::Data(_) => FrameKind::Data,
        }
    }

    /// The Sequence Number of the frame, as [`Frame::sequence_number`]
    /// returns it.
    pub open spec fn spec_sequence_number(&self) -> Option<u8> {
        spec_sequence_number_of(self.spec_kind(), self.spec_bytes())
    }

    /// The octets the Addressing Fields of the frame are read from, when
    /// [`Frame::addressing`] returns some.
    pub open spec fn spec_addressing(&self) -> Option<Seq<u8>> {
        spec_addressing_of(self.spec_kind(), self.spec_bytes())
    }

    /// The octets the Information Elements of the frame are read from, when
    /// [`Frame::information_elements`] returns some.
    pub open spec fn spec_information_elements(&self) -> Option<Seq<u8>> {
        spec_information_elements_of(self.spec_kind(), self.spec_bytes())
    }

    /// The payload of the frame, as [`Frame::payload`] returns it.
    pub open spec fn spec_payload(&self) -> Option<Seq<u8>> {
        spec_payload_of(self.spec_kind(), self.spec_bytes())
    }
}

impl<'a> Frame<&'a [u8]> {
    /// Create a new [`Frame`] from a given buffer, of the kind its Frame
    /// Control field announces. Beacon frames of the 2003 and 2006 versions
    /// are not read.
    pub fn new(buffer: &'a [u8]) -> (r: Result<Self, Error>)
        requires
            buffer@.len() >= 2 ==> !(fc_frame_type(buffer@) is Beacon && spec_is_legacy(buffer@)),
        ensures
            r is Ok <==> spec_new_kind(buffer@) is Some,
            r matches Ok(f) ==> f.spec_bytes() == buffer@ && spec_new_kind(buffer@) == Some(f.spec_kind()),
            (r matches Ok(Frame::Ack(_))) <==> (buffer@.len() >= 2 && fc_frame_type(buffer@) is Ack && spec_is_legacy(buffer@)
                && buffer@.len() == 3),
            (r matches Ok(Frame::EnhancedAck(_))) <==> (buffer@.len() >= 2 && fc_frame_type(buffer@) is Ack
                && fc_frame_version(buffer@) is Ieee802154_2020),
            !(r matches Ok(Frame::Beacon(_))),
            (r matches Ok(Frame::EnhancedBeacon(_))) <==> (buffer@.len() >= 2 && fc_frame_type(buffer@) is Beacon
                && fc_frame_version(buffer@) is Ieee802154_2020 && spec_frame_header_ok(buffer@)),
            (r matches Ok(Frame::Data(_))) <==> (buffer@.len() >= 2 && fc_frame_type(buffer@) is Data
                && spec_data_frame_ok(buffer@)),
    {
        if buffer.len() < 2 {
            return Err(Error);
        }
        proof {
            lemma_fc_prefix(buffer@);
        }
        let frame_control = frame_control_of(buffer);
        match frame_control.frame_type() {
            FrameType::Ack => match frame_control.frame_version() {
                FrameVersion::Ieee802154_2003 | FrameVersion::Ieee802154_2006 => {
                    match Ack::new(buffer) {
                        Ok(f) => Ok(Frame::Ack(f)),
                        Err(e) => Err(e),
                    }
                },
                FrameVersion::Ieee802154_2020 => match EnhancedAck::new(buffer) {
                    Ok(f) => Ok(Frame::EnhancedAck(f)),
                    Err(e) => Err(e),
                },
                FrameVersion::Unknown => Err(Error),
            },
            FrameType::Beacon => match frame_control.frame_version() {
                FrameVersion::Ieee802154_2020 => match EnhancedBeaconFrame::new(buffer) {
                    Ok(f) => Ok(Frame::EnhancedBeacon(f)),
                    Err(e) => Err(e),
                },
                _ => Err(Error),
            },
            FrameType::Data => match DataFrame::new(buffer) {
                Ok(f) => Ok(Frame::Data(f)),
                Err(e) => Err(e),
            },
            _ => Err(Error),
        }
    }

    /// Convert the [`Frame`] into an [`Ack`]; the frame must be one.
    pub fn into_ack(self) -> (r: Ack<&'a [u8]>)
        requires
            self is Ack,
        ensures
            r@ == self.spec_bytes(),
    {
        match self {
            Frame::Ack(frame) => frame,
            _ => {
                proof {
                    assert(false);
                }
                Ack::new_unchecked(&[])
            },
        }
    }

    /// Convert the [`Frame`] into an [`EnhancedAck`]; the frame must be one.
    pub fn into_enhanced_ack(self) -> (r: EnhancedAck<&'a [u8]>)
        requires
            self is EnhancedAck,
        ensures
            r@ == self.spec_bytes(),
    {
        match self {
            Frame::EnhancedAck(frame) => frame,
            _ => {
                proof {
                    assert(false);
                }
                EnhancedAck::new_unchecked(&[])
            },
        }
    }

    /// Convert the [`Frame`] into a [`BeaconFrame`]; the frame must be one.
    pub fn into_beacon(self) -> (r: BeaconFrame<&'a [u8]>)
        requires
            self is Beacon,
        ensures
            r@ == self.spec_bytes(),
    {
        match self {
            Frame::Beacon(frame) => frame,
            _ => {
                proof {
                    assert(false);
                }
                BeaconFrame::new_unchecked(&[])
            },
        }
    }

    /// Convert the [`Frame`] into an [`EnhancedBeaconFrame`]; the frame must
    /// be one.
    pub fn into_enhanced_beacon(self) -> (r: EnhancedBeaconFrame<&'a [u8]>)
        requires
            self is EnhancedBeacon,
        ensures
            r@ == self.spec_bytes(),
    {
        match self {
            Frame::EnhancedBeacon(frame) => frame,
            _ => {
                proof {
                    assert(false);
                }
                EnhancedBeaconFrame::new_unchecked(&[])
            },
        }
    }

    /// Convert the [`Frame`] into a [`DataFrame`]; the frame must be one.
    pub fn into_data(self) -> (r: DataFrame<&'a [u8]>)
        requires
            self is Data,
        ensures
            r@ == self.spec_bytes(),
    {
        match self {
            Frame::Data(frame) => frame,
            _ => {
                proof {
                    assert(false);
                }
                DataFrame::new_unchecked(&[])
            },
        }
    }

    /// Return the Frame Control field of the frame.
    pub fn frame_control(&self) -> (r: FrameControl<&'a [u8]>)
        requires
            self.spec_bytes().len() >= 2,
        ensures
            r@ == self.spec_bytes().subrange(0, 2),
    {
        match self {
            Frame::Ack(frame) => frame.frame_control(),
            Frame::EnhancedAck(frame) => frame.frame_control(),
            Frame::Beacon(frame) => frame.frame_control(),
            Frame::EnhancedBeacon(frame) => frame.frame_control(),
            Frame::Data(frame) => frame.frame_control(),
        }
    }

    /// Return the sequence number of the frame, unless suppressed (it never
    /// is in an Ack or Beacon frame).
    pub fn sequence_number(&self) -> (r: Option<u8>)
        requires
            self.spec_readable(),
        ensures
            (self is Ack || self is Beacon) ==> r == Some(self.spec_bytes()[2]),
            !(self is Ack || self is Beacon) ==> r == (if fc_sequence_number_suppression(self.spec_bytes()) {
                None
            } else {
                Some(self.spec_bytes()[2])
            }),
    {
        match self {
            Frame::Ack(frame) => Some(frame.sequence_number()),
            Frame::EnhancedAck(frame) => frame.sequence_number(),
            Frame::Beacon(frame) => Some(frame.sequence_number()),
            Frame::EnhancedBeacon(frame) => frame.sequence_number(),
            Frame::Data(frame) => frame.sequence_number(),
        }
    }

    /// Return the Addressing Fields of the frame (an Ack frame has none).
    pub fn addressing(&self) -> (r: Option<AddressingFields<&'a [u8], &'a [u8]>>)
        requires
            self.spec_readable(),
        ensures
            self is Ack ==> r is None,
            self is Beacon ==> (r matches Some(af) && af.spec_buffer() == self.spec_bytes().subrange(3, self.spec_bytes().len() as int)
                && af.spec_fc() == self.spec_bytes().subrange(0, 2)),
            !(self is Ack || self is Beacon) ==> (r is Some <==> spec_has_addressing(self.spec_bytes())),
            !(self is Ack || self is Beacon) ==> (r matches Some(af) ==> af.spec_buffer() == self.spec_bytes().subrange(
                spec_addressing_offset(self.spec_bytes()), self.spec_bytes().len() as int)
                && af.spec_fc() == self.spec_bytes().subrange(0, 2) && af.fits()),
    {
        match self {
            Frame::Ack(_) => None,
            Frame::EnhancedAck(frame) => frame.addressing(),
            Frame::Beacon(frame) => Some(frame.addressing()),
            Frame::EnhancedBeacon(frame) => frame.addressing(),
            Frame::Data(frame) => frame.addressing(),
        }
    }

    /// Return the Auxiliary Security Header of the frame, when security is
    /// enabled (an Ack frame has none).
    pub fn auxiliary_security_header(&self) -> (r: Option<AuxiliarySecurityHeader<&'a [u8]>>)
        requires
            self.spec_aux_readable(),
        ensures
            (self is Ack || !fc_security_enabled(self.spec_bytes())) ==> r is None,
            self is Beacon && fc_security_enabled(self.spec_bytes()) ==> (r matches Some(h)
                && h@ == self.spec_bytes().subrange(spec_beacon_aux_offset(self.spec_bytes()), self.spec_bytes().len() as int)),
            !(self is Ack || self is Beacon) && fc_security_enabled(self.spec_bytes()) ==> (r matches Some(h)
                && h@ == self.spec_bytes().subrange(spec_aux_offset(self.spec_bytes()), self.spec_bytes().len() as int)),
    {
        match self {
            Frame::Ack(_) => None,
            Frame::EnhancedAck(frame) => frame.auxiliary_security_header(),
            Frame::Beacon(frame) => frame.auxiliary_security_header(),
            Frame::EnhancedBeacon(frame) => frame.auxiliary_security_header(),
            Frame::Data(frame) => frame.auxiliary_security_header(),
        }
    }

    /// Return the Information Elements of the frame (Ack and Beacon frames
    /// have none).
    pub fn information_elements(&self) -> (r: Option<InformationElements<&'a [u8]>>)
        requires
            self.spec_ies_readable(),
        ensures
            (self is Ack || self is Beacon) ==> r is None,
            self is EnhancedAck ==> (r is Some <==> fc_information_elements_present(self.spec_bytes())),
            self is EnhancedAck ==> (r matches Some(ie) ==> ie@ == self.spec_bytes().subrange(
                spec_eack_ies_offset(self.spec_bytes()), self.spec_bytes().len() as int)),
            (self is EnhancedBeacon || self is Data) ==> (r is Some <==> (fc_information_elements_present(self.spec_bytes())
                && spec_ies_at(self.spec_bytes(), spec_aux_offset(self.spec_bytes())))),
            (self is EnhancedBeacon || self is Data) ==> (r matches Some(ie) ==> ie@ == self.spec_bytes().subrange(
                spec_aux_offset(self.spec_bytes()), self.spec_bytes().len() as int)),
    {
        match self {
            Frame::Ack(_) => None,
            Frame::EnhancedAck(frame) => frame.information_elements(),
            Frame::Beacon(_) => None,
            Frame::EnhancedBeacon(frame) => frame.information_elements(),
            Frame::Data(frame) => frame.information_elements(),
        }
    }

    /// Return the payload of the frame (an Ack frame has none).
    pub fn payload(&self) -> (r: Option<&'a [u8]>)
        requires
            self.spec_payload_readable(),
        ensures
            self is Ack ==> r is None,
            self is EnhancedAck ==> (r matches Some(p) && p@ == self.spec_bytes().subrange(
                spec_eack_payload_offset(self.spec_bytes()), self.spec_bytes().len() as int)),
            self is Beacon ==> (r matches Some(p) && p@ == self.spec_bytes().subrange(
                spec_beacon_payload_offset(self.spec_bytes()), self.spec_bytes().len() as int)),
            (self is EnhancedBeacon || self is Data) ==> (r is None <==> self.spec_bytes().len() <= spec_payload_offset(self.spec_bytes())),
            (self is EnhancedBeacon || self is Data) ==> (r matches Some(p) ==> p@ == self.spec_bytes().subrange(
                spec_payload_offset(self.spec_bytes()), self.spec_bytes().len() as int)),
    {
        match self {
            Frame::Ack(_) => None,
            Frame::EnhancedAck(frame) => frame.payload(),
            Frame::Beacon(frame) => frame.payload(),
            Frame::EnhancedBeacon(frame) => frame.payload(),
            Frame::Data(frame) => frame.payload(),
        }
    }
}

} // verus!

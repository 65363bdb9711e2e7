//! The IEEE 802.15.4 Acknowledgment and Enhanced Acknowledgment frames.
use vstd::prelude::*;

use crate::addressing::{AddressingFields, AddressingMode};
use crate::aux_sec_header::AuxiliarySecurityHeader;
use crate::frame_control::{fc_information_elements_present, fc_security_enabled, fc_sequence_number_suppression, FrameControl};
use crate::frames::layout::{
    addressing_of, aux_header_of, aux_len_of, aux_offset_of, frame_control_of, ies_at, lemma_fc_prefix,
    sequence_number_of, spec_addressing_offset, spec_aux_len, spec_aux_offset, spec_has_addressing,
    spec_ies_at, spec_ies_len_at, spec_modes_known, spec_readable,
};
use crate::ie::InformationElements;
use crate::Error;

verus! {

/// A reader for an IEEE 802.15.4 Acknowledgment frame.
#[derive(Debug)]
pub struct Ack<T> {
    buffer: T,
}

impl<T: View<V = Seq<u8>>> View for Ack<T> {
    type V = Seq<u8>;

    closed spec fn view(&self) -> Seq<u8> {
        self.buffer@
    }
}

impl<'a> Ack<&'a [u8]> {
    /// Create a new [`Ack`] reader; fails unless the buffer holds exactly
    /// three octets.
    pub fn new(buffer: &'a [u8]) -> (r: Result<Self, Error>)
        ensures
            r is Ok <==> buffer@.len() == 3,
            r matches Ok(f) ==> f@ == buffer@,
    {
        let ack = Self::new_unchecked(buffer);
        if !ack.check_len() {
            return Err(Error);
        }
        Ok(ack)
    }

    /// Returns `false` unless the buffer holds exactly three octets.
    pub fn check_len(&self) -> (r: bool)
        ensures
            r == (self@.len() == 3),
    {
        self.buffer.len() == 3
    }

    /// Create a new [`Ack`] reader without length checking.
    pub fn new_unchecked(buffer: &'a [u8]) -> (r: Self)
        ensures
            r@ == buffer@,
    {
        Self { buffer }
    }

    /// Returns a [`FrameControl`] reader.
    pub fn frame_control(&self) -> (r: FrameControl<&'a [u8]>)
        requires
            self@.len() >= 2,
        ensures
            r@ == self@.subrange(0, 2),
    {
        frame_control_of(self.buffer)
    }

    /// Returns the sequence number field.
    pub fn sequence_number(&self) -> (r: u8)
        requires
            self@.len() >= 3,
        ensures
            r == self@[2],
    {
        self.buffer[2]
    }
}

/// The offset of the Information Elements of an Enhanced Acknowledgment:
/// after the Auxiliary Security Header.
pub open spec fn spec_eack_ies_offset(b: Seq<u8>) -> int {
    spec_aux_offset(b) + spec_aux_len(b)
}

/// The Enhanced Acknowledgment `b` holds its Auxiliary Security Header and,
/// when present, valid Information Elements after it.
pub open spec fn spec_eack_complete(b: Seq<u8>) -> bool {
    &&& fc_security_enabled(b) ==> spec_aux_offset(b) < b.len()
    &&& spec_eack_ies_offset(b) <= b.len()
    &&& fc_information_elements_present(b) ==> spec_ies_at(b, spec_eack_ies_offset(b))
}

/// The offset of the payload of an Enhanced Acknowledgment.
pub open spec fn spec_eack_payload_offset(b: Seq<u8>) -> int {
    spec_eack_ies_offset(b) + if fc_information_elements_present(b) {
        spec_ies_len_at(b, spec_eack_ies_offset(b))
    } else {
        0
    }
}

/// A reader for an IEEE 802.15.4 Enhanced Acknowledgment frame.
#[derive(Debug)]
pub struct EnhancedAck<T> {
    buffer: T,
}

impl<T: View<V = Seq<u8>>> View for EnhancedAck<T> {
    type V = Seq<u8>;

    closed spec fn view(&self) -> Seq<u8> {
        self.buffer@
    }
}

impl<'a> EnhancedAck<&'a [u8]> {
    /// Create a new [`EnhancedAck`] reader; the buffer is not checked, so
    /// this never fails.
    pub fn new(buffer: &'a [u8]) -> (r: Result<Self, Error>)
        ensures
            r matches Ok(f) && f@ == buffer@,
    {
        Ok(Self::new_unchecked(buffer))
    }

    /// Returns `true` when the frame holds what its readers read: its
    /// Sequence Number, its Addressing Fields in known modes, its Auxiliary
    /// Security Header, and valid Information Elements before its payload.
    pub fn is_complete(&self) -> (r: bool)
        ensures
            r == (spec_readable(self@) && spec_modes_known(self@) && spec_eack_complete(self@)
                && spec_eack_payload_offset(self@) <= self@.len()),
    {
        let b = self.buffer;
        if b.len() < 2 || b.len() > usize::MAX / 2 {
            return false;
        }
        proof {
            lemma_fc_prefix(b@);
        }
        let fc = frame_control_of(b);
        if !fc.sequence_number_suppression() && b.len() < 3 {
            return false;
        }
        if addressing_of(b).is_some() && (fc.dst_addressing_mode() == AddressingMode::Unknown
            || fc.src_addressing_mode() == AddressingMode::Unknown) {
            return false;
        }
        let aux = aux_offset_of(b);
        if fc.security_enabled() && aux >= b.len() {
            return false;
        }
        let off = aux + aux_len_of(b);
        if off > b.len() {
            return false;
        }
        if fc.information_elements_present() {
            match ies_at(b, off) {
                Some(ie) => off + ie.len() <= b.len(),
                None => false,
            }
        } else {
            true
        }
    }

    /// Create a new [`EnhancedAck`] reader without length checking.
    pub fn new_unchecked(buffer: &'a [u8]) -> (r: Self)
        ensures
            r@ == buffer@,
    {
        Self { buffer }
    }

    /// Returns a [`FrameControl`] reader.
    pub fn frame_control(&self) -> (r: FrameControl<&'a [u8]>)
        requires
            self@.len() >= 2,
        ensures
            r@ == self@.subrange(0, 2),
    {
        frame_control_of(self.buffer)
    }

    /// Returns the sequence number field if not suppressed.
    pub fn sequence_number(&self) -> (r: Option<u8>)
        requires
            spec_readable(self@),
        ensures
            r == (if fc_sequence_number_suppression(self@) { None } else { Some(self@[2]) }),
    {
        sequence_number_of(self.buffer)
    }

    /// Returns an [`AddressingFields`] reader, when the Addressing Fields are
    /// valid.
    pub fn addressing(&self) -> (r: Option<AddressingFields<&'a [u8], &'a [u8]>>)
        requires
            spec_readable(self@),
        ensures
            r is Some <==> spec_has_addressing(self@),
            r matches Some(af) ==> af.spec_buffer() == self@.subrange(spec_addressing_offset(self@), self@.len() as int)
                && af.spec_fc() == self@.subrange(0, 2) && af.fits(),
    {
        addressing_of(self.buffer)
    }

    /// Returns an [`AuxiliarySecurityHeader`] reader when security is
    /// enabled.
    pub fn auxiliary_security_header(&self) -> (r: Option<AuxiliarySecurityHeader<&'a [u8]>>)
        requires
            spec_readable(self@),
            spec_modes_known(self@),
        ensures
            fc_security_enabled(self@) ==> (r matches Some(h) && h@ == self@.subrange(spec_aux_offset(self@), self@.len() as int)),
            !fc_security_enabled(self@) ==> r is None,
    {
        aux_header_of(self.buffer)
    }

    fn ies_offset(&self) -> (r: usize)
        requires
            spec_readable(self@),
            spec_modes_known(self@),
            spec_eack_complete(self@),
        ensures
            r == spec_eack_ies_offset(self@),
    {
        aux_offset_of(self.buffer) + aux_len_of(self.buffer)
    }

    /// Returns an [`InformationElements`] reader when they are present; they
    /// are read after the Auxiliary Security Header.
    pub fn information_elements(&self) -> (r: Option<InformationElements<&'a [u8]>>)
        requires
            spec_readable(self@),
            spec_modes_known(self@),
            spec_eack_complete(self@),
        ensures
            r is Some <==> fc_information_elements_present(self@),
            r matches Some(ie) ==> ie@ == self@.subrange(spec_eack_ies_offset(self@), self@.len() as int),
    {
        proof {
            lemma_fc_prefix(self@);
        }
        if self.frame_control().information_elements_present() {
            let offset = self.ies_offset();
            match InformationElements::new(&self.buffer[offset..self.buffer.len()]) {
                Ok(ie) => Some(ie),
                Err(_) => None,
            }
        } else {
            None
        }
    }

    /// Returns the payload of the frame: the octets after the Information
    /// Elements.
    pub fn payload(&self) -> (r: Option<&'a [u8]>)
        requires
            spec_readable(self@),
            spec_modes_known(self@),
            spec_eack_complete(self@),
            spec_eack_payload_offset(self@) <= self@.len(),
        ensures
            r matches Some(p) && p@ == self@.subrange(spec_eack_payload_offset(self@), self@.len() as int),
    {
        let mut offset = self.ies_offset();
        if let Some(ie) = self.information_elements() {
            offset = offset + ie.len();
        }
        Some(&self.buffer[offset..self.buffer.len()])
    }
}

} // verus!

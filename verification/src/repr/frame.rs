//! High-level representation of a whole frame.
use vstd::prelude::*;

use crate::bytes::splice;
use crate::frame_control::{fc_information_elements_present, fc_security_enabled, with_field};
use crate::frames::data::DataFrame;
use crate::frames::frame::{
    spec_addressing_of, spec_information_elements_of, spec_payload_of, spec_sequence_number_of, Frame, FrameKind,
};
use crate::frames::layout::{
    lemma_fc_prefix, spec_addressing_offset, spec_aux_offset, spec_ies_at, spec_modes_known, spec_payload_offset,
    spec_readable,
};
use crate::repr::addressing::{spec_addressing_repr_len, spec_addressing_repr_matches, spec_fields_bytes, AddressingFieldsRepr};
use crate::repr::frame_control::{spec_emit_fc, spec_parse_fc, FrameControlRepr};
use crate::repr::ie::lists::{header_ies_of, payload_ies_of};
use crate::repr::ie::{spec_ies_matches, spec_ies_parse_ok, spec_ies_parse_safe, spec_ies_repr_bytes, spec_terminations, InformationElementsRepr};
use crate::Error;

verus! {

/// A high-level representation of an IEEE 802.15.4 frame.
#[derive(Debug)]
pub struct FrameRepr<'p> {
    /// The frame control field.
    pub frame_control: FrameControlRepr,
    /// The sequence number.
    pub sequence_number: Option<u8>,
    /// The addressing fields.
    pub addressing_fields: Option<AddressingFieldsRepr>,
    /// The information elements.
    pub information_elements: Option<InformationElementsRepr>,
    /// The payload.
    pub payload: Option<&'p [u8]>,
}

/// The octets the Information Elements `ie` are written as, for a frame
/// with or without a payload.
pub open spec fn spec_ies_written(ie: InformationElementsRepr, contains_payload: bool) -> Seq<u8> {
    spec_ies_repr_bytes(header_ies_of(ie.header_information_elements), payload_ies_of(ie.payload_information_elements), contains_payload)
}

/// The length [`InformationElementsRepr::buffer_len`] gives.
pub open spec fn spec_ies_buffer_len(ie: InformationElementsRepr, contains_payload: bool) -> int {
    spec_ies_written(ie, contains_payload).len() + (if spec_terminations(
        header_ies_of(ie.header_information_elements).len() > 0,
        payload_ies_of(ie.payload_information_elements).len() > 0,
        contains_payload,
    ).2 { 2int } else { 0int })
}

/// `f` represents the frame `b` of kind `k`: its Frame Control field,
/// Sequence Number, Addressing Fields, Information Elements and payload.
pub open spec fn spec_parsed_from(f: FrameRepr, k: FrameKind, b: Seq<u8>) -> bool {
    &&& f.frame_control == spec_parse_fc(b.subrange(0, 2))
    &&& f.sequence_number == spec_sequence_number_of(k, b)
    &&& (f.addressing_fields is Some <==> spec_addressing_of(k, b) is Some)
    &&& (f.addressing_fields matches Some(a) ==> spec_addressing_repr_matches(a, spec_addressing_of(k, b).unwrap(), b.subrange(0, 2)))
    &&& (f.information_elements is Some <==> spec_information_elements_of(k, b) is Some)
    &&& (f.information_elements matches Some(ie) ==> spec_ies_matches(ie, spec_information_elements_of(k, b).unwrap()))
    &&& (f.payload is Some <==> spec_payload_of(k, b) is Some)
    &&& (f.payload matches Some(p) ==> p@ == spec_payload_of(k, b).unwrap())
}

impl<'p> FrameRepr<'p> {
    /// The frame bytes `b` after the Frame Control field and the Sequence
    /// Number are written.
    pub open spec fn spec_after_header(&self, b: Seq<u8>) -> Seq<u8> {
        let s1 = spec_emit_fc(b, self.frame_control);
        match self.sequence_number {
            Some(n) => s1.update(1, with_field(s1[1], 0, 1, 0)).update(2, n),
            None => s1,
        }
    }

    /// The frame bytes `b` after the Addressing Fields are written too.
    pub open spec fn spec_after_addressing(&self, b: Seq<u8>) -> Seq<u8> {
        let s2 = self.spec_after_header(b);
        match self.addressing_fields {
            Some(a) => splice(s2, spec_addressing_offset(s2), spec_fields_bytes(a)),
            None => s2,
        }
    }

    /// The frame bytes `b` after the Information Elements are written too.
    pub open spec fn spec_after_ies(&self, b: Seq<u8>) -> Seq<u8> {
        let s3 = self.spec_after_addressing(b);
        match self.information_elements {
            Some(ie) => splice(s3, spec_aux_offset(s3), spec_ies_written(ie, self.payload is Some)),
            None => s3,
        }
    }

    /// The frame bytes `b` once the whole frame is written.
    pub open spec fn spec_emitted(&self, b: Seq<u8>) -> Seq<u8> {
        let s4 = self.spec_after_ies(b);
        match self.payload {
            Some(p) => s4.subrange(0, spec_payload_offset(s4)) + p@,
            None => s4,
        }
    }

    /// Every step of writing the frame into `b` finds what it reads and
    /// room for what it writes: the Sequence Number, the Addressing Fields
    /// after it, the Information Elements after them (MLME Payload IEs only,
    /// and none when a payload follows), and the payload filling the rest of
    /// the frame after the Information Elements as read back.
    pub open spec fn spec_emit_fits(&self, b: Seq<u8>) -> bool {
        let s2 = self.spec_after_header(b);
        let s3 = self.spec_after_addressing(b);
        let s4 = self.spec_after_ies(b);
        &&& b.len() >= 2
        &&& (self.sequence_number is Some ==> b.len() >= 3)
        &&& (self.addressing_fields matches Some(a) ==> spec_readable(s2)
            && spec_addressing_offset(s2) + spec_fields_bytes(a).len() <= s2.len())
        &&& (self.information_elements matches Some(ie) ==> {
            &&& spec_readable(s3)
            &&& spec_modes_known(s3)
            &&& forall|i: int| 0 <= i < payload_ies_of(ie.payload_information_elements).len()
                ==> #[trigger] payload_ies_of(ie.payload_information_elements)[i] is Mlme
            &&& !(payload_ies_of(ie.payload_information_elements).len() > 0 && self.payload is Some)
            &&& spec_aux_offset(s3) + spec_ies_written(ie, self.payload is Some).len() <= s3.len()
        })
        &&& (self.payload matches Some(p) ==> {
            &&& spec_readable(s4)
            &&& spec_modes_known(s4)
            &&& (fc_security_enabled(s4) ==> spec_aux_offset(s4) < s4.len())
            &&& (fc_information_elements_present(s4) ==> spec_ies_at(s4, spec_aux_offset(s4)))
            &&& spec_payload_offset(s4) + p@.len() == s4.len()
        })
    }

    /// The length of the frame written for this representation.
    pub open spec fn spec_buffer_len(&self) -> int {
        2 + (if self.sequence_number is Some { 1int } else { 0int })
            + (match self.addressing_fields {
                Some(a) => spec_addressing_repr_len(a, self.frame_control) as int,
                None => 0int,
            })
            + (match self.information_elements {
                Some(ie) => spec_ies_buffer_len(ie, self.payload is Some),
                None => 0int,
            })
            + (match self.payload {
                Some(p) => p@.len() as int,
                None => 0int,
            })
    }

    /// Parse a frame into its high-level representation; fails when its
    /// Information Elements cannot be parsed.
    pub fn parse(reader: &Frame<&'p [u8]>) -> (r: Result<Self, Error>)
        requires
            reader.spec_bytes().len() >= 2,
            reader.spec_readable(),
            reader.spec_ies_readable(),
            reader.spec_payload_readable(),
            reader.spec_information_elements() matches Some(d) ==> spec_ies_parse_safe(d),
        ensures
            r is Ok <==> (reader.spec_information_elements() matches Some(d) ==> spec_ies_parse_ok(d)),
            r matches Ok(f) ==> spec_parsed_from(f, reader.spec_kind(), reader.spec_bytes()),
    {
        proof {
            lemma_fc_prefix(reader.spec_bytes());
        }
        let frame_control = match FrameControlRepr::parse(reader.frame_control()) {
            Ok(fc) => fc,
            Err(e) => return Err(e),
        };
        let addressing_fields = match reader.addressing() {
            Some(af) => Some(AddressingFieldsRepr::parse(af)),
            None => None,
        };
        let information_elements = match reader.information_elements() {
            Some(ie) => match InformationElementsRepr::parse(ie) {
                Ok(repr) => Some(repr),
                Err(e) => return Err(e),
            },
            None => None,
        };
        Ok(Self {
            frame_control,
            sequence_number: reader.sequence_number(),
            addressing_fields,
            information_elements,
            payload: reader.payload(),
        })
    }

    /// The buffer length required to emit the frame.
    pub fn buffer_len(&self) -> (r: usize)
        requires
            self.addressing_fields is Some ==> !(self.frame_control.dst_addressing_mode is Unknown)
                && !(self.frame_control.src_addressing_mode is Unknown),
            self.payload matches Some(p) ==> p@.len() <= usize::MAX / 2,
        ensures
            r == self.spec_buffer_len(),
    {
        let mut len: usize = 2;
        if self.sequence_number.is_some() {
            len = len + 1;
        }
        match &self.addressing_fields {
            Some(af) => {
                len = len + af.buffer_len(&self.frame_control);
            },
            None => {},
        }
        match &self.information_elements {
            Some(ie) => {
                len = len + ie.buffer_len(self.payload.is_some());
            },
            None => {},
        }
        match self.payload {
            Some(payload) => {
                len = len + payload.len();
            },
            None => {},
        }
        len
    }

    /// Emit the frame into `frame`.
    pub fn emit(&self, frame: &mut DataFrame<Vec<u8>>)
        requires
            self.spec_emit_fits(old(frame)@),
        ensures
            final(frame)@ == self.spec_emitted(old(frame)@),
    {
        let ghost b = frame@;
        frame.set_frame_control(&self.frame_control);
        match self.sequence_number {
            Some(sequence_number) => frame.set_sequence_number(sequence_number),
            None => {},
        }
        assert(frame@ == self.spec_after_header(b));
        match &self.addressing_fields {
            Some(af) => frame.set_addressing_fields(af),
            None => {},
        }
        assert(frame@ == self.spec_after_addressing(b));
        match &self.information_elements {
            Some(ie) => frame.set_information_elements(ie, self.payload.is_some()),
            None => {},
        }
        assert(frame@ == self.spec_after_ies(b));
        match self.payload {
            Some(payload) => frame.set_payload(payload),
            None => {},
        }
    }
}

} // verus!

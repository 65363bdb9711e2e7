//! The IEEE 802.15.4 Data frame.
use vstd::prelude::*;

use crate::addressing::{address_present_flags, spec_flags_of, AddressingFields, AddressingMode, write_fields_into};
use crate::aux_sec_header::AuxiliarySecurityHeader;
use crate::bytes::{copy_at, splice};
use crate::frame_control::{
    fc_dst_addressing_mode, fc_frame_type, fc_frame_version, fc_information_elements_present,
    fc_security_enabled, fc_sequence_number_suppression, fc_src_addressing_mode, with_field,
    FrameControl, FrameType, FrameVersion,
};
use crate::frames::layout::{
    addressing_of, addressing_offset_of, aux_header_of, aux_len_of, aux_offset_of, frame_control_of,
    ies_at, lemma_fc_prefix, payload_of, sequence_number_of, spec_addressing_offset,
    spec_aux_len, spec_aux_offset, spec_has_addressing, spec_ies_at, spec_ies_len_at,
    spec_modes_known, spec_payload_offset, spec_readable,
};
use crate::ie::{lemma_ies_local, spec_ies_len, InformationElements};
use crate::frames::frame::{spec_payload_of, FrameKind};
use crate::repr::addressing::{spec_fields_bytes, AddressingFieldsRepr};
use crate::repr::frame_control::{spec_emit_fc, write_frame_control, FrameControlRepr};
use crate::repr::ie::lists::{header_ies_of, payload_ies_of};
use crate::repr::ie::{spec_ies_repr_bytes, InformationElementsRepr};
use crate::Error;

verus! {

/// The Frame Control field and length of the frame `b` are accepted, as
/// Data and Enhanced Beacon frames check them: between 2 and 127 octets,
/// with room for its Sequence Number, security not enabled and no reserved
/// value in the Frame Control field.
pub open spec fn spec_frame_header_ok(b: Seq<u8>) -> bool {
    &&& 2 <= b.len() <= 127
    &&& (!fc_sequence_number_suppression(b) ==> b.len() >= 3)
    &&& !fc_security_enabled(b)
    &&& !(fc_frame_type(b) is Unknown)
    &&& !(fc_frame_version(b) is Unknown)
    &&& !(fc_dst_addressing_mode(b) is Unknown)
    &&& !(fc_src_addressing_mode(b) is Unknown)
}

/// The frame `b` is accepted as a Data frame: its header is accepted as
/// [`spec_frame_header_ok`] states, and it has room for the Addressing
/// Fields its Frame Control field makes present.
pub open spec fn spec_data_frame_ok(b: Seq<u8>) -> bool {
    &&& spec_frame_header_ok(b)
    &&& (spec_flags_of(b) is Some ==> spec_has_addressing(b))
}

/// Check the frame `b` as [`spec_frame_header_ok`] states.
pub fn check_frame_header(b: &[u8]) -> (r: bool)
    ensures
        r == spec_frame_header_ok(b@),
{
    if b.len() < 2 || b.len() > 127 {
        return false;
    }
    proof {
        lemma_fc_prefix(b@);
    }
    let fc = frame_control_of(b);
    if !fc.sequence_number_suppression() && b.len() < 3 {
        return false;
    }
    if fc.security_enabled() {
        return false;
    }
    if fc.frame_type() == FrameType::Unknown {
        return false;
    }
    if fc.frame_version() == FrameVersion::Unknown {
        return false;
    }
    if fc.dst_addressing_mode() == AddressingMode::Unknown {
        return false;
    }
    if fc.src_addressing_mode() == AddressingMode::Unknown {
        return false;
    }
    true
}

/// Check the frame `b` as [`spec_data_frame_ok`] states.
pub fn check_data_frame(b: &[u8]) -> (r: bool)
    ensures
        r == spec_data_frame_ok(b@),
{
    if !check_frame_header(b) {
        return false;
    }
    proof {
        lemma_fc_prefix(b@);
    }
    let fc = frame_control_of(b);
    let flags = address_present_flags(
        fc.frame_version(),
        fc.dst_addressing_mode(),
        fc.src_addressing_mode(),
        fc.pan_id_compression(),
    );
    if flags.is_some() && addressing_of(b).is_none() {
        return false;
    }
    true
}

/// A reader/writer for an IEEE 802.15.4 Data frame.
#[derive(Debug)]
pub struct DataFrame<T> {
    buffer: T,
}

impl<T: View<V = Seq<u8>>> View for DataFrame<T> {
    type V = Seq<u8>;

    closed spec fn view(&self) -> Seq<u8> {
        self.buffer@
    }
}

impl<'a> DataFrame<&'a [u8]> {
    /// Create a new [`DataFrame`] reader; fails unless the buffer is accepted
    /// as [`spec_data_frame_ok`] states.
    pub fn new(buffer: &'a [u8]) -> (r: Result<Self, Error>)
        ensures
            r is Ok <==> spec_data_frame_ok(buffer@),
            r matches Ok(f) ==> f@ == buffer@,
    {
        if !check_data_frame(buffer) {
            return Err(Error);
        }
        Ok(Self::new_unchecked(buffer))
    }

    /// Create a new [`DataFrame`] reader without checking the buffer.
    pub fn new_unchecked(buffer: &'a [u8]) -> (r: Self)
        ensures
            r@ == buffer@,
    {
        Self { buffer }
    }

    /// Return a [`FrameControl`] reader.
    pub fn frame_control(&self) -> (r: FrameControl<&'a [u8]>)
        requires
            self@.len() >= 2,
        ensures
            r@ == self@.subrange(0, 2),
    {
        frame_control_of(self.buffer)
    }

    /// Return the sequence number if not suppressed.
    pub fn sequence_number(&self) -> (r: Option<u8>)
        requires
            spec_readable(self@),
        ensures
            r == (if fc_sequence_number_suppression(self@) { None } else { Some(self@[2]) }),
    {
        sequence_number_of(self.buffer)
    }

    /// Return an [`AddressingFields`] reader, when the Addressing Fields are
    /// valid.
    pub fn addressing(&self) -> (r: Option<AddressingFields<&'a [u8], &'a [u8]>>)
        requires
            spec_readable(self@),
        ensures
            r is Some <==> spec_has_addressing(self@),
            r matches Some(af) ==> af.spec_buffer() == self@.subrange(spec_addressing_offset(self@), self@.len() as int)
                && af.spec_fc() == self@.subrange(0, 2) && af.fits(),
    {
        addressing_of(self.buffer)
    }

    /// Return an [`AuxiliarySecurityHeader`] reader when security is
    /// enabled.
    pub fn auxiliary_security_header(&self) -> (r: Option<AuxiliarySecurityHeader<&'a [u8]>>)
        requires
            spec_readable(self@),
            spec_modes_known(self@),
        ensures
            fc_security_enabled(self@) ==> (r matches Some(h) && h@ == self@.subrange(spec_aux_offset(self@), self@.len() as int)),
            !fc_security_enabled(self@) ==> r is None,
    {
        aux_header_of(self.buffer)
    }

    /// Return an [`InformationElements`] reader, when they are present and
    /// valid; they are read right after the Addressing Fields.
    pub fn information_elements(&self) -> (r: Option<InformationElements<&'a [u8]>>)
        requires
            spec_readable(self@),
            spec_modes_known(self@),
        ensures
            r is Some <==> (fc_information_elements_present(self@) && spec_ies_at(self@, spec_aux_offset(self@))),
            r matches Some(ie) ==> ie@ == self@.subrange(spec_aux_offset(self@), self@.len() as int),
    {
        proof {
            lemma_fc_prefix(self@);
        }
        if self.frame_control().information_elements_present() {
            ies_at(self.buffer, aux_offset_of(self.buffer))
        } else {
            None
        }
    }

    /// Return the payload of the frame, `None` when it is empty.
    pub fn payload(&self) -> (r: Option<&'a [u8]>)
        requires
            spec_readable(self@),
            spec_modes_known(self@),
            fc_security_enabled(self@) ==> spec_aux_offset(self@) < self@.len(),
        ensures
            r is None <==> self@.len() <= spec_payload_offset(self@),
            r matches Some(p) ==> p@ == self@.subrange(spec_payload_offset(self@), self@.len() as int),
    {
        payload_of(self.buffer)
    }
}

impl DataFrame<Vec<u8>> {
    /// Create a new [`DataFrame`] writer owning its buffer.
    pub fn new_owned(buffer: Vec<u8>) -> (r: Self)
        ensures
            r@ == buffer@,
    {
        Self { buffer }
    }

    /// The bytes of this frame.
    pub fn as_bytes(&self) -> (r: &[u8])
        ensures
            r@ == self@,
    {
        self.buffer.as_slice()
    }

    /// Give back the buffer of this frame.
    pub fn into_bytes(self) -> (r: Vec<u8>)
        ensures
            r@ == self@,
    {
        self.buffer
    }

    /// A reader over this frame.
    pub fn reader(&self) -> (r: DataFrame<&[u8]>)
        ensures
            r@ == self@,
    {
        DataFrame { buffer: self.buffer.as_slice() }
    }

    /// Set the Frame Control field values in the buffer.
    pub fn set_frame_control(&mut self, fc: &FrameControlRepr)
        requires
            old(self)@.len() >= 2,
        ensures
            final(self)@ == spec_emit_fc(old(self)@, *fc),
    {
        write_frame_control(self.buffer.as_mut_slice(), fc);
    }

    /// The two octets of the Frame Control field, for writing.
    pub fn frame_control_mut(&mut self) -> (r: &mut [u8])
        requires
            old(self)@.len() >= 2,
        ensures
            r@ == old(self)@.subrange(0, 2),
            final(self)@ == final(r)@ + old(self)@.skip(2),
    {
        let s = self.buffer.as_mut_slice();
        let (head, _tail) = s.split_at_mut(2);
        head
    }

    /// Set the Sequence Number field value, and clear the sequence number
    /// suppression bit.
    pub fn set_sequence_number(&mut self, sequence_number: u8)
        requires
            old(self)@.len() >= 3,
        ensures
            final(self)@ == old(self)@.update(1, with_field(old(self)@[1], 0, 1, 0)).update(2, sequence_number),
    {
        let b1 = self.buffer[1];
        self.buffer.set(1, (b1 & !(1u8 << 0u8)) | ((0u8 & 1u8) << 0u8));
        self.buffer.set(2, sequence_number);
    }

    /// Set the Addressing Fields, right after the Sequence Number (or the
    /// Frame Control field when the Sequence Number is suppressed).
    pub fn set_addressing_fields(&mut self, addressing_fields: &AddressingFieldsRepr)
        requires
            old(self)@.len() >= 2,
            spec_addressing_offset(old(self)@) + spec_fields_bytes(*addressing_fields).len() <= old(self)@.len(),
        ensures
            final(self)@ == splice(old(self)@, spec_addressing_offset(old(self)@), spec_fields_bytes(*addressing_fields)),
    {
        proof {
            lemma_fc_prefix(self@);
        }
        let start: usize = if frame_control_of(self.buffer.as_slice()).sequence_number_suppression() {
            2
        } else {
            3
        };
        write_fields_into(self.buffer.as_mut_slice(), start, addressing_fields);
    }

    /// Set the Information Elements, right after the Addressing Fields.
    pub fn set_information_elements(&mut self, ie: &InformationElementsRepr, contains_payload: bool)
        requires
            spec_readable(old(self)@),
            spec_modes_known(old(self)@),
            forall|i: int| 0 <= i < payload_ies_of(ie.payload_information_elements).len()
                ==> #[trigger] payload_ies_of(ie.payload_information_elements)[i] is Mlme,
            !(payload_ies_of(ie.payload_information_elements).len() > 0 && contains_payload),
            spec_aux_offset(old(self)@) + spec_ies_repr_bytes(
                header_ies_of(ie.header_information_elements),
                payload_ies_of(ie.payload_information_elements),
                contains_payload,
            ).len() <= old(self)@.len(),
        ensures
            final(self)@ == splice(old(self)@, spec_aux_offset(old(self)@), spec_ies_repr_bytes(
                header_ies_of(ie.header_information_elements),
                payload_ies_of(ie.payload_information_elements),
                contains_payload,
            )),
    {
        let ghost o = self@;
        let offset = aux_offset_of(self.buffer.as_slice());
        let s = self.buffer.as_mut_slice();
        let (_head, tail) = s.split_at_mut(offset);
        ie.emit(tail, contains_payload);
        assert(self@ =~= splice(o, offset as int, spec_ies_repr_bytes(
            header_ies_of(ie.header_information_elements),
            payload_ies_of(ie.payload_information_elements),
            contains_payload,
        )));
    }

    /// Set the payload of the frame: it fills the frame from the payload
    /// offset to the end.
    pub fn set_payload(&mut self, payload: &[u8])
        requires
            spec_readable(old(self)@),
            spec_modes_known(old(self)@),
            fc_security_enabled(old(self)@) ==> spec_aux_offset(old(self)@) < old(self)@.len(),
            fc_information_elements_present(old(self)@) ==> spec_ies_at(old(self)@, spec_aux_offset(old(self)@)),
            spec_payload_offset(old(self)@) + payload@.len() == old(self)@.len(),
        ensures
            final(self)@ == old(self)@.subrange(0, spec_payload_offset(old(self)@)) + payload@,
    {
        let ghost o = self@;
        proof {
            lemma_fc_prefix(self@);
        }
        let b = self.buffer.as_slice();
        let aux = aux_offset_of(b);
        let mut offset = aux + aux_len_of(b);
        if frame_control_of(b).information_elements_present() {
            match ies_at(b, aux) {
                Some(ie) => {
                    offset = offset + ie.len();
                },
                None => {},
            }
        }
        copy_at(self.buffer.as_mut_slice(), offset, payload);
        assert(self@ =~= o.subrange(0, spec_payload_offset(o)) + payload@);
    }
}

/// After the payload is set, the frame reads it back: the payload starts
/// where it did, the readers find what they read before it, and the payload
/// read is the one written (none when it is empty).
pub proof fn lemma_set_payload_reads_back(old: Seq<u8>, payload: Seq<u8>)
    requires
        spec_readable(old),
        spec_modes_known(old),
        fc_security_enabled(old) ==> spec_aux_offset(old) < old.len(),
        fc_information_elements_present(old) ==> spec_ies_at(old, spec_aux_offset(old)),
        spec_payload_offset(old) + payload.len() == old.len(),
    ensures
        ({
            let new = old.subrange(0, spec_payload_offset(old)) + payload;
            &&& spec_readable(new)
            &&& spec_modes_known(new)
            &&& (fc_security_enabled(new) ==> spec_aux_offset(new) < new.len())
            &&& (fc_information_elements_present(new) ==> spec_ies_at(new, spec_aux_offset(new)))
            &&& spec_payload_offset(new) == spec_payload_offset(old)
            &&& spec_payload_of(FrameKind::Data, new) == if payload.len() > 0 { Some(payload) } else { None::<Seq<u8>> }
        }),
{
    let po = spec_payload_offset(old);
    let new = old.subrange(0, po) + payload;
    let aux = spec_aux_offset(old);
    assert(aux >= 2);
    if fc_information_elements_present(old) {
        let d = old.subrange(aux, old.len() as int);
        lemma_ies_local(d, d);
    }
    assert(po >= 2);
    assert(new.len() == old.len());
    assert(new[0] == old[0] && new[1] == old[1]);
    lemma_fc_prefix(old);
    lemma_fc_prefix(new);
    assert(new.subrange(0, 2) =~= old.subrange(0, 2));
    assert(spec_has_addressing(new) == spec_has_addressing(old));
    assert(spec_aux_offset(new) == aux);
    if fc_security_enabled(old) {
        assert(new[aux] == old[aux]);
    }
    assert(spec_aux_len(new) == spec_aux_len(old));
    if fc_information_elements_present(old) {
        let d = old.subrange(aux, old.len() as int);
        let d2 = new.subrange(aux, new.len() as int);
        let n = spec_ies_len(d);
        assert(d.subrange(0, n) =~= d2.subrange(0, n));
        lemma_ies_local(d, d2);
    }
    assert(new.subrange(po, new.len() as int) =~= payload);
}

} // verus!

//! Where the fields of a MAC frame start: the layout shared by the frame
//! readers. A frame is the Frame Control field (two octets), the Sequence
//! Number (one octet, unless suppressed), the Addressing Fields, the
//! Auxiliary Security Header (when security is enabled), the Information
//! Elements (when present) and the payload.
use vstd::prelude::*;

use crate::addressing::{spec_fields_len, spec_flags_of, AddressingFields};
use crate::aux_sec_header::{spec_mic_length, AuxiliarySecurityHeader};
use crate::frame_control::{
    fc_dst_addressing_mode, fc_frame_type, fc_frame_version, fc_pan_id_compression,
    fc_security_enabled, fc_sequence_number_suppression, fc_src_addressing_mode,
    fc_information_elements_present, FrameControl,
};
use crate::ie::{spec_headers_end, spec_ies_len, InformationElements};

verus! {

/// The frame `b` holds its Frame Control field and, unless suppressed, its
/// Sequence Number, and its length fits the offsets computed over it.
pub open spec fn spec_readable(b: Seq<u8>) -> bool {
    &&& b.len() >= 2
    &&& (!fc_sequence_number_suppression(b) ==> b.len() >= 3)
    &&& b.len() <= usize::MAX / 2
}

/// The offset of the Addressing Fields.
pub open spec fn spec_addressing_offset(b: Seq<u8>) -> int {
    if fc_sequence_number_suppression(b) { 2 } else { 3 }
}

/// The Frame Control field describes a valid combination of Addressing
/// Fields and the frame holds all of them.
pub open spec fn spec_has_addressing(b: Seq<u8>) -> bool {
    spec_flags_of(b) matches Some(f) && b.len() - spec_addressing_offset(b) >= spec_fields_len(f)
}

/// The length of the Addressing Fields (zero when they are not valid).
pub open spec fn spec_addressing_len(b: Seq<u8>) -> nat {
    if spec_has_addressing(b) { spec_fields_len(spec_flags_of(b).unwrap()) } else { 0 }
}

/// Where the Addressing Fields are valid, neither addressing mode is the
/// reserved one.
pub open spec fn spec_modes_known(b: Seq<u8>) -> bool {
    spec_has_addressing(b) ==> !(fc_dst_addressing_mode(b) is Unknown) && !(fc_src_addressing_mode(b) is Unknown)
}

/// The offset of the Auxiliary Security Header: right after the Addressing
/// Fields.
pub open spec fn spec_aux_offset(b: Seq<u8>) -> int {
    spec_addressing_offset(b) + spec_addressing_len(b)
}

/// The length of the Auxiliary Security Header (zero when security is not
/// enabled).
pub open spec fn spec_aux_len(b: Seq<u8>) -> nat {
    if fc_security_enabled(b) { 1 + spec_mic_length(b[spec_aux_offset(b)]) } else { 0 }
}

/// The octets of `b` from `off` on hold valid Information Elements.
pub open spec fn spec_ies_at(b: Seq<u8>, off: int) -> bool {
    let d = b.subrange(off, b.len() as int);
    spec_headers_end(d) <= d.len() && spec_ies_len(d) <= d.len()
}

/// The length of the Information Elements at `off`.
pub open spec fn spec_ies_len_at(b: Seq<u8>, off: int) -> int {
    spec_ies_len(b.subrange(off, b.len() as int))
}

/// The offset of the payload: after the Auxiliary Security Header and, when
/// present and valid, the Information Elements read right after the
/// Addressing Fields.
pub open spec fn spec_payload_offset(b: Seq<u8>) -> int {
    spec_aux_offset(b) + spec_aux_len(b) + if fc_information_elements_present(b) && spec_ies_at(b, spec_aux_offset(b)) {
        spec_ies_len_at(b, spec_aux_offset(b))
    } else {
        0
    }
}

/// The Frame Control functions read the first two octets only.
pub proof fn lemma_fc_prefix(b: Seq<u8>)
    requires
        b.len() >= 2,
    ensures
        spec_flags_of(b.subrange(0, 2)) == spec_flags_of(b),
        fc_frame_type(b.subrange(0, 2)) == fc_frame_type(b),
        fc_frame_version(b.subrange(0, 2)) == fc_frame_version(b),
        fc_security_enabled(b.subrange(0, 2)) == fc_security_enabled(b),
        fc_sequence_number_suppression(b.subrange(0, 2)) == fc_sequence_number_suppression(b),
        fc_information_elements_present(b.subrange(0, 2)) == fc_information_elements_present(b),
        fc_dst_addressing_mode(b.subrange(0, 2)) == fc_dst_addressing_mode(b),
        fc_src_addressing_mode(b.subrange(0, 2)) == fc_src_addressing_mode(b),
        fc_pan_id_compression(b.subrange(0, 2)) == fc_pan_id_compression(b),
{
    assert(b.subrange(0, 2)[0] == b[0]);
    assert(b.subrange(0, 2)[1] == b[1]);
}

/// A reader over the Frame Control field of `b`.
pub fn frame_control_of<'a>(b: &'a [u8]) -> (r: FrameControl<&'a [u8]>)
    requires
        b@.len() >= 2,
    ensures
        r@ == b@.subrange(0, 2),
{
    FrameControl::new_unchecked(&b[0..2])
}

/// The Sequence Number of `b`, unless suppressed.
pub fn sequence_number_of(b: &[u8]) -> (r: Option<u8>)
    requires
        spec_readable(b@),
    ensures
        r == (if fc_sequence_number_suppression(b@) { None } else { Some(b@[2]) }),
{
    proof {
        lemma_fc_prefix(b@);
    }
    if frame_control_of(b).sequence_number_suppression() {
        None
    } else {
        Some(b[2])
    }
}

/// The offset of the Addressing Fields of `b`.
pub fn addressing_offset_of(b: &[u8]) -> (r: usize)
    requires
        spec_readable(b@),
    ensures
        r == spec_addressing_offset(b@),
{
    proof {
        lemma_fc_prefix(b@);
    }
    if frame_control_of(b).sequence_number_suppression() {
        2
    } else {
        3
    }
}

/// A reader over the Addressing Fields of `b`, when they are valid.
pub fn addressing_of<'a>(b: &'a [u8]) -> (r: Option<AddressingFields<&'a [u8], &'a [u8]>>)
    requires
        spec_readable(b@),
    ensures
        r is Some <==> spec_has_addressing(b@),
        r matches Some(af) ==> af.spec_buffer() == b@.subrange(spec_addressing_offset(b@), b@.len() as int)
            && af.spec_fc() == b@.subrange(0, 2) && af.fits(),
{
    proof {
        lemma_fc_prefix(b@);
    }
    let off = addressing_offset_of(b);
    match AddressingFields::new(&b[off..b.len()], frame_control_of(b)) {
        Ok(af) => Some(af),
        Err(_) => None,
    }
}

/// The offset of the Auxiliary Security Header of `b`.
pub fn aux_offset_of(b: &[u8]) -> (r: usize)
    requires
        spec_readable(b@),
        spec_modes_known(b@),
    ensures
        r == spec_aux_offset(b@),
        r <= b@.len(),
{
    proof {
        lemma_fc_prefix(b@);
    }
    let off = addressing_offset_of(b);
    match addressing_of(b) {
        Some(af) => off + af.len(),
        None => off,
    }
}

/// A reader over the Auxiliary Security Header of `b`, when security is
/// enabled.
pub fn aux_header_of<'a>(b: &'a [u8]) -> (r: Option<AuxiliarySecurityHeader<&'a [u8]>>)
    requires
        spec_readable(b@),
        spec_modes_known(b@),
    ensures
        fc_security_enabled(b@) ==> (r matches Some(h) && h@ == b@.subrange(spec_aux_offset(b@), b@.len() as int)),
        !fc_security_enabled(b@) ==> r is None,
{
    proof {
        lemma_fc_prefix(b@);
    }
    if frame_control_of(b).security_enabled() {
        let off = aux_offset_of(b);
        Some(AuxiliarySecurityHeader::new(&b[off..b.len()]))
    } else {
        None
    }
}

/// The length of the Auxiliary Security Header of `b`.
pub fn aux_len_of(b: &[u8]) -> (r: usize)
    requires
        spec_readable(b@),
        spec_modes_known(b@),
        fc_security_enabled(b@) ==> spec_aux_offset(b@) < b@.len(),
    ensures
        r == spec_aux_len(b@),
        r <= 17,
{
    match aux_header_of(b) {
        Some(h) => h.len(),
        None => 0,
    }
}

/// A reader over the Information Elements of `b` from `off`, when they are
/// valid.
pub fn ies_at<'a>(b: &'a [u8], off: usize) -> (r: Option<InformationElements<&'a [u8]>>)
    requires
        off <= b@.len(),
        b@.len() <= usize::MAX / 2,
    ensures
        r is Some <==> spec_ies_at(b@, off as int),
        r matches Some(ie) ==> ie@ == b@.subrange(off as int, b@.len() as int),
{
    match InformationElements::new(&b[off..b.len()]) {
        Ok(ie) => Some(ie),
        Err(_) => None,
    }
}

/// The payload of `b`: the octets after the Auxiliary Security Header and
/// the Information Elements, `None` when there are none.
pub fn payload_of<'a>(b: &'a [u8]) -> (r: Option<&'a [u8]>)
    requires
        spec_readable(b@),
        spec_modes_known(b@),
        fc_security_enabled(b@) ==> spec_aux_offset(b@) < b@.len(),
    ensures
        r is None <==> b@.len() <= spec_payload_offset(b@),
        r matches Some(p) ==> p@ == b@.subrange(spec_payload_offset(b@), b@.len() as int),
{
    proof {
        lemma_fc_prefix(b@);
    }
    let aux = aux_offset_of(b);
    let mut offset = aux + aux_len_of(b);
    if frame_control_of(b).information_elements_present() {
        if let Some(ie) = ies_at(b, aux) {
            offset = offset + ie.len();
        }
    }
    if b.len() <= offset {
        return None;
    }
    Some(&b[offset..b.len()])
}

} // verus!

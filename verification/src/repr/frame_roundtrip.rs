//! Reading back a frame written from its representation gives the
//! representation back.
use vstd::prelude::*;

use crate::addressing::{spec_fields_len, spec_flags_of, spec_present_flags};
use crate::bytes::{splice, zeros};
use crate::frame_control::{
    bit, fc_information_elements_present, fc_sequence_number_suppression, with_field,
};
use crate::frames::data::spec_data_frame_ok;
use crate::frames::ack::{spec_eack_complete, spec_eack_payload_offset};
use crate::frames::frame::{
    spec_addressing_of, spec_information_elements_of, spec_new_kind, spec_payload_of, spec_sequence_number_of,
    FrameKind,
};
use crate::frames::layout::{
    spec_addressing_offset, spec_aux_len, spec_aux_offset, spec_has_addressing, spec_ies_at, spec_modes_known,
    spec_payload_offset, spec_readable,
};
use crate::ie::{spec_headers_end, spec_ies_len};
use crate::repr::addressing::{
    lemma_addressing_roundtrip, spec_addressing_repr_len, spec_addressing_repr_matches, spec_address_bytes,
    spec_address_fits_mode, spec_fields_bytes, spec_fields_read, spec_pan_bytes, spec_repr_fits_flags, AddressingFieldsRepr,
};
use crate::repr::builder::{spec_bare_frame, spec_base_fc, spec_finalize};
use crate::frame_control::{FrameType, FrameVersion};
use crate::repr::frame_control::{flag, spec_fc_byte0, spec_fc_byte1};
use crate::repr::frame::{spec_ies_buffer_len, spec_ies_written, spec_parsed_from, FrameRepr};
use crate::addressing::{is_address_at, Address, AddressingMode};
use crate::repr::ie::lists::{header_ies_of, payload_ies_of};
use crate::repr::ie::roundtrip::spec_headers_written;
use crate::repr::ie::payloads::{spec_nested_kept, spec_payload_matches};
use crate::repr::ie::{spec_ie_headers, spec_ie_payloads, spec_ies_matches};
use crate::repr::frame_control::{lemma_frame_control_roundtrip, spec_emit_fc, spec_parse_fc};
use crate::repr::ie::roundtrip::{lemma_ies_roundtrip, spec_ies_fit};
use crate::repr::ie::{spec_ies_parse_ok, spec_ies_parse_safe};

verus! {

/// A Data, Enhanced Beacon, Immediate or Enhanced Acknowledgment frame
/// representation that reads back as itself: its Frame Control announces a
/// Data frame, a Beacon or an Acknowledgment of the 2020 version, or an
/// Acknowledgment of an earlier version holding only a Sequence Number,
/// without security, in a known version and known addressing
/// modes; it has a Sequence Number exactly when the
/// Frame Control does not suppress it, Addressing Fields exactly when the
/// Frame Control makes some present (and then exactly those), Information
/// Elements exactly when the Frame Control announces them (and then no
/// payload, and elements that read back), a payload that is not empty; and
/// it is written in at most 127 octets.
pub open spec fn spec_frame_repr_fits(r: FrameRepr) -> bool {
    let fc = r.frame_control;
    &&& (fc.frame_type is Data || (fc.frame_type is Beacon && fc.frame_version is Ieee802154_2020)
        || (fc.frame_type is Ack && (fc.frame_version is Ieee802154_2003 || fc.frame_version is Ieee802154_2006)
            && r.sequence_number is Some && r.addressing_fields is None && r.information_elements is None && r.payload is None)
        || (fc.frame_type is Ack && fc.frame_version is Ieee802154_2020))
    &&& !fc.security_enabled
    &&& !(fc.frame_version is Unknown)
    &&& !(fc.dst_addressing_mode is Unknown)
    &&& !(fc.src_addressing_mode is Unknown)
    &&& (r.sequence_number is Some <==> !fc.sequence_number_suppression)
    &&& match spec_present_flags(fc.frame_version, fc.dst_addressing_mode, fc.src_addressing_mode, fc.pan_id_compression) {
        Some(f) => r.addressing_fields matches Some(a) && spec_repr_fits_flags(a, f),
        None => r.addressing_fields is None,
    }
    &&& (r.information_elements is Some <==> fc.information_elements_present)
    &&& (r.information_elements matches Some(ie) ==> spec_ies_fit(ie) && r.payload is None)
    &&& (r.payload matches Some(p) ==> p@.len() > 0)
    &&& r.spec_buffer_len() <= 127
}

/// The Addressing Fields written for fields that fit the present flags
/// take the length of those fields.
proof fn lemma_fields_bytes_len(a: AddressingFieldsRepr, f: (bool, crate::addressing::AddressingMode, bool, crate::addressing::AddressingMode))
    requires
        spec_repr_fits_flags(a, f),
    ensures
        spec_fields_bytes(a).len() == spec_fields_len(f),
{
    assert(spec_pan_bytes(a.dst_pan_id).len() == (if f.0 { 2int } else { 0int }));
    assert(spec_pan_bytes(a.src_pan_id).len() == (if f.2 { 2int } else { 0int }));
    assert(spec_address_bytes(a.dst_address).len() == f.1.spec_size());
    assert(spec_address_bytes(a.src_address).len() == f.3.spec_size());
}

/// Clearing a bit that is already clear changes nothing.
proof fn lemma_clear_clear_bit(x: u8)
    requires
        !bit(x, 0),
    ensures
        with_field(x, 0, 1, 0) == x,
{
    assert(((x >> 0u8) & 1 != 1) ==> (x & !(1u8 << 0u8)) | ((0u8 & 1u8) << 0u8) == x) by (bit_vector);
}

/// The kind of frame a representation is read back as.
pub open spec fn spec_repr_kind(r: FrameRepr) -> FrameKind {
    if r.frame_control.frame_type is Data {
        FrameKind::Data
    } else if r.frame_control.frame_type is Beacon {
        FrameKind::EnhancedBeacon
    } else if r.frame_control.frame_version is Ieee802154_2020 {
        FrameKind::EnhancedAck
    } else {
        FrameKind::Ack
    }
}

/// The payload a frame written from `r` reads back with: the payload of
/// `r`, and for an Enhanced Acknowledgment an empty one when `r` has none.
pub open spec fn spec_read_payload(r: FrameRepr) -> Option<Seq<u8>> {
    match r.payload {
        Some(p) => Some(p@),
        None => if spec_repr_kind(r) is EnhancedAck { Some(Seq::empty()) } else { None },
    }
}

/// The two octets of `x` and `y` are the same Frame Control field.
spec fn same_fc(x: Seq<u8>, y: Seq<u8>) -> bool {
    x.len() >= 2 && y.len() >= 2 && x[0] == y[0] && x[1] == y[1]
}

/// The offset of the Addressing Fields and their length, for the Frame
/// Control of the representation.
spec fn spec_fields_span(r: FrameRepr) -> (int, int) {
    let fc = r.frame_control;
    (
        if r.sequence_number is Some { 3int } else { 2int },
        match spec_present_flags(fc.frame_version, fc.dst_addressing_mode, fc.src_addressing_mode, fc.pan_id_compression) {
            Some(f) => spec_fields_len(f) as int,
            None => 0int,
        },
    )
}

/// After the Frame Control field and the Sequence Number are written.
proof fn lemma_header_written(r: FrameRepr, b0: Seq<u8>)
    requires
        spec_frame_repr_fits(r),
        b0 == zeros(r.spec_buffer_len() as nat),
        r.spec_emit_fits(b0),
    ensures
        ({
            let s2 = r.spec_after_header(b0);
            &&& s2.len() == b0.len()
            &&& spec_parse_fc(s2) == r.frame_control
            &&& spec_parse_fc(s2.subrange(0, 2)) == r.frame_control
            &&& (r.sequence_number matches Some(q) ==> s2[2] == q)
            &&& spec_addressing_offset(s2) == spec_fields_span(r).0
            &&& spec_flags_of(s2) == spec_present_flags(
                r.frame_control.frame_version,
                r.frame_control.dst_addressing_mode,
                r.frame_control.src_addressing_mode,
                r.frame_control.pan_id_compression,
            )
        }),
{
    let fc = r.frame_control;
    let s1 = spec_emit_fc(b0, fc);
    let s2 = r.spec_after_header(b0);
    lemma_frame_control_roundtrip(b0, fc);
    if r.sequence_number is Some {
        lemma_clear_clear_bit(s1[1]);
    }
    assert(same_fc(s1, s2));
    assert(s2.subrange(0, 2) =~= s1.subrange(0, 2));
}

/// After the Addressing Fields are written.
proof fn lemma_addressing_written(r: FrameRepr, b0: Seq<u8>)
    requires
        spec_frame_repr_fits(r),
        b0 == zeros(r.spec_buffer_len() as nat),
        r.spec_emit_fits(b0),
    ensures
        ({
            let s2 = r.spec_after_header(b0);
            let s3 = r.spec_after_addressing(b0);
            let (off, l) = spec_fields_span(r);
            &&& s3.len() == b0.len()
            &&& same_fc(s2, s3)
            &&& s3.subrange(0, off) == s2.subrange(0, off)
            &&& off + l <= s3.len()
            &&& (r.addressing_fields matches Some(a) ==> s3.subrange(off, off + l) == spec_fields_bytes(a))
            &&& spec_has_addressing(s3) == (r.addressing_fields is Some)
            &&& spec_aux_offset(s3) == off + l
        }),
{
    lemma_header_written(r, b0);
    let fc = r.frame_control;
    let s2 = r.spec_after_header(b0);
    let s3 = r.spec_after_addressing(b0);
    let (off, l) = spec_fields_span(r);
    match r.addressing_fields {
        Some(a) => {
            let f = spec_flags_of(s2).unwrap();
            lemma_fields_bytes_len(a, f);
            assert(s3.subrange(0, off) =~= s2.subrange(0, off));
            assert(s3.subrange(off, off + l) =~= spec_fields_bytes(a));
        },
        None => {
            assert(s3.subrange(0, off) =~= s2.subrange(0, off));
        },
    }
    assert(same_fc(s2, s3));
}

/// After the Information Elements are written.
proof fn lemma_ies_written(r: FrameRepr, b0: Seq<u8>)
    requires
        spec_frame_repr_fits(r),
        b0 == zeros(r.spec_buffer_len() as nat),
        r.spec_emit_fits(b0),
    ensures
        ({
            let s3 = r.spec_after_addressing(b0);
            let s4 = r.spec_after_ies(b0);
            let (off, l) = spec_fields_span(r);
            &&& s4.len() == b0.len()
            &&& same_fc(s3, s4)
            &&& s4.subrange(0, off + l) == s3.subrange(0, off + l)
            &&& spec_aux_offset(s4) == off + l
            &&& (r.information_elements matches Some(ie) ==> s4.subrange(off + l, s4.len() as int) == spec_ies_written(ie, false))
        }),
{
    lemma_addressing_written(r, b0);
    let s3 = r.spec_after_addressing(b0);
    let s4 = r.spec_after_ies(b0);
    let (off, l) = spec_fields_span(r);
    match r.information_elements {
        Some(ie) => {
            let w = spec_ies_written(ie, false);
            assert(spec_ies_buffer_len(ie, false) == w.len());
            assert(s4.subrange(0, off + l) =~= s3.subrange(0, off + l));
            assert(s4.subrange(off + l, s4.len() as int) =~= w);
        },
        None => {
            assert(s4 == s3);
        },
    }
    assert(same_fc(s3, s4));
}

/// After the payload is written.
proof fn lemma_payload_written(r: FrameRepr, b0: Seq<u8>)
    requires
        spec_frame_repr_fits(r),
        b0 == zeros(r.spec_buffer_len() as nat),
        r.spec_emit_fits(b0),
    ensures
        ({
            let s4 = r.spec_after_ies(b0);
            let e = r.spec_emitted(b0);
            let (off, l) = spec_fields_span(r);
            &&& e.len() == b0.len()
            &&& same_fc(s4, e)
            &&& e.subrange(0, off + l) == s4.subrange(0, off + l)
            &&& (r.information_elements is Some ==> e == s4)
            &&& (r.payload matches Some(p) ==> e.subrange(off + l, e.len() as int) == p@)
            &&& (r.payload is None && r.information_elements is None ==> off + l == e.len())
        }),
{
    lemma_header_written(r, b0);
    lemma_ies_written(r, b0);
    lemma_addressing_written(r, b0);
    let s2 = r.spec_after_header(b0);
    let s3 = r.spec_after_addressing(b0);
    let s4 = r.spec_after_ies(b0);
    let e = r.spec_emitted(b0);
    let (off, l) = spec_fields_span(r);
    match r.addressing_fields {
        Some(a) => {
            lemma_fields_bytes_len(a, spec_flags_of(r.spec_after_header(b0)).unwrap());
        },
        None => {},
    }
    match r.payload {
        Some(p) => {
            assert(r.information_elements is None);
            assert(same_fc(s2, s4));
            assert(spec_parse_fc(s4) == r.frame_control);
            assert(!fc_information_elements_present(s4));
            assert(spec_payload_offset(s4) == off + l);
            assert(e.subrange(0, off + l) =~= s4.subrange(0, off + l));
            assert(e.subrange(off + l, e.len() as int) =~= p@);
        },
        None => {},
    }
}

/// Reading back a frame written from a representation that reads back as
/// itself: the octets are a valid frame of its kind, of the length
/// computed, its Frame Control, Sequence Number, Addressing Fields,
/// Information Elements and payload read back as written.
#[verifier::spinoff_prover]
#[verifier::rlimit(60)]
pub proof fn lemma_frame_roundtrip(r: FrameRepr)
    requires
        spec_frame_repr_fits(r),
        r.spec_emit_fits(zeros(r.spec_buffer_len() as nat)),
    ensures
        ({
            let e = r.spec_emitted(zeros(r.spec_buffer_len() as nat));
            &&& e.len() == r.spec_buffer_len()
            &&& spec_new_kind(e) == Some(spec_repr_kind(r))
            &&& spec_readable(e)
            &&& spec_modes_known(e)
            &&& spec_parse_fc(e.subrange(0, 2)) == r.frame_control
            &&& spec_sequence_number_of(spec_repr_kind(r), e) == r.sequence_number
            &&& (spec_addressing_of(spec_repr_kind(r), e) is Some <==> r.addressing_fields is Some)
            &&& (r.addressing_fields matches Some(a) ==> spec_addressing_repr_matches(
                spec_fields_read(a),
                spec_addressing_of(spec_repr_kind(r), e).unwrap(),
                e.subrange(0, 2),
            ))
            &&& (spec_information_elements_of(spec_repr_kind(r), e) is Some <==> r.information_elements is Some)
            &&& (r.information_elements matches Some(ie) ==> {
                let d = spec_information_elements_of(spec_repr_kind(r), e).unwrap();
                &&& d == spec_ies_written(ie, false)
                &&& spec_ies_parse_safe(d)
                &&& spec_ies_parse_ok(d)
            })
            &&& spec_payload_of(spec_repr_kind(r), e) == spec_read_payload(r)
            &&& (spec_repr_kind(r) is EnhancedAck ==> spec_eack_complete(e) && spec_eack_payload_offset(e) <= e.len())
        }),
{
    let n = r.spec_buffer_len() as nat;
    let b0 = zeros(n);
    let fc = r.frame_control;
    lemma_header_written(r, b0);
    lemma_addressing_written(r, b0);
    lemma_ies_written(r, b0);
    lemma_payload_written(r, b0);
    let s2 = r.spec_after_header(b0);
    let s3 = r.spec_after_addressing(b0);
    let s4 = r.spec_after_ies(b0);
    let e = r.spec_emitted(b0);
    let (off, l) = spec_fields_span(r);
    assert(same_fc(s2, e));
    assert(e.subrange(0, 2) =~= s2.subrange(0, 2));
    assert(spec_parse_fc(e) == fc);
    assert(spec_data_frame_ok(e));
    assert(spec_addressing_offset(e) == off);
    assert(spec_flags_of(e) == spec_flags_of(s2));
    assert(spec_has_addressing(e) == spec_has_addressing(s3));
    assert(spec_aux_offset(e) == off + l);
    if r.sequence_number is Some {
        assert(e[2] == e.subrange(0, off + l)[2]);
        assert(s3[2] == s3.subrange(0, off)[2]);
    }
    match r.addressing_fields {
        Some(a) => {
            let rest = e.subrange(off + l, n as int);
            assert(e.subrange(off, off + l) =~= s3.subrange(off, off + l));
            assert(e.subrange(off, n as int) =~= spec_fields_bytes(a) + rest);
            lemma_addressing_roundtrip(a, e.subrange(0, 2), rest);
        },
        None => {},
    }
    match r.information_elements {
        Some(ie) => {
            let w = spec_ies_written(ie, false);
            lemma_ies_roundtrip(ie);
            assert(e.subrange(off + l, n as int) == w);
            assert(spec_ies_at(e, off + l));
            assert(spec_payload_offset(e) == n);
        },
        None => {
            assert(spec_payload_offset(e) == off + l);
        },
    }
}

/// An address stored at an offset of the octets is the only one that
/// matches.
proof fn lemma_address_at_unique(x: Option<Address>, y: Option<Address>, b: Seq<u8>, off: int, m: AddressingMode)
    requires
        is_address_at(x, b, off, m),
        is_address_at(y, b, off, m),
    ensures
        x == y,
{
    broadcast use vstd::array::group_array_axioms;

    match (x, y) {
        (Some(Address::Short(a)), Some(Address::Short(c))) => {
            assert(a@ =~= c@);
            assert(a == c);
        },
        (Some(Address::Extended(a)), Some(Address::Extended(c))) => {
            assert(a@ =~= c@);
            assert(a == c);
        },
        _ => {},
    }
}

/// Two Addressing Fields representations of the same octets are the same.
proof fn lemma_addressing_repr_unique(x: AddressingFieldsRepr, y: AddressingFieldsRepr, b: Seq<u8>, fc: Seq<u8>)
    requires
        spec_addressing_repr_matches(x, b, fc),
        spec_addressing_repr_matches(y, b, fc),
    ensures
        x == y,
{
    match spec_flags_of(fc) {
        Some(f) => {
            lemma_address_at_unique(x.dst_address, y.dst_address, b, crate::addressing::spec_dst_addr_offset(f), f.1);
            lemma_address_at_unique(x.src_address, y.src_address, b, crate::addressing::spec_src_addr_offset(f), f.3);
        },
        None => {},
    }
}

/// Parsing a frame written from a representation that reads back as itself
/// gives the representation back: the same Frame Control field, Sequence
/// Number and Addressing Fields (an address given as `None` reads back as
/// the absent address), the same payload (an empty one for an
/// Enhanced Acknowledgment written without), and Information Elements
/// whose Header IEs are the ones written (followed by the Header
/// Termination 1 written before Payload IEs) and whose Payload IEs stand for
/// the same elements as the ones written.
pub proof fn lemma_frame_parse_roundtrip(r: FrameRepr, v: FrameRepr)
    requires
        spec_frame_repr_fits(r),
        r.spec_emit_fits(zeros(r.spec_buffer_len() as nat)),
        spec_parsed_from(v, spec_repr_kind(r), r.spec_emitted(zeros(r.spec_buffer_len() as nat))),
    ensures
        v.frame_control == r.frame_control,
        v.sequence_number == r.sequence_number,
        v.addressing_fields == match r.addressing_fields {
            Some(a) => Some(spec_fields_read(a)),
            None => None,
        },
        v.payload is Some <==> spec_read_payload(r) is Some,
        v.payload matches Some(p) ==> p@ == spec_read_payload(r).unwrap(),
        v.information_elements is Some <==> r.information_elements is Some,
        v.information_elements matches Some(vie) ==> ({
            let rie = r.information_elements.unwrap();
            let rp = payload_ies_of(rie.payload_information_elements);
            let vp = payload_ies_of(vie.payload_information_elements);
            let d = spec_ies_written(rie, false);
            &&& header_ies_of(vie.header_information_elements)
                == spec_headers_written(header_ies_of(rie.header_information_elements), rp.len() > 0)
            &&& vp.len() == rp.len()
            &&& forall|i: int| 0 <= i < vp.len() ==> spec_payload_matches(#[trigger] vp[i], spec_ie_payloads(d)[i])
                && spec_payload_matches(rp[i], spec_ie_payloads(d)[i])
        }),
{
    let e = r.spec_emitted(zeros(r.spec_buffer_len() as nat));
    lemma_frame_roundtrip(r);
    match (v.addressing_fields, r.addressing_fields) {
        (Some(x), Some(y)) => {
            lemma_addressing_repr_unique(x, spec_fields_read(y), spec_addressing_of(spec_repr_kind(r), e).unwrap(), e.subrange(0, 2));
        },
        _ => {},
    }
    match (v.information_elements, r.information_elements) {
        (Some(vie), Some(rie)) => {
            let d = spec_ies_written(rie, false);
            lemma_ies_roundtrip(rie);
            let rh = header_ies_of(rie.header_information_elements);
            let rp = payload_ies_of(rie.payload_information_elements);
            let wh = spec_headers_written(rh, rp.len() > 0);
            let vh = header_ies_of(vie.header_information_elements);
            assert(spec_ies_matches(vie, d));
            assert(wh.len() <= 16);
            assert(vh.len() == wh.len());
            assert forall|i: int| 0 <= i < vh.len() implies vh[i] == wh[i] by {
                assert(crate::repr::ie::headers::spec_parse_header_ie(spec_ie_headers(d)[i]) == Some(vh[i]));
            }
            assert(vh =~= wh);
        },
        _ => {},
    }
}

/// The Immediate Acknowledgment built for Sequence Number `s` (as the
/// receive path sends it) is written as the three octets `02 10 s`.
pub proof fn lemma_imm_ack_bytes(s: u8)
    ensures
        ({
            let built = spec_bare_frame(spec_base_fc(FrameType::Ack, false, FrameVersion::Ieee802154_2006), Some(s), None);
            &&& spec_finalize(built) is Some
            &&& spec_finalize(built).unwrap().spec_buffer_len() == 3
            &&& spec_finalize(built).unwrap().spec_emit_fits(zeros(3))
            &&& spec_finalize(built).unwrap().spec_emitted(zeros(3)) == seq![0x02u8, 0x10u8, s]
        }),
{
    let built = spec_bare_frame(spec_base_fc(FrameType::Ack, false, FrameVersion::Ieee802154_2006), Some(s), None);
    let f = spec_finalize(built).unwrap();
    let fc = f.frame_control;
    let b0 = zeros(3);
    assert(fc == spec_base_fc(FrameType::Ack, false, FrameVersion::Ieee802154_2006));
    assert(fc.frame_type.spec_bits() == 2);
    assert(fc.frame_version.spec_bits() == 1);
    assert(fc.dst_addressing_mode.spec_bits() == 0);
    assert(fc.src_addressing_mode.spec_bits() == 0);
    assert(flag(false) == 0);
    assert(b0[0] == 0);
    assert(((0u8 & 0x80u8) | 2u8 | (0u8 << 3u8) | (0u8 << 4u8) | (0u8 << 5u8) | (0u8 << 6u8)) == 2u8) by (bit_vector);
    assert((0u8 | (0u8 << 1u8) | (0u8 << 2u8) | (1u8 << 4u8) | (0u8 << 6u8)) == 0x10u8) by (bit_vector);
    assert(spec_fc_byte0(b0[0], fc) == 2);
    assert(spec_fc_byte1(fc) == 0x10);
    assert(with_field(0x10u8, 0, 1, 0) == 0x10u8) by (bit_vector);
    assert(f.spec_emitted(b0) =~= seq![0x02u8, 0x10u8, s]);
}

} // verus!

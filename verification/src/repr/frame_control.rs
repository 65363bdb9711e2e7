//! High-level representation of the Frame Control field.
use vstd::prelude::*;

use crate::addressing::AddressingMode;
use crate::frame_control::{
    fc_ack_request, fc_dst_addressing_mode, fc_frame_pending, fc_frame_type, fc_frame_version,
    fc_information_elements_present, fc_pan_id_compression, fc_security_enabled,
    fc_sequence_number_suppression, fc_src_addressing_mode, with_field, FrameControl, FrameType,
    FrameVersion,
};
use crate::Error;

verus! {

/// A high-level representation of the IEEE 802.15.4 Frame Control field.
#[derive(Debug, Clone, Copy, PartialEq, Eq, Structural)]
pub struct FrameControlRepr {
    /// Frame type.
    pub frame_type: FrameType,
    /// Security enabled.
    pub security_enabled: bool,
    /// Frame pending.
    pub frame_pending: bool,
    /// Acknowledgement request.
    pub ack_request: bool,
    /// PAN ID compression.
    pub pan_id_compression: bool,
    /// Sequence number suppression.
    pub sequence_number_suppression: bool,
    /// Information elements present.
    pub information_elements_present: bool,
    /// Destination addressing mode.
    pub dst_addressing_mode: AddressingMode,
    /// Source addressing mode.
    pub src_addressing_mode: AddressingMode,
    /// Frame version.
    pub frame_version: FrameVersion,
}

/// The fields stored in the Frame Control bytes `b`.
pub open spec fn spec_parse_fc(b: Seq<u8>) -> FrameControlRepr {
    FrameControlRepr {
        frame_type: fc_frame_type(b),
        security_enabled: fc_security_enabled(b),
        frame_pending: fc_frame_pending(b),
        ack_request: fc_ack_request(b),
        pan_id_compression: fc_pan_id_compression(b),
        sequence_number_suppression: fc_sequence_number_suppression(b),
        information_elements_present: fc_information_elements_present(b),
        dst_addressing_mode: fc_dst_addressing_mode(b),
        src_addressing_mode: fc_src_addressing_mode(b),
        frame_version: fc_frame_version(b),
    }
}

/// `1` for `true`, `0` for `false`.
pub open spec fn flag(b: bool) -> u8 {
    if b { 1 } else { 0 }
}

/// The first Frame Control octet emitted for `r` over the octet `old`: the
/// reserved bit 7 of `old` is kept.
pub open spec fn spec_fc_byte0(old: u8, r: FrameControlRepr) -> u8 {
    (old & 0x80) | r.frame_type.spec_bits() | (flag(r.security_enabled) << 3u8) | (flag(r.frame_pending) << 4u8)
        | (flag(r.ack_request) << 5u8) | (flag(r.pan_id_compression) << 6u8)
}

/// The second Frame Control octet emitted for `r`.
pub open spec fn spec_fc_byte1(r: FrameControlRepr) -> u8 {
    flag(r.sequence_number_suppression) | (flag(r.information_elements_present) << 1u8)
        | (r.dst_addressing_mode.spec_bits() << 2u8) | (r.frame_version.spec_bits() << 4u8)
        | (r.src_addressing_mode.spec_bits() << 6u8)
}

/// The Frame Control bytes `old` after `r` is emitted into them.
pub open spec fn spec_emit_fc(old: Seq<u8>, r: FrameControlRepr) -> Seq<u8> {
    old.update(0, spec_fc_byte0(old[0], r)).update(1, spec_fc_byte1(r))
}

/// The setters' chain of field writes builds the closed forms above, and
/// each field reads back from them.
proof fn lemma_fc_bytes(o: u8, o1: u8, t: u8, s: u8, p: u8, a: u8, c: u8, q: u8, i: u8, d: u8, v: u8, m: u8)
    by (bit_vector)
    requires
        t < 8, s < 2, p < 2, a < 2, c < 2, q < 2, i < 2, d < 4, v < 4, m < 4,
    ensures
        with_field(with_field(with_field(with_field(with_field(o, 0, 7, t), 3, 1, s), 4, 1, p), 5, 1, a), 6, 1, c)
            == (o & 0x80) | t | (s << 3u8) | (p << 4u8) | (a << 5u8) | (c << 6u8),
        with_field(with_field(with_field(with_field(with_field(o1, 0, 1, q), 1, 1, i), 2, 3, d), 6, 3, m), 4, 3, v)
            == q | (i << 1u8) | (d << 2u8) | (v << 4u8) | (m << 6u8),
        ((o & 0x80) | t | (s << 3u8) | (p << 4u8) | (a << 5u8) | (c << 6u8)) & 7 == t,
        (((o & 0x80) | t | (s << 3u8) | (p << 4u8) | (a << 5u8) | (c << 6u8)) >> 3u8) & 1 == s,
        (((o & 0x80) | t | (s << 3u8) | (p << 4u8) | (a << 5u8) | (c << 6u8)) >> 4u8) & 1 == p,
        (((o & 0x80) | t | (s << 3u8) | (p << 4u8) | (a << 5u8) | (c << 6u8)) >> 5u8) & 1 == a,
        (((o & 0x80) | t | (s << 3u8) | (p << 4u8) | (a << 5u8) | (c << 6u8)) >> 6u8) & 1 == c,
        ((q | (i << 1u8) | (d << 2u8) | (v << 4u8) | (m << 6u8)) >> 0u8) & 1 == q,
        ((q | (i << 1u8) | (d << 2u8) | (v << 4u8) | (m << 6u8)) >> 1u8) & 1 == i,
        ((q | (i << 1u8) | (d << 2u8) | (v << 4u8) | (m << 6u8)) >> 2u8) & 3 == d,
        ((q | (i << 1u8) | (d << 2u8) | (v << 4u8) | (m << 6u8)) >> 4u8) & 3 == v,
        ((q | (i << 1u8) | (d << 2u8) | (v << 4u8) | (m << 6u8)) >> 6u8) & 3 == m,
{
}

/// The setters' chain of writes gives the closed forms of the two octets.
proof fn lemma_fc_bytes_chain(o: u8, o1: u8, r: FrameControlRepr)
    ensures
        with_field(with_field(with_field(with_field(with_field(o, 0, 7, r.frame_type.spec_bits()), 3, 1, flag(r.security_enabled)), 4, 1, flag(r.frame_pending)), 5, 1, flag(r.ack_request)), 6, 1, flag(r.pan_id_compression))
            == spec_fc_byte0(o, r),
        with_field(with_field(with_field(with_field(with_field(o1, 0, 1, flag(r.sequence_number_suppression)), 1, 1, flag(r.information_elements_present)), 2, 3, r.dst_addressing_mode.spec_bits()), 6, 3, r.src_addressing_mode.spec_bits()), 4, 3, r.frame_version.spec_bits())
            == spec_fc_byte1(r),
{
    lemma_fc_bytes(
        o,
        o1,
        r.frame_type.spec_bits(),
        flag(r.security_enabled),
        flag(r.frame_pending),
        flag(r.ack_request),
        flag(r.pan_id_compression),
        flag(r.sequence_number_suppression),
        flag(r.information_elements_present),
        r.dst_addressing_mode.spec_bits(),
        r.frame_version.spec_bits(),
        r.src_addressing_mode.spec_bits(),
    );
}

/// Each field reads back from the emitted octets.
proof fn lemma_fc_bytes_parse(o: u8, r: FrameControlRepr)
    ensures
        spec_parse_fc(seq![spec_fc_byte0(o, r), spec_fc_byte1(r)]) == r,
{
    let ghost t = r.frame_type.spec_bits();
    let ghost d = r.dst_addressing_mode.spec_bits();
    let ghost v = r.frame_version.spec_bits();
    let ghost m = r.src_addressing_mode.spec_bits();
    lemma_fc_bytes(
        o,
        0,
        t,
        flag(r.security_enabled),
        flag(r.frame_pending),
        flag(r.ack_request),
        flag(r.pan_id_compression),
        flag(r.sequence_number_suppression),
        flag(r.information_elements_present),
        d,
        v,
        m,
    );
    let b = seq![spec_fc_byte0(o, r), spec_fc_byte1(r)];
    assert(FrameType::spec_from_bits(t) == r.frame_type);
    assert(FrameVersion::spec_from_bits(v) == r.frame_version);
    assert(AddressingMode::spec_from_bits(d) == r.dst_addressing_mode);
    assert(AddressingMode::spec_from_bits(m) == r.src_addressing_mode);
    assert(spec_parse_fc(b) == r);
}

/// Emitting a Frame Control field and parsing it back gives the same
/// fields, whatever the bytes held before.
pub proof fn lemma_frame_control_roundtrip(old: Seq<u8>, r: FrameControlRepr)
    requires
        old.len() >= 2,
    ensures
        spec_parse_fc(spec_emit_fc(old, r)) == r,
{
    lemma_fc_bytes_parse(old[0], r);
    let e = spec_emit_fc(old, r);
    assert(e[0] == spec_fc_byte0(old[0], r));
    assert(e[1] == spec_fc_byte1(r));
    assert(spec_parse_fc(e) == spec_parse_fc(seq![spec_fc_byte0(old[0], r), spec_fc_byte1(r)]));
}

/// Write the Frame Control octets for `fc` at the start of `b`.
pub fn write_frame_control(b: &mut [u8], fc: &FrameControlRepr)
    requires
        old(b)@.len() >= 2,
    ensures
        final(b)@ == spec_emit_fc(old(b)@, *fc),
{
    let b0 = (b[0] & 0x80) | fc.frame_type.bits() | ((if fc.security_enabled { 1u8 } else { 0u8 }) << 3u8)
        | ((if fc.frame_pending { 1u8 } else { 0u8 }) << 4u8) | ((if fc.ack_request { 1u8 } else { 0u8 }) << 5u8)
        | ((if fc.pan_id_compression { 1u8 } else { 0u8 }) << 6u8);
    let b1 = (if fc.sequence_number_suppression { 1u8 } else { 0u8 })
        | ((if fc.information_elements_present { 1u8 } else { 0u8 }) << 1u8)
        | (fc.dst_addressing_mode.bits() << 2u8) | (fc.frame_version.bits() << 4u8)
        | (fc.src_addressing_mode.bits() << 6u8);
    b[0] = b0;
    b[1] = b1;
}

impl FrameControlRepr {
    /// Parse an IEEE 802.15.4 Frame Control field; this never fails.
    pub fn parse(fc: FrameControl<&[u8]>) -> (r: Result<Self, Error>)
        requires
            fc@.len() >= 2,
        ensures
            r == Ok::<FrameControlRepr, Error>(spec_parse_fc(fc@)),
    {
        Ok(Self {
            frame_type: fc.frame_type(),
            security_enabled: fc.security_enabled(),
            frame_pending: fc.frame_pending(),
            ack_request: fc.ack_request(),
            pan_id_compression: fc.pan_id_compression(),
            sequence_number_suppression: fc.sequence_number_suppression(),
            information_elements_present: fc.information_elements_present(),
            dst_addressing_mode: fc.dst_addressing_mode(),
            src_addressing_mode: fc.src_addressing_mode(),
            frame_version: fc.frame_version(),
        })
    }

    /// Return the length of the Frame Control field when emitted into a
    /// buffer.
    pub fn buffer_len(&self) -> (r: usize)
        ensures
            r == 2,
    {
        2
    }

    /// Emit the Frame Control field into a buffer.
    #[verifier::spinoff_prover]
    #[verifier::rlimit(40)]
    pub fn emit(&self, fc: &mut FrameControl<Vec<u8>>)
        requires
            old(fc)@.len() >= 2,
        ensures
            final(fc)@ == spec_emit_fc(old(fc)@, *self),
    {
        let ghost o = fc@;
        proof {
            lemma_fc_bytes_chain(o[0], o[1], *self);
        }
        fc.set_frame_type(self.frame_type);
        fc.set_security_enabled(self.security_enabled);
        fc.set_frame_pending(self.frame_pending);
        fc.set_ack_request(self.ack_request);
        fc.set_pan_id_compression(self.pan_id_compression);
        assert(fc@ =~= o.update(0, spec_fc_byte0(o[0], *self)));
        let ghost o2 = fc@;
        fc.set_sequence_number_suppression(self.sequence_number_suppression);
        fc.set_information_elements_present(self.information_elements_present);
        fc.set_dst_addressing_mode(self.dst_addressing_mode);
        fc.set_src_addressing_mode(self.src_addressing_mode);
        fc.set_frame_version(self.frame_version);
        assert(fc@ =~= o2.update(1, spec_fc_byte1(*self)));
        assert(fc@ =~= spec_emit_fc(o, *self));
    }
}

} // verus!

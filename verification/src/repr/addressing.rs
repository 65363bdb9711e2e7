//! High-level representation of the Addressing Fields.
use vstd::prelude::*;

use crate::addressing::{
    is_address_at, spec_dst_addr_offset, spec_dst_pan_id, spec_flags_of, spec_src_addr_offset, spec_src_pan_id, Address,
    AddressingFields, AddressingMode, PresentFlags, spec_fields_len,
};
use crate::frame_control::FrameType;
use crate::repr::frame_control::{FrameControlRepr, spec_emit_fc, lemma_frame_control_roundtrip};
use crate::Error;
use crate::bytes::{le16, lemma_le16_split};

verus! {

/// A high-level representation of the IEEE 802.15.4 Addressing Fields.
#[derive(Debug, Default, Clone, Copy)]
pub struct AddressingFieldsRepr {
    /// Destination PAN identifier.
    pub dst_pan_id: Option<u16>,
    /// Destination address.
    pub dst_address: Option<Address>,
    /// Source PAN identifier.
    pub src_pan_id: Option<u16>,
    /// Source address.
    pub src_address: Option<Address>,
}

/// The two little-endian octets of a PAN ID, or nothing.
pub open spec fn spec_pan_bytes(id: Option<u16>) -> Seq<u8> {
    match id {
        Some(v) => seq![(v & 0xff) as u8, (v >> 8u16) as u8],
        None => seq![],
    }
}

/// The octets of an address in reverse order, or nothing.
pub open spec fn spec_address_bytes(a: Option<Address>) -> Seq<u8> {
    match a {
        Some(a) => a.spec_bytes().reverse(),
        None => seq![],
    }
}

/// The octets of the Addressing Fields written for `f`.
pub open spec fn spec_fields_bytes(f: AddressingFieldsRepr) -> Seq<u8> {
    spec_pan_bytes(f.dst_pan_id) + spec_address_bytes(f.dst_address) + spec_pan_bytes(f.src_pan_id)
        + spec_address_bytes(f.src_address)
}

/// `r` holds the Addressing Fields stored in `buffer` for the Frame Control
/// bytes `fc`.
pub open spec fn spec_addressing_repr_matches(r: AddressingFieldsRepr, buffer: Seq<u8>, fc: Seq<u8>) -> bool {
    let flags = spec_flags_of(fc);
    &&& r.dst_pan_id == spec_dst_pan_id(buffer, flags)
    &&& r.src_pan_id == spec_src_pan_id(buffer, flags)
    &&& match flags {
        None => r.dst_address is None && r.src_address is None,
        Some(f) => is_address_at(r.dst_address, buffer, spec_dst_addr_offset(f), f.1)
            && is_address_at(r.src_address, buffer, spec_src_addr_offset(f), f.3),
    }
}

/// The length of the Addressing Fields `r` written with the addressing
/// modes of `fc`.
pub open spec fn spec_addressing_repr_len(r: AddressingFieldsRepr, fc: FrameControlRepr) -> nat {
    (if r.dst_pan_id is Some { 2nat } else { 0nat }) + fc.dst_addressing_mode.spec_size()
        + (if r.src_pan_id is Some { 2nat } else { 0nat }) + fc.src_addressing_mode.spec_size()
}

/// The address `a` is one that is written in addressing mode `m`: an
/// address of that mode, or no address (given as `None` or as the absent
/// address) for the absent mode.
pub open spec fn spec_address_fits_mode(a: Option<Address>, m: AddressingMode) -> bool {
    match a {
        Some(addr) => addr.spec_mode() == m && !(m is Unknown),
        None => m is Absent,
    }
}

/// The address read back for `a`: the absent address where none is given.
pub open spec fn spec_address_read(a: Option<Address>) -> Option<Address> {
    match a {
        Some(addr) => Some(addr),
        None => Some(Address::Absent),
    }
}

/// The Addressing Fields read back for `r`: an address given as `None`
/// reads back as the absent address.
pub open spec fn spec_fields_read(r: AddressingFieldsRepr) -> AddressingFieldsRepr {
    AddressingFieldsRepr {
        dst_address: spec_address_read(r.dst_address),
        src_address: spec_address_read(r.src_address),
        ..r
    }
}

/// The Addressing Fields `r` are the ones the present fields `f` describe:
/// each PAN ID is given exactly when present, each address in the mode of
/// its field.
pub open spec fn spec_repr_fits_flags(r: AddressingFieldsRepr, f: PresentFlags) -> bool {
    &&& (r.dst_pan_id is Some <==> f.0)
    &&& (r.src_pan_id is Some <==> f.2)
    &&& spec_address_fits_mode(r.dst_address, f.1)
    &&& spec_address_fits_mode(r.src_address, f.3)
}

/// The octets of an address, reversed, read back in reverse order give
/// the address.
proof fn lemma_address_bytes_roundtrip(a: Option<Address>, m: AddressingMode, b: Seq<u8>, off: int)
    requires
        spec_address_fits_mode(a, m),
        0 <= off,
        off + spec_address_bytes(a).len() <= b.len(),
        b.subrange(off, off + spec_address_bytes(a).len() as int) == spec_address_bytes(a),
    ensures
        is_address_at(spec_address_read(a), b, off, m),
        spec_address_bytes(a).len() == m.spec_size(),
{
    match a {
        Some(Address::Short(v)) => {
            assert(b.subrange(off, off + 2).reverse() =~= v@);
        },
        Some(Address::Extended(v)) => {
            assert(b.subrange(off, off + 8).reverse() =~= v@);
        },
        _ => {},
    }
}

/// Reading the Addressing Fields written for `r` gives back `r`, when `r`
/// holds exactly the fields the Frame Control bytes `fc` make present; an
/// address given as `None` (in the absent mode) reads back as the absent
/// address.
pub proof fn lemma_addressing_roundtrip(r: AddressingFieldsRepr, fc: Seq<u8>, rest: Seq<u8>)
    requires
        spec_flags_of(fc) matches Some(f) && spec_repr_fits_flags(r, f),
    ensures
        spec_addressing_repr_matches(spec_fields_read(r), spec_fields_bytes(r) + rest, fc),
{
    let f = spec_flags_of(fc).unwrap();
    let p1 = spec_pan_bytes(r.dst_pan_id);
    let a1 = spec_address_bytes(r.dst_address);
    let p2 = spec_pan_bytes(r.src_pan_id);
    let a2 = spec_address_bytes(r.src_address);
    let b = spec_fields_bytes(r) + rest;
    assert(b =~= p1 + a1 + p2 + a2 + rest);
    let o1 = p1.len() as int;
    let o2 = o1 + a1.len();
    let o3 = o2 + p2.len();
    assert(b.subrange(o1, o2) =~= a1);
    lemma_address_bytes_roundtrip(r.dst_address, f.1, b, o1);
    assert(b.subrange(o3, o3 + a2.len()) =~= a2);
    lemma_address_bytes_roundtrip(r.src_address, f.3, b, o3);
    match r.dst_pan_id {
        Some(v) => {
            assert(b[0] == p1[0] && b[1] == p1[1]);
            lemma_le16_split(v);
        },
        None => {},
    }
    match r.src_pan_id {
        Some(v) => {
            assert(b[o2] == p2[0] && b[o2 + 1] == p2[1]);
            lemma_le16_split(v);
        },
        None => {},
    }
}

/// The length [`AddressingFieldsRepr::buffer_len`] gives for `r` with the
/// Frame Control fields `fc` is the length [`AddressingFields::len`] reads
/// from the Frame Control octets written for `fc`, when `r` gives a PAN ID
/// exactly where those octets make one present; when its addresses are in
/// the modes of `fc`, it is also the number of octets written for `r`.
pub proof fn lemma_buffer_len_matches_reader(r: AddressingFieldsRepr, fc: FrameControlRepr, old: Seq<u8>)
    requires
        old.len() >= 2,
        !(fc.dst_addressing_mode is Unknown),
        !(fc.src_addressing_mode is Unknown),
        spec_flags_of(spec_emit_fc(old, fc)) matches Some(f) && (r.dst_pan_id is Some <==> f.0) && (r.src_pan_id is Some <==> f.2),
    ensures
        spec_addressing_repr_len(r, fc) == spec_fields_len(spec_flags_of(spec_emit_fc(old, fc)).unwrap()),
        spec_repr_fits_flags(r, spec_flags_of(spec_emit_fc(old, fc)).unwrap())
            ==> spec_fields_bytes(r).len() == spec_addressing_repr_len(r, fc),
{
    lemma_frame_control_roundtrip(old, fc);
    let f = spec_flags_of(spec_emit_fc(old, fc)).unwrap();
    assert(f.1 == fc.dst_addressing_mode);
    assert(f.3 == fc.src_addressing_mode);
    if spec_repr_fits_flags(r, f) {
        lemma_address_bytes_len(r.dst_address, f.1);
        lemma_address_bytes_len(r.src_address, f.3);
    }
}

/// The octets of an address in the mode it fits are as many as the mode
/// gives.
proof fn lemma_address_bytes_len(a: Option<Address>, m: AddressingMode)
    requires
        spec_address_fits_mode(a, m),
    ensures
        spec_address_bytes(a).len() == m.spec_size(),
{
}

impl AddressingFieldsRepr {
    /// Parse the Addressing Fields.
    pub fn parse(addressing: AddressingFields<&'_ [u8], &'_ [u8]>) -> (r: Self)
        requires
            addressing.fits(),
        ensures
            spec_addressing_repr_matches(r, addressing.spec_buffer(), addressing.spec_fc()),
    {
        Self {
            dst_pan_id: addressing.dst_pan_id(),
            dst_address: addressing.dst_address(),
            src_pan_id: addressing.src_pan_id(),
            src_address: addressing.src_address(),
        }
    }

    /// Validate the Addressing Fields: a Data frame needs at least one of
    /// them.
    pub fn validate(&self, fc: &FrameControlRepr) -> (r: Result<(), Error>)
        ensures
            r is Err <==> (fc.frame_type is Data && self.dst_pan_id is None && self.dst_address is None
                && self.src_pan_id is None && self.src_address is None),
    {
        if fc.frame_type == FrameType::Data {
            match (self.dst_pan_id, self.dst_address, self.src_pan_id, self.src_address) {
                (None, None, None, None) => {
                    return Err(Error);
                },
                _ => {},
            }
        }
        Ok(())
    }

    /// Return the length of the Addressing Fields in octets, with the
    /// addressing modes of `fc`.
    pub fn buffer_len(&self, fc: &FrameControlRepr) -> (r: usize)
        requires
            !(fc.dst_addressing_mode is Unknown),
            !(fc.src_addressing_mode is Unknown),
        ensures
            r == spec_addressing_repr_len(*self, *fc),
    {
        (match self.dst_pan_id {
            Some(_) => 2,
            None => 0,
        }) + fc.dst_addressing_mode.size() + (match self.src_pan_id {
            Some(_) => 2,
            None => 0,
        }) + fc.src_addressing_mode.size()
    }
}

} // verus!

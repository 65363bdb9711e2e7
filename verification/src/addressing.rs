//! Addresses and the IEEE 802.15.4 Addressing Fields.
use vstd::prelude::*;

use crate::bytes::{le16, read_le16, splice, lemma_splice_splice, write_le16_at, copy_at};
use crate::frame_control::{
    FrameControl, FrameVersion, fc_frame_version, fc_dst_addressing_mode, fc_src_addressing_mode,
    fc_pan_id_compression,
};
use crate::repr::addressing::{AddressingFieldsRepr, spec_fields_bytes, spec_pan_bytes, spec_address_bytes};
use vstd::string::StringSliceAdditionalSpecFns;
use crate::text::{
    spec_split_colon, spec_hex_u8, split_colon, parse_hex_u8, octets_text, octets_hex_text,
    lemma_octets_text_hex, lemma_octets_text_split, lemma_text_nonempty,
};
use crate::Error;

verus! {

/// An IEEE 802.15.4 address.
#[derive(Debug, Eq, Clone, Copy)]
pub enum Address {
    /// The address is absent.
    Absent,
    /// A short address.
    Short([u8; 2]),
    /// An extended address.
    Extended([u8; 8]),
}

impl Address {
    /// The broadcast address, `ff:ff`.
    pub open spec fn spec_broadcast() -> Address {
        Address::Short([0xff, 0xff])
    }

    /// The broadcast address, `ff:ff`.
    pub fn broadcast() -> (r: Address)
        ensures
            r == Address::spec_broadcast(),
    {
        Address::Short([0xff, 0xff])
    }

    /// The octets of the address.
    pub open spec fn spec_bytes(self) -> Seq<u8> {
        match self {
            Address::Absent => seq![],
            Address::Short(v) => v@,
            Address::Extended(v) => v@,
        }
    }

    /// Query whether this address is the broadcast address.
    pub fn is_broadcast(&self) -> (r: bool)
        ensures
            r == (*self == Address::spec_broadcast()),
    {
        *self == Self::broadcast()
    }

    /// The addressing mode matching the kind of this address.
    pub open spec fn spec_mode(self) -> AddressingMode {
        match self {
            Address::Absent => AddressingMode::Absent,
            Address::Short(_) => AddressingMode::Short,
            Address::Extended(_) => AddressingMode::Extended,
        }
    }

    /// Query whether the address is an unicast address.
    pub fn is_unicast(&self) -> (r: bool)
        ensures
            r == (*self != Address::spec_broadcast()),
    {
        !self.is_broadcast()
    }

    /// Create an [`Address`] from a slice of 0, 2 or 8 bytes.
    pub fn from(a: &[u8]) -> (r: Self)
        requires
            a@.len() == 0 || a@.len() == 2 || a@.len() == 8,
        ensures
            r.spec_bytes() == a@,
            a@.len() == 0 ==> r is Absent,
            a@.len() == 2 ==> r is Short,
            a@.len() == 8 ==> r is Extended,
    {
        if a.len() == 0 {
            Address::Absent
        } else if a.len() == 2 {
            let b = [a[0], a[1]];
            assert(b@ =~= a@);
            Address::Short(b)
        } else {
            let b = [a[0], a[1], a[2], a[3], a[4], a[5], a[6], a[7]];
            assert(b@ =~= a@);
            Address::Extended(b)
        }
    }

    /// Return the short address form of the address: the address itself when
    /// short, the first two octets of an extended address, `None` when absent.
    pub fn to_short(&self) -> (r: Option<Self>)
        ensures
            match *self {
                Address::Absent => r is None,
                Address::Short(_) => r == Some(*self),
                Address::Extended(v) => r matches Some(Address::Short(s)) && s@ == v@.subrange(0, 2),
            },
    {
        match self {
            Address::Short(_) => Some(*self),
            Address::Extended(value) => {
                let raw = [value[0], value[1]];
                assert(raw@ =~= value@.subrange(0, 2));
                Some(Address::Short(raw))
            },
            Address::Absent => None,
        }
    }

    /// Return the length of the address in octets.
    #[allow(clippy::len_without_is_empty)]
    pub fn len(&self) -> (r: usize)
        ensures
            r == self.spec_bytes().len(),
            r == self.spec_mode().spec_size(),
    {
        match self {
            Address::Absent => 0,
            Address::Short(_) => 2,
            Address::Extended(_) => 8,
        }
    }

    /// Query whether the address is absent.
    pub fn is_absent(&self) -> (r: bool)
        ensures
            r == (*self is Absent),
    {
        matches!(self, Address::Absent)
    }

    /// Query whether the address is short.
    pub fn is_short(&self) -> (r: bool)
        ensures
            r == (*self is Short),
    {
        matches!(self, Address::Short(_))
    }

    /// Query whether the address is extended.
    pub fn is_extended(&self) -> (r: bool)
        ensures
            r == (*self is Extended),
    {
        matches!(self, Address::Extended(_))
    }

    /// The addressing mode matching the kind of this address.
    pub fn mode(&self) -> (r: AddressingMode)
        ensures
            r == self.spec_mode(),
    {
        match self {
            Address::Absent => AddressingMode::Absent,
            Address::Short(_) => AddressingMode::Short,
            Address::Extended(_) => AddressingMode::Extended,
        }
    }

    /// Return the address as a slice of bytes.
    pub fn as_bytes(&self) -> (r: &[u8])
        ensures
            r@ == self.spec_bytes(),
    {
        match self {
            Address::Absent => &[],
            Address::Short(value) => value.as_slice(),
            Address::Extended(value) => value.as_slice(),
        }
    }

    /// The text of the address as it is printed: `absent`, or its octets in
    /// lower-case hexadecimal, two digits each, separated by colons.
    pub fn text(&self) -> (r: Vec<u8>)
        ensures
            r@ == spec_address_text(*self),
    {
        match self {
            Address::Absent => {
                let r: Vec<u8> = vec![0x61u8, 0x62, 0x73, 0x65, 0x6e, 0x74];
                assert(r@ =~= spec_address_text(*self));
                r
            },
            _ => octets_hex_text(self.as_bytes()),
        }
    }

    /// Parse an address from its text: the empty text is the absent
    /// address; two or eight octets in hexadecimal, separated by colons, are
    /// a short or an extended address. Any other number of parts is an
    /// error.
    pub fn parse(s: &str) -> (r: Result<Address, Error>)
        requires
            spec_address_text_ok(s.spec_bytes()),
        ensures
            spec_parse_result(s.spec_bytes(), r),
    {
        let b = s.as_bytes();
        if b.len() == 0 {
            return Ok(Address::Absent);
        }
        let parts = split_colon(b);
        let ghost sp = spec_split_colon(b@);
        assert(parts@.map_values(|v: Vec<u8>| v@) == sp);
        if parts.len() == 2 {
            assert(parts[0]@ == sp[0]);
            assert(parts[1]@ == sp[1]);
            let a = [parse_hex_u8(parts[0].as_slice()), parse_hex_u8(parts[1].as_slice())];
            assert(a@[0] == a[0] && a@[1] == a[1]);
            Ok(Address::Short(a))
        } else if parts.len() == 8 {
            let mut a = [0u8; 8];
            let mut k: usize = 0;
            while k < 8
                invariant
                    k <= 8,
                    parts@.len() == 8,
                    parts@.map_values(|v: Vec<u8>| v@) == sp,
                    forall|j: int| 0 <= j < 8 ==> spec_hex_u8(sp[j]) is Some,
                    forall|j: int| 0 <= j < k ==> Some(#[trigger] a@[j]) == spec_hex_u8(sp[j]),
                decreases 8 - k,
            {
                assert(parts[k as int]@ == sp[k as int]);
                let v = parse_hex_u8(parts[k].as_slice());
                a[k] = v;
                k = k + 1;
            }
            Ok(Address::Extended(a))
        } else {
            Err(Error)
        }
    }
}

/// `r` is what [`Address::parse`] gives for the text `b`: the absent
/// address for the empty text; for two or eight parts, a short or an
/// extended address whose octets are the parts read in hexadecimal; an
/// error for any other number of parts.
pub open spec fn spec_parse_result(b: Seq<u8>, r: Result<Address, Error>) -> bool {
    let parts = spec_split_colon(b);
    &&& b.len() == 0 ==> r == Ok::<Address, Error>(Address::Absent)
    &&& b.len() > 0 && parts.len() == 2 ==> (r matches Ok(Address::Short(a))
        && forall|k: int| 0 <= k < 2 ==> Some(#[trigger] a@[k]) == spec_hex_u8(parts[k]))
    &&& b.len() > 0 && parts.len() == 8 ==> (r matches Ok(Address::Extended(a))
        && forall|k: int| 0 <= k < 8 ==> Some(#[trigger] a@[k]) == spec_hex_u8(parts[k]))
    &&& b.len() > 0 && parts.len() != 2 && parts.len() != 8 ==> r is Err
}

/// The text of the address `a` as it is printed: `absent`, or its octets
/// in lower-case hexadecimal separated by colons.
pub open spec fn spec_address_text(a: Address) -> Seq<u8> {
    match a {
        Address::Absent => seq![0x61u8, 0x62, 0x73, 0x65, 0x6e, 0x74],
        _ => octets_text(a.spec_bytes()),
    }
}

/// A printed address that is not absent parses back as the same address.
pub proof fn lemma_address_text_parses_back(a: Address, r: Result<Address, Error>)
    requires
        !(a is Absent),
        spec_parse_result(spec_address_text(a), r),
    ensures
        spec_address_text_ok(spec_address_text(a)),
        r == Ok::<Address, Error>(a),
{
    let s = a.spec_bytes();
    let t = spec_address_text(a);
    assert(t == octets_text(s));
    lemma_octets_text_hex(s);
    lemma_octets_text_split(s);
    let parts = spec_split_colon(t);
    lemma_text_nonempty(s);
    match a {
        Address::Short(v) => {
            let w = r->Ok_0->Short_0;
            assert(w@ =~= v@) by {
                assert(forall|k: int| 0 <= k < 2 ==> Some(#[trigger] w@[k]) == spec_hex_u8(parts[k]));
            }
            assert(w == v);
        },
        Address::Extended(v) => {
            let w = r->Ok_0->Extended_0;
            assert(w@ =~= v@) by {
                assert(forall|k: int| 0 <= k < 8 ==> Some(#[trigger] w@[k]) == spec_hex_u8(parts[k]));
            }
            assert(w == v);
        },
        Address::Absent => {},
    }
}

/// The text `b` is one that [`Address::parse`] reads without failing on
/// a part: it is empty, or has neither two nor eight parts, or each of its
/// parts is an octet in hexadecimal.
pub open spec fn spec_address_text_ok(b: Seq<u8>) -> bool {
    let parts = spec_split_colon(b);
    b.len() == 0 || (parts.len() != 2 && parts.len() != 8) || forall|k: int| 0 <= k < parts.len() ==> (#[trigger] spec_hex_u8(parts[k])) is Some
}

impl PartialEq for Address {
    fn eq(&self, other: &Address) -> (r: bool) {
        broadcast use vstd::array::group_array_axioms;

        match (self, other) {
            (Address::Absent, Address::Absent) => true,
            (Address::Short(a), Address::Short(b)) => {
                let r = a[0] == b[0] && a[1] == b[1];
                if r {
                    assert(*a =~= *b);
                } else {
                    assert(a@[0] != b@[0] || a@[1] != b@[1]);
                }
                r
            },
            (Address::Extended(a), Address::Extended(b)) => {
                let mut i: usize = 0;
                while i < 8
                    invariant
                        i <= 8,
                        *self == Address::Extended(*a),
                        *other == Address::Extended(*b),
                        forall|j: int| 0 <= j < i ==> a[j] == b[j],
                    decreases 8 - i,
                {
                    if a[i] != b[i] {
                        assert(a[i as int] != b[i as int]);
                        assert(!(*a =~= *b));
                        return false;
                    }
                    i = i + 1;
                }
                assert(*a =~= *b);
                true
            },
            _ => false,
        }
    }
}

impl vstd::std_specs::cmp::PartialEqSpecImpl for Address {
    open spec fn obeys_eq_spec() -> bool {
        true
    }

    open spec fn eq_spec(&self, other: &Address) -> bool {
        *self == *other
    }
}

/// IEEE 802.15.4 addressing mode.
#[derive(Debug, Eq, PartialEq, Clone, Copy, Structural)]
pub enum AddressingMode {
    /// The address is absent.
    Absent,
    /// The address is a short address.
    Short,
    /// The address is an extended address.
    Extended,
    /// Unknown addressing mode.
    Unknown,
}

/// The addressing modes are the numbers of the standard's addressing mode
/// fields: absent is `0b00`, short `0b10` and extended `0b11`; each is read
/// from exactly that value and written as it.
pub proof fn lemma_addressing_mode_numbers(v: u8)
    ensures
        AddressingMode::spec_from_bits(v) is Absent <==> v == 0,
        AddressingMode::spec_from_bits(v) is Short <==> v == 2,
        AddressingMode::spec_from_bits(v) is Extended <==> v == 3,
        AddressingMode::Absent.spec_bits() == 0,
        AddressingMode::Short.spec_bits() == 2,
        AddressingMode::Extended.spec_bits() == 3,
{
}

impl AddressingMode {
    /// The size of an address in this mode, in octets.
    pub open spec fn spec_size(self) -> nat {
        match self {
            AddressingMode::Short => 2,
            AddressingMode::Extended => 8,
            _ => 0,
        }
    }

    /// Return the size of the address in octets.
    pub fn size(&self) -> (r: usize)
        ensures
            r == self.spec_size(),
    {
        match self {
            Self::Absent => 0,
            Self::Short => 2,
            Self::Extended => 8,
            Self::Unknown => 0,
        }
    }

    /// The addressing mode encoded by the two bits `v`.
    pub open spec fn spec_from_bits(v: u8) -> AddressingMode {
        match v {
            0 => AddressingMode::Absent,
            2 => AddressingMode::Short,
            3 => AddressingMode::Extended,
            _ => AddressingMode::Unknown,
        }
    }

    /// The two bits that encode this mode (the reserved `0b01` for
    /// [`AddressingMode::Unknown`]).
    pub open spec fn spec_bits(self) -> u8 {
        match self {
            AddressingMode::Absent => 0,
            AddressingMode::Unknown => 1,
            AddressingMode::Short => 2,
            AddressingMode::Extended => 3,
        }
    }

    /// The two bits that encode this mode.
    pub fn bits(&self) -> (r: u8)
        ensures
            r == self.spec_bits(),
            r < 4,
    {
        match self {
            AddressingMode::Absent => 0,
            AddressingMode::Unknown => 1,
            AddressingMode::Short => 2,
            AddressingMode::Extended => 3,
        }
    }
}

impl From<u8> for AddressingMode {
    fn from(value: u8) -> (r: Self) {
        match value {
            0b00 => Self::Absent,
            0b10 => Self::Short,
            0b11 => Self::Extended,
            _ => Self::Unknown,
        }
    }
}

impl vstd::std_specs::convert::FromSpecImpl<u8> for AddressingMode {
    open spec fn obeys_from_spec() -> bool {
        true
    }

    open spec fn from_spec(v: u8) -> Self {
        AddressingMode::spec_from_bits(v)
    }
}


impl From<Address> for AddressingMode {
    fn from(value: Address) -> (r: Self) {
        match value {
            Address::Absent => AddressingMode::Absent,
            Address::Short(_) => AddressingMode::Short,
            Address::Extended(_) => AddressingMode::Extended,
        }
    }
}

impl vstd::std_specs::convert::FromSpecImpl<Address> for AddressingMode {
    open spec fn obeys_from_spec() -> bool {
        true
    }

    open spec fn from_spec(v: Address) -> Self {
        v.spec_mode()
    }
}

/// Which Addressing Fields are present: (destination PAN ID present,
/// destination addressing mode, source PAN ID present, source addressing mode).
pub type PresentFlags = (bool, AddressingMode, bool, AddressingMode);

/// The fields that are present for a frame version, addressing modes and PAN ID
/// compression bit; `None` for a combination the standard does not allow.
pub open spec fn spec_present_flags(
    version: FrameVersion,
    dst: AddressingMode,
    src: AddressingMode,
    compression: bool,
) -> Option<PresentFlags> {
    let short_or_ext = |m: AddressingMode| m is Short || m is Extended;
    match version {
        FrameVersion::Ieee802154_2003 | FrameVersion::Ieee802154_2006 => {
            if short_or_ext(dst) && short_or_ext(src) {
                Some((true, dst, !compression, src))
            } else if dst is Absent && short_or_ext(src) && !compression {
                Some((false, AddressingMode::Absent, true, src))
            } else if short_or_ext(dst) && src is Absent && !compression {
                Some((true, dst, false, AddressingMode::Absent))
            } else {
                None
            }
        },
        FrameVersion::Ieee802154_2020 => {
            if dst is Absent && src is Absent {
                Some((compression, AddressingMode::Absent, false, AddressingMode::Absent))
            } else if src is Absent {
                Some((!compression, dst, false, AddressingMode::Absent))
            } else if dst is Absent {
                Some((false, AddressingMode::Absent, !compression, src))
            } else if dst is Extended && src is Extended {
                Some((!compression, dst, false, src))
            } else if short_or_ext(dst) && short_or_ext(src) {
                Some((true, dst, !compression, src))
            } else {
                None
            }
        },
        FrameVersion::Unknown => None,
    }
}

/// The present fields described by the Frame Control bytes `fc`.
pub open spec fn spec_flags_of(fc: Seq<u8>) -> Option<PresentFlags> {
    spec_present_flags(
        fc_frame_version(fc),
        fc_dst_addressing_mode(fc),
        fc_src_addressing_mode(fc),
        fc_pan_id_compression(fc),
    )
}

/// The number of octets the present fields `f` take.
pub open spec fn spec_fields_len(f: PresentFlags) -> nat {
    (if f.0 { 2nat } else { 0nat }) + f.1.spec_size() + (if f.2 { 2nat } else { 0nat }) + f.3.spec_size()
}

/// Offset of the destination address.
pub open spec fn spec_dst_addr_offset(f: PresentFlags) -> int {
    if f.0 { 2 } else { 0 }
}

/// Offset of the source PAN ID.
pub open spec fn spec_src_pan_offset(f: PresentFlags) -> int {
    spec_dst_addr_offset(f) + f.1.spec_size()
}

/// Offset of the source address.
pub open spec fn spec_src_addr_offset(f: PresentFlags) -> int {
    spec_src_pan_offset(f) + if f.2 { 2int } else { 0int }
}

/// `r` is the address of mode `mode` stored at `off` in `b` (octets in reverse
/// order: the most significant octet is stored last).
pub open spec fn is_address_at(r: Option<Address>, b: Seq<u8>, off: int, mode: AddressingMode) -> bool {
    match mode {
        AddressingMode::Absent => r == Some(Address::Absent),
        AddressingMode::Short => r matches Some(Address::Short(a)) && a@ == b.subrange(off, off + 2).reverse(),
        AddressingMode::Extended => r matches Some(Address::Extended(a)) && a@ == b.subrange(off, off + 8).reverse(),
        AddressingMode::Unknown => r is None,
    }
}

/// The destination PAN ID stored in `b` for present fields `f`.
pub open spec fn spec_dst_pan_id(b: Seq<u8>, f: Option<PresentFlags>) -> Option<u16> {
    match f {
        Some(f) => if f.0 { Some(le16(b[0], b[1])) } else { None },
        None => None,
    }
}

/// The source PAN ID stored in `b` for present fields `f`.
pub open spec fn spec_src_pan_id(b: Seq<u8>, f: Option<PresentFlags>) -> Option<u16> {
    match f {
        Some(f) => if f.2 {
            let o = spec_src_pan_offset(f);
            Some(le16(b[o], b[o + 1]))
        } else {
            None
        },
        None => None,
    }
}

/// A reader/writer for the IEEE 802.15.4 Addressing Fields.
pub struct AddressingFields<T, FC> {
    buffer: T,
    fc: FrameControl<FC>,
}

impl<T: View<V = Seq<u8>>, FC: View<V = Seq<u8>>> AddressingFields<T, FC> {
    /// The bytes of the Addressing Fields.
    pub closed spec fn spec_buffer(&self) -> Seq<u8> {
        self.buffer@
    }

    /// The bytes of the Frame Control field the fields are read with.
    pub closed spec fn spec_fc(&self) -> Seq<u8> {
        self.fc@
    }

    /// The present fields.
    pub open spec fn spec_flags(&self) -> Option<PresentFlags> {
        spec_flags_of(self.spec_fc())
    }

    /// The frame control holds two octets and, where the fields are valid,
    /// the buffer holds all of them.
    pub open spec fn fits(&self) -> bool {
        &&& self.spec_fc().len() >= 2
        &&& (self.spec_flags() matches Some(f) ==> self.spec_buffer().len() >= spec_fields_len(f))
    }
}

/// Compute the present fields (see [`spec_present_flags`]).
pub fn address_present_flags(
    frame_version: FrameVersion,
    dst_addr_mode: AddressingMode,
    src_addr_mode: AddressingMode,
    pan_id_compression: bool,
) -> (r: Option<PresentFlags>)
    ensures
        r == spec_present_flags(frame_version, dst_addr_mode, src_addr_mode, pan_id_compression),
{
    match frame_version {
        FrameVersion::Ieee802154_2003 | FrameVersion::Ieee802154_2006 => {
            match (dst_addr_mode, src_addr_mode, pan_id_compression) {
                (AddressingMode::Short, AddressingMode::Short, false) | (AddressingMode::Short, AddressingMode::Extended, false) | (AddressingMode::Extended, AddressingMode::Short, false) | (AddressingMode::Extended, AddressingMode::Extended, false) => {
                    Some((true, dst_addr_mode, true, src_addr_mode))
                },
                (AddressingMode::Short, AddressingMode::Short, true) | (AddressingMode::Short, AddressingMode::Extended, true) | (AddressingMode::Extended, AddressingMode::Short, true) | (AddressingMode::Extended, AddressingMode::Extended, true) => {
                    Some((true, dst_addr_mode, false, src_addr_mode))
                },
                (AddressingMode::Absent, AddressingMode::Short, false) | (AddressingMode::Absent, AddressingMode::Extended, false) => Some((false, AddressingMode::Absent, true, src_addr_mode)),
                (AddressingMode::Short, AddressingMode::Absent, false) | (AddressingMode::Extended, AddressingMode::Absent, false) => Some((true, dst_addr_mode, false, AddressingMode::Absent)),
                _ => None,
            }
        },
        FrameVersion::Ieee802154_2020 => {
            match (dst_addr_mode, src_addr_mode, pan_id_compression) {
                (AddressingMode::Absent, AddressingMode::Absent, false) => Some((false, AddressingMode::Absent, false, AddressingMode::Absent)),
                (AddressingMode::Absent, AddressingMode::Absent, true) => Some((true, AddressingMode::Absent, false, AddressingMode::Absent)),
                (dst, AddressingMode::Absent, false) => Some((true, dst, false, AddressingMode::Absent)),
                (dst, AddressingMode::Absent, true) => Some((false, dst, false, AddressingMode::Absent)),
                (AddressingMode::Absent, src, false) => Some((false, AddressingMode::Absent, true, src)),
                (AddressingMode::Absent, src, true) => Some((false, AddressingMode::Absent, false, src)),
                (AddressingMode::Extended, AddressingMode::Extended, false) => Some((true, AddressingMode::Extended, false, AddressingMode::Extended)),
                (AddressingMode::Extended, AddressingMode::Extended, true) => Some((false, AddressingMode::Extended, false, AddressingMode::Extended)),
                (AddressingMode::Short, AddressingMode::Short, false) => Some((true, AddressingMode::Short, true, AddressingMode::Short)),
                (AddressingMode::Short, AddressingMode::Extended, false) => Some((true, AddressingMode::Short, true, AddressingMode::Extended)),
                (AddressingMode::Extended, AddressingMode::Short, false) => Some((true, AddressingMode::Extended, true, AddressingMode::Short)),
                (AddressingMode::Short, AddressingMode::Extended, true) => Some((true, AddressingMode::Short, false, AddressingMode::Extended)),
                (AddressingMode::Extended, AddressingMode::Short, true) => Some((true, AddressingMode::Extended, false, AddressingMode::Short)),
                (AddressingMode::Short, AddressingMode::Short, true) => Some((true, AddressingMode::Short, false, AddressingMode::Short)),
                _ => None,
            }
        },
        _ => None,
    }
}

/// Read the address of mode `mode` at `offset`.
fn read_address(b: &[u8], offset: usize, mode: AddressingMode) -> (r: Option<Address>)
    requires
        offset + mode.spec_size() <= b.len(),
    ensures
        is_address_at(r, b@, offset as int, mode),
{
    match mode {
        AddressingMode::Absent => Some(Address::Absent),
        AddressingMode::Short => {
            let raw = [b[offset + 1], b[offset]];
            assert(raw@ =~= b@.subrange(offset as int, offset + 2).reverse());
            Some(Address::Short(raw))
        },
        AddressingMode::Extended => {
            let raw = [
                b[offset + 7],
                b[offset + 6],
                b[offset + 5],
                b[offset + 4],
                b[offset + 3],
                b[offset + 2],
                b[offset + 1],
                b[offset],
            ];
            assert(raw@ =~= b@.subrange(offset as int, offset + 8).reverse());
            Some(Address::Extended(raw))
        },
        AddressingMode::Unknown => None,
    }
}

impl<'a, 'b> AddressingFields<&'a [u8], &'b [u8]> {
    /// Create a new [`AddressingFields`] reader from a given buffer; fails when
    /// the Frame Control describes an invalid combination of fields or the
    /// buffer is too short to hold the fields.
    pub fn new(buffer: &'a [u8], fc: FrameControl<&'b [u8]>) -> (r: Result<Self, Error>)
        requires
            fc@.len() >= 2,
        ensures
            r is Ok <==> (spec_flags_of(fc@) matches Some(f) && buffer@.len() >= spec_fields_len(f)),
            r matches Ok(af) ==> af.spec_buffer() == buffer@ && af.spec_fc() == fc@ && af.fits(),
    {
        let af = Self::new_unchecked(buffer, fc);
        if !af.check_len() {
            return Err(Error);
        }
        Ok(af)
    }

    /// Check if the buffer is large enough to contain the addressing fields.
    fn check_len(&self) -> (r: bool)
        requires
            self.spec_fc().len() >= 2,
        ensures
            r == (self.spec_flags() matches Some(f) && self.spec_buffer().len() >= spec_fields_len(f)),
    {
        let Some((dst_pan_id_present, dst_addr_mode, src_pan_id_present, src_addr_mode)) =
            address_present_flags(
            self.fc.frame_version(),
            self.fc.dst_addressing_mode(),
            self.fc.src_addressing_mode(),
            self.fc.pan_id_compression(),
        ) else {
            return false;
        };
        let expected_len = (if dst_pan_id_present { 2 } else { 0 }) + dst_addr_mode.size() + (
        if src_pan_id_present { 2 } else { 0 }) + src_addr_mode.size();
        self.buffer.len() >= expected_len
    }

    /// Create a new [`AddressingFields`] reader without checking the length.
    pub fn new_unchecked(buffer: &'a [u8], fc: FrameControl<&'b [u8]>) -> (r: Self)
        ensures
            r.spec_buffer() == buffer@,
            r.spec_fc() == fc@,
    {
        Self { buffer, fc }
    }

    fn flags(&self) -> (r: Option<PresentFlags>)
        requires
            self.spec_fc().len() >= 2,
        ensures
            r == self.spec_flags(),
    {
        address_present_flags(
            self.fc.frame_version(),
            self.fc.dst_addressing_mode(),
            self.fc.src_addressing_mode(),
            self.fc.pan_id_compression(),
        )
    }

    /// Return the length of the Addressing Fields in octets.
    #[allow(clippy::len_without_is_empty)]
    pub fn len(&self) -> (r: usize)
        requires
            self.fits(),
            !(fc_dst_addressing_mode(self.spec_fc()) is Unknown),
            !(fc_src_addressing_mode(self.spec_fc()) is Unknown),
        ensures
            r == (if spec_dst_pan_id(self.spec_buffer(), self.spec_flags()) is Some { 2nat } else { 0nat })
                + fc_dst_addressing_mode(self.spec_fc()).spec_size()
                + (if spec_src_pan_id(self.spec_buffer(), self.spec_flags()) is Some { 2nat } else { 0nat })
                + fc_src_addressing_mode(self.spec_fc()).spec_size(),
            self.spec_flags() matches Some(f) ==> r == spec_fields_len(f),
    {
        let d = if self.dst_pan_id().is_some() { 2 } else { 0 };
        let s = if self.src_pan_id().is_some() { 2 } else { 0 };
        d + self.fc.dst_addressing_mode().size() + s + self.fc.src_addressing_mode().size()
    }

    /// Return the IEEE 802.15.4 destination [`Address`] if not absent.
    pub fn dst_address(&self) -> (r: Option<Address>)
        requires
            self.fits(),
        ensures
            match self.spec_flags() {
                None => r is None,
                Some(f) => is_address_at(r, self.spec_buffer(), spec_dst_addr_offset(f), f.1),
            },
    {
        match self.flags() {
            Some((dst_pan_id, dst_addr, _, _)) => {
                let offset = if dst_pan_id { 2 } else { 0 };
                read_address(self.buffer, offset, dst_addr)
            },
            None => None,
        }
    }

    /// Return the IEEE 802.15.4 source [`Address`] if not absent.
    pub fn src_address(&self) -> (r: Option<Address>)
        requires
            self.fits(),
        ensures
            match self.spec_flags() {
                None => r is None,
                Some(f) => is_address_at(r, self.spec_buffer(), spec_src_addr_offset(f), f.3),
            },
    {
        match self.flags() {
            Some((dst_pan_id, dst_addr, src_pan_id, src_addr)) => {
                let mut offset = if dst_pan_id { 2 } else { 0 };
                offset += dst_addr.size();
                offset += if src_pan_id { 2 } else { 0 };
                read_address(self.buffer, offset, src_addr)
            },
            None => None,
        }
    }

    /// Return the IEEE 802.15.4 destination PAN ID if not elided.
    pub fn dst_pan_id(&self) -> (r: Option<u16>)
        requires
            self.fits(),
        ensures
            r == spec_dst_pan_id(self.spec_buffer(), self.spec_flags()),
    {
        match self.flags() {
            Some((true, _, _, _)) => Some(read_le16(self.buffer, 0)),
            _ => None,
        }
    }

    /// Return the IEEE 802.15.4 source PAN ID if not elided.
    pub fn src_pan_id(&self) -> (r: Option<u16>)
        requires
            self.fits(),
        ensures
            r == spec_src_pan_id(self.spec_buffer(), self.spec_flags()),
    {
        match self.flags() {
            Some((dst_pan_id, dst_addr, true, _)) => {
                let mut offset = if dst_pan_id { 2 } else { 0 };
                offset += dst_addr.size();
                Some(read_le16(self.buffer, offset))
            },
            _ => None,
        }
    }
}

impl<FC: View<V = Seq<u8>>> AddressingFields<Vec<u8>, FC> {
    /// Create a new [`AddressingFields`] writer owning its buffer.
    pub fn new_owned(buffer: Vec<u8>, fc: FrameControl<FC>) -> (r: Self)
        ensures
            r.spec_buffer() == buffer@,
            r.spec_fc() == fc@,
    {
        Self { buffer, fc }
    }

    /// The bytes of the Addressing Fields.
    pub fn as_bytes(&self) -> (r: &[u8])
        ensures
            r@ == self.spec_buffer(),
    {
        self.buffer.as_slice()
    }

    /// Write the addressing fields to the buffer: the destination PAN ID,
    /// destination address, source PAN ID and source address that are
    /// present, in that order, PAN IDs little-endian, addresses with their
    /// octets reversed.
    pub fn write_fields(&mut self, fields: &AddressingFieldsRepr)
        requires
            spec_fields_bytes(*fields).len() <= old(self).spec_buffer().len(),
        ensures
            final(self).spec_fc() == old(self).spec_fc(),
            final(self).spec_buffer() == splice(old(self).spec_buffer(), 0, spec_fields_bytes(*fields)),
    {
        write_fields_into(self.buffer.as_mut_slice(), 0, fields);
    }
}

/// Write `fields` at `offset` in `b` (see [`AddressingFields::write_fields`]).
pub fn write_fields_into(b: &mut [u8], offset: usize, fields: &AddressingFieldsRepr)
    requires
        offset + spec_fields_bytes(*fields).len() <= old(b)@.len(),
    ensures
        final(b)@ == splice(old(b)@, offset as int, spec_fields_bytes(*fields)),
{
    let ghost s0 = b@;
    let _len = b.len();
    let ghost p1 = spec_pan_bytes(fields.dst_pan_id);
    let ghost p2 = spec_address_bytes(fields.dst_address);
    let ghost p3 = spec_pan_bytes(fields.src_pan_id);
    let ghost p4 = spec_address_bytes(fields.src_address);
    let mut off = offset;
    write_pan(b, off, fields.dst_pan_id);
    off = off + pan_len(fields.dst_pan_id);
    write_address(b, off, &fields.dst_address);
    proof {
        lemma_splice_splice(s0, offset as int, p1, p2);
    }
    off = off + address_len(&fields.dst_address);
    write_pan(b, off, fields.src_pan_id);
    proof {
        lemma_splice_splice(s0, offset as int, p1 + p2, p3);
    }
    off = off + pan_len(fields.src_pan_id);
    write_address(b, off, &fields.src_address);
    proof {
        lemma_splice_splice(s0, offset as int, p1 + p2 + p3, p4);
    }
}

fn pan_len(id: Option<u16>) -> (r: usize)
    ensures
        r == spec_pan_bytes(id).len(),
{
    match id {
        Some(_) => 2,
        None => 0,
    }
}

/// Write an optional little-endian PAN ID at `off`.
fn write_pan(b: &mut [u8], off: usize, id: Option<u16>)
    requires
        off + spec_pan_bytes(id).len() <= old(b)@.len(),
    ensures
        final(b)@ == splice(old(b)@, off as int, spec_pan_bytes(id)),
{
    match id {
        Some(v) => write_le16_at(b, off, v),
        None => {
            assert(b@ =~= splice(b@, off as int, spec_pan_bytes(id)));
        },
    }
}

fn address_len(a: &Option<Address>) -> (r: usize)
    ensures
        r == spec_address_bytes(*a).len(),
{
    match a {
        Some(a) => a.len(),
        None => 0,
    }
}

/// Write an optional address with its octets reversed at `off`.
fn write_address(b: &mut [u8], off: usize, a: &Option<Address>)
    requires
        off + spec_address_bytes(*a).len() <= old(b)@.len(),
    ensures
        final(b)@ == splice(old(b)@, off as int, spec_address_bytes(*a)),
{
    match a {
        Some(a) => {
            let r = reversed(a);
            copy_at(b, off, r.as_slice());
        },
        None => {
            assert(b@ =~= splice(b@, off as int, spec_address_bytes(*a)));
        },
    }
}

/// The octets of an address in reverse order.
fn reversed(a: &Address) -> (r: Vec<u8>)
    ensures
        r@ == a.spec_bytes().reverse(),
{
    let bytes = a.as_bytes();
    let n = bytes.len();
    let mut r: Vec<u8> = Vec::new();
    let mut i: usize = 0;
    while i < n
        invariant
            n == bytes@.len(),
            i <= n,
            r@ =~= bytes@.reverse().subrange(0, i as int),
        decreases n - i,
    {
        r.push(bytes[n - 1 - i]);
        i = i + 1;
    }
    r
}

} // verus!

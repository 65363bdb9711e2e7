//! Frames followed by their Frame Check Sequence.
use vstd::prelude::*;

use crate::bytes::{le16, lemma_le16_split, read_le16};
use crate::frame_control::fc_frame_type;
use crate::frames::frame::{spec_is_legacy, spec_new_kind, Frame};
use crate::Error;

verus! {

/// The CRC register `c` after `n` more bits are shifted out of it, least
/// significant bit first, with the polynomial x^16 + x^12 + x^5 + 1 in
/// reflected form (0x8408).
pub open spec fn crc16_kermit_bits(c: u16, n: nat) -> u16
    decreases n,
{
    if n == 0 {
        c
    } else {
        crc16_kermit_bits(if c & 1 == 1 { (c >> 1u16) ^ 0x8408 } else { c >> 1u16 }, (n - 1) as nat)
    }
}

/// The CRC register `c` after the octet `b` is processed.
pub open spec fn crc16_kermit_byte(c: u16, b: u8) -> u16 {
    crc16_kermit_bits(c ^ (b as u16), 8)
}

/// The 16-bit ITU-T CRC of `data` that the Frame Check Sequence holds:
/// polynomial x^16 + x^12 + x^5 + 1, octets processed least significant
/// bit first, initial value 0x0000, no final reflection or xor (the
/// catalogued CRC-16/KERMIT).
pub open spec fn crc16_kermit(data: Seq<u8>) -> u16
    decreases data.len(),
{
    if data.len() == 0 {
        0
    } else {
        crc16_kermit_byte(crc16_kermit(data.drop_last()), data.last())
    }
}

/// `crc::Crc::<u16>::new(&crc::CRC_16_KERMIT).checksum(data)`: the crate
/// computes the CRC-16/KERMIT of `data` (width 16, polynomial 0x1021,
/// initial value 0, reflected input and output, no final xor), which is
/// [`crc16_kermit`].
#[verifier::external_body]
fn checksum_kermit(data: &[u8]) -> (r: u16)
    ensures
        r == crc16_kermit(data@),
{
    crc::Crc::<u16>::new(&crc::CRC_16_KERMIT).checksum(data)
}

/// The content of the frame `b`: all but the last two octets.
pub open spec fn spec_content(b: Seq<u8>) -> Seq<u8> {
    b.subrange(0, b.len() - 2)
}

/// The Frame Check Sequence field of `b`: its last two octets,
/// little-endian.
pub open spec fn spec_fcs(b: Seq<u8>) -> u16 {
    le16(b[b.len() - 2], b[b.len() - 1])
}

/// The frame `b` ends with the Frame Check Sequence of its content.
pub open spec fn spec_fcs_valid(b: Seq<u8>) -> bool {
    b.len() >= 2 && crc16_kermit(spec_content(b)) == spec_fcs(b)
}

/// A reader for an IEEE 802.15.4 frame followed by its Frame Check
/// Sequence (FCS).
#[derive(Debug)]
pub struct FrameWithFcs<T> {
    buffer: T,
}

impl<T: View<V = Seq<u8>>> View for FrameWithFcs<T> {
    type V = Seq<u8>;

    closed spec fn view(&self) -> Seq<u8> {
        self.buffer@
    }
}

impl<'a> FrameWithFcs<&'a [u8]> {
    /// Create a new [`FrameWithFcs`]; fails unless the buffer holds at least
    /// two octets and ends with the Frame Check Sequence of the rest.
    pub fn new(buffer: &'a [u8]) -> (r: Result<Self, Error>)
        ensures
            r is Ok <==> spec_fcs_valid(buffer@),
            r matches Ok(f) ==> f@ == buffer@,
    {
        let frame = Self::new_unchecked(buffer);
        if !frame.check_len() {
            return Err(Error);
        }
        if !frame.check_fcs() {
            return Err(Error);
        }
        Ok(frame)
    }

    /// Check the length of the frame: at least two octets.
    pub fn check_len(&self) -> (r: bool)
        ensures
            r == (self@.len() >= 2),
    {
        self.buffer.len() >= 2
    }

    /// Calculate the Frame Check Sequence of the content of the frame.
    pub fn calculate_fcs(&self) -> (r: u16)
        requires
            self@.len() >= 2,
        ensures
            r == crc16_kermit(spec_content(self@)),
    {
        checksum_kermit(self.content())
    }

    /// Returns `true` when the Frame Check Sequence field holds `fcs`.
    pub fn fcs_is(&self, fcs: u16) -> (r: bool)
        requires
            self@.len() >= 2,
        ensures
            r == (fcs == spec_fcs(self@)),
    {
        fcs == self.fcs()
    }

    /// Check the Frame Check Sequence of the frame.
    pub fn check_fcs(&self) -> (r: bool)
        requires
            self@.len() >= 2,
        ensures
            r == (crc16_kermit(spec_content(self@)) == spec_fcs(self@)),
    {
        self.fcs_is(self.calculate_fcs())
    }

    /// Create a new [`FrameWithFcs`] without checking the Frame Check
    /// Sequence.
    pub fn new_unchecked(buffer: &'a [u8]) -> (r: Self)
        ensures
            r@ == buffer@,
    {
        Self { buffer }
    }

    /// Return the content of the frame, without the Frame Check Sequence.
    pub fn content(&self) -> (r: &'a [u8])
        requires
            self@.len() >= 2,
        ensures
            r@ == spec_content(self@),
    {
        &self.buffer[0..self.buffer.len() - 2]
    }

    /// Return the Frame Check Sequence field.
    pub fn fcs(&self) -> (r: u16)
        requires
            self@.len() >= 2,
        ensures
            r == spec_fcs(self@),
    {
        let len = self.buffer.len();
        read_le16(self.buffer, len - 2)
    }

    /// Return the frame without the Frame Check Sequence.
    pub fn frame(&self) -> (r: Result<Frame<&'a [u8]>, Error>)
        requires
            self@.len() >= 2,
            spec_content(self@).len() >= 2 ==> !(fc_frame_type(spec_content(self@)) is Beacon
                && spec_is_legacy(spec_content(self@))),
        ensures
            r is Ok <==> spec_new_kind(spec_content(self@)) is Some,
            r matches Ok(f) ==> f.spec_bytes() == spec_content(self@) && spec_new_kind(spec_content(self@)) == Some(f.spec_kind()),
    {
        Frame::new(self.content())
    }
}

/// Appending to a frame content the two little-endian octets of its CRC
/// gives a frame whose Frame Check Sequence is valid.
pub proof fn lemma_fcs_appended(content: Seq<u8>)
    ensures
        spec_fcs_valid(content + seq![
            (crc16_kermit(content) & 0xff) as u8,
            (crc16_kermit(content) >> 8u16) as u8,
        ]),
{
    let c = crc16_kermit(content);
    let b = content + seq![(c & 0xff) as u8, (c >> 8u16) as u8];
    assert(spec_content(b) =~= content);
    lemma_le16_split(c);
}

} // verus!

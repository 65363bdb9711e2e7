//! The contents of the TSCH nested Information Elements: TSCH Timeslot,
//! Channel Hopping, TSCH Slotframe and Link, and their parts.
use vstd::prelude::*;

use crate::bytes::{copy_at, le16, le_bytes, le_value, lemma_le_bytes_len, read_le16, read_le_uint, splice, write_le16_at};
use crate::time::Duration;
use crate::Error;

verus! {

/// The two little-endian octets of `v`.
pub open spec fn le2(v: u16) -> Seq<u8> {
    seq![(v & 0xff) as u8, (v >> 8u16) as u8]
}

/// The two octets a duration is written as: its microseconds, truncated to
/// 16 bits, little-endian.
pub open spec fn dur2(d: Duration) -> Seq<u8> {
    le2(d.0 as u16)
}

/// The three octets a duration is written as in the long format: its
/// microseconds, truncated to 24 bits, little-endian.
pub open spec fn dur3(d: Duration) -> Seq<u8> {
    le_bytes(d.0 as u64, 3)
}

/// The duration stored as two little-endian octets at `i`.
pub open spec fn dur_at2(b: Seq<u8>, i: int) -> Duration {
    Duration(le16(b[i], b[i + 1]) as i64)
}

/// The duration stored as three little-endian octets at `i`.
pub open spec fn dur_at3(b: Seq<u8>, i: int) -> Duration {
    Duration(le_value(b, i, 3) as i64)
}

/// The timings of a TSCH timeslot.
#[derive(Debug, Clone, Copy, PartialEq, Eq, Structural)]
pub struct TschTimeslotTimings {
    /// The timeslot template ID.
    pub id: u8,
    /// Offset from the start of the timeslot to the start of the CCA.
    pub cca_offset: Duration,
    /// Duration of the CCA.
    pub cca: Duration,
    /// Offset from the start of the timeslot to the start of the transmission.
    pub tx_offset: Duration,
    /// Offset from the start of the timeslot to the start of the reception.
    pub rx_offset: Duration,
    /// Delay from the end of a transmission to listening for the acknowledgment.
    pub rx_ack_delay: Duration,
    /// Delay from the end of a reception to sending the acknowledgment.
    pub tx_ack_delay: Duration,
    /// How long to wait for the start of a frame.
    pub rx_wait: Duration,
    /// How long to wait for the start of an acknowledgment.
    pub ack_wait: Duration,
    /// Turnaround time between reception and transmission.
    pub rx_tx: Duration,
    /// Transmission time of the longest acknowledgment.
    pub max_ack: Duration,
    /// Transmission time of the longest frame.
    pub max_tx: Duration,
    /// The length of the timeslot.
    pub timeslot_length: Duration,
}

/// The default guard time: 2200 microseconds.
pub open spec fn spec_default_guard_time() -> Duration {
    Duration(2200)
}

/// The timings for timeslot template `id` with guard time `g`: the defaults
/// of the standard, with the receive offset and wait derived from `g`.
pub open spec fn spec_default_timings(id: u8, g: Duration) -> TschTimeslotTimings {
    TschTimeslotTimings {
        id,
        cca_offset: Duration(1800),
        cca: Duration(128),
        tx_offset: Duration(2120),
        rx_offset: Duration((2120 - (if g.0 >= 0 { g.0 as int / 2 } else { -((-(g.0 as int)) / 2) })) as i64),
        rx_ack_delay: Duration(800),
        tx_ack_delay: Duration(1000),
        rx_wait: g,
        ack_wait: Duration(400),
        rx_tx: Duration(192),
        max_ack: Duration(2400),
        max_tx: Duration(4256),
        timeslot_length: Duration(10000),
    }
}

/// The timings stored in the TSCH Timeslot content `b` (the long format
/// when it holds 27 octets or more).
pub open spec fn spec_timings_of(b: Seq<u8>) -> TschTimeslotTimings {
    TschTimeslotTimings {
        id: b[0],
        cca_offset: dur_at2(b, 1),
        cca: dur_at2(b, 3),
        tx_offset: dur_at2(b, 5),
        rx_offset: dur_at2(b, 7),
        rx_ack_delay: dur_at2(b, 9),
        tx_ack_delay: dur_at2(b, 11),
        rx_wait: dur_at2(b, 13),
        ack_wait: dur_at2(b, 15),
        rx_tx: dur_at2(b, 17),
        max_ack: dur_at2(b, 19),
        max_tx: if b.len() >= 27 { dur_at3(b, 21) } else { dur_at2(b, 21) },
        timeslot_length: if b.len() >= 27 { dur_at3(b, 24) } else { dur_at2(b, 23) },
    }
}

/// The octets the timings `t` are written as, in the long format when
/// `long`.
pub open spec fn spec_timings_bytes(t: TschTimeslotTimings, long: bool) -> Seq<u8> {
    seq![t.id] + dur2(t.cca_offset) + dur2(t.cca) + dur2(t.tx_offset) + dur2(t.rx_offset) + dur2(t.rx_ack_delay)
        + dur2(t.tx_ack_delay) + dur2(t.rx_wait) + dur2(t.ack_wait) + dur2(t.rx_tx) + dur2(t.max_ack)
        + if long { dur3(t.max_tx) + dur3(t.timeslot_length) } else { dur2(t.max_tx) + dur2(t.timeslot_length) }
}

/// The timings `t` are written in the long format: the longest frame time
/// or the timeslot length does not fit 16 bits.
pub open spec fn spec_timings_long(t: TschTimeslotTimings) -> bool {
    (t.max_tx.0 as u32) > 65535 || (t.timeslot_length.0 as u32) > 65535
}

/// Whether the timings `t` are written in the long format.
pub fn timings_long(t: &TschTimeslotTimings) -> (r: bool)
    ensures
        r == spec_timings_long(*t),
{
    (t.max_tx.as_us() as u32) > 65535 || (t.timeslot_length.as_us() as u32) > 65535
}

/// Append the two octets of `d` to `v`.
fn push_dur2(v: &mut Vec<u8>, d: Duration)
    ensures
        final(v)@ == old(v)@ + dur2(d),
{
    let x = d.as_us() as u16;
    v.push((x & 0xff) as u8);
    v.push((x >> 8u16) as u8);
}

/// Append the three octets of `d` to `v`.
fn push_dur3(v: &mut Vec<u8>, d: Duration)
    ensures
        final(v)@ == old(v)@ + dur3(d),
{
    let x = d.as_us() as u64;
    v.push((x & 0xff) as u8);
    v.push(((x >> 8u64) & 0xff) as u8);
    v.push(((x >> 16u64) & 0xff) as u8);
    proof {
        reveal_with_fuel(le_bytes, 4);
    }
    assert(dur3(d) =~= seq![(x & 0xff) as u8, ((x >> 8u64) & 0xff) as u8, ((x >> 16u64) & 0xff) as u8]) by {
        let x1 = x >> 8u64;
        let x2 = x1 >> 8u64;
        assert(x2 == x >> 16u64) by (bit_vector)
            requires
                x1 == x >> 8u64,
                x2 == x1 >> 8u64,
        ;
        reveal_with_fuel(le_bytes, 4);
    }
}

/// The octets the timings `t` are written as.
pub(crate) fn timings_bytes(t: &TschTimeslotTimings, long: bool) -> (r: Vec<u8>)
    ensures
        r@ == spec_timings_bytes(*t, long),
{
    let mut v: Vec<u8> = Vec::new();
    v.push(t.id);
    push_dur2(&mut v, t.cca_offset);
    push_dur2(&mut v, t.cca);
    push_dur2(&mut v, t.tx_offset);
    push_dur2(&mut v, t.rx_offset);
    push_dur2(&mut v, t.rx_ack_delay);
    push_dur2(&mut v, t.tx_ack_delay);
    push_dur2(&mut v, t.rx_wait);
    push_dur2(&mut v, t.ack_wait);
    push_dur2(&mut v, t.rx_tx);
    push_dur2(&mut v, t.max_ack);
    if long {
        push_dur3(&mut v, t.max_tx);
        push_dur3(&mut v, t.timeslot_length);
    } else {
        push_dur2(&mut v, t.max_tx);
        push_dur2(&mut v, t.timeslot_length);
    }
    assert(v@ =~= spec_timings_bytes(*t, long));
    v
}

impl TschTimeslotTimings {
    /// The default timings for timeslot template `id` with guard time
    /// `guard_time`.
    pub fn new(id: u8, guard_time: Duration) -> (r: Self)
        ensures
            r == spec_default_timings(id, guard_time),
    {
        Self {
            id,
            cca_offset: Duration::from_us(1800),
            cca: Duration::from_us(128),
            tx_offset: Duration::from_us(2120),
            rx_offset: Duration::from_us(2120).sub(guard_time.div(2)),
            rx_ack_delay: Duration::from_us(800),
            tx_ack_delay: Duration::from_us(1000),
            rx_wait: guard_time,
            ack_wait: Duration::from_us(400),
            rx_tx: Duration::from_us(192),
            max_ack: Duration::from_us(2400),
            max_tx: Duration::from_us(4256),
            timeslot_length: Duration::from_us(10000),
        }
    }

    /// The timeslot template ID.
    pub fn id(&self) -> (r: u8)
        ensures
            r == self.id,
    {
        self.id
    }

    /// Offset from the start of the timeslot to the start of the CCA.
    pub fn cca_offset(&self) -> (r: Duration)
        ensures
            r == self.cca_offset,
    {
        self.cca_offset
    }

    /// Set the CCA offset.
    pub fn set_cca_offset(&mut self, v: Duration)
        ensures
            *final(self) == (TschTimeslotTimings { cca_offset: v, ..*old(self) }),
    {
        self.cca_offset = v;
    }

    /// Duration of the CCA.
    pub fn cca(&self) -> (r: Duration)
        ensures
            r == self.cca,
    {
        self.cca
    }

    /// Set the CCA duration.
    pub fn set_cca(&mut self, v: Duration)
        ensures
            *final(self) == (TschTimeslotTimings { cca: v, ..*old(self) }),
    {
        self.cca = v;
    }

    /// Offset from the start of the timeslot to the start of the
    /// transmission.
    pub fn tx_offset(&self) -> (r: Duration)
        ensures
            r == self.tx_offset,
    {
        self.tx_offset
    }

    /// Set the transmission offset.
    pub fn set_tx_offset(&mut self, v: Duration)
        ensures
            *final(self) == (TschTimeslotTimings { tx_offset: v, ..*old(self) }),
    {
        self.tx_offset = v;
    }

    /// Offset from the start of the timeslot to the start of the reception.
    pub fn rx_offset(&self) -> (r: Duration)
        ensures
            r == self.rx_offset,
    {
        self.rx_offset
    }

    /// Set the reception offset.
    pub fn set_rx_offset(&mut self, v: Duration)
        ensures
            *final(self) == (TschTimeslotTimings { rx_offset: v, ..*old(self) }),
    {
        self.rx_offset = v;
    }

    /// Delay from the end of a transmission to listening for the
    /// acknowledgment.
    pub fn rx_ack_delay(&self) -> (r: Duration)
        ensures
            r == self.rx_ack_delay,
    {
        self.rx_ack_delay
    }

    /// Set the receive acknowledgment delay.
    pub fn set_rx_ack_delay(&mut self, v: Duration)
        ensures
            *final(self) == (TschTimeslotTimings { rx_ack_delay: v, ..*old(self) }),
    {
        self.rx_ack_delay = v;
    }

    /// Delay from the end of a reception to sending the acknowledgment.
    pub fn tx_ack_delay(&self) -> (r: Duration)
        ensures
            r == self.tx_ack_delay,
    {
        self.tx_ack_delay
    }

    /// Set the transmit acknowledgment delay.
    pub fn set_tx_ack_delay(&mut self, v: Duration)
        ensures
            *final(self) == (TschTimeslotTimings { tx_ack_delay: v, ..*old(self) }),
    {
        self.tx_ack_delay = v;
    }

    /// How long to wait for the start of a frame.
    pub fn rx_wait(&self) -> (r: Duration)
        ensures
            r == self.rx_wait,
    {
        self.rx_wait
    }

    /// Set the receive wait.
    pub fn set_rx_wait(&mut self, v: Duration)
        ensures
            *final(self) == (TschTimeslotTimings { rx_wait: v, ..*old(self) }),
    {
        self.rx_wait = v;
    }

    /// How long to wait for the start of an acknowledgment.
    pub fn ack_wait(&self) -> (r: Duration)
        ensures
            r == self.ack_wait,
    {
        self.ack_wait
    }

    /// Set the acknowledgment wait.
    pub fn set_ack_wait(&mut self, v: Duration)
        ensures
            *final(self) == (TschTimeslotTimings { ack_wait: v, ..*old(self) }),
    {
        self.ack_wait = v;
    }

    /// Turnaround time between reception and transmission.
    pub fn rx_tx(&self) -> (r: Duration)
        ensures
            r == self.rx_tx,
    {
        self.rx_tx
    }

    /// Set the turnaround time.
    pub fn set_rx_tx(&mut self, v: Duration)
        ensures
            *final(self) == (TschTimeslotTimings { rx_tx: v, ..*old(self) }),
    {
        self.rx_tx = v;
    }

    /// Transmission time of the longest acknowledgment.
    pub fn max_ack(&self) -> (r: Duration)
        ensures
            r == self.max_ack,
    {
        self.max_ack
    }

    /// Set the longest acknowledgment time.
    pub fn set_max_ack(&mut self, v: Duration)
        ensures
            *final(self) == (TschTimeslotTimings { max_ack: v, ..*old(self) }),
    {
        self.max_ack = v;
    }

    /// Transmission time of the longest frame.
    pub fn max_tx(&self) -> (r: Duration)
        ensures
            r == self.max_tx,
    {
        self.max_tx
    }

    /// Set the longest frame time.
    pub fn set_max_tx(&mut self, v: Duration)
        ensures
            *final(self) == (TschTimeslotTimings { max_tx: v, ..*old(self) }),
    {
        self.max_tx = v;
    }

    /// The length of the timeslot.
    pub fn timeslot_length(&self) -> (r: Duration)
        ensures
            r == self.timeslot_length,
    {
        self.timeslot_length
    }

    /// Set the timeslot length.
    pub fn set_timeslot_length(&mut self, v: Duration)
        ensures
            *final(self) == (TschTimeslotTimings { timeslot_length: v, ..*old(self) }),
    {
        self.timeslot_length = v;
    }
}

impl Default for TschTimeslotTimings {
    /// The default timings: template 0 with the default guard time.
    fn default() -> (r: Self)
        ensures
            r == spec_default_timings(0, spec_default_guard_time()),
    {
        Self::new(0, Duration::from_us(2200))
    }
}

/// A reader/writer for the TSCH Timeslot nested Information Element.
#[derive(Debug)]
pub struct TschTimeslot<T> {
    buffer: T,
}

impl<T: View<V = Seq<u8>>> View for TschTimeslot<T> {
    type V = Seq<u8>;

    closed spec fn view(&self) -> Seq<u8> {
        self.buffer@
    }
}

/// The TSCH Timeslot content `b` is accepted: it holds the template ID and,
/// for a template other than the default one (ID 0), the timings.
pub open spec fn spec_timeslot_ok(b: Seq<u8>) -> bool {
    b.len() >= 1 && (b[0] != 0 ==> b.len() >= 25)
}

/// The TSCH Timeslot content `b` holds timings: 25 octets or more (27 or
/// more in the long format).
pub open spec fn spec_timings_fit(b: Seq<u8>) -> bool {
    b.len() >= 25
}

impl<'a> TschTimeslot<&'a [u8]> {
    /// Create a new reader; fails unless the buffer is accepted as
    /// [`spec_timeslot_ok`] states.
    pub fn new(buffer: &'a [u8]) -> (r: Result<Self, Error>)
        ensures
            r is Ok <==> spec_timeslot_ok(buffer@),
            r matches Ok(s) ==> s@ == buffer@,
    {
        if buffer.len() < 1 {
            return Err(Error);
        }
        if buffer[0] != 0 && buffer.len() < 25 {
            return Err(Error);
        }
        Ok(Self::new_unchecked(buffer))
    }

    /// Create a new reader without length checking.
    pub fn new_unchecked(buffer: &'a [u8]) -> (r: Self)
        ensures
            r@ == buffer@,
    {
        Self { buffer }
    }

    /// The timeslot template ID (octet 0).
    pub fn id(&self) -> (r: u8)
        requires
            self@.len() >= 1,
        ensures
            r == self@[0],
    {
        self.buffer[0]
    }

    /// Returns `true` when the element holds timeslot timings, not only the
    /// template ID.
    pub fn has_timeslot_timings(&self) -> (r: bool)
        ensures
            r == spec_timings_fit(self@),
    {
        self.buffer.len() >= 25
    }

    /// The timeslot timings the element holds.
    pub fn timeslot_timings(&self) -> (r: TschTimeslotTimings)
        requires
            spec_timings_fit(self@),
        ensures
            r == spec_timings_of(self@),
    {
        let b = self.buffer;
        let long = b.len() >= 27;
        TschTimeslotTimings {
            id: b[0],
            cca_offset: Duration::from_us(read_le16(b, 1) as i64),
            cca: Duration::from_us(read_le16(b, 3) as i64),
            tx_offset: Duration::from_us(read_le16(b, 5) as i64),
            rx_offset: Duration::from_us(read_le16(b, 7) as i64),
            rx_ack_delay: Duration::from_us(read_le16(b, 9) as i64),
            tx_ack_delay: Duration::from_us(read_le16(b, 11) as i64),
            rx_wait: Duration::from_us(read_le16(b, 13) as i64),
            ack_wait: Duration::from_us(read_le16(b, 15) as i64),
            rx_tx: Duration::from_us(read_le16(b, 17) as i64),
            max_ack: Duration::from_us(read_le16(b, 19) as i64),
            max_tx: if long {
                Duration::from_us(read_le_uint(b, 21, 3) as i64)
            } else {
                Duration::from_us(read_le16(b, 21) as i64)
            },
            timeslot_length: if long {
                Duration::from_us(read_le_uint(b, 24, 3) as i64)
            } else {
                Duration::from_us(read_le16(b, 23) as i64)
            },
        }
    }
}

impl TschTimeslot<Vec<u8>> {
    /// Create a new writer owning its buffer.
    pub fn new_owned(buffer: Vec<u8>) -> (r: Self)
        ensures
            r@ == buffer@,
    {
        Self { buffer }
    }

    /// The bytes of this element.
    pub fn as_bytes(&self) -> (r: &[u8])
        ensures
            r@ == self@,
    {
        self.buffer.as_slice()
    }

    /// Set the timeslot template ID (octet 0).
    pub fn set_timeslot_id(&mut self, id: u8)
        requires
            old(self)@.len() >= 1,
        ensures
            final(self)@ == old(self)@.update(0, id),
    {
        self.buffer.set(0, id);
    }

    /// Write the timeslot timings: 25 octets, or 27 in the long format.
    pub fn set_timeslot_timings(&mut self, timings: &TschTimeslotTimings)
        requires
            old(self)@.len() >= (if spec_timings_long(*timings) { 27int } else { 25int }),
        ensures
            final(self)@ == splice(old(self)@, 0, spec_timings_bytes(*timings, spec_timings_long(*timings))),
    {
        let long = timings_long(timings);
        let bytes = timings_bytes(timings, long);
        proof {
            lemma_le_bytes_len(timings.max_tx.0 as u64, 3);
            lemma_le_bytes_len(timings.timeslot_length.0 as u64, 3);
        }
        copy_at(self.buffer.as_mut_slice(), 0, bytes.as_slice());
    }
}

/// A reader/writer for the Channel Hopping nested Information Element.
#[derive(Debug)]
pub struct ChannelHopping<T> {
    buffer: T,
}

impl<T: View<V = Seq<u8>>> View for ChannelHopping<T> {
    type V = Seq<u8>;

    closed spec fn view(&self) -> Seq<u8> {
        self.buffer@
    }
}

impl<'a> ChannelHopping<&'a [u8]> {
    /// Create a new reader; fails when the buffer is empty.
    pub fn new(buffer: &'a [u8]) -> (r: Result<Self, Error>)
        ensures
            r is Ok <==> buffer@.len() >= 1,
            r matches Ok(s) ==> s@ == buffer@,
    {
        if buffer.len() < 1 {
            return Err(Error);
        }
        Ok(Self::new_unchecked(buffer))
    }

    /// Create a new reader without length checking.
    pub fn new_unchecked(buffer: &'a [u8]) -> (r: Self)
        ensures
            r@ == buffer@,
    {
        Self { buffer }
    }

    /// The hopping sequence ID (octet 0).
    pub fn hopping_sequence_id(&self) -> (r: u8)
        requires
            self@.len() >= 1,
        ensures
            r == self@[0],
    {
        self.buffer[0]
    }
}

impl ChannelHopping<Vec<u8>> {
    /// Create a new writer owning its buffer.
    pub fn new_owned(buffer: Vec<u8>) -> (r: Self)
        ensures
            r@ == buffer@,
    {
        Self { buffer }
    }

    /// The bytes of this element.
    pub fn as_bytes(&self) -> (r: &[u8])
        ensures
            r@ == self@,
    {
        self.buffer.as_slice()
    }

    /// Set the hopping sequence ID (octet 0).
    pub fn set_hopping_sequence_id(&mut self, id: u8)
        requires
            old(self)@.len() >= 1,
        ensures
            final(self)@ == old(self)@.update(0, id),
    {
        self.buffer.set(0, id);
    }
}

/// TSCH link options: a set of flags.
#[derive(Debug, Clone, Copy, PartialEq, Eq, Structural)]
pub struct TschLinkOption {
    bits: u8,
}

impl TschLinkOption {
    /// The flags, as a bit map (transmit 0x01, receive 0x02, shared 0x04,
    /// time keeping 0x08, priority 0x10).
    pub closed spec fn spec_bits(self) -> u8 {
        self.bits
    }

    /// The options are a valid set of flags.
    pub closed spec fn wf(self) -> bool {
        self.bits & !0x1fu8 == 0
    }

    /// The transmit flag.
    pub fn tx() -> (r: Self)
        ensures
            r.spec_bits() == 0x01,
    {
        Self { bits: 0x01 }
    }

    /// The receive flag.
    pub fn rx() -> (r: Self)
        ensures
            r.spec_bits() == 0x02,
    {
        Self { bits: 0x02 }
    }

    /// The shared flag.
    pub fn shared() -> (r: Self)
        ensures
            r.spec_bits() == 0x04,
    {
        Self { bits: 0x04 }
    }

    /// The time keeping flag.
    pub fn time_keeping() -> (r: Self)
        ensures
            r.spec_bits() == 0x08,
    {
        Self { bits: 0x08 }
    }

    /// The priority flag.
    pub fn priority() -> (r: Self)
        ensures
            r.spec_bits() == 0x10,
    {
        Self { bits: 0x10 }
    }

    /// No flag.
    pub fn empty() -> (r: Self)
        ensures
            r.spec_bits() == 0,
    {
        Self { bits: 0 }
    }

    /// The bit map of the flags.
    pub fn bits(&self) -> (r: u8)
        ensures
            r == self.spec_bits(),
    {
        self.bits
    }

    /// The options of the bit map `bits`, `None` when it holds an unknown
    /// flag.
    pub fn from_bits(bits: u8) -> (r: Option<Self>)
        ensures
            r is Some <==> bits & !0x1fu8 == 0,
            r matches Some(o) ==> o.spec_bits() == bits,
    {
        if bits & !0x1fu8 == 0 {
            Some(Self { bits })
        } else {
            None
        }
    }

    /// The options of the bit map `bits`, unknown flags dropped.
    pub fn from_bits_truncate(bits: u8) -> (r: Self)
        ensures
            r.spec_bits() == bits & 0x1f,
    {
        Self { bits: bits & 0x1f }
    }

    /// Returns `true` when every flag of `other` is set here.
    pub fn contains(&self, other: Self) -> (r: bool)
        ensures
            r == (self.spec_bits() & other.spec_bits() == other.spec_bits()),
    {
        self.bits & other.bits == other.bits
    }

    /// The flags set here or in `other`.
    pub fn union(self, other: Self) -> (r: Self)
        ensures
            r.spec_bits() == self.spec_bits() | other.spec_bits(),
    {
        Self { bits: self.bits | other.bits }
    }

    /// Returns `true` when no flag is set.
    pub fn is_empty(&self) -> (r: bool)
        ensures
            r == (self.spec_bits() == 0),
    {
        self.bits == 0
    }
}

/// A reader/writer for a Link Information field (five octets).
#[derive(Debug)]
pub struct LinkInformation<T> {
    buffer: T,
}

impl<T: View<V = Seq<u8>>> View for LinkInformation<T> {
    type V = Seq<u8>;

    closed spec fn view(&self) -> Seq<u8> {
        self.buffer@
    }
}

impl<'a> LinkInformation<&'a [u8]> {
    /// Create a new reader; fails when the buffer holds fewer than five
    /// octets.
    pub fn new(buffer: &'a [u8]) -> (r: Result<Self, Error>)
        ensures
            r is Ok <==> buffer@.len() >= 5,
            r matches Ok(s) ==> s@ == buffer@,
    {
        if buffer.len() < 5 {
            return Err(Error);
        }
        Ok(Self::new_unchecked(buffer))
    }

    /// Create a new reader without length checking.
    pub fn new_unchecked(buffer: &'a [u8]) -> (r: Self)
        ensures
            r@ == buffer@,
    {
        Self { buffer }
    }

    /// The timeslot (octets 0-1, little-endian).
    pub fn timeslot(&self) -> (r: u16)
        requires
            self@.len() >= 5,
        ensures
            r == le16(self@[0], self@[1]),
    {
        read_le16(self.buffer, 0)
    }

    /// The channel offset (octets 2-3, little-endian).
    pub fn channel_offset(&self) -> (r: u16)
        requires
            self@.len() >= 5,
        ensures
            r == le16(self@[2], self@[3]),
    {
        read_le16(self.buffer, 2)
    }

    /// The link options (octet 4, unknown flags dropped).
    pub fn link_options(&self) -> (r: TschLinkOption)
        requires
            self@.len() >= 5,
        ensures
            r.spec_bits() == self@[4] & 0x1f,
    {
        TschLinkOption::from_bits_truncate(self.buffer[4])
    }
}

impl LinkInformation<Vec<u8>> {
    /// Create a new writer owning its buffer.
    pub fn new_owned(buffer: Vec<u8>) -> (r: Self)
        ensures
            r@ == buffer@,
    {
        Self { buffer }
    }

    /// The bytes of this field.
    pub fn as_bytes(&self) -> (r: &[u8])
        ensures
            r@ == self@,
    {
        self.buffer.as_slice()
    }

    /// Set the timeslot.
    pub fn set_timeslot(&mut self, timeslot: u16)
        requires
            old(self)@.len() >= 5,
        ensures
            final(self)@ == splice(old(self)@, 0, le2(timeslot)),
    {
        write_le16_at(self.buffer.as_mut_slice(), 0, timeslot);
    }

    /// Set the channel offset.
    pub fn set_channel_offset(&mut self, channel_offset: u16)
        requires
            old(self)@.len() >= 5,
        ensures
            final(self)@ == splice(old(self)@, 2, le2(channel_offset)),
    {
        write_le16_at(self.buffer.as_mut_slice(), 2, channel_offset);
    }

    /// Set the link options.
    pub fn set_link_options(&mut self, options: TschLinkOption)
        requires
            old(self)@.len() >= 5,
        ensures
            final(self)@ == old(self)@.update(4, options.spec_bits()),
    {
        self.buffer.set(4, options.bits());
    }
}

/// An iterator over Link Information fields of five octets each.
#[derive(Debug)]
pub struct LinkInformationIterator<'f> {
    data: &'f [u8],
    offset: usize,
}

impl<'f> LinkInformationIterator<'f> {
    /// The octets iterated over.
    pub closed spec fn spec_data(&self) -> Seq<u8> {
        self.data@
    }

    /// The offset of the next field.
    pub closed spec fn spec_offset(&self) -> nat {
        self.offset as nat
    }

    /// Create a new iterator over `data`.
    pub fn new(data: &'f [u8]) -> (r: Self)
        ensures
            r.spec_data() == data@,
            r.spec_offset() == 0,
    {
        Self { data, offset: 0 }
    }

    /// Return the next Link Information field, while five octets are left.
    pub fn next(&mut self) -> (r: Option<LinkInformation<&'f [u8]>>)
        ensures
            final(self).spec_data() == old(self).spec_data(),
            old(self).spec_offset() + 5 > old(self).spec_data().len() ==> r is None && final(self).spec_offset() == old(self).spec_offset(),
            old(self).spec_offset() + 5 <= old(self).spec_data().len() ==> (r matches Some(l) && l@ == old(self).spec_data().subrange(
                old(self).spec_offset() as int, (old(self).spec_offset() + 5) as int)) && final(self).spec_offset() == old(self).spec_offset() + 5,
    {
        if self.offset > self.data.len() || self.data.len() - self.offset < 5 {
            return None;
        }
        let l = LinkInformation::new_unchecked(&self.data[self.offset..self.offset + 5]);
        self.offset = self.offset + 5;
        Some(l)
    }
}

/// A reader/writer for a Slotframe Descriptor: handle, size, number of
/// links and the Link Information fields.
#[derive(Debug)]
pub struct SlotframeDescriptor<T> {
    buffer: T,
}

impl<T: View<V = Seq<u8>>> View for SlotframeDescriptor<T> {
    type V = Seq<u8>;

    closed spec fn view(&self) -> Seq<u8> {
        self.buffer@
    }
}

/// The length of the Slotframe Descriptor whose number of links is `n`.
pub open spec fn spec_descriptor_len(n: u8) -> nat {
    (4 + 5 * n) as nat
}

impl<'a> SlotframeDescriptor<&'a [u8]> {
    /// Create a new reader; fails unless the buffer holds the four fixed
    /// octets and all the links.
    pub fn new(buffer: &'a [u8]) -> (r: Result<Self, Error>)
        ensures
            r is Ok <==> (buffer@.len() >= 4 && buffer@.len() >= spec_descriptor_len(buffer@[3])),
            r matches Ok(s) ==> s@ == buffer@,
    {
        if buffer.len() < 4 {
            return Err(Error);
        }
        if buffer.len() < 4 + 5 * (buffer[3] as usize) {
            return Err(Error);
        }
        Ok(Self::new_unchecked(buffer))
    }

    /// Create a new reader without length checking.
    pub fn new_unchecked(buffer: &'a [u8]) -> (r: Self)
        ensures
            r@ == buffer@,
    {
        Self { buffer }
    }

    /// The slotframe handle (octet 0).
    pub fn handle(&self) -> (r: u8)
        requires
            self@.len() >= 4,
        ensures
            r == self@[0],
    {
        self.buffer[0]
    }

    /// The size of the slotframe in timeslots (octets 1-2, little-endian).
    pub fn size(&self) -> (r: u16)
        requires
            self@.len() >= 4,
        ensures
            r == le16(self@[1], self@[2]),
    {
        read_le16(self.buffer, 1)
    }

    /// The number of links (octet 3).
    pub fn number_of_links(&self) -> (r: u8)
        requires
            self@.len() >= 4,
        ensures
            r == self@[3],
    {
        self.buffer[3]
    }

    /// The length of the descriptor: four octets and five per link.
    #[allow(clippy::len_without_is_empty)]
    pub fn len(&self) -> (r: usize)
        requires
            self@.len() >= 4,
        ensures
            r == spec_descriptor_len(self@[3]),
    {
        4 + 5 * (self.buffer[3] as usize)
    }

    /// An iterator over the Link Information fields.
    pub fn link_informations(&self) -> (r: LinkInformationIterator<'a>)
        requires
            self@.len() >= spec_descriptor_len(self@[3]),
            self@.len() >= 4,
        ensures
            r.spec_data() == self@.subrange(4, spec_descriptor_len(self@[3]) as int),
            r.spec_offset() == 0,
    {
        let end = self.len();
        LinkInformationIterator::new(&self.buffer[4..end])
    }
}

impl SlotframeDescriptor<Vec<u8>> {
    /// Create a new writer owning its buffer.
    pub fn new_owned(buffer: Vec<u8>) -> (r: Self)
        ensures
            r@ == buffer@,
    {
        Self { buffer }
    }

    /// The bytes of this descriptor.
    pub fn as_bytes(&self) -> (r: &[u8])
        ensures
            r@ == self@,
    {
        self.buffer.as_slice()
    }

    /// Set the slotframe handle.
    pub fn set_handle(&mut self, handle: u8)
        requires
            old(self)@.len() >= 4,
        ensures
            final(self)@ == old(self)@.update(0, handle),
    {
        self.buffer.set(0, handle);
    }

    /// Set the size of the slotframe.
    pub fn set_size(&mut self, size: u16)
        requires
            old(self)@.len() >= 4,
        ensures
            final(self)@ == splice(old(self)@, 1, le2(size)),
    {
        write_le16_at(self.buffer.as_mut_slice(), 1, size);
    }

    /// Set the number of links.
    pub fn set_number_of_links(&mut self, n: u8)
        requires
            old(self)@.len() >= 4,
        ensures
            final(self)@ == old(self)@.update(3, n),
    {
        self.buffer.set(3, n);
    }

    /// The octets after the fixed part, for writing the links.
    pub fn content_mut(&mut self) -> (r: &mut [u8])
        requires
            old(self)@.len() >= 4,
        ensures
            r@ == old(self)@.skip(4),
            final(self)@ == old(self)@.subrange(0, 4) + final(r)@,
    {
        let s = self.buffer.as_mut_slice();
        let (_head, tail) = s.split_at_mut(4);
        tail
    }
}

/// An iterator over Slotframe Descriptors.
#[derive(Debug)]
pub struct SlotframeDescriptorIterator<'f> {
    data: &'f [u8],
    offset: usize,
    remaining: u8,
}

impl<'f> SlotframeDescriptorIterator<'f> {
    /// The octets iterated over.
    pub closed spec fn spec_data(&self) -> Seq<u8> {
        self.data@
    }

    /// The offset of the next descriptor.
    pub closed spec fn spec_offset(&self) -> nat {
        self.offset as nat
    }

    /// The number of descriptors left.
    pub closed spec fn spec_remaining(&self) -> u8 {
        self.remaining
    }

    /// Create a new iterator over `count` descriptors in `data`.
    pub fn new(data: &'f [u8], count: u8) -> (r: Self)
        ensures
            r.spec_data() == data@,
            r.spec_offset() == 0,
            r.spec_remaining() == count,
    {
        Self { data, offset: 0, remaining: count }
    }

    /// Return the next descriptor, while one is left and valid.
    pub fn next(&mut self) -> (r: Option<SlotframeDescriptor<&'f [u8]>>)
        ensures
            final(self).spec_data() == old(self).spec_data(),
            ({
                let d = old(self).spec_data();
                let o = old(self).spec_offset() as int;
                if old(self).spec_remaining() == 0 || o > d.len() || d.len() - o < 4
                    || d.len() - o < spec_descriptor_len(d[o + 3]) {
                    r is None && *final(self) == *old(self)
                } else {
                    &&& r matches Some(s) && s@ == d.subrange(o, d.len() as int)
                    &&& final(self).spec_offset() == o + spec_descriptor_len(d[o + 3])
                    &&& final(self).spec_remaining() == old(self).spec_remaining() - 1
                }
            }),
    {
        if self.remaining == 0 || self.offset > self.data.len() {
            return None;
        }
        let d = match SlotframeDescriptor::new(&self.data[self.offset..self.data.len()]) {
            Ok(d) => d,
            Err(_) => return None,
        };
        self.offset = self.offset + d.len();
        self.remaining = self.remaining - 1;
        Some(d)
    }
}

/// A reader/writer for the TSCH Slotframe and Link nested Information
/// Element.
#[derive(Debug)]
pub struct TschSlotframeAndLink<T> {
    buffer: T,
}

impl<T: View<V = Seq<u8>>> View for TschSlotframeAndLink<T> {
    type V = Seq<u8>;

    closed spec fn view(&self) -> Seq<u8> {
        self.buffer@
    }
}

impl<'a> TschSlotframeAndLink<&'a [u8]> {
    /// Create a new reader; fails when the buffer is empty.
    pub fn new(buffer: &'a [u8]) -> (r: Result<Self, Error>)
        ensures
            r is Ok <==> buffer@.len() >= 1,
            r matches Ok(s) ==> s@ == buffer@,
    {
        if buffer.len() < 1 {
            return Err(Error);
        }
        Ok(Self::new_unchecked(buffer))
    }

    /// Create a new reader without length checking.
    pub fn new_unchecked(buffer: &'a [u8]) -> (r: Self)
        ensures
            r@ == buffer@,
    {
        Self { buffer }
    }

    /// The number of slotframes (octet 0).
    pub fn number_of_slot_frames(&self) -> (r: u8)
        requires
            self@.len() >= 1,
        ensures
            r == self@[0],
    {
        self.buffer[0]
    }

    /// An iterator over the Slotframe Descriptors that follow.
    pub fn slotframe_descriptors(&self) -> (r: SlotframeDescriptorIterator<'a>)
        requires
            self@.len() >= 1,
        ensures
            r.spec_data() == self@.skip(1),
            r.spec_offset() == 0,
            r.spec_remaining() == self@[0],
    {
        SlotframeDescriptorIterator::new(&self.buffer[1..self.buffer.len()], self.buffer[0])
    }
}

impl TschSlotframeAndLink<Vec<u8>> {
    /// Create a new writer owning its buffer.
    pub fn new_owned(buffer: Vec<u8>) -> (r: Self)
        ensures
            r@ == buffer@,
    {
        Self { buffer }
    }

    /// The bytes of this element.
    pub fn as_bytes(&self) -> (r: &[u8])
        ensures
            r@ == self@,
    {
        self.buffer.as_slice()
    }

    /// Set the number of slotframes.
    pub fn set_number_of_slotframes(&mut self, n: u8)
        requires
            old(self)@.len() >= 1,
        ensures
            final(self)@ == old(self)@.update(0, n),
    {
        self.buffer.set(0, n);
    }

    /// The octets after the number of slotframes, for writing the
    /// descriptors.
    pub fn content_mut(&mut self) -> (r: &mut [u8])
        requires
            old(self)@.len() >= 1,
        ensures
            r@ == old(self)@.skip(1),
            final(self)@ == old(self)@.subrange(0, 1) + final(r)@,
    {
        let s = self.buffer.as_mut_slice();
        let (_head, tail) = s.split_at_mut(1);
        tail
    }
}

} // verus!

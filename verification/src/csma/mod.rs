//! The decisions of the CSMA-CA medium access layer: which received frames
//! are handed up and acknowledged, which transmitted frames request an
//! acknowledgment, what a valid acknowledgment is, how long to wait for it
//! and when to retry. Running the radio and the timers is left to the
//! caller, which feeds these functions what it received and does what they
//! return.
use vstd::prelude::*;

pub mod constants;

use crate::addressing::{is_address_at, spec_dst_addr_offset, spec_flags_of, Address};
use crate::frame_control::{fc_ack_request, fc_frame_type, FrameType, with_field};
use crate::frames::frame::{spec_addressing_of, spec_is_legacy, spec_new_kind, spec_sequence_number_of, Frame, FrameKind};
use crate::frames::layout::lemma_fc_prefix;
use crate::frames::beacon::spec_beacon_readable;
use crate::time::Duration;
use crate::Error;
use crate::bytes::zeros;
use crate::frames::data::DataFrame;
use crate::repr::builder::FrameBuilder;
use crate::repr::frame_roundtrip::lemma_imm_ack_bytes;
use crate::csma::constants::{MAC_MAX_FRAME_RETIES, SYMBOL_RATE_INV_US, TURNAROUND_TIME};

verus! {

/// The configuration of the CSMA-CA layer.
#[derive(Debug, PartialEq, Eq, Clone, Copy, Structural)]
pub struct CsmaConfig {
    /// Data frames sent to a unicast address request an acknowledgment.
    pub ack_unicast: bool,
    /// Data frames sent to the broadcast address request an acknowledgment.
    pub ack_broadcast: bool,
    /// Frames not addressed to this device are dropped (when `false`, every
    /// frame is handed up, as a sniffer needs).
    pub ignore_not_for_us: bool,
    /// Every received frame is acknowledged, requested or not.
    pub ack_everything: bool,
}

impl Default for CsmaConfig {
    /// Acknowledge unicast frames only, drop frames for other devices.
    fn default() -> (r: Self)
        ensures
            r == (CsmaConfig { ack_unicast: true, ack_broadcast: false, ignore_not_for_us: true, ack_everything: false }),
    {
        Self { ack_unicast: true, ack_broadcast: false, ignore_not_for_us: true, ack_everything: false }
    }
}

/// The state the CSMA-CA decisions are taken with: the extended address of
/// the device and the configuration.
#[derive(Debug, Clone, Copy)]
pub struct CsmaDevice {
    /// The extended address of the radio.
    pub hardware_address: [u8; 8],
    /// The configuration.
    pub config: CsmaConfig,
}

impl CsmaDevice {
    /// Create the decision state of a device with the extended address
    /// `hardware_address` (the address its radio reports).
    pub fn new(hardware_address: [u8; 8], config: CsmaConfig) -> (r: Self)
        ensures
            r.hardware_address == hardware_address,
            r.config == config,
    {
        CsmaDevice { hardware_address, config }
    }
}

/// The destination address `dst` designates the device whose extended
/// address is `hw`: the broadcast address, its short address (the last two
/// octets of `hw`) or its extended address.
pub open spec fn spec_is_for_us(hw: Seq<u8>, dst: Option<Address>) -> bool {
    match dst {
        None => false,
        Some(a) => a == Address::spec_broadcast() || match a {
            Address::Absent => false,
            Address::Short(s) => hw.subrange(6, 8) == s@,
            Address::Extended(e) => hw == e@,
        },
    }
}

/// `d` is the destination address of the frame `b` of kind `k`, as its
/// Addressing Fields reader gives it.
pub open spec fn spec_dst_of(k: FrameKind, b: Seq<u8>, d: Option<Address>) -> bool {
    match spec_addressing_of(k, b) {
        None => d is None,
        Some(buf) => match spec_flags_of(b.subrange(0, 2)) {
            None => d is None,
            Some(f) => is_address_at(d, buf, spec_dst_addr_offset(f), f.1),
        },
    }
}

/// `d` is the destination address of `frame`.
pub open spec fn spec_frame_dst<T: View<V = Seq<u8>>>(frame: Frame<T>, d: Option<Address>) -> bool {
    spec_dst_of(frame.spec_kind(), frame.spec_bytes(), d)
}

/// The destination address of `frame`.
fn dst_address_of(frame: &Frame<&[u8]>) -> (r: Option<Address>)
    requires
        frame.spec_readable(),
        frame is Beacon ==> spec_beacon_readable(frame.spec_bytes()),
    ensures
        spec_frame_dst(*frame, r),
{
    proof {
        lemma_fc_prefix(frame.spec_bytes());
    }
    match frame.addressing() {
        Some(fields) => fields.dst_address(),
        None => None,
    }
}

/// Whether the destination address `addr` designates the device whose
/// extended address is `hardware_address`.
fn address_is_for_us(hardware_address: &[u8; 8], addr: &Address) -> (r: bool)
    ensures
        r == spec_is_for_us(hardware_address@, Some(*addr)),
{
    if addr.is_broadcast() {
        return true;
    }
    match addr {
        Address::Absent => false,
        Address::Short(a) => {
            let r = hardware_address[6] == a[0] && hardware_address[7] == a[1];
            assert(r == (hardware_address@.subrange(6, 8) =~= a@));
            r
        },
        Address::Extended(a) => {
            let mut i: usize = 0;
            while i < 8
                invariant
                    i <= 8,
                    *addr == Address::Extended(*a),
                    forall|j: int| 0 <= j < i ==> hardware_address@[j] == a@[j],
                decreases 8 - i,
            {
                if hardware_address[i] != a[i] {
                    assert(hardware_address@[i as int] != a@[i as int]);
                    assert(hardware_address@ != a@);
                    return false;
                }
                i = i + 1;
            }
            assert(hardware_address@ =~= a@);
            true
        },
    }
}

impl CsmaDevice {
    /// Checks if the frame is intended for the device whose extended address is
    /// `hardware_address`.
    pub fn is_package_for_us(hardware_address: &[u8; 8], frame: &Frame<&[u8]>) -> (r: bool)
        requires
            frame.spec_readable(),
            frame is Beacon ==> spec_beacon_readable(frame.spec_bytes()),
        ensures
            exists|d: Option<Address>| #[trigger] spec_frame_dst(*frame, d),
            forall|d: Option<Address>| spec_frame_dst(*frame, d) ==> r == spec_is_for_us(hardware_address@, d),
    {
        let dst = dst_address_of(frame);
        proof {
            lemma_frame_dst_unique(*frame, dst);
        }
        match dst {
            Some(addr) => address_is_for_us(hardware_address, &addr),
            None => false,
        }
    }
}

/// The destination address a frame reader gives is the only one that
/// matches.
pub proof fn lemma_frame_dst_unique<T: View<V = Seq<u8>>>(frame: Frame<T>, d: Option<Address>)
    requires
        spec_frame_dst(frame, d),
    ensures
        forall|d2: Option<Address>| #[trigger] spec_dst_of(frame.spec_kind(), frame.spec_bytes(), d2) ==> d2 == d,
{
    assert forall|d2: Option<Address>| #[trigger] spec_dst_of(frame.spec_kind(), frame.spec_bytes(), d2) implies d2 == d by {
        match d {
            Some(Address::Short(a)) => {
                if let Some(Address::Short(b)) = d2 {
                    assert(a@ =~= b@);
                    broadcast use vstd::array::group_array_axioms;
                    assert(a == b);
                }
            },
            Some(Address::Extended(a)) => {
                if let Some(Address::Extended(b)) = d2 {
                    assert(a@ =~= b@);
                    broadcast use vstd::array::group_array_axioms;
                    assert(a == b);
                }
            },
            _ => {},
        }
    }
}

/// Whether a received frame requesting (`ack_request`) or not an
/// acknowledgment, sent to `dst`, is acknowledged.
pub open spec fn spec_should_ack(config: CsmaConfig, ack_request: bool, dst: Option<Address>) -> bool {
    if config.ack_everything {
        true
    } else if !ack_request {
        false
    } else {
        match dst {
            Some(a) => if a == Address::spec_broadcast() { config.ack_broadcast } else { config.ack_unicast },
            None => false,
        }
    }
}

/// What the receive path does with a frame.
#[derive(Debug, PartialEq, Eq, Clone, Copy, Structural)]
pub enum RxDecision {
    /// The frame is dropped.
    Drop,
    /// The frame is handed up, and acknowledged with this sequence number
    /// when there is one.
    Deliver(Option<u8>),
}

/// The decision for a received frame.
pub open spec fn spec_receive_decision(config: CsmaConfig, for_us: bool, frame_type: FrameType, should_ack: bool, seq: Option<u8>) -> RxDecision {
    if !for_us && config.ignore_not_for_us {
        RxDecision::Drop
    } else if frame_type is Ack {
        RxDecision::Drop
    } else if should_ack {
        RxDecision::Deliver(seq)
    } else {
        RxDecision::Deliver(None)
    }
}

impl CsmaDevice {
    /// Decide what to do with a received frame: frames the configuration
    /// filters out and acknowledgments (not expected here) are dropped; others
    /// are handed up and acknowledged when [`spec_should_ack`] says so and they
    /// carry a sequence number.
    pub fn receive_decision(&self, frame: &Frame<&[u8]>) -> (r: RxDecision)
        requires
            frame.spec_readable(),
            frame is Beacon ==> spec_beacon_readable(frame.spec_bytes()),
        ensures
            exists|d: Option<Address>| #[trigger] spec_frame_dst(*frame, d),
            forall|d: Option<Address>| spec_frame_dst(*frame, d) ==> r == spec_receive_decision(
                self.config,
                spec_is_for_us(self.hardware_address@, d),
                fc_frame_type(frame.spec_bytes()),
                spec_should_ack(self.config, fc_ack_request(frame.spec_bytes()), d),
                frame.spec_sequence_number(),
            ),
    {
        let config = &self.config;
        let hardware_address = &self.hardware_address;
        proof {
            lemma_fc_prefix(frame.spec_bytes());
        }
        let dst = dst_address_of(frame);
        proof {
            lemma_frame_dst_unique(*frame, dst);
        }
        let for_us = match dst {
            Some(addr) => address_is_for_us(hardware_address, &addr),
            None => false,
        };
        if !for_us && config.ignore_not_for_us {
            return RxDecision::Drop;
        }
        let fc = frame.frame_control();
        if fc.frame_type() == FrameType::Ack {
            return RxDecision::Drop;
        }
        let should_ack = if config.ack_everything {
            true
        } else if !fc.ack_request() {
            false
        } else {
            match dst {
                Some(addr) => if addr.is_broadcast() { config.ack_broadcast } else { config.ack_unicast },
                None => false,
            }
        };
        if should_ack {
            RxDecision::Deliver(frame.sequence_number())
        } else {
            RxDecision::Deliver(None)
        }
    }
}

/// With the default configuration, a frame sent to the broadcast address is
/// not acknowledged, a frame requesting an acknowledgment sent to a unicast
/// address is, and a frame for another device is dropped.
pub proof fn lemma_default_ack_policy(ack_request: bool, dst: Address, frame_type: FrameType, should_ack: bool, seq: Option<u8>)
    ensures
        spec_receive_decision(
            CsmaConfig { ack_unicast: true, ack_broadcast: false, ignore_not_for_us: true, ack_everything: false },
            false,
            frame_type,
            should_ack,
            seq,
        ) == RxDecision::Drop,
        !spec_should_ack(CsmaConfig { ack_unicast: true, ack_broadcast: false, ignore_not_for_us: true, ack_everything: false }, ack_request, Some(Address::spec_broadcast())),
        dst != Address::spec_broadcast() ==> spec_should_ack(
            CsmaConfig { ack_unicast: true, ack_broadcast: false, ignore_not_for_us: true, ack_everything: false },
            true,
            Some(dst),
        ),
{
}

/// The Immediate Acknowledgment the receive path sends for a frame with
/// Sequence Number `sequence_number`, built and written as a frame: the
/// octets `02 10 sequence_number`.
pub fn imm_ack_frame(sequence_number: u8) -> (r: Vec<u8>)
    ensures
        r@ == seq![0x02u8, 0x10u8, sequence_number],
{
    proof {
        lemma_imm_ack_bytes(sequence_number);
    }
    match FrameBuilder::new_imm_ack(sequence_number).finalize() {
        Ok(repr) => {
            let len = repr.buffer_len();
            let mut frame = DataFrame::new_owned(vec![0u8; len]);
            assert(frame@ =~= zeros(3));
            repr.emit(&mut frame);
            frame.into_bytes()
        },
        Err(_) => {
            assert(false);
            Vec::new()
        },
    }
}

impl CsmaDevice {
    /// The acknowledgment the receive path sends back for a received frame:
    /// the Immediate Acknowledgment `02 10 s` when [`CsmaDevice::receive_decision`]
    /// hands the frame up to be acknowledged with Sequence Number `s`, and
    /// nothing otherwise.
    pub fn ack_response(&self, frame: &Frame<&[u8]>) -> (r: Option<Vec<u8>>)
        requires
            frame.spec_readable(),
            frame is Beacon ==> spec_beacon_readable(frame.spec_bytes()),
        ensures
            exists|d: Option<Address>| #[trigger] spec_frame_dst(*frame, d),
            forall|d: Option<Address>| spec_frame_dst(*frame, d) ==> match spec_receive_decision(
                self.config,
                spec_is_for_us(self.hardware_address@, d),
                fc_frame_type(frame.spec_bytes()),
                spec_should_ack(self.config, fc_ack_request(frame.spec_bytes()), d),
                frame.spec_sequence_number(),
            ) {
                RxDecision::Deliver(Some(s)) => r matches Some(v) && v@ == seq![0x02u8, 0x10u8, s],
                _ => r is None,
            },
    {
        match self.receive_decision(frame) {
            RxDecision::Deliver(Some(s)) => Some(imm_ack_frame(s)),
            _ => None,
        }
    }
}

/// Whether a frame to transmit, of type `frame_type` and sent to `dst`,
/// requests an acknowledgment: Data and MAC Command frames, to a unicast
/// or broadcast address as the configuration allows.
pub open spec fn spec_request_ack(config: CsmaConfig, frame_type: FrameType, dst: Option<Address>) -> bool {
    (frame_type is Data || frame_type is MacCommand) && match dst {
        Some(a) => if a != Address::spec_broadcast() { config.ack_unicast } else { config.ack_broadcast },
        None => false,
    }
}

/// Between devices that share a configuration, a frame whose
/// acknowledgment the sender requests is acknowledged, with its Sequence
/// Number, by a receiver it is for.
pub proof fn lemma_requested_ack_granted(config: CsmaConfig, frame_type: FrameType, dst: Option<Address>, seq: Option<u8>)
    requires
        spec_request_ack(config, frame_type, dst),
    ensures
        spec_should_ack(config, true, dst),
        spec_receive_decision(config, true, frame_type, spec_should_ack(config, true, dst), seq) == RxDecision::Deliver(seq),
{
}

impl CsmaDevice {
    /// Set the acknowledgment request bit of the frame to transmit in `buffer`
    /// as [`spec_request_ack`] decides; when it is set, return the sequence
    /// number and the frame length (truncated to a byte) to wait for the
    /// acknowledgment with. Fails when the buffer holds no valid frame.
    pub fn set_ack_request_if_possible(&self, buffer: &mut [u8]) -> (r: Result<Option<(u8, u8)>, Error>)
        requires
            old(buffer)@.len() >= 2 ==> !(fc_frame_type(old(buffer)@) is Beacon && spec_is_legacy(old(buffer)@)),
        ensures
            r is Err <==> spec_new_kind(old(buffer)@) is None,
            r is Err ==> final(buffer)@ == old(buffer)@,
            r is Ok && (fc_frame_type(old(buffer)@) is Data || fc_frame_type(old(buffer)@) is MacCommand) ==> exists|d: Option<Address>|
                #[trigger] spec_dst_of(spec_new_kind(old(buffer)@).unwrap(), old(buffer)@, d),
            r is Ok && !(fc_frame_type(old(buffer)@) is Data || fc_frame_type(old(buffer)@) is MacCommand) ==> {
                &&& final(buffer)@ == old(buffer)@.update(0, with_field(old(buffer)@[0], 5, 1, 0))
                &&& r == Ok::<Option<(u8, u8)>, Error>(None)
            },
            r is Ok ==> forall|d: Option<Address>| #![trigger spec_request_ack(self.config, fc_frame_type(old(buffer)@), d)]
                spec_dst_of(spec_new_kind(old(buffer)@).unwrap(), old(buffer)@, d) ==> {
                    let ack = spec_request_ack(self.config, fc_frame_type(old(buffer)@), d);
                    &&& final(buffer)@ == old(buffer)@.update(0, with_field(old(buffer)@[0], 5, 1, if ack { 1 } else { 0 }))
                    &&& r == Ok::<Option<(u8, u8)>, Error>(if ack {
                        match spec_sequence_number_of(spec_new_kind(old(buffer)@).unwrap(), old(buffer)@) {
                            Some(seq) => Some((seq, old(buffer)@.len() as u8)),
                            None => None,
                        }
                    } else {
                        None
                    })
                },
    {
        let frame_len = buffer.len() as u8;
        let ghost kind = spec_new_kind(old(buffer)@);
        let (ack, seq) = match Frame::new(&*buffer) {
            Ok(frame) => {
                let r = ack_request_of(&self.config, &frame);
                assert(frame.spec_kind() == kind.unwrap());
                r
            },
            Err(_) => return Err(Error),
        };
        let b = buffer[0];
        let v: u8 = if ack { 1 } else { 0 };
        buffer[0] = (b & !(1u8 << 5u8)) | ((v & 1u8) << 5u8);
        assert(buffer@ =~= old(buffer)@.update(0, with_field(old(buffer)@[0], 5, 1, v)));
        if ack {
            match seq {
                Some(s) => Ok(Some((s, frame_len))),
                None => Ok(None),
            }
        } else {
            Ok(None)
        }
    }
}

/// Whether the frame to transmit requests an acknowledgment, and its
/// Sequence Number when it does.
fn ack_request_of(config: &CsmaConfig, frame: &Frame<&[u8]>) -> (r: (bool, Option<u8>))
    requires
        frame.spec_bytes().len() >= 2,
        fc_frame_type(frame.spec_bytes()) is Data || fc_frame_type(frame.spec_bytes()) is MacCommand ==> {
            &&& frame.spec_readable()
            &&& frame.spec_aux_readable()
        },
    ensures
        forall|d: Option<Address>| #[trigger] spec_dst_of(frame.spec_kind(), frame.spec_bytes(), d)
            ==> r.0 == spec_request_ack(*config, fc_frame_type(frame.spec_bytes()), d),
        r.1 == (if r.0 { frame.spec_sequence_number() } else { None }),
        fc_frame_type(frame.spec_bytes()) is Data || fc_frame_type(frame.spec_bytes()) is MacCommand
            ==> exists|d: Option<Address>| #[trigger] spec_dst_of(frame.spec_kind(), frame.spec_bytes(), d),
        !(fc_frame_type(frame.spec_bytes()) is Data || fc_frame_type(frame.spec_bytes()) is MacCommand) ==> r == (false, None::<u8>),
{
    proof {
        lemma_fc_prefix(frame.spec_bytes());
    }
    let frame_type = frame.frame_control().frame_type();
    if frame_type == FrameType::Data || frame_type == FrameType::MacCommand {
        let dst = dst_address_of(frame);
        proof {
            lemma_frame_dst_unique(*frame, dst);
        }
        match dst {
            Some(addr) => {
                if addr.is_unicast() && config.ack_unicast {
                    (true, frame.sequence_number())
                } else if addr.is_broadcast() && config.ack_broadcast {
                    (true, frame.sequence_number())
                } else {
                    (false, None)
                }
            },
            None => (false, None),
        }
    } else {
        (false, None)
    }
}

impl CsmaDevice {
    /// Whether `frame` is the acknowledgment of the frame sent with sequence
    /// number `sequence_number`.
    pub fn is_valid_ack(frame: &Frame<&[u8]>, sequence_number: u8) -> (r: bool)
        requires
            frame.spec_readable(),
        ensures
            r == (fc_frame_type(frame.spec_bytes()) is Ack && frame.spec_sequence_number() == Some(sequence_number)),
    {
        proof {
            lemma_fc_prefix(frame.spec_bytes());
        }
        frame.frame_control().frame_type() == FrameType::Ack && frame.sequence_number() == Some(sequence_number)
    }
}

/// How long to wait for the acknowledgment of a frame of `frame_length`
/// octets: the interframe spacing `aifs` and the longer of `sifs` and the
/// turnaround time of the frame.
pub fn ack_wait_delay(aifs: Duration, sifs: Duration, frame_length: u8) -> (r: Duration)
    requires
        i64::MIN <= aifs.0 + (if sifs.0 >= TURNAROUND_TIME * SYMBOL_RATE_INV_US * frame_length {
            sifs.0 as int
        } else {
            TURNAROUND_TIME * SYMBOL_RATE_INV_US * frame_length
        }) <= i64::MAX,
    ensures
        r.0 == aifs.0 + (if sifs.0 >= TURNAROUND_TIME * SYMBOL_RATE_INV_US * frame_length {
            sifs.0 as int
        } else {
            TURNAROUND_TIME * SYMBOL_RATE_INV_US * frame_length
        }),
{
    assert(SYMBOL_RATE_INV_US == 4);
    assert(TURNAROUND_TIME * SYMBOL_RATE_INV_US * (frame_length as u32) <= 48 * 255) by (nonlinear_arith)
        requires
            TURNAROUND_TIME == 12,
            SYMBOL_RATE_INV_US == 4,
            frame_length <= 255,
    ;
    let turnaround = Duration::from_us((TURNAROUND_TIME * SYMBOL_RATE_INV_US * (frame_length as u32)) as i64);
    aifs.add(sifs.max(turnaround))
}

/// How long to wait before retrying a transmission whose acknowledgment
/// did not come: the longer of `sifs` and the turnaround time.
pub fn retry_delay(sifs: Duration) -> (r: Duration)
    ensures
        r.0 == (if sifs.0 >= TURNAROUND_TIME * SYMBOL_RATE_INV_US { sifs.0 as int } else { TURNAROUND_TIME * SYMBOL_RATE_INV_US }),
{
    assert(SYMBOL_RATE_INV_US == 4);
    sifs.max(Duration::from_us((TURNAROUND_TIME * SYMBOL_RATE_INV_US) as i64))
}

/// How a frame handed down for transmission is sent.
#[derive(Debug, PartialEq, Eq, Clone, Copy, Structural)]
pub enum TxStart {
    /// The buffer holds no valid frame: report an invalid structure, then
    /// send it as it is, once, expecting no acknowledgment.
    ReportInvalid,
    /// Send the frame; no acknowledgment is expected.
    NoAck,
    /// Send the frame and wait for the acknowledgment of this sequence
    /// number, for a frame of this length (truncated to a byte).
    AwaitAck(u8, u8),
}

impl CsmaDevice {
    /// Prepare the frame in `buffer` for transmission: set its
    /// acknowledgment request bit as [`CsmaDevice::set_ack_request_if_possible`]
    /// does, and say how it is sent.
    pub fn start_transmission(&self, buffer: &mut [u8]) -> (r: TxStart)
        requires
            old(buffer)@.len() >= 2 ==> !(fc_frame_type(old(buffer)@) is Beacon && spec_is_legacy(old(buffer)@)),
        ensures
            r is ReportInvalid <==> spec_new_kind(old(buffer)@) is None,
            r is ReportInvalid ==> final(buffer)@ == old(buffer)@,
            !(r is ReportInvalid) && (fc_frame_type(old(buffer)@) is Data || fc_frame_type(old(buffer)@) is MacCommand)
                ==> exists|d: Option<Address>| #[trigger] spec_dst_of(spec_new_kind(old(buffer)@).unwrap(), old(buffer)@, d),
            !(r is ReportInvalid) && !(fc_frame_type(old(buffer)@) is Data || fc_frame_type(old(buffer)@) is MacCommand) ==> {
                &&& final(buffer)@ == old(buffer)@.update(0, with_field(old(buffer)@[0], 5, 1, 0))
                &&& r == TxStart::NoAck
            },
            !(r is ReportInvalid) ==> forall|d: Option<Address>| #![trigger spec_request_ack(self.config, fc_frame_type(old(buffer)@), d)]
                spec_dst_of(spec_new_kind(old(buffer)@).unwrap(), old(buffer)@, d) ==> {
                    let ack = spec_request_ack(self.config, fc_frame_type(old(buffer)@), d);
                    &&& final(buffer)@ == old(buffer)@.update(0, with_field(old(buffer)@[0], 5, 1, if ack { 1 } else { 0 }))
                    &&& r == (if ack {
                        match spec_sequence_number_of(spec_new_kind(old(buffer)@).unwrap(), old(buffer)@) {
                            Some(seq) => TxStart::AwaitAck(seq, old(buffer)@.len() as u8),
                            None => TxStart::NoAck,
                        }
                    } else {
                        TxStart::NoAck
                    })
                },
    {
        match self.set_ack_request_if_possible(buffer) {
            Ok(Some((seq, len))) => TxStart::AwaitAck(seq, len),
            Ok(None) => TxStart::NoAck,
            Err(_) => TxStart::ReportInvalid,
        }
    }
}

/// What happened to a transmission attempt.
#[derive(Debug, PartialEq, Eq, Clone, Copy, Structural)]
pub enum TxEvent {
    /// The channel stayed busy.
    CcaFailed,
    /// The frame was sent and no acknowledgment is expected.
    Sent,
    /// The acknowledgment was received.
    AckReceived,
    /// No acknowledgment came in time.
    AckTimeout,
}

/// What to do after a transmission attempt.
#[derive(Debug, PartialEq, Eq, Clone, Copy, Structural)]
pub enum TxAction {
    /// The transmission succeeded.
    Done,
    /// Report a channel access failure.
    ReportCcaFailure,
    /// Wait and try again.
    Retry,
    /// Report that no acknowledgment came.
    ReportAckFailure,
}

/// A transmission ends well whenever its frame went out and no
/// acknowledgment was awaited, or the acknowledgment came, whatever the
/// attempt; a busy channel is reported; only a missing acknowledgment leads
/// to a retry, while attempts are left, and to a reported failure once none
/// are.
pub proof fn lemma_transmission_outcomes(attempt: u16, event: TxEvent)
    ensures
        event is Sent ==> spec_transmission_step(attempt, event) is Done,
        event is AckReceived ==> spec_transmission_step(attempt, event) is Done,
        event is CcaFailed ==> spec_transmission_step(attempt, event) is ReportCcaFailure,
        spec_transmission_step(attempt, event) is Retry <==> (event is AckTimeout && attempt < MAC_MAX_FRAME_RETIES),
        spec_transmission_step(attempt, event) is ReportAckFailure <==> (event is AckTimeout && attempt >= MAC_MAX_FRAME_RETIES),
{
}

/// The action after attempt number `attempt` (from zero) ended with
/// `event`.
pub open spec fn spec_transmission_step(attempt: u16, event: TxEvent) -> TxAction {
    match event {
        TxEvent::CcaFailed => TxAction::ReportCcaFailure,
        TxEvent::Sent => TxAction::Done,
        TxEvent::AckReceived => TxAction::Done,
        TxEvent::AckTimeout => if attempt >= MAC_MAX_FRAME_RETIES { TxAction::ReportAckFailure } else { TxAction::Retry },
    }
}

/// Decide what to do after a transmission attempt.
pub fn transmission_step(attempt: u16, event: TxEvent) -> (r: TxAction)
    ensures
        r == spec_transmission_step(attempt, event),
{
    match event {
        TxEvent::CcaFailed => TxAction::ReportCcaFailure,
        TxEvent::Sent => TxAction::Done,
        TxEvent::AckReceived => TxAction::Done,
        TxEvent::AckTimeout => if attempt >= MAC_MAX_FRAME_RETIES {
            TxAction::ReportAckFailure
        } else {
            TxAction::Retry
        },
    }
}

/// A frame is sent at most `MAC_MAX_FRAME_RETIES + 1` times: no retry
/// follows the last attempt.
pub proof fn lemma_retries_bounded(attempt: u16, event: TxEvent)
    ensures
        spec_transmission_step(attempt, event) is Retry ==> attempt < MAC_MAX_FRAME_RETIES,
        attempt >= MAC_MAX_FRAME_RETIES ==> !(spec_transmission_step(attempt, event) is Retry),
{
}

} // verus!

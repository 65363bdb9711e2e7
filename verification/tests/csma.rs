use dot15d4::addressing::Address;
use dot15d4::csma::constants::SYMBOL_RATE_INV_US;
use dot15d4::csma::{
    ack_wait_delay, retry_delay, transmission_step, CsmaConfig, CsmaDevice, RxDecision, TxAction,
    TxEvent, TxStart,
};
use dot15d4::frames::frame::Frame;
use dot15d4::repr::builder::FrameBuilder;
use dot15d4::frames::data::DataFrame;
use dot15d4::Duration;

#[test]
fn inv_symbol_rate() {
    assert_eq!(SYMBOL_RATE_INV_US, 4);
}

const HW: [u8; 8] = [0x00, 0x12, 0x4b, 0x00, 0x14, 0xb5, 0xd9, 0xc7];

fn data_frame(dst: Address, ack_request: bool) -> Vec<u8> {
    let repr = FrameBuilder::new_data(&[1, 2, 3])
        .set_sequence_number(123)
        .set_dst_pan_id(0xabcd)
        .set_dst_address(dst)
        .set_src_pan_id(0xabcd)
        .set_src_address(Address::Extended([1, 2, 3, 4, 5, 6, 7, 8]))
        .finalize()
        .unwrap();
    let mut buffer = DataFrame::new_owned(vec![0; repr.buffer_len()]);
    repr.emit(&mut buffer);
    let mut bytes = buffer.into_bytes();
    if ack_request {
        bytes[0] |= 1 << 5;
    }
    bytes
}

#[test]
fn frame_for_us() {
    let bytes = data_frame(Address::Short([0xd9, 0xc7]), false);
    let frame = Frame::new(&bytes).unwrap();
    assert!(CsmaDevice::is_package_for_us(&HW, &frame));

    let bytes = data_frame(Address::broadcast(), false);
    let frame = Frame::new(&bytes).unwrap();
    assert!(CsmaDevice::is_package_for_us(&HW, &frame));

    let bytes = data_frame(Address::Extended(HW), false);
    let frame = Frame::new(&bytes).unwrap();
    assert!(CsmaDevice::is_package_for_us(&HW, &frame));

    let bytes = data_frame(Address::Short([0x01, 0x02]), false);
    let frame = Frame::new(&bytes).unwrap();
    assert!(!CsmaDevice::is_package_for_us(&HW, &frame));
}

#[test]
fn receive_acks_unicast_with_request() {
    let device = CsmaDevice::new(HW, CsmaConfig::default());
    let bytes = data_frame(Address::Short([0xd9, 0xc7]), true);
    let frame = Frame::new(&bytes).unwrap();
    assert_eq!(device.receive_decision(&frame), RxDecision::Deliver(Some(123)));

    let bytes = data_frame(Address::Short([0xd9, 0xc7]), false);
    let frame = Frame::new(&bytes).unwrap();
    assert_eq!(device.receive_decision(&frame), RxDecision::Deliver(None));
}

#[test]
fn receive_does_not_ack_broadcast_by_default() {
    let device = CsmaDevice::new(HW, CsmaConfig::default());
    let bytes = data_frame(Address::broadcast(), true);
    let frame = Frame::new(&bytes).unwrap();
    assert_eq!(device.receive_decision(&frame), RxDecision::Deliver(None));
}

#[test]
fn receive_drops_ack_frames() {
    let device = CsmaDevice::new(HW, CsmaConfig::default());
    let bytes = [0x02, 0x10, 0x01];
    let frame = Frame::new(&bytes).unwrap();
    assert_eq!(device.receive_decision(&frame), RxDecision::Drop);
}

#[test]
fn transmit_sets_ack_request_on_unicast() {
    let device = CsmaDevice::new(HW, CsmaConfig::default());
    let mut bytes = data_frame(Address::Short([0x01, 0x02]), false);
    let len = bytes.len() as u8;
    let r = device.set_ack_request_if_possible(&mut bytes).unwrap();
    assert_eq!(r, Some((123, len)));
    assert_eq!(bytes[0] & (1 << 5), 1 << 5);
}

#[test]
fn transmit_clears_ack_request_on_broadcast() {
    let device = CsmaDevice::new(HW, CsmaConfig::default());
    let mut bytes = data_frame(Address::broadcast(), true);
    let r = device.set_ack_request_if_possible(&mut bytes).unwrap();
    assert_eq!(r, None);
    assert_eq!(bytes[0] & (1 << 5), 0);
}

#[test]
fn transmit_rejects_invalid_frame() {
    let device = CsmaDevice::new(HW, CsmaConfig::default());
    let mut bytes = vec![0x41];
    assert!(device.set_ack_request_if_possible(&mut bytes).is_err());
    assert_eq!(bytes, vec![0x41]);
}

#[test]
fn valid_ack() {
    let bytes = [0x02, 0x10, 0x01];
    let frame = Frame::new(&bytes).unwrap();
    assert!(CsmaDevice::is_valid_ack(&frame, 1));
    assert!(!CsmaDevice::is_valid_ack(&frame, 2));
}

#[test]
fn wait_delays() {
    let d = ack_wait_delay(Duration::from_us(1000), Duration::from_us(1000), 20);
    assert_eq!(d, Duration::from_us(2000));
    let d = ack_wait_delay(Duration::from_us(1000), Duration::from_us(1000), 30);
    assert_eq!(d, Duration::from_us(1000 + 12 * 4 * 30));
    let d = ack_wait_delay(Duration::from_us(1000), Duration::from_us(5000), 20);
    assert_eq!(d, Duration::from_us(6000));
    assert_eq!(retry_delay(Duration::from_us(1000)), Duration::from_us(1000));
    assert_eq!(retry_delay(Duration::from_us(10)), Duration::from_us(48));
}

#[test]
fn retries_end() {
    assert_eq!(transmission_step(0, TxEvent::AckTimeout), TxAction::Retry);
    assert_eq!(transmission_step(2, TxEvent::AckTimeout), TxAction::Retry);
    assert_eq!(transmission_step(3, TxEvent::AckTimeout), TxAction::ReportAckFailure);
    assert_eq!(transmission_step(0, TxEvent::CcaFailed), TxAction::ReportCcaFailure);
    assert_eq!(transmission_step(1, TxEvent::AckReceived), TxAction::Done);
    assert_eq!(transmission_step(1, TxEvent::Sent), TxAction::Done);
}

#[test]
fn sniffer_keeps_frames_for_others() {
    let config = CsmaConfig { ack_unicast: true, ack_broadcast: false, ignore_not_for_us: false, ack_everything: true };
    let device = CsmaDevice::new(HW, config);
    let bytes = data_frame(Address::Short([0x01, 0x02]), false);
    let frame = Frame::new(&bytes).unwrap();
    assert_eq!(device.receive_decision(&frame), RxDecision::Deliver(Some(123)));
}

#[test]
fn default_drops_frames_for_others() {
    let device = CsmaDevice::new(HW, CsmaConfig::default());
    let bytes = data_frame(Address::Short([0x01, 0x02]), true);
    let frame = Frame::new(&bytes).unwrap();
    assert_eq!(device.receive_decision(&frame), RxDecision::Drop);
}

#[test]
fn requested_ack_is_granted() {
    let sender = CsmaDevice::new([9; 8], CsmaConfig::default());
    let receiver = CsmaDevice::new(HW, CsmaConfig::default());
    let mut bytes = data_frame(Address::Short([0xd9, 0xc7]), false);
    let r = sender.set_ack_request_if_possible(&mut bytes).unwrap();
    assert!(r.is_some());
    let frame = Frame::new(&bytes).unwrap();
    assert_eq!(receiver.receive_decision(&frame), RxDecision::Deliver(Some(123)));
}

#[test]
fn ack_response_octets() {
    let device = CsmaDevice::new(HW, CsmaConfig::default());
    let bytes = data_frame(Address::Short([0xd9, 0xc7]), true);
    let frame = Frame::new(&bytes).unwrap();
    assert_eq!(device.ack_response(&frame), Some(vec![0x02, 0x10, 123]));

    let bytes = data_frame(Address::Short([0xd9, 0xc7]), false);
    let frame = Frame::new(&bytes).unwrap();
    assert_eq!(device.ack_response(&frame), None);

    let bytes = [0x02, 0x10, 0x01];
    let frame = Frame::new(&bytes).unwrap();
    assert_eq!(device.ack_response(&frame), None);
}

#[test]
fn enhanced_ack_with_reserved_mode_is_dropped() {
    let device = CsmaDevice::new(HW, CsmaConfig::default());
    let bytes = [0x02, 0x24, 0x05, 0xcd, 0xab];
    let frame = Frame::new(&bytes[..]).unwrap();
    assert!(matches!(frame, Frame::EnhancedAck(_)));
    assert!(!CsmaDevice::is_package_for_us(&HW, &frame));
    let everything = CsmaConfig { ignore_not_for_us: false, ..CsmaConfig::default() };
    let device_all = CsmaDevice::new(HW, everything);
    assert_eq!(device_all.receive_decision(&frame), RxDecision::Drop);
    assert_eq!(device.ack_response(&frame), None);
}

#[test]
fn start_transmission_kinds() {
    let config = CsmaConfig { ack_unicast: true, ack_broadcast: false, ..CsmaConfig::default() };
    let device = CsmaDevice::new(HW, config);

    let mut invalid = [0x07, 0x00, 0x01];
    assert_eq!(device.start_transmission(&mut invalid), TxStart::ReportInvalid);
    assert_eq!(invalid, [0x07, 0x00, 0x01]);

    let mut unicast = data_frame(Address::Short([0x01, 0x02]), false);
    let len = unicast.len() as u8;
    assert_eq!(device.start_transmission(&mut unicast), TxStart::AwaitAck(123, len));
    assert_eq!(unicast[0] & (1 << 5), 1 << 5);

    let mut broadcast = data_frame(Address::broadcast(), true);
    assert_eq!(device.start_transmission(&mut broadcast), TxStart::NoAck);
    assert_eq!(broadcast[0] & (1 << 5), 0);
}

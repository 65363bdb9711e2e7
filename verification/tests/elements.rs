use dot15d4::frames::beacon::{BeaconOrder, GtsDirection, SuperframeOrder};
use dot15d4::frames::data::DataFrame;
use dot15d4::frames::frame::Frame;
use dot15d4::frames::fcs::FrameWithFcs;
use dot15d4::ie::headers::TimeCorrection;
use dot15d4::ie::nested::TschSynchronization;
use dot15d4::ie::tsch::{LinkInformation, TschLinkOption, TschTimeslot, TschTimeslotTimings};
use dot15d4::repr::frame_control::FrameControlRepr;
use dot15d4::repr::ie::headers::{HeaderInformationElementRepr, TimeCorrectionRepr};
use dot15d4::frame_control::FrameControl;
use dot15d4::{Duration, Instant};

#[test]
fn link_options() {
    let o = TschLinkOption::tx().union(TschLinkOption::rx());
    assert_eq!(o.bits(), 0b11);
    assert!(o.contains(TschLinkOption::rx()));
    assert!(!o.contains(TschLinkOption::shared()));
    assert!(TschLinkOption::empty().is_empty());
    assert!(TschLinkOption::from_bits(0x20).is_none());
    assert_eq!(TschLinkOption::from_bits(0x1f).unwrap().bits(), 0x1f);
    assert_eq!(TschLinkOption::from_bits_truncate(0xff).bits(), 0x1f);
}

#[test]
fn default_timeslot_timings() {
    let t = TschTimeslotTimings::new(1, Duration::from_us(2200));
    assert_eq!(t.id(), 1);
    assert_eq!(t.cca_offset(), Duration::from_us(1800));
    assert_eq!(t.cca(), Duration::from_us(128));
    assert_eq!(t.tx_offset(), Duration::from_us(2120));
    assert_eq!(t.rx_offset(), Duration::from_us(1020));
    assert_eq!(t.rx_ack_delay(), Duration::from_us(800));
    assert_eq!(t.tx_ack_delay(), Duration::from_us(1000));
    assert_eq!(t.rx_wait(), Duration::from_us(2200));
    assert_eq!(t.ack_wait(), Duration::from_us(400));
    assert_eq!(t.rx_tx(), Duration::from_us(192));
    assert_eq!(t.max_ack(), Duration::from_us(2400));
    assert_eq!(t.max_tx(), Duration::from_us(4256));
    assert_eq!(t.timeslot_length(), Duration::from_us(10000));
}

#[test]
fn timeslot_timings_write_read() {
    let mut t = TschTimeslotTimings::new(3, Duration::from_us(2200));
    t.set_max_tx(Duration::from_us(70000));
    let mut w = TschTimeslot::new_owned(vec![0; 27]);
    w.set_timeslot_timings(&t);
    let r = TschTimeslot::new(w.as_bytes()).unwrap();
    assert!(r.has_timeslot_timings());
    assert_eq!(r.id(), 3);
    let back = r.timeslot_timings();
    assert_eq!(back.max_tx(), Duration::from_us(70000));
    assert_eq!(back.cca_offset(), Duration::from_us(1800));
}

#[test]
fn short_timeslot_has_no_timings() {
    let r = TschTimeslot::new(&[0]).unwrap();
    assert_eq!(r.id(), 0);
    assert!(!r.has_timeslot_timings());
    assert!(TschTimeslot::new(&[7]).is_err());
    assert!(TschTimeslot::new(&[]).is_err());
}

#[test]
fn time_correction_write_read() {
    let mut w = TimeCorrection::new_owned(vec![0; 2]);
    w.set_time_correction(Duration::from_us(-31));
    w.set_nack(true);
    assert_eq!(w.as_bytes(), &[0xe1, 0x8f]);
    let r = TimeCorrection::new(w.as_bytes()).unwrap();
    assert_eq!(r.time_correction(), Duration::from_us(-31));
    assert!(r.nack());
}

#[test]
fn asn_write_read() {
    let mut w = TschSynchronization::new_owned(vec![0; 6]);
    w.set_absolute_slot_number(0x12_3456_789a);
    w.set_join_metric(3);
    let r = TschSynchronization::new(w.as_bytes()).unwrap();
    assert_eq!(r.absolute_slot_number(), 0x12_3456_789a);
    assert_eq!(r.join_metric(), 3);
}

#[test]
fn link_information_write_read() {
    let mut w = LinkInformation::new_owned(vec![0; 5]);
    w.set_timeslot(0x1234);
    w.set_channel_offset(0x0506);
    w.set_link_options(TschLinkOption::shared());
    assert_eq!(w.as_bytes(), &[0x34, 0x12, 0x06, 0x05, 0x04]);
    let r = LinkInformation::new(w.as_bytes()).unwrap();
    assert_eq!(r.timeslot(), 0x1234);
    assert_eq!(r.channel_offset(), 0x0506);
    assert_eq!(r.link_options().bits(), TschLinkOption::shared().bits());
}

#[test]
fn orders_and_directions() {
    assert_eq!(BeaconOrder::from(15u8), BeaconOrder::OnDemand);
    assert_eq!(u8::from(BeaconOrder::from(4u8)), 4);
    assert_eq!(SuperframeOrder::from(15u8), SuperframeOrder::Inactive);
    assert_eq!(u8::from(SuperframeOrder::from(9u8)), 9);
    assert_eq!(GtsDirection::from(0u8), GtsDirection::Receive);
    assert_eq!(GtsDirection::from(1u8), GtsDirection::Transmit);
    assert_eq!(u8::from(GtsDirection::Transmit), 1);
}

#[test]
fn frame_control_repr_roundtrip() {
    let fc = FrameControl::new(&[0x41, 0xd8]).unwrap();
    let repr = FrameControlRepr::parse(fc).unwrap();
    let mut out = vec![0u8; 2];
    dot15d4::repr::frame_control::write_frame_control(&mut out, &repr);
    assert_eq!(out, [0x41, 0xd8]);
}

#[test]
fn header_ie_repr_roundtrip() {
    let ie = HeaderInformationElementRepr::TimeCorrection(TimeCorrectionRepr {
        time_correction: Duration::from_us(-31),
        nack: true,
    });
    let mut out = vec![0u8; ie.buffer_len()];
    ie.emit(&mut out);
    assert_eq!(out, [0x02, 0x0f, 0xe1, 0x8f]);
}

#[test]
fn rejected_frames() {
    assert!(Frame::new(&[0x41]).is_err());
    assert!(Frame::new(&[0x02, 0x10, 0x01, 0x00]).is_err());
    assert!(DataFrame::new(&[0x41, 0xd8]).is_err());
    assert!(DataFrame::new(&[0x49, 0xd8, 0x01]).is_err());
    assert!(FrameWithFcs::new(&[]).is_err());
}

#[test]
fn durations_and_instants() {
    let d = Duration::from_us(100);
    assert_eq!(d.add(Duration::from_us(20)).as_us(), 120);
    assert_eq!(d.sub(Duration::from_us(30)).as_us(), 70);
    assert_eq!(d.mul(3).as_us(), 300);
    assert_eq!(d.div(3).as_us(), 33);
    assert_eq!(d.max(Duration::from_us(200)).as_us(), 200);
    let i = Instant::from_us(1000);
    assert_eq!(i.add(d).as_us(), 1100);
    assert_eq!(i.sub(Instant::from_us(400)).as_us(), 600);
    assert_eq!(i.sub_duration(d).as_us(), 900);
}

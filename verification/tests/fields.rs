use dot15d4::addressing::Address;
use dot15d4::aux_sec_header::SecurityLevel;
use dot15d4::csma::constants::{
    csma_inter_frame_time, mac_aifs_period, mac_lifs_period, mac_sifs_period,
    mac_unit_backoff_duration,
};
use dot15d4::csma::imm_ack_frame;
use dot15d4::frames::ack::EnhancedAck;
use dot15d4::frames::beacon::EnhancedBeaconFrame;
use dot15d4::frames::data::DataFrame;
use dot15d4::frames::fcs::FrameWithFcs;
use dot15d4::ie::headers::{HeaderElementId, HeaderInformationElement};
use dot15d4::ie::payloads::{PayloadGroupId, PayloadInformationElement};
use dot15d4::Duration;

#[test]
fn header_termination_2_has_length_zero() {
    let ie = HeaderInformationElement::new(&[0x80, 0x3f]).unwrap();
    assert_eq!(ie.element_id(), HeaderElementId::HeaderTermination2);
    assert_eq!(ie.len(), 0);
    assert!(ie.is_empty());
    assert!(ie.content().is_empty());
}

#[test]
fn header_length_written_reads_back() {
    let mut w = HeaderInformationElement::new_owned(vec![0; 4]);
    w.set_length(1);
    let r = HeaderInformationElement::new(w.as_bytes()).unwrap();
    assert_eq!(r.len(), 1);
    w.set_length(127);
    w.set_element_id(HeaderElementId::TimeCorrection);
    let r = HeaderInformationElement::new(w.as_bytes()).unwrap();
    assert_eq!(r.len(), 127);
    assert_eq!(r.element_id(), HeaderElementId::TimeCorrection);
}

#[test]
fn payload_length_and_group() {
    let a = PayloadInformationElement::new(&[0x11, 0x88]).unwrap();
    assert_eq!(a.length(), 17);
    assert_eq!(a.group_id(), PayloadGroupId::Mlme);
    let b = PayloadInformationElement::new(&[0x00, 0x8c]).unwrap();
    assert_eq!(b.length(), 1024);
    let t = PayloadInformationElement::new(&[0x00, 0xf8]).unwrap();
    assert_eq!(t.group_id(), PayloadGroupId::PayloadTermination);
    assert_eq!(t.length(), 0);
}

#[test]
fn payload_group_written_reads_back() {
    let mut w = PayloadInformationElement::new_owned(vec![0; 2]);
    w.set_group_id(PayloadGroupId::PayloadTermination);
    assert_eq!(w.as_bytes(), &[0x00, 0xf8]);
    w.set_length(1024);
    let r = PayloadInformationElement::new(w.as_bytes()).unwrap();
    assert_eq!(r.length(), 1024);
    assert_eq!(r.group_id(), PayloadGroupId::PayloadTermination);
}

#[test]
fn data_confidentiality_levels() {
    for l in [0u8, 1, 2, 3] {
        assert!(!SecurityLevel::from(l).data_confidentiality());
    }
    for l in [5u8, 6, 7] {
        assert!(SecurityLevel::from(l).data_confidentiality());
    }
}

#[test]
fn frames_too_short_for_their_addressing() {
    assert!(DataFrame::new(&[0x41, 0xd8, 0x01]).is_err());
    assert!(DataFrame::new(&[0x41, 0xd8, 0x01, 0xcd, 0xab, 0xff, 0xff, 0xc7, 0xd9, 0xb5, 0x14, 0x00, 0x4b, 0x12]).is_err());
    assert!(DataFrame::new(&[0x41, 0xd8, 0x01, 0xcd, 0xab, 0xff, 0xff, 0xc7, 0xd9, 0xb5, 0x14, 0x00, 0x4b, 0x12, 0x00]).is_ok());
}

#[test]
fn enhanced_beacon_without_room_for_addressing() {
    let b = [0x40, 0xeb, 0x00];
    let frame = EnhancedBeaconFrame::new(&b[..]).unwrap();
    assert!(frame.addressing().is_none());
    assert!(EnhancedBeaconFrame::new(&[0x40, 0xeb, 0xcd, 0xab]).is_ok());
    assert!(EnhancedBeaconFrame::new(&[0x40, 0xea]).is_err());
    assert!(EnhancedBeaconFrame::new(&[0x40, 0xea, 0x00]).unwrap().addressing().is_none());
    assert!(EnhancedBeaconFrame::new(&[0x48, 0xeb, 0x00]).is_err());
}

#[test]
fn ack_octets() {
    assert_eq!(imm_ack_frame(123), vec![0x02, 0x10, 123]);
    assert_eq!(imm_ack_frame(0), vec![0x02, 0x10, 0]);
}

#[test]
fn default_durations() {
    assert_eq!(mac_unit_backoff_duration(), Duration::from_us(80));
    assert_eq!(csma_inter_frame_time(), Duration::from_us(1000));
    assert_eq!(mac_aifs_period(), Duration::from_us(1000));
    assert_eq!(mac_sifs_period(), Duration::from_us(1000));
    assert_eq!(mac_lifs_period(), Duration::from_us(10_000));
}

#[test]
fn crc_check_value() {
    let mut data = b"123456789".to_vec();
    data.extend_from_slice(&[0, 0]);
    let frame = FrameWithFcs::new_unchecked(&data);
    assert_eq!(frame.calculate_fcs(), 0x2189);
}

#[test]
fn enhanced_ack_completeness() {
    let complete = [
        0x02, 0x2e, 0x37, 0xcd, 0xab, 0x02, 0x00, 0x02, 0x00, 0x02, 0x00, 0x02, 0x00, 0x02, 0x0f,
        0xe1, 0x8f,
    ];
    assert!(EnhancedAck::new(&complete).unwrap().is_complete());
    assert!(!EnhancedAck::new(&complete[..10]).unwrap().is_complete());
    assert!(!EnhancedAck::new(&[0x02, 0x2e]).unwrap().is_complete());
}

#[test]
fn set_payload_reads_back() {
    let mut frame = DataFrame::new_owned(vec![
        0x41, 0xd8, 0x01, 0xcd, 0xab, 0xff, 0xff, 0xc7, 0xd9, 0xb5, 0x14, 0x00, 0x4b, 0x12, 0x00,
        0, 0, 0, 0,
    ]);
    frame.set_payload(&[9, 8, 7, 6]);
    let bytes = frame.into_bytes();
    let r = DataFrame::new(&bytes).unwrap();
    assert_eq!(r.payload(), Some(&[9u8, 8, 7, 6][..]));
}

#[test]
fn address_text_forms() {
    assert_eq!(Address::Absent.text(), b"absent".to_vec());
    assert_eq!(Address::Short([0xff, 0xfe]).text(), b"ff:fe".to_vec());
    assert_eq!(
        Address::Extended([0x00, 0x12, 0x4b, 0x00, 0x14, 0xb5, 0xd9, 0xc7]).text(),
        b"00:12:4b:00:14:b5:d9:c7".to_vec()
    );
}

#[test]
fn address_text_parses_back() {
    let addresses = [
        Address::Short([0x00, 0x0a]),
        Address::Short([0xff, 0xff]),
        Address::Extended([0, 1, 2, 3, 0xa4, 0xb5, 0xc6, 0xff]),
    ];
    for a in addresses {
        let t = String::from_utf8(a.text()).unwrap();
        assert_eq!(Address::parse(&t), Ok(a));
    }
}

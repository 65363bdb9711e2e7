use dot15d4::addressing::{Address, AddressingMode};
use dot15d4::frame_control::{FrameType, FrameVersion};
use dot15d4::frames::data::DataFrame;
use dot15d4::frames::frame::Frame;
use dot15d4::ie::nested::NestedInformationElement;
use dot15d4::ie::tsch::{TschTimeslot, TschTimeslotTimings};
use dot15d4::repr::addressing::AddressingFieldsRepr;
use dot15d4::repr::frame::FrameRepr;
use dot15d4::repr::frame_control::FrameControlRepr;
use dot15d4::repr::ie::headers::{HeaderInformationElementRepr, TimeCorrectionRepr};
use dot15d4::repr::ie::nested::{
    ChannelHoppingRepr, NestedInformationElementRepr, TschSynchronizationRepr, TschTimeslotRepr,
};
use dot15d4::repr::ie::payloads::PayloadInformationElementRepr;
use dot15d4::repr::ie::InformationElementsRepr;
use dot15d4::Duration;

fn data_fc(ies: bool) -> FrameControlRepr {
    FrameControlRepr {
        frame_type: FrameType::Data,
        security_enabled: false,
        frame_pending: false,
        ack_request: true,
        pan_id_compression: true,
        sequence_number_suppression: false,
        information_elements_present: ies,
        dst_addressing_mode: AddressingMode::Short,
        src_addressing_mode: AddressingMode::Short,
        frame_version: FrameVersion::Ieee802154_2020,
    }
}

fn addressing() -> AddressingFieldsRepr {
    AddressingFieldsRepr {
        dst_pan_id: Some(0x1234),
        dst_address: Some(Address::Short([0x01, 0x02])),
        src_pan_id: None,
        src_address: Some(Address::Short([0x03, 0x04])),
    }
}

fn emit(frame: &FrameRepr) -> Vec<u8> {
    let mut buffer = DataFrame::new_owned(vec![0; frame.buffer_len()]);
    frame.emit(&mut buffer);
    buffer.into_bytes()
}

#[test]
fn data_frame_with_payload_reads_back() {
    let payload = [0xde, 0xad, 0xbe, 0xef];
    let frame = FrameRepr {
        frame_control: data_fc(false),
        sequence_number: Some(42),
        addressing_fields: Some(addressing()),
        information_elements: None,
        payload: Some(&payload),
    };
    let bytes = emit(&frame);
    let reader = Frame::new(&bytes).unwrap();
    let back = FrameRepr::parse(&reader).unwrap();
    assert_eq!(back.frame_control, frame.frame_control);
    assert_eq!(back.sequence_number, Some(42));
    let a = back.addressing_fields.unwrap();
    assert_eq!(a.dst_pan_id, Some(0x1234));
    assert_eq!(a.dst_address, Some(Address::Short([0x01, 0x02])));
    assert_eq!(a.src_pan_id, None);
    assert_eq!(a.src_address, Some(Address::Short([0x03, 0x04])));
    assert!(back.information_elements.is_none());
    assert_eq!(back.payload, Some(&payload[..]));
}

#[test]
fn data_frame_with_information_elements_reads_back() {
    let mut headers = heapless::Vec::new();
    headers
        .push(HeaderInformationElementRepr::TimeCorrection(TimeCorrectionRepr {
            time_correction: Duration::from_us(-100),
            nack: false,
        }))
        .unwrap();
    let mut nested = heapless::Vec::new();
    nested
        .push(NestedInformationElementRepr::TschSynchronization(TschSynchronizationRepr {
            absolute_slot_number: 0x01_0203_0405,
            join_metric: 7,
        }))
        .unwrap();
    nested
        .push(NestedInformationElementRepr::ChannelHopping(ChannelHoppingRepr { hopping_sequence_id: 9 }))
        .unwrap();
    let mut payloads = heapless::Vec::new();
    payloads.push(PayloadInformationElementRepr::Mlme(nested)).unwrap();
    let frame = FrameRepr {
        frame_control: data_fc(true),
        sequence_number: Some(1),
        addressing_fields: Some(addressing()),
        information_elements: Some(InformationElementsRepr {
            header_information_elements: headers,
            payload_information_elements: payloads,
        }),
        payload: None,
    };
    let bytes = emit(&frame);
    let reader = Frame::new(&bytes).unwrap();
    let back = FrameRepr::parse(&reader).unwrap();
    assert_eq!(back.frame_control, frame.frame_control);
    assert!(back.payload.is_none());
    let ie = back.information_elements.unwrap();
    assert_eq!(ie.header_information_elements.len(), 2);
    assert_eq!(
        ie.header_information_elements[0],
        HeaderInformationElementRepr::TimeCorrection(TimeCorrectionRepr {
            time_correction: Duration::from_us(-100),
            nack: false,
        })
    );
    assert_eq!(ie.header_information_elements[1], HeaderInformationElementRepr::HeaderTermination1);
    assert_eq!(ie.payload_information_elements.len(), 1);
    match &ie.payload_information_elements[0] {
        PayloadInformationElementRepr::Mlme(nested) => {
            assert_eq!(nested.len(), 2);
            match &nested[0] {
                NestedInformationElementRepr::TschSynchronization(s) => {
                    assert_eq!(s.absolute_slot_number, 0x01_0203_0405);
                    assert_eq!(s.join_metric, 7);
                }
                _ => panic!("expected a TSCH Synchronization"),
            }
            match &nested[1] {
                NestedInformationElementRepr::ChannelHopping(h) => assert_eq!(h.hopping_sequence_id, 9),
                _ => panic!("expected a Channel Hopping"),
            }
        }
        _ => panic!("expected an MLME element"),
    }
}

#[test]
fn timeslot_repr_reads_back() {
    let mut timings = TschTimeslotTimings::new(2, Duration::from_us(2200));
    timings.set_timeslot_length(Duration::from_us(100_000));
    let repr = NestedInformationElementRepr::TschTimeslot(TschTimeslotRepr::Custom(timings));
    let mut buffer = vec![0u8; repr.buffer_len()];
    repr.emit(&mut buffer);
    let nested = NestedInformationElement::new(&buffer).unwrap();
    let back = NestedInformationElementRepr::parse(&nested).unwrap();
    match back {
        NestedInformationElementRepr::TschTimeslot(TschTimeslotRepr::Custom(t)) => {
            assert_eq!(t, timings);
            assert_eq!(t.timeslot_length(), Duration::from_us(100_000));
        }
        _ => panic!("expected custom timings"),
    }
    let r = TschTimeslot::new(nested.content()).unwrap();
    assert!(r.has_timeslot_timings());
}

#[test]
fn imm_ack_reads_back() {
    let frame = dot15d4::repr::builder::FrameBuilder::new_imm_ack(77).finalize().unwrap();
    let bytes = emit(&frame);
    let reader = Frame::new(&bytes).unwrap();
    assert!(matches!(reader, Frame::Ack(_)));
    let back = FrameRepr::parse(&reader).unwrap();
    assert_eq!(back.frame_control, frame.frame_control);
    assert_eq!(back.sequence_number, Some(77));
    assert!(back.addressing_fields.is_none());
    assert!(back.information_elements.is_none());
    assert!(back.payload.is_none());
}

#[test]
fn enhanced_beacon_reads_back() {
    let mut nested = heapless::Vec::new();
    nested
        .push(NestedInformationElementRepr::TschSynchronization(TschSynchronizationRepr {
            absolute_slot_number: 14,
            join_metric: 0,
        }))
        .unwrap();
    nested.push(NestedInformationElementRepr::TschTimeslot(TschTimeslotRepr::Default(0))).unwrap();
    let mut payloads = heapless::Vec::new();
    payloads.push(PayloadInformationElementRepr::Mlme(nested)).unwrap();
    let frame = FrameRepr {
        frame_control: FrameControlRepr {
            frame_type: FrameType::Beacon,
            security_enabled: false,
            frame_pending: false,
            ack_request: false,
            pan_id_compression: true,
            sequence_number_suppression: true,
            information_elements_present: true,
            dst_addressing_mode: AddressingMode::Short,
            src_addressing_mode: AddressingMode::Extended,
            frame_version: FrameVersion::Ieee802154_2020,
        },
        sequence_number: None,
        addressing_fields: Some(AddressingFieldsRepr {
            dst_pan_id: Some(0xabcd),
            src_pan_id: None,
            dst_address: Some(Address::broadcast()),
            src_address: Some(Address::Extended([0, 1, 0, 1, 0, 1, 0, 1])),
        }),
        information_elements: Some(InformationElementsRepr {
            header_information_elements: heapless::Vec::new(),
            payload_information_elements: payloads,
        }),
        payload: None,
    };
    let bytes = emit(&frame);
    let reader = Frame::new(&bytes).unwrap();
    assert!(matches!(reader, Frame::EnhancedBeacon(_)));
    let back = FrameRepr::parse(&reader).unwrap();
    assert_eq!(back.frame_control, frame.frame_control);
    assert_eq!(back.sequence_number, None);
    let ie = back.information_elements.unwrap();
    assert_eq!(ie.header_information_elements.len(), 1);
    assert_eq!(ie.header_information_elements[0], HeaderInformationElementRepr::HeaderTermination1);
    assert_eq!(ie.payload_information_elements.len(), 1);
}

#[test]
fn enhanced_ack_reads_back() {
    let frame = dot15d4::repr::builder::FrameBuilder::new_ack()
        .set_sequence_number(55)
        .set_dst_pan_id(0xabcd)
        .set_dst_address(Address::Extended([0x00, 0x02, 0x00, 0x02, 0x00, 0x02, 0x00, 0x02]))
        .add_header_information_element(HeaderInformationElementRepr::TimeCorrection(TimeCorrectionRepr {
            time_correction: Duration::from_us(-31),
            nack: true,
        }))
        .finalize()
        .unwrap();
    let bytes = emit(&frame);
    let reader = Frame::new(&bytes).unwrap();
    assert!(matches!(reader, Frame::EnhancedAck(_)));
    let back = FrameRepr::parse(&reader).unwrap();
    assert_eq!(back.frame_control, frame.frame_control);
    assert_eq!(back.sequence_number, Some(55));
    let a = back.addressing_fields.unwrap();
    assert_eq!(a.dst_pan_id, Some(0xabcd));
    assert_eq!(a.dst_address, Some(Address::Extended([0x00, 0x02, 0x00, 0x02, 0x00, 0x02, 0x00, 0x02])));
    let ie = back.information_elements.unwrap();
    assert_eq!(ie.header_information_elements.len(), 1);
    assert_eq!(back.payload, Some(&[][..]));
}

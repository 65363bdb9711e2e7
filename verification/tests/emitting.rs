use dot15d4::addressing::{Address, AddressingMode};
use dot15d4::frame_control::{FrameType, FrameVersion};
use dot15d4::frames::data::DataFrame;
use dot15d4::frames::frame::Frame;
use dot15d4::ie::tsch::{TschLinkOption, TschTimeslotTimings};
use dot15d4::repr::addressing::AddressingFieldsRepr;
use dot15d4::repr::builder::FrameBuilder;
use dot15d4::repr::frame::FrameRepr;
use dot15d4::repr::frame_control::FrameControlRepr;
use dot15d4::repr::ie::headers::{HeaderInformationElementRepr, TimeCorrectionRepr};
use dot15d4::repr::ie::nested::{
    ChannelHoppingRepr, LinkInformationRepr, NestedInformationElementRepr, SlotframeDescriptorRepr,
    TschLinkOptionRepr, TschSlotframeAndLinkRepr, TschSynchronizationRepr, TschTimeslotRepr,
};
use dot15d4::repr::ie::payloads::PayloadInformationElementRepr;
use dot15d4::repr::ie::InformationElementsRepr;
use dot15d4::Duration;

fn emit(frame: &FrameRepr) -> Vec<u8> {
    let mut buffer = DataFrame::new_owned(vec![0; frame.buffer_len()]);
    frame.emit(&mut buffer);
    buffer.into_bytes()
}

fn ack_frame_repr() -> FrameRepr<'static> {
    FrameBuilder::new_ack()
        .set_sequence_number(55)
        .set_dst_pan_id(0xabcd)
        .set_dst_address(Address::Extended([0x00, 0x02, 0x00, 0x02, 0x00, 0x02, 0x00, 0x02]))
        .add_header_information_element(HeaderInformationElementRepr::TimeCorrection(
            TimeCorrectionRepr { time_correction: Duration::from_us(-31), nack: true },
        ))
        .finalize()
        .unwrap()
}

const ACK_FRAME: [u8; 17] = [
    0x02, 0x2e, 0x37, 0xcd, 0xab, 0x02, 0x00, 0x02, 0x00, 0x02, 0x00, 0x02, 0x00, 0x02, 0x0f, 0xe1,
    0x8f,
];

fn data_frame_repr() -> FrameRepr<'static> {
    FrameBuilder::new_data(&[0x2b, 0x00, 0x00, 0x00])
        .set_sequence_number(1)
        .set_dst_pan_id(0xabcd)
        .set_dst_address(Address::broadcast())
        .set_src_pan_id(0xabcd)
        .set_src_address(Address::Extended([0x00, 0x12, 0x4b, 0x00, 0x14, 0xb5, 0xd9, 0xc7]))
        .finalize()
        .unwrap()
}

const DATA_FRAME: [u8; 19] = [
    0x41, 0xd8, 0x01, 0xcd, 0xab, 0xff, 0xff, 0xc7, 0xd9, 0xb5, 0x14, 0x00, 0x4b, 0x12, 0x00, 0x2b,
    0x00, 0x00, 0x00,
];

fn beacon_frame_control() -> FrameControlRepr {
    FrameControlRepr {
        frame_type: FrameType::Beacon,
        security_enabled: false,
        frame_pending: false,
        ack_request: false,
        pan_id_compression: true,
        sequence_number_suppression: true,
        information_elements_present: true,
        dst_addressing_mode: AddressingMode::Short,
        src_addressing_mode: AddressingMode::Extended,
        frame_version: FrameVersion::Ieee802154_2020,
    }
}

fn beacon_addressing() -> AddressingFieldsRepr {
    AddressingFieldsRepr {
        dst_pan_id: Some(0xabcd),
        src_pan_id: None,
        dst_address: Some(Address::broadcast()),
        src_address: Some(Address::Extended([0x00, 0x01, 0x00, 0x01, 0x00, 0x01, 0x00, 0x01])),
    }
}

#[test]
fn mod_emit_imm_ack() {
    let imm_ack = FrameBuilder::new_imm_ack(1).finalize().unwrap();
    assert_eq!(emit(&imm_ack), [0x02, 0x10, 0x01]);
}

#[test]
fn tests_emit_imm_ack() {
    let imm_ack = FrameBuilder::new_imm_ack(1).finalize().unwrap();
    let buffer = emit(&imm_ack);
    assert_eq!(buffer, [0x02, 0x10, 0x01]);
}

#[test]
fn mod_emit_ack_frame() {
    assert_eq!(emit(&ack_frame_repr()), ACK_FRAME);
}

#[test]
fn tests_emit_ack_frame() {
    let buffer = emit(&ack_frame_repr());
    assert_eq!(buffer, ACK_FRAME);
}

#[test]
fn mod_emit_data_frame() {
    assert_eq!(emit(&data_frame_repr()), DATA_FRAME);
}

#[test]
fn tests_emit_data_frame() {
    let buffer = emit(&data_frame_repr());
    assert_eq!(buffer, DATA_FRAME);
}

#[test]
fn mod_emit_enhanced_beacon() {
    let mut links = heapless::Vec::new();
    links
        .push(LinkInformationRepr {
            timeslot: 0,
            channel_offset: 1,
            link_options: TschLinkOptionRepr(TschLinkOption::rx().union(TschLinkOption::shared())),
        })
        .unwrap();
    links
        .push(LinkInformationRepr {
            timeslot: 1,
            channel_offset: 2,
            link_options: TschLinkOptionRepr(
                TschLinkOption::tx().union(TschLinkOption::rx()).union(TschLinkOption::shared()),
            ),
        })
        .unwrap();
    let mut slotframe_descriptors = heapless::Vec::new();
    slotframe_descriptors.push(SlotframeDescriptorRepr { handle: 0, size: 17, links }).unwrap();

    let mut nested = heapless::Vec::new();
    nested
        .push(NestedInformationElementRepr::TschSynchronization(TschSynchronizationRepr {
            absolute_slot_number: 17,
            join_metric: 0,
        }))
        .unwrap();
    nested
        .push(NestedInformationElementRepr::TschTimeslot(TschTimeslotRepr::Custom(
            TschTimeslotTimings::new(1, Duration::from_us(2200)),
        )))
        .unwrap();
    nested
        .push(NestedInformationElementRepr::ChannelHopping(ChannelHoppingRepr {
            hopping_sequence_id: 0,
        }))
        .unwrap();
    nested
        .push(NestedInformationElementRepr::TschSlotframeAndLink(TschSlotframeAndLinkRepr {
            slotframe_descriptors,
        }))
        .unwrap();
    let mut payload_information_elements = heapless::Vec::new();
    payload_information_elements.push(PayloadInformationElementRepr::Mlme(nested)).unwrap();

    let frame = FrameRepr {
        frame_control: beacon_frame_control(),
        sequence_number: None,
        addressing_fields: Some(beacon_addressing()),
        information_elements: Some(InformationElementsRepr {
            header_information_elements: heapless::Vec::new(),
            payload_information_elements,
        }),
        payload: None,
    };

    let buffer = emit(&frame);
    assert_eq!(
        buffer,
        [
            64, 235, 205, 171, 255, 255, 1, 0, 1, 0, 1, 0, 1, 0, 0, 63, 55, 136, 6, 26, 17, 0, 0,
            0, 0, 0, 25, 28, 1, 8, 7, 128, 0, 72, 8, 252, 3, 32, 3, 232, 3, 152, 8, 144, 1, 192, 0,
            96, 9, 160, 16, 16, 39, 1, 200, 0, 15, 27, 1, 0, 17, 0, 2, 0, 0, 1, 0, 6, 1, 0, 2, 0,
            7
        ]
    );
}

#[test]
fn tests_emit_enhanced_beacon() {
    let mut nested = heapless::Vec::new();
    nested
        .push(NestedInformationElementRepr::TschSynchronization(TschSynchronizationRepr {
            absolute_slot_number: 14,
            join_metric: 0,
        }))
        .unwrap();
    nested.push(NestedInformationElementRepr::TschTimeslot(TschTimeslotRepr::Default(0))).unwrap();
    nested
        .push(NestedInformationElementRepr::ChannelHopping(ChannelHoppingRepr {
            hopping_sequence_id: 0,
        }))
        .unwrap();
    nested
        .push(NestedInformationElementRepr::TschSlotframeAndLink(TschSlotframeAndLinkRepr {
            slotframe_descriptors: heapless::Vec::new(),
        }))
        .unwrap();
    let mut payload_information_elements = heapless::Vec::new();
    payload_information_elements.push(PayloadInformationElementRepr::Mlme(nested)).unwrap();

    let frame = FrameRepr {
        frame_control: beacon_frame_control(),
        sequence_number: None,
        addressing_fields: Some(beacon_addressing()),
        information_elements: Some(InformationElementsRepr {
            header_information_elements: heapless::Vec::new(),
            payload_information_elements,
        }),
        payload: None,
    };

    let buffer = emit(&frame);
    assert_eq!(
        buffer,
        [
            0x40, 0xeb, 0xcd, 0xab, 0xff, 0xff, 0x01, 0x00, 0x01, 0x00, 0x01, 0x00, 0x01, 0x00,
            0x00, 0x3f, 0x11, 0x88, 0x06, 0x1a, 0x0e, 0x00, 0x00, 0x00, 0x00, 0x00, 0x01, 0x1c,
            0x00, 0x01, 0xc8, 0x00, 0x01, 0x1b, 0x00
        ],
    );
}

/// Setting `dst_pan_id` to a different value than `src_pan_id` must not make
/// `emit` fail.
#[test]
fn issue29() {
    let frame = FrameBuilder::new_data(&[0x2b, 0x00, 0x00, 0x00])
        .set_sequence_number(1)
        .set_dst_pan_id(0xabce)
        .set_dst_address(Address::Short([0x02, 0x04]))
        .set_src_pan_id(0xabcd)
        .set_src_address(Address::Extended([0x00, 0x12, 0x4b, 0x00, 0x14, 0xb5, 0xd9, 0xc7]))
        .finalize()
        .unwrap();

    let buffer = emit(&frame);

    println!("{:?}", frame);
    println!("packet = {:#04X?}", buffer);
}

#[test]
fn emitted_data_frame_parses_back() {
    let frame = data_frame_repr();
    let buffer = emit(&frame);
    let parsed = Frame::new(&buffer).unwrap();
    let repr = FrameRepr::parse(&parsed).unwrap();
    assert_eq!(repr.sequence_number, Some(1));
    assert_eq!(repr.payload, Some(&[0x2b, 0x00, 0x00, 0x00][..]));
    let fields = repr.addressing_fields.unwrap();
    assert_eq!(fields.dst_pan_id, Some(0xabcd));
    assert_eq!(fields.dst_address, Some(Address::broadcast()));
    assert_eq!(fields.src_pan_id, None);
    assert_eq!(
        fields.src_address,
        Some(Address::Extended([0x00, 0x12, 0x4b, 0x00, 0x14, 0xb5, 0xd9, 0xc7]))
    );
    assert_eq!(repr.frame_control, frame.frame_control);
}

use dot15d4::addressing::{Address, AddressingMode};
use dot15d4::frame_control::{FrameType, FrameVersion};
use dot15d4::frames::ack::{Ack, EnhancedAck};
use dot15d4::frames::beacon::{
    BeaconOrder, EnhancedBeaconFrame, GtsDirection, GtsSlot, GtsSpecification, SuperframeOrder,
    SuperframeSpecification,
};
use dot15d4::frames::data::DataFrame;
use dot15d4::frames::fcs::FrameWithFcs;
use dot15d4::frames::frame::Frame;
use dot15d4::ie::headers::{HeaderElementId, TimeCorrection};
use dot15d4::ie::nested::{
    NestedInformationElementsIterator, NestedSubId, NestedSubIdLong, NestedSubIdShort,
    TschSynchronization,
};
use dot15d4::ie::payloads::PayloadGroupId;
use dot15d4::ie::tsch::{ChannelHopping, TschSlotframeAndLink, TschTimeslot};
use dot15d4::Duration;

#[test]
fn high_level_parsing() {
    let data = hex::decode("021001").unwrap();
    let frame = Frame::new(&data).unwrap();
    assert!(matches!(frame, Frame::Ack(_)));
    frame.into_ack();

    let data = hex::decode("022e37cdab02000200020002000200020fe18f").unwrap();
    let frame = Frame::new(&data).unwrap();
    assert!(matches!(frame, Frame::EnhancedAck(_)));
    frame.into_enhanced_ack();

    let data =
        hex::decode("40ebcdabffff0100010001000100003f1188061a0e0000000000011c0001c800011b00")
            .unwrap();
    let frame = Frame::new(&data).unwrap();
    assert!(matches!(frame, Frame::EnhancedBeacon(_)));
    frame.into_enhanced_beacon();

    let data = hex::decode("41d801cdabffffc7d9b514004b12002b000000").unwrap();
    let frame = Frame::new(&data).unwrap();
    assert!(matches!(frame, Frame::Data(_)));
    frame.into_data();
}

#[test]
fn fcs() {
    let frame_with_fcs = [
        0x40, 0xeb, 0xcd, 0xab, 0xff, 0xff, 0x01, 0x00, 0x01, 0x00, 0x01, 0x00, 0x01, 0x00, 0x00,
        0x3f, 0x32, 0x88, 0x06, 0x1a, 0x11, 0x00, 0x00, 0x00, 0x00, 0x00, 0x19, 0x1c, 0x01, 0x08,
        0x07, 0x80, 0x00, 0x48, 0x08, 0xfc, 0x03, 0x20, 0x03, 0xe8, 0x03, 0x98, 0x08, 0x90, 0x01,
        0xc0, 0x00, 0x60, 0x09, 0xa0, 0x10, 0x10, 0x27, 0x01, 0xc8, 0x00, 0x0a, 0x1b, 0x01, 0x00,
        0x11, 0x00, 0x01, 0x00, 0x00, 0x00, 0x00, 0x07, 0x12, 0x16,
    ];
    let _frame = FrameWithFcs::new(&frame_with_fcs).unwrap();

    let frame_with_fcs = [
        0x41, 0xe9, 0xcd, 0xab, 0xff, 0xff, 0x01, 0x00, 0x01, 0x00, 0x01, 0x00, 0x01, 0x00, 0x7a,
        0x3b, 0x3a, 0x1a, 0x9b, 0x01, 0x01, 0x21, 0x00, 0xf0, 0x00, 0x80, 0x08, 0xf0, 0x00, 0x00,
        0xfd, 0x00, 0x00, 0x00, 0x00, 0x00, 0x00, 0x00, 0x02, 0x01, 0x00, 0x01, 0x00, 0x01, 0x00,
        0x01, 0x04, 0x0e, 0x00, 0x08, 0x0c, 0x00, 0x04, 0x00, 0x00, 0x80, 0x00, 0x01, 0x00, 0x1e,
        0x00, 0x3c, 0x08, 0x1e, 0x40, 0x40, 0xff, 0xff, 0xff, 0xff, 0xff, 0xff, 0xff, 0xff, 0x00,
        0x00, 0x00, 0x00, 0xfd, 0x00, 0x00, 0x00, 0x00, 0x00, 0x00, 0x00, 0x00, 0x00, 0x00, 0x00,
        0x00, 0x00, 0x00, 0x00, 0x18, 0xbc,
    ];
    let _frame = FrameWithFcs::new(&frame_with_fcs).unwrap();

    let frame_with_fcs = [
        0x02, 0x2e, 0x8d, 0xcd, 0xab, 0x02, 0x00, 0x02, 0x00, 0x02, 0x00, 0x02, 0x00, 0x02, 0x0f,
        0x00, 0x00, 0x7d, 0xd4,
    ];
    let _frame = FrameWithFcs::new(&frame_with_fcs).unwrap();
}

#[test]
fn fcs_rejects_corrupted_frame() {
    let frame_with_fcs = [
        0x02, 0x2e, 0x8d, 0xcd, 0xab, 0x02, 0x00, 0x02, 0x00, 0x02, 0x00, 0x02, 0x00, 0x02, 0x0f,
        0x00, 0x00, 0x7d, 0xd5,
    ];
    assert!(FrameWithFcs::new(&frame_with_fcs).is_err());
    assert!(FrameWithFcs::new(&[0x01]).is_err());
}

#[test]
fn fcs_fields() {
    let frame_with_fcs = [
        0x02, 0x2e, 0x8d, 0xcd, 0xab, 0x02, 0x00, 0x02, 0x00, 0x02, 0x00, 0x02, 0x00, 0x02, 0x0f,
        0x00, 0x00, 0x7d, 0xd4,
    ];
    let frame = FrameWithFcs::new(&frame_with_fcs).unwrap();
    assert_eq!(frame.fcs(), 0xd47d);
    assert_eq!(frame.calculate_fcs(), 0xd47d);
    assert_eq!(frame.content(), &frame_with_fcs[..17]);
    assert!(matches!(frame.frame(), Ok(Frame::EnhancedAck(_))));
}

#[test]
fn ack_parse_imm_ack() {
    let frame = [0x02, 0x10, 0x01];
    let frame = Ack::new(&frame).unwrap();

    assert_eq!(frame.frame_control().frame_type(), FrameType::Ack);
    assert_eq!(frame.frame_control().security_enabled(), false);
    assert_eq!(frame.frame_control().frame_pending(), false);
    assert_eq!(frame.frame_control().ack_request(), false);
    assert_eq!(frame.frame_control().pan_id_compression(), false);
    assert_eq!(frame.frame_control().sequence_number_suppression(), false);
    assert_eq!(frame.frame_control().information_elements_present(), false);
    assert_eq!(frame.frame_control().dst_addressing_mode(), AddressingMode::Absent);
    assert_eq!(frame.frame_control().frame_version(), FrameVersion::Ieee802154_2006);
    assert_eq!(frame.frame_control().src_addressing_mode(), AddressingMode::Absent);
    assert_eq!(frame.sequence_number(), 1);
}

#[test]
fn parse_enhanced_ack() {
    let frame = [
        0x02, 0x2e, 0x37, 0xcd, 0xab, 0x02, 0x00, 0x02, 0x00, 0x02, 0x00, 0x02, 0x00, 0x02, 0x0f,
        0xe1, 0x8f,
    ];

    let frame = EnhancedAck::new(&frame).unwrap();

    assert_eq!(frame.frame_control().frame_type(), FrameType::Ack);
    assert_eq!(frame.frame_control().security_enabled(), false);
    assert_eq!(frame.frame_control().frame_pending(), false);
    assert_eq!(frame.frame_control().ack_request(), false);
    assert_eq!(frame.frame_control().pan_id_compression(), false);
    assert_eq!(frame.frame_control().sequence_number_suppression(), false);
    assert_eq!(frame.frame_control().information_elements_present(), true);
    assert_eq!(frame.frame_control().dst_addressing_mode(), AddressingMode::Extended);
    assert_eq!(frame.frame_control().frame_version(), FrameVersion::Ieee802154_2020);
    assert_eq!(frame.frame_control().src_addressing_mode(), AddressingMode::Absent);
    assert_eq!(frame.sequence_number(), Some(55));
    assert_eq!(frame.addressing().unwrap().dst_pan_id(), Some(0xabcd));
    assert_eq!(
        frame.addressing().unwrap().dst_address(),
        Some(Address::Extended([0x00, 0x02, 0x00, 0x02, 0x00, 0x02, 0x00, 0x02]))
    );
    assert_eq!(frame.addressing().unwrap().src_pan_id(), None);
    assert_eq!(frame.addressing().unwrap().src_address(), Some(Address::Absent));
    assert!(frame.auxiliary_security_header().is_none());

    let ie = frame.information_elements().unwrap();
    let mut headers = ie.header_information_elements();

    let ie = headers.next().unwrap();
    assert_eq!(ie.element_id(), HeaderElementId::TimeCorrection);
    let time_correction = TimeCorrection::new(ie.content()).unwrap();
    assert_eq!(time_correction.len(), 2);
    assert_eq!(time_correction.time_correction(), Duration::from_us(-31));
    assert_eq!(time_correction.nack(), true);
}

#[test]
fn superframe_specification() {
    let data = [0xff, 0x0f];
    let ie = SuperframeSpecification::new(&data).unwrap();

    assert_eq!(ie.beacon_order(), BeaconOrder::OnDemand);
    assert_eq!(ie.superframe_order(), SuperframeOrder::Inactive);
    assert_eq!(ie.final_cap_slot(), 0x0f);
    assert_eq!(ie.battery_life_extension(), false);
    assert_eq!(ie.pan_coordinator(), false);
    assert_eq!(ie.association_permit(), false);
}

#[test]
fn gts_specification() {
    let data = [0b0000_0000];
    let gts = GtsSpecification::new(&data).unwrap();
    assert_eq!(gts.gts_permit(), false);
    assert_eq!(gts.descriptor_count(), 0);

    let data = [0b1000_0000];
    let gts = GtsSpecification::new(&data).unwrap();
    assert_eq!(gts.gts_permit(), true);
    assert_eq!(gts.descriptor_count(), 0);
    assert!(gts.slots().next().is_none());

    let data = [0x82, 0x01, 0x34, 0x12, 0x11, 0x78, 0x56, 0x14];
    let gts = GtsSpecification::new(&data).unwrap();
    assert_eq!(gts.gts_permit(), true);
    assert_eq!(gts.descriptor_count(), 2);

    let mut slots = gts.slots();
    let slot = slots.next().unwrap();
    assert_eq!(slot.short_address(), Address::Short([0x34, 0x12]));
    assert_eq!(slot.starting_slot(), 1);
    assert_eq!(slot.length(), 1);
    assert_eq!(slot.direction(), GtsDirection::Transmit);

    let slot = slots.next().unwrap();
    assert_eq!(slot.short_address(), Address::Short([0x78, 0x56]));
    assert_eq!(slot.starting_slot(), 4);
    assert_eq!(slot.length(), 1);
    assert_eq!(slot.direction(), GtsDirection::Receive);

    assert!(slots.next().is_none());
}

#[test]
fn gts_slot() {
    let data = [0xab, 0xcd, 0b0101_1010];
    let slot = GtsSlot::new(&data[..], GtsDirection::Transmit).unwrap();

    assert_eq!(slot.short_address(), Address::Short([0xab, 0xcd]));
    assert_eq!(slot.starting_slot(), 0b1010);
    assert_eq!(slot.length(), 0b0101);
    assert_eq!(slot.direction(), GtsDirection::Transmit);
}

const ENHANCED_BEACON: [u8; 35] = [
    0x40, 0xeb, 0xcd, 0xab, 0xff, 0xff, 0x01, 0x00, 0x01, 0x00, 0x01, 0x00, 0x01, 0x00, 0x00, 0x3f,
    0x11, 0x88, 0x06, 0x1a, 0x0e, 0x00, 0x00, 0x00, 0x00, 0x00, 0x01, 0x1c, 0x00, 0x01, 0xc8, 0x00,
    0x01, 0x1b, 0x00,
];

#[test]
fn beacon_parse_enhanced_beacon() {
    let frame = ENHANCED_BEACON;
    let frame = EnhancedBeaconFrame::new(&frame).unwrap();

    assert_eq!(frame.frame_control().frame_type(), FrameType::Beacon);
    assert_eq!(frame.frame_control().security_enabled(), false);
    assert_eq!(frame.frame_control().frame_pending(), false);
    assert_eq!(frame.frame_control().ack_request(), false);
    assert_eq!(frame.frame_control().pan_id_compression(), true);
    assert_eq!(frame.frame_control().sequence_number_suppression(), true);
    assert_eq!(frame.frame_control().information_elements_present(), true);
    assert_eq!(frame.frame_control().dst_addressing_mode(), AddressingMode::Short);
    assert_eq!(frame.frame_control().frame_version(), FrameVersion::Ieee802154_2020);
    assert_eq!(frame.frame_control().src_addressing_mode(), AddressingMode::Extended);
    assert_eq!(frame.sequence_number(), None);
    assert_eq!(frame.addressing().unwrap().dst_pan_id(), Some(0xabcd));
    assert_eq!(frame.addressing().unwrap().dst_address(), Some(Address::broadcast()));
    assert_eq!(frame.addressing().unwrap().src_pan_id(), None);
    assert_eq!(
        frame.addressing().unwrap().src_address(),
        Some(Address::Extended([0x00, 0x01, 0x00, 0x01, 0x00, 0x01, 0x00, 0x01]))
    );

    let ie = frame.information_elements().unwrap();
    let mut headers = ie.header_information_elements();

    let terminator = headers.next().unwrap();
    assert_eq!(terminator.element_id(), HeaderElementId::HeaderTermination1);
    assert_eq!(terminator.len(), 0);

    assert!(headers.next().is_none());

    let mut payloads = ie.payload_information_elements();
    let mlme = payloads.next().unwrap();
    assert_eq!(mlme.group_id(), PayloadGroupId::Mlme);
    assert_eq!(mlme.len() + 2, 19);
    assert!(payloads.next().is_none());

    let mut nested_iterator = NestedInformationElementsIterator::new(mlme.content());

    let nested = nested_iterator.next().unwrap();
    assert_eq!(nested.sub_id(), NestedSubId::Short(NestedSubIdShort::TschSynchronization));
    let tsch_sync = TschSynchronization::new(nested.content()).unwrap();
    assert_eq!(tsch_sync.absolute_slot_number(), 14);
    assert_eq!(tsch_sync.join_metric(), 0);

    let nested = nested_iterator.next().unwrap();
    assert_eq!(nested.sub_id(), NestedSubId::Short(NestedSubIdShort::TschTimeslot));
    let tsch_timeslot = TschTimeslot::new(nested.content()).unwrap();
    assert_eq!(tsch_timeslot.id(), 0);

    let nested = nested_iterator.next().unwrap();
    assert_eq!(nested.sub_id(), NestedSubId::Long(NestedSubIdLong::ChannelHopping));
    let channel_hopping = ChannelHopping::new(nested.content()).unwrap();
    assert_eq!(channel_hopping.hopping_sequence_id(), 0);

    let nested = nested_iterator.next().unwrap();
    assert_eq!(nested.sub_id(), NestedSubId::Short(NestedSubIdShort::TschSlotframeAndLink));
    let slotframe = TschSlotframeAndLink::new(nested.content()).unwrap();
    assert_eq!(slotframe.number_of_slot_frames(), 0);

    assert!(nested_iterator.next().is_none());
    assert!(frame.payload().is_none());
}

const DATA_FRAME: [u8; 19] = [
    0x41, 0xd8, 0x01, 0xcd, 0xab, 0xff, 0xff, 0xc7, 0xd9, 0xb5, 0x14, 0x00, 0x4b, 0x12, 0x00, 0x2b,
    0x00, 0x00, 0x00,
];

#[test]
fn data_parse_data_frame() {
    let frame = DATA_FRAME;
    let frame = DataFrame::new(&frame).unwrap();

    let fc = frame.frame_control();
    assert_eq!(fc.frame_type(), FrameType::Data);
    assert!(!fc.security_enabled());
    assert!(!fc.frame_pending());
    assert!(!fc.ack_request());
    assert!(fc.pan_id_compression());

    assert!(fc.dst_addressing_mode() == AddressingMode::Short);
    assert!(fc.frame_version() == FrameVersion::Ieee802154_2006);
    assert!(fc.src_addressing_mode() == AddressingMode::Extended);

    assert!(frame.sequence_number() == Some(1));

    let addressing = frame.addressing().unwrap();
    assert_eq!(addressing.dst_pan_id(), Some(0xabcd));
    assert_eq!(addressing.dst_address(), Some(Address::broadcast()));
    assert_eq!(addressing.src_pan_id(), None);
    assert_eq!(
        addressing.src_address(),
        Some(Address::Extended([0x00, 0x12, 0x4b, 0x00, 0x14, 0xb5, 0xd9, 0xc7]))
    );

    assert!(frame.information_elements().is_none());

    assert!(frame.payload() == Some(&[0x2b, 0x00, 0x00, 0x00][..]));
}

#[test]
fn tests_parse_imm_ack() {
    let frame = [0x02, 0x10, 0x01];

    let frame = Frame::new(&frame).unwrap();

    let fc = frame.frame_control();
    assert_eq!(fc.frame_type(), FrameType::Ack);
    assert!(!fc.security_enabled());
    assert!(!fc.frame_pending());
    assert!(!fc.ack_request());
    assert!(!fc.pan_id_compression());
    assert!(!fc.sequence_number_suppression());
    assert!(!fc.information_elements_present());
    assert!(fc.dst_addressing_mode() == AddressingMode::Absent);
    assert!(fc.frame_version() == FrameVersion::Ieee802154_2006);
    assert!(fc.src_addressing_mode() == AddressingMode::Absent);
    assert!(frame.sequence_number() == Some(1));
    assert!(frame.addressing().is_none());
    assert!(frame.information_elements().is_none());
    assert!(frame.payload().is_none());
}

#[test]
fn parse_ack_frame() {
    let frame = [
        0x02, 0x2e, 0x37, 0xcd, 0xab, 0x02, 0x00, 0x02, 0x00, 0x02, 0x00, 0x02, 0x00, 0x02, 0x0f,
        0xe1, 0x8f,
    ];

    let frame = Frame::new(&frame).unwrap();

    let fc = frame.frame_control();
    assert_eq!(fc.frame_type(), FrameType::Ack);
    assert!(!fc.security_enabled());
    assert!(!fc.frame_pending());
    assert!(!fc.ack_request());
    assert!(!fc.pan_id_compression());
    assert!(!fc.sequence_number_suppression());
    assert!(fc.information_elements_present());
    assert!(fc.dst_addressing_mode() == AddressingMode::Extended);
    assert!(fc.frame_version() == FrameVersion::Ieee802154_2020);
    assert!(fc.src_addressing_mode() == AddressingMode::Absent);

    assert!(frame.sequence_number() == Some(55));

    let addressing = frame.addressing().unwrap();
    assert_eq!(addressing.dst_pan_id(), Some(0xabcd));
    assert_eq!(
        addressing.dst_address(),
        Some(Address::Extended([0x00, 0x02, 0x00, 0x02, 0x00, 0x02, 0x00, 0x02]))
    );
    assert_eq!(addressing.src_pan_id(), None);
    assert_eq!(addressing.src_address(), Some(Address::Absent));

    let ie = frame.information_elements().unwrap();
    let mut headers = ie.header_information_elements();

    let time_correction = headers.next().unwrap();
    assert_eq!(time_correction.element_id(), HeaderElementId::TimeCorrection);

    let time_correction = TimeCorrection::new(time_correction.content()).unwrap();
    assert_eq!(time_correction.len(), 2);
    assert_eq!(time_correction.time_correction(), Duration::from_us(-31));
    assert!(time_correction.nack());
}

#[test]
fn tests_parse_data_frame() {
    let frame = DATA_FRAME;

    let frame = Frame::new(&frame).unwrap();

    let fc = frame.frame_control();
    assert_eq!(fc.frame_type(), FrameType::Data);
    assert!(!fc.security_enabled());
    assert!(!fc.frame_pending());
    assert!(!fc.ack_request());
    assert!(fc.pan_id_compression());

    assert!(fc.dst_addressing_mode() == AddressingMode::Short);
    assert!(fc.frame_version() == FrameVersion::Ieee802154_2006);
    assert!(fc.src_addressing_mode() == AddressingMode::Extended);

    assert!(frame.sequence_number() == Some(1));

    let addressing = frame.addressing().unwrap();
    assert_eq!(addressing.dst_pan_id(), Some(0xabcd));
    assert_eq!(addressing.dst_address(), Some(Address::broadcast()));
    assert_eq!(addressing.src_pan_id(), None);
    assert_eq!(
        addressing.src_address(),
        Some(Address::Extended([0x00, 0x12, 0x4b, 0x00, 0x14, 0xb5, 0xd9, 0xc7]))
    );

    assert!(frame.information_elements().is_none());

    assert!(frame.payload() == Some(&[0x2b, 0x00, 0x00, 0x00][..]));
}

#[test]
fn tests_parse_enhanced_beacon() {
    let frame = ENHANCED_BEACON;

    let frame = Frame::new(&frame).unwrap();
    let fc = frame.frame_control();
    assert_eq!(fc.frame_type(), FrameType::Beacon);
    assert!(!fc.security_enabled());
    assert!(!fc.frame_pending());
    assert!(!fc.ack_request());
    assert!(fc.pan_id_compression());
    assert!(fc.sequence_number_suppression());
    assert!(fc.information_elements_present());
    assert_eq!(fc.dst_addressing_mode(), AddressingMode::Short);
    assert_eq!(fc.src_addressing_mode(), AddressingMode::Extended);
    assert_eq!(fc.frame_version(), FrameVersion::Ieee802154_2020);

    let addressing = frame.addressing().unwrap();
    assert_eq!(addressing.dst_pan_id(), Some(0xabcd),);
    assert_eq!(addressing.src_pan_id(), None,);
    assert_eq!(addressing.dst_address(), Some(Address::broadcast()));
    assert_eq!(
        addressing.src_address(),
        Some(Address::Extended([0x00, 0x01, 0x00, 0x01, 0x00, 0x01, 0x00, 0x01]))
    );
    assert_eq!(addressing.len(), 12);

    let ie = frame.information_elements().unwrap();

    let mut headers = ie.header_information_elements();
    let terminator = headers.next().unwrap();
    assert_eq!(terminator.element_id(), HeaderElementId::HeaderTermination1);
    assert_eq!(terminator.len(), 0);

    assert!(headers.next().is_none());

    let mut payloads = ie.payload_information_elements();

    let mlme = payloads.next().unwrap();
    assert_eq!(mlme.group_id(), PayloadGroupId::Mlme);
    assert_eq!(mlme.len() + 2, 19);
    assert!(payloads.next().is_none());

    let mut nested_iterator = NestedInformationElementsIterator::new(mlme.content());

    let tsch_sync = nested_iterator.next().unwrap();
    assert_eq!(tsch_sync.sub_id(), NestedSubId::Short(NestedSubIdShort::TschSynchronization));
    assert_eq!(TschSynchronization::new(tsch_sync.content()).unwrap().absolute_slot_number(), 14);
    assert_eq!(TschSynchronization::new(tsch_sync.content()).unwrap().join_metric(), 0);

    let tsch_timeslot = nested_iterator.next().unwrap();
    assert_eq!(tsch_timeslot.sub_id(), NestedSubId::Short(NestedSubIdShort::TschTimeslot));
    assert_eq!(TschTimeslot::new(tsch_timeslot.content()).unwrap().id(), 0);

    let channel_hopping = nested_iterator.next().unwrap();
    assert_eq!(channel_hopping.sub_id(), NestedSubId::Long(NestedSubIdLong::ChannelHopping));
    assert_eq!(ChannelHopping::new(channel_hopping.content()).unwrap().hopping_sequence_id(), 0);

    let slotframe = nested_iterator.next().unwrap();
    assert_eq!(slotframe.sub_id(), NestedSubId::Short(NestedSubIdShort::TschSlotframeAndLink));
    assert_eq!(TschSlotframeAndLink::new(slotframe.content()).unwrap().number_of_slot_frames(), 0);

    assert!(nested_iterator.next().is_none());
    assert!(frame.payload().is_none());
}

use dot15d4::addressing::{Address, AddressingMode};
use dot15d4::frame_control::FrameVersion;
use dot15d4::addressing::AddressingMode::{Absent, Extended, Short};
use dot15d4::frame_control::FrameVersion::{Ieee802154_2003, Ieee802154_2006, Ieee802154_2020};

#[test]
fn address_type() {
    assert!(Address::Absent.is_absent());
    assert!(!Address::Absent.is_short());
    assert!(!Address::Absent.is_extended());

    assert!(!Address::Short([0xff, 0xff]).is_absent());
    assert!(Address::Short([0xff, 0xff]).is_short());
    assert!(!Address::Short([0xff, 0xff]).is_extended());

    assert!(!Address::Extended([0xff; 8]).is_absent());
    assert!(!Address::Extended([0xff; 8]).is_short());
    assert!(Address::Extended([0xff; 8]).is_extended());

    assert_eq!(Address::Absent.len(), 0);
    assert_eq!(Address::Short([0xff, 0xff]).len(), 2);
    assert_eq!(Address::Extended([0xff; 8]).len(), 8);
}

#[test]
fn addressing_mode() {
    assert_eq!(AddressingMode::from(0b00), AddressingMode::Absent);
    assert_eq!(AddressingMode::from(0b10), AddressingMode::Short);
    assert_eq!(AddressingMode::from(0b11), AddressingMode::Extended);
    assert_eq!(AddressingMode::from(0b01), AddressingMode::Unknown);

    assert_eq!(AddressingMode::Unknown.size(), 0);
    assert_eq!(AddressingMode::Absent.size(), 0);
    assert_eq!(AddressingMode::Short.size(), 2);
    assert_eq!(AddressingMode::Extended.size(), 8);
}

#[test]
fn is_broadcast() {
    assert!(Address::broadcast().is_broadcast());
    assert!(Address::Short([0xff, 0xff]).is_broadcast());
    assert!(!Address::Short([0xff, 0xfe]).is_broadcast());

    assert!(!Address::broadcast().is_unicast());
    assert!(!Address::Short([0xff, 0xff]).is_unicast());
    assert!(Address::Short([0xff, 0xfe]).is_unicast());
}

#[test]
fn as_bytes() {
    assert_eq!(Address::broadcast().as_bytes(), &[0xff, 0xff]);
    assert_eq!(Address::Short([0xff, 0xff]).as_bytes(), &[0xff, 0xff]);
    assert_eq!(Address::Short([0xff, 0xfe]).as_bytes(), &[0xff, 0xfe]);
    assert_eq!(Address::Extended([0xff; 8]).as_bytes(), &[0xff; 8]);
    assert_eq!(Address::Extended([0x01; 8]).as_bytes(), &[0x01; 8]);
    assert_eq!(Address::Absent.as_bytes(), &[] as &[u8]);
}

#[test]
fn from_bytes() {
    assert_eq!(Address::from(&[0xff, 0xff]), Address::Short([0xff, 0xff]));
    assert_eq!(Address::from(&[0xff, 0xfe]), Address::Short([0xff, 0xfe]));
    assert_eq!(Address::from(&[0xff; 8]), Address::Extended([0xff; 8]));
    assert_eq!(Address::from(&[0x01; 8]), Address::Extended([0x01; 8]));
    assert_eq!(Address::from(&[]), Address::Absent);
}

fn check(
    version: FrameVersion,
    dst: AddressingMode,
    src: AddressingMode,
    compression: bool,
    expected: Option<(bool, AddressingMode, bool, AddressingMode)>,
) {
    assert_eq!(dot15d4::addressing::address_present_flags(version, dst, src, compression), expected);
}

#[test]
fn address_present_flags() {
    for version in [Ieee802154_2003, Ieee802154_2006] {
        check(version, Short, Short, false, Some((true, Short, true, Short)));
        check(version, Short, Short, true, Some((true, Short, false, Short)));
        check(version, Extended, Extended, false, Some((true, Extended, true, Extended)));
        check(version, Extended, Extended, true, Some((true, Extended, false, Extended)));
        check(version, Short, Extended, false, Some((true, Short, true, Extended)));
        check(version, Short, Extended, true, Some((true, Short, false, Extended)));
        check(version, Extended, Short, false, Some((true, Extended, true, Short)));
        check(version, Extended, Short, true, Some((true, Extended, false, Short)));
        check(version, Absent, Short, false, Some((false, Absent, true, Short)));
        check(version, Absent, Extended, false, Some((false, Absent, true, Extended)));
        check(version, Short, Absent, false, Some((true, Short, false, Absent)));
        check(version, Extended, Absent, false, Some((true, Extended, false, Absent)));
        check(version, Absent, Short, true, None);
        check(version, Absent, Extended, true, None);
        check(version, Short, Absent, true, None);
        check(version, Extended, Absent, true, None);
        check(version, Absent, Absent, false, None);
        check(version, Absent, Absent, true, None);
    }

    check(Ieee802154_2020, Short, Short, false, Some((true, Short, true, Short)));
    check(Ieee802154_2020, Short, Short, true, Some((true, Short, false, Short)));
    check(Ieee802154_2020, Extended, Extended, false, Some((true, Extended, false, Extended)));
    check(Ieee802154_2020, Extended, Extended, true, Some((false, Extended, false, Extended)));
    check(Ieee802154_2020, Short, Extended, false, Some((true, Short, true, Extended)));
    check(Ieee802154_2020, Short, Extended, true, Some((true, Short, false, Extended)));
    check(Ieee802154_2020, Extended, Short, false, Some((true, Extended, true, Short)));
    check(Ieee802154_2020, Extended, Short, true, Some((true, Extended, false, Short)));
    check(Ieee802154_2020, Absent, Short, false, Some((false, Absent, true, Short)));
    check(Ieee802154_2020, Absent, Extended, false, Some((false, Absent, true, Extended)));
    check(Ieee802154_2020, Short, Absent, false, Some((true, Short, false, Absent)));
    check(Ieee802154_2020, Extended, Absent, false, Some((true, Extended, false, Absent)));
    check(Ieee802154_2020, Absent, Short, true, Some((false, Absent, false, Short)));
    check(Ieee802154_2020, Absent, Extended, true, Some((false, Absent, false, Extended)));
    check(Ieee802154_2020, Short, Absent, true, Some((false, Short, false, Absent)));
    check(Ieee802154_2020, Extended, Absent, true, Some((false, Extended, false, Absent)));
    check(Ieee802154_2020, Absent, Absent, false, Some((false, Absent, false, Absent)));
    check(Ieee802154_2020, Absent, Absent, true, Some((true, Absent, false, Absent)));
}

#[test]
fn parse() {
    let mut addresses = vec![
        ("", Address::Absent),
        ("ff:ff", Address::Short([0xff, 0xff])),
        ("ff:fe", Address::Short([0xff, 0xfe])),
        ("ff:ff:ff:ff:ff:ff:ff:ff", Address::Extended([0xff; 8])),
        ("01:01:01:01:01:01:01:01", Address::Extended([0x01; 8])),
        ("00:00:00:00:00:00:00:00", Address::Extended([0x00; 8])),
        (
            "00:00:00:00:00:00:00:01",
            Address::Extended([0x00, 0x00, 0x00, 0x00, 0x00, 0x00, 0x00, 0x01]),
        ),
    ];

    for (s, expected) in addresses.drain(..) {
        assert_eq!(Address::parse(s).unwrap(), expected);
    }
}

#[test]
fn parse_wrong_number_of_parts() {
    assert!(Address::parse("ff").is_err());
    assert!(Address::parse("ff:ff:ff").is_err());
    assert!(Address::parse("zz:zz:zz").is_err());
}

#[test]
fn parse_hex_forms() {
    assert_eq!(Address::parse("+a:0B").unwrap(), Address::Short([0x0a, 0x0b]));
    assert_eq!(Address::parse("00ff:1").unwrap(), Address::Short([0xff, 0x01]));
}

#[test]
fn to_short_and_mode() {
    assert_eq!(Address::Short([1, 2]).mode(), AddressingMode::Short);
    assert_eq!(Address::Extended([1; 8]).mode(), AddressingMode::Extended);
    assert_eq!(Address::Absent.mode(), AddressingMode::Absent);
    assert_eq!(AddressingMode::from(Address::Short([1, 2])), AddressingMode::Short);
    assert_eq!(AddressingMode::Short.bits(), 0b10);
    assert_eq!(AddressingMode::Extended.bits(), 0b11);
}

//! Tests of the family records: byte-exact headers, round trips, and
//! the rejection of unknown closed-set enumerants.

use clatox_rtnetlink::NetlinkError;
use clatox_rtnetlink::address::AddressFlag;
use clatox_rtnetlink::address::AddressFlags;
use clatox_rtnetlink::address::InterfaceAddressAttribute;
use clatox_rtnetlink::address::InterfaceAddressMessage;
use clatox_rtnetlink::address_family::AddressFamily;
use clatox_rtnetlink::link::ArpHardware;
use clatox_rtnetlink::link::InterfaceFlag;
use clatox_rtnetlink::link::InterfaceFlags;
use clatox_rtnetlink::link::InterfaceInfoAttribute;
use clatox_rtnetlink::link::InterfaceInfoMessage;
use clatox_rtnetlink::route::RouteAttribute;
use clatox_rtnetlink::route::RouteFlags;
use clatox_rtnetlink::route::RouteMessage;
use clatox_rtnetlink::route::RouteProtocol;
use clatox_rtnetlink::route::RouteScope;
use clatox_rtnetlink::route::RouteTable;
use clatox_rtnetlink::route::RouteType;

#[test]
fn link_record_round_trip() {
    let record = InterfaceInfoMessage::new(
        ArpHardware::Ethernet,
        2,
        InterfaceFlags::new(&[InterfaceFlag::Up, InterfaceFlag::Running]),
        vec![
            InterfaceInfoAttribute::InterfaceName(String::from("eth0")),
            InterfaceInfoAttribute::MTU(1500),
        ],
    );
    let bytes = record.serialize().unwrap();
    assert_eq!(bytes.len() % 4, 0);
    let back = InterfaceInfoMessage::deserialize(bytes.as_slice()).unwrap();
    assert_eq!(back, record);
}

#[test]
fn link_record_header_bytes() {
    let record =
        InterfaceInfoMessage::new(ArpHardware::Ethernet, 0, InterfaceFlags::empty(), vec![]);
    let bytes = record.serialize().unwrap();
    assert_eq!(
        bytes,
        vec![
            0x00, 0x00, // family + padding
            0x01, 0x00, // ARPHRD_ETHER
            0x00, 0x00, 0x00, 0x00, // index
            0x00, 0x00, 0x00, 0x00, // flags
            0xFF, 0xFF, 0xFF, 0xFF, // change mask defaults to all ones
        ]
    );
}

#[test]
fn link_record_rejects_unknown_device_type() {
    let mut bytes =
        InterfaceInfoMessage::new(ArpHardware::Ethernet, 0, InterfaceFlags::empty(), vec![])
            .serialize()
            .unwrap();
    bytes[2] = 0x2A; // 42 is not an ARPHRD_* value
    bytes[3] = 0x00;
    assert_eq!(
        InterfaceInfoMessage::deserialize(bytes.as_slice()),
        Err(NetlinkError::UnknownEnumerant)
    );
}

#[test]
fn link_record_short_input() {
    let bytes = vec![0u8; 12];
    assert_eq!(
        InterfaceInfoMessage::deserialize(bytes.as_slice()),
        Err(NetlinkError::ShortInput)
    );
}

#[test]
fn address_record_round_trip() {
    let record = InterfaceAddressMessage::new(
        AddressFamily::Inet,
        24,
        AddressFlags::new(&[AddressFlag::Permanent]),
        vec![
            InterfaceAddressAttribute::Address(vec![192, 168, 0, 2]),
            InterfaceAddressAttribute::Label(String::from("eth0")),
        ],
    );
    let bytes = record.serialize().unwrap();
    let back = InterfaceAddressMessage::deserialize(bytes.as_slice()).unwrap();
    assert_eq!(back, record);
}

#[test]
fn address_record_rejects_unknown_family() {
    let bytes = vec![0xEE, 0, 0, 0, 0, 0, 0, 0];
    assert_eq!(
        InterfaceAddressMessage::deserialize(bytes.as_slice()),
        Err(NetlinkError::UnknownEnumerant)
    );
}

#[test]
fn route_record_round_trip() {
    let record = RouteMessage::new(
        AddressFamily::Inet,
        24,
        0,
        0,
        RouteTable::Main,
        RouteProtocol::Kernel,
        RouteScope::Link,
        RouteType::Unicast,
        RouteFlags::empty(),
        vec![
            RouteAttribute::Destination(vec![10, 0, 0, 0]),
            RouteAttribute::OutgoingInterface(2),
        ],
    );
    let bytes = record.serialize().unwrap();
    let back = RouteMessage::deserialize(bytes.as_slice()).unwrap();
    assert_eq!(back, record);
}

#[test]
fn route_record_preserves_unknown_flag_bits() {
    let record = RouteMessage::new(
        AddressFamily::Inet,
        0,
        0,
        0,
        RouteTable::Main,
        RouteProtocol::Boot,
        RouteScope::Universe,
        RouteType::Unicast,
        RouteFlags::with_bits(0xDEAD0100),
        vec![],
    );
    let bytes = record.serialize().unwrap();
    let back = RouteMessage::deserialize(bytes.as_slice()).unwrap();
    assert_eq!(back.flags().bits(), 0xDEAD0100);
}

#[test]
fn route_record_rejects_unknown_scope() {
    let mut bytes = RouteMessage::new(
        AddressFamily::Inet,
        0,
        0,
        0,
        RouteTable::Main,
        RouteProtocol::Boot,
        RouteScope::Universe,
        RouteType::Unicast,
        RouteFlags::empty(),
        vec![],
    )
    .serialize()
    .unwrap();
    bytes[6] = 77; // not an RT_SCOPE_* value
    assert_eq!(
        RouteMessage::deserialize(bytes.as_slice()),
        Err(NetlinkError::UnknownEnumerant)
    );
}

#[test]
fn enumeration_values_match_kernel_headers() {
    assert_eq!(ArpHardware::Ethernet.raw_value(), 1);
    assert_eq!(ArpHardware::Loopback.raw_value(), 772);
    assert_eq!(ArpHardware::from_raw_value(772), Some(ArpHardware::Loopback));
    assert_eq!(ArpHardware::from_raw_value(41), None);
    assert_eq!(AddressFamily::Inet6.raw_value(), 10);
    assert_eq!(AddressFamily::from_raw_value(44), Some(AddressFamily::Xdp));
    assert_eq!(AddressFamily::from_raw_value(41), None);
    assert_eq!(RouteTable::Main.raw_value(), 254);
    assert_eq!(RouteScope::Site.raw_value(), 200);
    assert_eq!(RouteProtocol::Bgp.raw_value(), 186);
    assert_eq!(RouteType::Blackhole.raw_value(), 6);
    assert_eq!(InterfaceFlag::LowerUp.raw_value(), 0x10000);
    assert_eq!(AddressFlag::StablePrivacy.raw_value(), 0x800);
}

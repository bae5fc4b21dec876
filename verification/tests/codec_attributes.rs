//! Tests of the typed attribute dictionaries: byte-exact emission,
//! round trips in every payload shape, unknown-tag preservation, and
//! the error kinds of malformed payloads.

use clatox_rtnetlink::NetlinkError;
use clatox_rtnetlink::RawAttribute;
use clatox_rtnetlink::RawAttributeIter;
use clatox_rtnetlink::address::AddressCacheInfo;
use clatox_rtnetlink::address::AddressFlag;
use clatox_rtnetlink::address::AddressFlags;
use clatox_rtnetlink::address::InterfaceAddressAttribute;
use clatox_rtnetlink::address_family::AddressFamily;
use clatox_rtnetlink::attribute::Attribute;
use clatox_rtnetlink::link::AddressFamilySpecific;
use clatox_rtnetlink::link::InterfaceInfoAttribute;
use clatox_rtnetlink::link::InterfaceStats;
use clatox_rtnetlink::link::InterfaceStats64;
use clatox_rtnetlink::link::LinkInfo;
use clatox_rtnetlink::route::RouteAttribute;
use clatox_rtnetlink::serialize_attribute_into;

fn roundtrip_link(attr: InterfaceInfoAttribute) -> InterfaceInfoAttribute {
    let bytes = attr.serialize().expect("attribute must serialize");
    assert_eq!(bytes.len() % 4, 0);
    let mut iter = RawAttributeIter::new(bytes.as_slice());
    let raw = iter.next().expect("stream is well-formed").expect("one attribute");
    InterfaceInfoAttribute::from_raw(raw).expect("attribute must decode")
}

#[test]
fn mtu_attribute_emission() {
    let attr = InterfaceInfoAttribute::MTU(1500);
    let bytes = attr.serialize().unwrap();
    assert_eq!(bytes, vec![0x08, 0x00, 0x04, 0x00, 0xDC, 0x05, 0x00, 0x00]);
}

#[test]
fn interface_name_zero_terminated() {
    let attr = InterfaceInfoAttribute::InterfaceName(String::from("eth0"));
    let bytes = attr.serialize().unwrap();
    // Unpadded length 9 = 4 + "eth0" + NUL, then 3 padding bytes.
    assert_eq!(
        bytes,
        vec![0x09, 0x00, 0x03, 0x00, 0x65, 0x74, 0x68, 0x30, 0x00, 0x00, 0x00, 0x00]
    );
    assert_eq!(roundtrip_link(attr.clone()), attr);
}

#[test]
fn unknown_tag_preserved() {
    let tlv: Vec<u8> = vec![0x08, 0x00, 0xFF, 0xFF, 0xDE, 0xAD, 0xBE, 0xEF];
    let mut iter = RawAttributeIter::new(tlv.as_slice());
    let raw = iter.next().unwrap().unwrap();
    let attr = InterfaceInfoAttribute::from_raw(raw).unwrap();
    assert_eq!(
        attr,
        InterfaceInfoAttribute::Other(0xFFFF, vec![0xDE, 0xAD, 0xBE, 0xEF])
    );
    let back = attr.serialize().unwrap();
    assert_eq!(back, tlv);
}

#[test]
fn link_round_trip_bytes_shape() {
    let attr = InterfaceInfoAttribute::Address(vec![0x02, 0x42, 0xAC, 0x11, 0x00, 0x02]);
    assert_eq!(roundtrip_link(attr.clone()), attr);
}

#[test]
fn link_round_trip_u32_shape() {
    let attr = InterfaceInfoAttribute::TxQueueLength(1000);
    assert_eq!(roundtrip_link(attr.clone()), attr);
}

#[test]
fn link_round_trip_i32_shape() {
    let attr = InterfaceInfoAttribute::Link(-7);
    assert_eq!(roundtrip_link(attr.clone()), attr);
}

#[test]
fn link_round_trip_u8_shape() {
    let attr = InterfaceInfoAttribute::OperationalState(6);
    assert_eq!(roundtrip_link(attr.clone()), attr);
}

#[test]
fn link_round_trip_stats() {
    let stats = InterfaceStats {
        rx_packets: 1,
        tx_packets: 2,
        rx_bytes: 3,
        tx_bytes: 4,
        rx_errors: 5,
        tx_errors: 6,
        rx_dropped: 7,
        tx_dropped: 8,
        multicast: 9,
        collisions: 10,
        rx_length_errors: 11,
        rx_over_errors: 12,
        rx_crc_errors: 13,
        rx_frame_errors: 14,
        rx_fifo_errors: 15,
        rx_missed_errors: 16,
        tx_aborted_errors: 17,
        tx_carrier_errors: 18,
        tx_fifo_errors: 19,
        tx_heartbeat_errors: 20,
        tx_window_errors: 21,
        rx_compressed: 22,
        tx_compressed: 23,
        rx_nohandler: 24,
    };
    let attr = InterfaceInfoAttribute::Stats(stats);
    let bytes = attr.serialize().unwrap();
    // 4-byte header + 96-byte record, already aligned.
    assert_eq!(bytes.len(), 100);
    assert_eq!(roundtrip_link(attr.clone()), attr);
}

#[test]
fn link_round_trip_stats64() {
    let stats = InterfaceStats64 {
        rx_packets: 1 << 40,
        tx_packets: 2,
        rx_bytes: 3,
        tx_bytes: 4,
        rx_errors: 5,
        tx_errors: 6,
        rx_dropped: 7,
        tx_dropped: 8,
        multicast: 9,
        collisions: 10,
        rx_length_errors: 11,
        rx_over_errors: 12,
        rx_crc_errors: 13,
        rx_frame_errors: 14,
        rx_fifo_errors: 15,
        rx_missed_errors: 16,
        tx_aborted_errors: 17,
        tx_carrier_errors: 18,
        tx_fifo_errors: 19,
        tx_heartbeat_errors: 20,
        tx_window_errors: 21,
        rx_compressed: 22,
        tx_compressed: 23,
        rx_nohandler: 24,
        rx_otherhost_dropped: 25,
    };
    let attr = InterfaceInfoAttribute::Stats64(stats);
    let bytes = attr.serialize().unwrap();
    assert_eq!(bytes.len(), 204);
    assert_eq!(roundtrip_link(attr.clone()), attr);
}

#[test]
fn link_round_trip_nested_link_info() {
    let attr = InterfaceInfoAttribute::LinkInfo(vec![
        LinkInfo::Kind(vec![0x76, 0x65, 0x74, 0x68, 0x00]),
        LinkInfo::Data(vec![1, 2, 3]),
    ]);
    assert_eq!(roundtrip_link(attr.clone()), attr);
}

#[test]
fn link_round_trip_nested_af_spec() {
    let attr = InterfaceInfoAttribute::AddressFamilySpecific(vec![
        AddressFamilySpecific::Inet(vec![1, 2, 3, 4]),
        AddressFamilySpecific::Inet6(vec![5, 6]),
        AddressFamilySpecific::Other(AddressFamily::Packet, vec![]),
    ]);
    assert_eq!(roundtrip_link(attr.clone()), attr);
}

#[test]
fn string_without_terminator_is_bad() {
    // "eth0" with no trailing NUL: length 8, payload 4 bytes.
    let raw = RawAttribute::new(3, vec![0x65, 0x74, 0x68, 0x30]);
    assert_eq!(
        InterfaceInfoAttribute::from_raw(raw),
        Err(NetlinkError::BadString)
    );
}

#[test]
fn string_with_invalid_utf8_is_bad() {
    let raw = RawAttribute::new(3, vec![0xFF, 0xFE, 0x00]);
    assert_eq!(
        InterfaceInfoAttribute::from_raw(raw),
        Err(NetlinkError::BadString)
    );
}

#[test]
fn integer_with_wrong_width_is_bad() {
    let raw = RawAttribute::new(4, vec![0xDC, 0x05]);
    assert_eq!(
        InterfaceInfoAttribute::from_raw(raw),
        Err(NetlinkError::BadAttribute)
    );
}

#[test]
fn oversized_payload_is_too_long() {
    let mut buffer: Vec<u8> = Vec::new();
    let payload = vec![0u8; 0xFFFF - 3];
    assert_eq!(
        serialize_attribute_into(&mut buffer, 1, payload.as_slice()),
        Err(NetlinkError::AttributeTooLong)
    );
    assert!(buffer.is_empty());
    let attr = InterfaceInfoAttribute::Address(payload);
    assert_eq!(attr.serialize(), Err(NetlinkError::AttributeTooLong));
}

#[test]
fn raw_emitter_grows_by_aligned_length() {
    let mut buffer: Vec<u8> = vec![0xAA];
    serialize_attribute_into(&mut buffer, 9, &[1, 2, 3, 4, 5]).unwrap();
    // Declared length 9, aligned to 12; one byte was there before.
    assert_eq!(buffer.len(), 1 + 12);
    assert_eq!(&buffer[1..], &[9, 0, 9, 0, 1, 2, 3, 4, 5, 0, 0, 0]);
}

#[test]
fn raw_attribute_accessors() {
    let raw = RawAttribute::new(7, vec![1, 2, 3]);
    assert_eq!(raw.length(), 7);
    assert_eq!(raw.attr_type(), 7);
    assert_eq!(raw.payload().as_slice(), &[1, 2, 3]);
    assert_eq!(raw.into_payload(), vec![1, 2, 3]);
}

#[test]
fn truncated_attribute_is_reported() {
    // Declared length 12 but only 8 bytes in the stream.
    let tlv: Vec<u8> = vec![0x0C, 0x00, 0x01, 0x00, 1, 2, 3, 4];
    let mut iter = RawAttributeIter::new(tlv.as_slice());
    assert_eq!(iter.next(), Err(NetlinkError::TruncatedAttribute));
}

#[test]
fn malformed_attribute_is_reported() {
    // Declared length 2 is below the 4-byte header.
    let tlv: Vec<u8> = vec![0x02, 0x00, 0x01, 0x00, 0, 0, 0, 0];
    let mut iter = RawAttributeIter::new(tlv.as_slice());
    assert_eq!(iter.next(), Err(NetlinkError::BadAttribute));
}

#[test]
fn short_tail_ends_iteration_cleanly() {
    let tlv: Vec<u8> = vec![0x05, 0x00, 0x02, 0x00, 0x7F, 0, 0, 0, 1, 2];
    let mut iter = RawAttributeIter::new(tlv.as_slice());
    let raw = iter.next().unwrap().unwrap();
    assert_eq!(raw.attr_type(), 2);
    assert_eq!(raw.payload().as_slice(), &[0x7F]);
    assert_eq!(iter.next(), Ok(None));
}

#[test]
fn address_attribute_round_trips() {
    let cases = vec![
        InterfaceAddressAttribute::Address(vec![192, 168, 0, 1]),
        InterfaceAddressAttribute::Label(String::from("lo")),
        InterfaceAddressAttribute::CacheInfo(AddressCacheInfo {
            preferred: 100,
            valid: 200,
            created_timestamp: 300,
            updated_timestamp: 400,
        }),
        InterfaceAddressAttribute::Flags(AddressFlags::new(&[
            AddressFlag::Permanent,
            AddressFlag::NoDad,
        ])),
        InterfaceAddressAttribute::RoutePriority(42),
        InterfaceAddressAttribute::Protocol(2),
        InterfaceAddressAttribute::Other(200, vec![1, 2]),
    ];
    for attr in cases {
        let bytes = attr.serialize().unwrap();
        assert_eq!(bytes.len() % 4, 0);
        let mut iter = RawAttributeIter::new(bytes.as_slice());
        let raw = iter.next().unwrap().unwrap();
        let back = InterfaceAddressAttribute::from_raw(raw).unwrap();
        assert_eq!(back, attr);
    }
}

#[test]
fn route_attribute_round_trips() {
    let cases = vec![
        RouteAttribute::Destination(vec![10, 0, 0, 0]),
        RouteAttribute::IncomingInterface(-2),
        RouteAttribute::OutgoingInterface(3),
        RouteAttribute::RouterPreference(1),
        RouteAttribute::EncapsulationType(-5),
        RouteAttribute::Expires(3600),
        RouteAttribute::Other(99, vec![9, 9]),
    ];
    for attr in cases {
        let bytes = attr.serialize().unwrap();
        assert_eq!(bytes.len() % 4, 0);
        let mut iter = RawAttributeIter::new(bytes.as_slice());
        let raw = iter.next().unwrap().unwrap();
        let back = RouteAttribute::from_raw(raw).unwrap();
        assert_eq!(back, attr);
    }
}

#[test]
fn string_with_interior_nul_round_trips() {
    let attr = InterfaceInfoAttribute::QueueDiscipline(String::from("no\u{0}op"));
    assert_eq!(roundtrip_link(attr.clone()), attr);
}

//! Tests of the byte utilities and the flag bitfields.

use clatox_rtnetlink::align_attribute_len;
use clatox_rtnetlink::link::InterfaceFlag;
use clatox_rtnetlink::link::InterfaceFlags;
use clatox_rtnetlink::link::InterfaceStats;
use clatox_rtnetlink::read_u16;
use clatox_rtnetlink::read_u32;
use clatox_rtnetlink::route::RouteFlag;
use clatox_rtnetlink::route::RouteFlags;

#[test]
fn alignment_rounds_up_to_four() {
    assert_eq!(align_attribute_len(0), 0);
    assert_eq!(align_attribute_len(1), 4);
    assert_eq!(align_attribute_len(4), 4);
    assert_eq!(align_attribute_len(5), 8);
    assert_eq!(align_attribute_len(9), 12);
}

#[test]
fn little_endian_reads() {
    let bytes: Vec<u8> = vec![0x01, 0x02, 0x03, 0x04, 0x05];
    assert_eq!(read_u16(bytes.as_slice(), 0), Some(0x0201));
    assert_eq!(read_u16(bytes.as_slice(), 3), Some(0x0504));
    assert_eq!(read_u16(bytes.as_slice(), 4), None);
    assert_eq!(read_u32(bytes.as_slice(), 1), Some(0x05040302));
    assert_eq!(read_u32(bytes.as_slice(), 2), None);
}

#[test]
fn interface_flags_operations() {
    let flags = InterfaceFlags::new(&[InterfaceFlag::Up, InterfaceFlag::Broadcast]);
    assert_eq!(flags.bits(), 0x3);
    assert!(flags.has_flag(InterfaceFlag::Up));
    assert!(!flags.has_flag(InterfaceFlag::Running));
    let more = flags.add_flag(InterfaceFlag::Running);
    assert_eq!(more.bits(), 0x43);
    let fewer = more.remove_flag(InterfaceFlag::Up);
    assert_eq!(fewer.bits(), 0x42);
    assert_eq!(InterfaceFlags::with_bits(0xABCD).bits(), 0xABCD);
    assert_eq!(InterfaceFlags::default().bits(), 0);
    assert_eq!(InterfaceFlag::from_raw_value(0x8000), Some(InterfaceFlag::Dynamic));
    assert_eq!(InterfaceFlag::from_raw_value(0x3), None);
}

#[test]
fn route_flags_operations() {
    let flags = RouteFlags::new(&[RouteFlag::Notify, RouteFlag::Cloned]);
    assert_eq!(flags.bits(), 0x300);
    assert_eq!(RouteFlag::from_raw_value(0x800), Some(RouteFlag::Prefix));
}

#[test]
fn stats_record_is_byte_exact() {
    let mut stats = InterfaceStats {
        rx_packets: 0x11223344,
        tx_packets: 0,
        rx_bytes: 0,
        tx_bytes: 0,
        rx_errors: 0,
        tx_errors: 0,
        rx_dropped: 0,
        tx_dropped: 0,
        multicast: 0,
        collisions: 0,
        rx_length_errors: 0,
        rx_over_errors: 0,
        rx_crc_errors: 0,
        rx_frame_errors: 0,
        rx_fifo_errors: 0,
        rx_missed_errors: 0,
        tx_aborted_errors: 0,
        tx_carrier_errors: 0,
        tx_fifo_errors: 0,
        tx_heartbeat_errors: 0,
        tx_window_errors: 0,
        rx_compressed: 0,
        tx_compressed: 0,
        rx_nohandler: 0x99,
    };
    stats.multicast = 7;
    let bytes = stats.serialize();
    assert_eq!(bytes.len(), 96);
    assert_eq!(&bytes[0..4], &[0x44, 0x33, 0x22, 0x11]);
    assert_eq!(bytes[32], 7);
    assert_eq!(bytes[92], 0x99);
    let back = InterfaceStats::deserialize(bytes.as_slice());
    assert_eq!(back, stats);
}

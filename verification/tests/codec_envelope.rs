//! Tests of the envelope codec: the 16-byte outer header, the
//! back-patched length, flag preservation, type checking, and the
//! error payload.

use clatox_rtnetlink::ErrorPayload;
use clatox_rtnetlink::Header;
use clatox_rtnetlink::Message;
use clatox_rtnetlink::NetlinkError;
use clatox_rtnetlink::flag::Flag;
use clatox_rtnetlink::flag::Flags;
use clatox_rtnetlink::link::ArpHardware;
use clatox_rtnetlink::link::GetLink;
use clatox_rtnetlink::link::InterfaceFlags;
use clatox_rtnetlink::link::InterfaceInfoMessage;
use clatox_rtnetlink::link::NewLink;
use clatox_rtnetlink::types::RouteType;
use clatox_rtnetlink::types::Type;

fn link_dump_request() -> Message<GetLink> {
    Message::new(
        Flags::new(&[Flag::Request, Flag::Dump]),
        GetLink(InterfaceInfoMessage::new(
            ArpHardware::Ethernet,
            0,
            InterfaceFlags::empty(),
            vec![],
        )),
    )
}

#[test]
fn link_dump_request_bytes() {
    let bytes = link_dump_request().serialize().unwrap();
    // 16-byte outer header + 16-byte record header, no attributes.
    assert_eq!(bytes.len(), 32);
    assert_eq!(&bytes[0..4], &[0x20, 0x00, 0x00, 0x00]);
    // Outer type: RTM_GETLINK = 18.
    assert_eq!(&bytes[4..6], &[0x12, 0x00]);
    // Flags: Request (0x0001) | Dump (0x0300) = 0x0301.
    assert_eq!(&bytes[6..8], &[0x01, 0x03]);
    // seq and pid are zero for a request to the kernel.
    assert_eq!(&bytes[8..16], &[0; 8]);
}

#[test]
fn envelope_length_field_equals_buffer_length() {
    let record = InterfaceInfoMessage::new(
        ArpHardware::Ethernet,
        1,
        InterfaceFlags::empty(),
        vec![clatox_rtnetlink::link::InterfaceInfoAttribute::MTU(9000)],
    );
    let bytes = Message::new(Flags::empty(), NewLink(record)).serialize().unwrap();
    let declared = u32::from_le_bytes([bytes[0], bytes[1], bytes[2], bytes[3]]);
    assert_eq!(declared as usize, bytes.len());
}

#[test]
fn envelope_round_trip() {
    let message = link_dump_request();
    let bytes = message.serialize().unwrap();
    let back = Message::<GetLink>::deserialize(bytes.as_slice()).unwrap();
    assert_eq!(back.message_type(), Type::Route(RouteType::GetLink));
    assert_eq!(back.flags().bits(), 0x0301);
    assert_eq!(back.seq(), 0);
    assert_eq!(back.pid(), 0);
    assert_eq!(back.payload(), message.payload());
    assert_eq!(back.length as usize, bytes.len());
}

#[test]
fn unknown_flag_bits_round_trip() {
    let message = Message::new(
        Flags::with_bits(0xF0F1),
        GetLink(InterfaceInfoMessage::new(
            ArpHardware::Ethernet,
            0,
            InterfaceFlags::empty(),
            vec![],
        )),
    );
    let bytes = message.serialize().unwrap();
    assert_eq!(&bytes[6..8], &[0xF1, 0xF0]);
    let back = Message::<GetLink>::deserialize(bytes.as_slice()).unwrap();
    assert_eq!(back.flags().bits(), 0xF0F1);
    let again = back.serialize().unwrap();
    assert_eq!(again, bytes);
}

#[test]
fn type_mismatch_is_reported() {
    let bytes = link_dump_request().serialize().unwrap();
    assert_eq!(
        Message::<NewLink>::deserialize(bytes.as_slice()),
        Err(NetlinkError::MessageTypeMismatch)
    );
}

#[test]
fn header_only_parse_skips_type_check() {
    let bytes = link_dump_request().serialize().unwrap();
    let header = Header::deserialize(bytes.as_slice()).unwrap();
    assert_eq!(header.message_type(), Type::Route(RouteType::GetLink));
    assert_eq!(header.length(), 32);
}

#[test]
fn bad_frame_when_length_is_below_header() {
    let mut bytes = link_dump_request().serialize().unwrap();
    bytes[0] = 15;
    bytes[1] = 0;
    bytes[2] = 0;
    bytes[3] = 0;
    assert_eq!(
        Header::deserialize(bytes.as_slice()),
        Err(NetlinkError::BadFrame)
    );
}

#[test]
fn bad_frame_when_length_exceeds_buffer() {
    let mut bytes = link_dump_request().serialize().unwrap();
    bytes[0] = 0xFF;
    assert_eq!(
        Header::deserialize(bytes.as_slice()),
        Err(NetlinkError::BadFrame)
    );
}

#[test]
fn short_input_when_header_truncated() {
    let bytes = vec![0u8; 10];
    assert_eq!(
        Header::deserialize(bytes.as_slice()),
        Err(NetlinkError::ShortInput)
    );
}

#[test]
fn unknown_outer_type_is_rejected() {
    let mut bytes = link_dump_request().serialize().unwrap();
    bytes[4] = 0xEE;
    bytes[5] = 0x7F;
    assert_eq!(
        Header::deserialize(bytes.as_slice()),
        Err(NetlinkError::UnknownEnumerant)
    );
}

#[test]
fn error_payload_round_trip() {
    let request = Message::new(Flags::new(&[Flag::Request]), clatox_rtnetlink::NoPayload);
    let error = Message::new(
        Flags::empty(),
        ErrorPayload { code: -22, header: request },
    );
    let bytes = error.serialize().unwrap();
    // Outer header, code, echoed header.
    assert_eq!(bytes.len(), 16 + 4 + 16);
    let back = Message::<ErrorPayload>::deserialize(bytes.as_slice()).unwrap();
    assert_eq!(back.payload().code, -22);
    assert_eq!(back.payload().header.flags().bits(), 1);
    assert_eq!(back.message_type(), Type::Error);
}

#[test]
fn payload_parsing_stops_at_declared_length() {
    // Two envelopes in one buffer: parsing the first must not touch
    // the second.
    let first = link_dump_request().serialize().unwrap();
    let second = Message::new(Flags::empty(), clatox_rtnetlink::NoPayload).serialize().unwrap();
    let mut datagram = first.clone();
    datagram.extend_from_slice(second.as_slice());
    let m = Message::<GetLink>::deserialize(datagram.as_slice()).unwrap();
    assert_eq!(m.length, first.len() as u32);
    assert_eq!(m.payload().0.attributes().len(), 0);
}

#[test]
fn message_type_values() {
    assert_eq!(Type::Noop.raw_value(), 1);
    assert_eq!(Type::Error.raw_value(), 2);
    assert_eq!(Type::Done.raw_value(), 3);
    assert_eq!(Type::Overrun.raw_value(), 4);
    assert_eq!(Type::Route(RouteType::NewLink).raw_value(), 16);
    assert_eq!(Type::from_raw_value(25), Some(Type::Route(RouteType::DeleteRoute)));
    assert_eq!(Type::from_raw_value(999), None);
    assert_eq!(Type::from(RouteType::GetAddress), Type::Route(RouteType::GetAddress));
}

#[test]
fn flag_operations() {
    let flags = Flags::new(&[Flag::Request, Flag::Ack]);
    assert_eq!(flags.bits(), 5);
    assert!(flags.has_flag(Flag::Request));
    assert!(!flags.has_flag(Flag::Multi));
    let more = flags.add_flag(Flag::Multi);
    assert!(more.has_flag(Flag::Multi));
    let fewer = more.remove_flag(Flag::Request);
    assert!(!fewer.has_flag(Flag::Request));
    assert_eq!(fewer.bits(), 6);
    assert_eq!(Flag::Dump.raw_value(), 0x300);
}

#[test]
fn error_echo_keeps_declared_length() {
    // The kernel echoes only the 16 header bytes of the offending
    // request, while the echoed length field still names the original
    // request's full length. The parse must accept that.
    let mut bytes: Vec<u8> = Vec::new();
    bytes.extend_from_slice(&36u32.to_le_bytes()); // outer length
    bytes.extend_from_slice(&2u16.to_le_bytes()); // NLMSG_ERROR
    bytes.extend_from_slice(&0u16.to_le_bytes()); // flags
    bytes.extend_from_slice(&0u32.to_le_bytes()); // seq
    bytes.extend_from_slice(&0u32.to_le_bytes()); // pid
    bytes.extend_from_slice(&(-95i32).to_le_bytes()); // error code
    bytes.extend_from_slice(&32u32.to_le_bytes()); // echoed length
    bytes.extend_from_slice(&18u16.to_le_bytes()); // echoed RTM_GETLINK
    bytes.extend_from_slice(&0x0301u16.to_le_bytes()); // echoed flags
    bytes.extend_from_slice(&7u32.to_le_bytes()); // echoed seq
    bytes.extend_from_slice(&0u32.to_le_bytes()); // echoed pid
    let m = Message::<ErrorPayload>::deserialize(bytes.as_slice()).unwrap();
    assert_eq!(m.payload().code, -95);
    assert_eq!(m.payload().header.length(), 32);
    assert_eq!(m.payload().header.seq(), 7);
    assert_eq!(
        m.payload().header.message_type(),
        Type::Route(RouteType::GetLink)
    );
}

//! Tests of the receive path: single messages, error precedence, and
//! dump reassembly within and across datagrams.

use clatox_rtnetlink::ErrorPayload;
use clatox_rtnetlink::Message;
use clatox_rtnetlink::NetlinkError;
use clatox_rtnetlink::NoPayload;
use clatox_rtnetlink::ReceiveProgress;
use clatox_rtnetlink::ReceivedMessage;
use clatox_rtnetlink::begin_receive;
use clatox_rtnetlink::continue_receive;
use clatox_rtnetlink::flag::Flag;
use clatox_rtnetlink::flag::Flags;
use clatox_rtnetlink::link::ArpHardware;
use clatox_rtnetlink::link::InterfaceFlags;
use clatox_rtnetlink::link::InterfaceInfoAttribute;
use clatox_rtnetlink::link::InterfaceInfoMessage;
use clatox_rtnetlink::link::NewLink;

fn new_link_message(index: i32, multi: bool) -> Message<NewLink> {
    let flags = if multi {
        Flags::new(&[Flag::Multi])
    } else {
        Flags::empty()
    };
    Message::new(
        flags,
        NewLink(InterfaceInfoMessage::new(
            ArpHardware::Ethernet,
            index,
            InterfaceFlags::empty(),
            vec![InterfaceInfoAttribute::MTU(1500 + index as u32)],
        )),
    )
}

fn done_datagram() -> Vec<u8> {
    // A Done envelope: length 16, type 3, no flags.
    let mut bytes = vec![0u8; 16];
    bytes[0] = 16;
    bytes[4] = 3;
    bytes
}

#[test]
fn single_message_is_returned() {
    let message = new_link_message(1, false);
    let datagram = message.serialize().unwrap();
    match begin_receive::<NewLink>(datagram.as_slice()).unwrap() {
        ReceiveProgress::Complete(ReceivedMessage::Message(m)) => {
            assert_eq!(m.payload(), message.payload());
        },
        other => panic!("expected a single message, got {:?}", other),
    }
}

#[test]
fn error_is_returned_not_type_mismatch() {
    // The kernel answers a malformed request with an Error envelope;
    // receiving it as NewLink must yield Error, not MessageTypeMismatch.
    let request = Message::new(Flags::new(&[Flag::Request]), NoPayload);
    let error = Message::new(Flags::empty(), ErrorPayload { code: -22, header: request });
    let datagram = error.serialize().unwrap();
    match begin_receive::<NewLink>(datagram.as_slice()).unwrap() {
        ReceiveProgress::Complete(ReceivedMessage::Error(m)) => {
            assert_eq!(m.payload().code, -22);
        },
        other => panic!("expected an error message, got {:?}", other),
    }
}

#[test]
fn error_wins_even_with_multi_flag() {
    let request = Message::new(Flags::new(&[Flag::Request]), NoPayload);
    let error = Message::new(
        Flags::new(&[Flag::Multi]),
        ErrorPayload { code: -1, header: request },
    );
    let datagram = error.serialize().unwrap();
    match begin_receive::<NewLink>(datagram.as_slice()).unwrap() {
        ReceiveProgress::Complete(ReceivedMessage::Error(m)) => {
            assert_eq!(m.payload().code, -1);
        },
        other => panic!("expected an error message, got {:?}", other),
    }
}

#[test]
fn dump_in_one_datagram() {
    // N envelopes followed by a Done terminator: exactly N payloads,
    // in datagram order.
    let first = new_link_message(1, true);
    let second = new_link_message(2, true);
    let mut datagram = first.serialize().unwrap();
    datagram.extend_from_slice(second.serialize().unwrap().as_slice());
    datagram.extend_from_slice(done_datagram().as_slice());
    match begin_receive::<NewLink>(datagram.as_slice()).unwrap() {
        ReceiveProgress::Complete(ReceivedMessage::Multipart(ms)) => {
            assert_eq!(ms.len(), 2);
            assert_eq!(ms[0].payload(), first.payload());
            assert_eq!(ms[1].payload(), second.payload());
        },
        other => panic!("expected a finished dump, got {:?}", other),
    }
}

#[test]
fn dump_reassembly_across_two_datagrams() {
    // First datagram: two NewLink envelopes, no Done. Second: one
    // NewLink, then Done. Multipart returns 3 payloads in order.
    let first = new_link_message(1, true);
    let second = new_link_message(2, true);
    let third = new_link_message(3, true);
    let mut datagram1 = first.serialize().unwrap();
    datagram1.extend_from_slice(second.serialize().unwrap().as_slice());
    let mut datagram2 = third.serialize().unwrap();
    datagram2.extend_from_slice(done_datagram().as_slice());

    let pending = match begin_receive::<NewLink>(datagram1.as_slice()).unwrap() {
        ReceiveProgress::NeedMore(ms) => {
            assert_eq!(ms.len(), 2);
            ms
        },
        other => panic!("expected a dump in progress, got {:?}", other),
    };
    match continue_receive::<NewLink>(pending, datagram2.as_slice()).unwrap() {
        ReceiveProgress::Complete(ReceivedMessage::Multipart(ms)) => {
            assert_eq!(ms.len(), 3);
            assert_eq!(ms[0].payload(), first.payload());
            assert_eq!(ms[1].payload(), second.payload());
            assert_eq!(ms[2].payload(), third.payload());
        },
        other => panic!("expected a finished dump, got {:?}", other),
    }
}

#[test]
fn dump_terminated_by_done_in_first_position() {
    // A Done header may stand at any cursor position, even first.
    let mut datagram = done_datagram();
    datagram[6] = 2; // set the Multi flag on the terminator itself
    match begin_receive::<NewLink>(datagram.as_slice()).unwrap() {
        ReceiveProgress::Complete(ReceivedMessage::Multipart(ms)) => {
            assert_eq!(ms.len(), 0);
        },
        other => panic!("expected an empty dump, got {:?}", other),
    }
}

#[test]
fn garbage_first_header_is_bad_frame() {
    let datagram = vec![1u8, 2, 3];
    assert_eq!(
        begin_receive::<NewLink>(datagram.as_slice()),
        Err(NetlinkError::BadFrame)
    );
}

#[test]
fn trailing_garbage_in_dump_is_bad_frame() {
    let first = new_link_message(1, true);
    let mut datagram = first.serialize().unwrap();
    datagram.extend_from_slice(&[0xAB, 0xCD]);
    assert_eq!(
        begin_receive::<NewLink>(datagram.as_slice()),
        Err(NetlinkError::BadFrame)
    );
}

#[test]
fn wrong_kind_inside_dump_is_type_mismatch() {
    let stray = Message::new(
        Flags::new(&[Flag::Multi]),
        clatox_rtnetlink::link::GetLink(InterfaceInfoMessage::new(
            ArpHardware::Ethernet,
            0,
            InterfaceFlags::empty(),
            vec![],
        )),
    );
    let mut datagram = stray.serialize().unwrap();
    datagram.extend_from_slice(done_datagram().as_slice());
    assert_eq!(
        begin_receive::<NewLink>(datagram.as_slice()),
        Err(NetlinkError::MessageTypeMismatch)
    );
}

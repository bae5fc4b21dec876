//! The receive state machine: from whole kernel datagrams to typed
//! messages. One datagram either completes a reception — a single
//! message, an error, or a finished dump — or leaves a dump in
//! progress that the next datagram continues.
//!
//! The functions here never perform input or output themselves: the
//! caller reads each datagram from its socket and hands the bytes in.

use vstd::prelude::*;

verus! {

use vstd::bytes::spec_u16_from_le_bytes;
use vstd::bytes::spec_u32_from_le_bytes;
use vstd::slice::slice_subrange;

use crate::attribute::views_of;
use crate::error::NetlinkError;
use crate::flag::Flag;
use crate::message::ErrorPayload;
use crate::message::ErrorPayloadV;
use crate::message::Header;
use crate::message::Message;
use crate::message::MessageV;
use crate::message::Payload;
use crate::message::parse_message;
use crate::types::Type;
use crate::utils::read_u16;

/// What one request's reception ends in: a single typed message, an
/// error message from the kernel, or the messages of a whole dump.
#[derive(Debug, Clone, PartialEq, Eq)]
pub enum ReceivedMessage<T> {
    /// The kernel answered with an error message; the original
    /// request's header is echoed inside.
    Error(Message<ErrorPayload>),
    /// A single message was received.
    Message(Message<T>),
    /// A multipart dump was received and reassembled, in order.
    Multipart(Vec<Message<T>>),
}

/// The mathematical model of a [`ReceivedMessage`].
pub enum ReceivedMessageV<PV> {
    Error(MessageV<ErrorPayloadV>),
    Message(MessageV<PV>),
    Multipart(Seq<MessageV<PV>>),
}

impl<T: View> View for ReceivedMessage<T> {
    type V = ReceivedMessageV<T::V>;

    open spec fn view(&self) -> ReceivedMessageV<T::V> {
        match self {
            ReceivedMessage::Error(m) => ReceivedMessageV::Error(m@),
            ReceivedMessage::Message(m) => ReceivedMessageV::Message(m@),
            ReceivedMessage::Multipart(ms) => ReceivedMessageV::Multipart(views_of(ms@)),
        }
    }
}

/// Where one datagram left the reception: complete, or a dump still
/// waiting for its terminator, with the messages collected so far.
#[derive(Debug, Clone, PartialEq, Eq)]
pub enum ReceiveProgress<T> {
    /// The reception is complete.
    Complete(ReceivedMessage<T>),
    /// A dump is in progress: more datagrams must be read.
    NeedMore(Vec<Message<T>>),
}

/// The mathematical model of a [`ReceiveProgress`].
pub enum ReceiveProgressV<PV> {
    Complete(ReceivedMessageV<PV>),
    NeedMore(Seq<MessageV<PV>>),
}

impl<T: View> View for ReceiveProgress<T> {
    type V = ReceiveProgressV<T::V>;

    open spec fn view(&self) -> ReceiveProgressV<T::V> {
        match self {
            ReceiveProgress::Complete(r) => ReceiveProgressV::Complete(r@),
            ReceiveProgress::NeedMore(ms) => ReceiveProgressV::NeedMore(views_of(ms@)),
        }
    }
}

/// Walks one datagram of a dump: typed messages in order until a
/// `Done` header, the end of the datagram, or a fault. The boolean
/// tells whether the terminator was seen. A header that cannot be read
/// while bytes remain is a bad frame; a clean end just asks for more.
pub open spec fn walk_dump<T: Payload>(b: Seq<u8>) -> Result<
    (Seq<MessageV<T::V>>, bool),
    NetlinkError,
>
    decreases b.len(),
    via walk_dump_decreases::<T>
{
    if b.len() == 0 {
        Ok((Seq::empty(), false))
    } else if b.len() < 16 {
        Err(NetlinkError::BadFrame)
    } else {
        let length = spec_u32_from_le_bytes(b.subrange(0, 4)) as int;
        match Type::spec_from_raw(spec_u16_from_le_bytes(b.subrange(4, 6))) {
            None => Err(NetlinkError::BadFrame),
            Some(t) => {
                if t == Type::Done {
                    Ok((Seq::empty(), true))
                } else {
                    match parse_message::<T>(b) {
                        Err(e) => Err(e),
                        Ok(m) => match walk_dump::<T>(b.skip(length)) {
                            Err(e) => Err(e),
                            Ok((rest, done)) => Ok((seq![m] + rest, done)),
                        },
                    }
                }
            },
        }
    }
}

#[via_fn]
proof fn walk_dump_decreases<T: Payload>(b: Seq<u8>) {
}

/// What the first datagram of a reception leads to. An error header
/// answers immediately, whatever its other flags; the multi flag opens
/// a dump; anything else is a single typed message.
pub open spec fn spec_begin_receive<T: Payload>(b: Seq<u8>) -> Result<
    ReceiveProgressV<T::V>,
    NetlinkError,
> {
    match parse_message::<crate::message::NoPayload>(b) {
        Err(_) => Err(NetlinkError::BadFrame),
        Ok(h) => {
            if h.message_type == Type::Error {
                match parse_message::<ErrorPayload>(b) {
                    Err(e) => Err(e),
                    Ok(m) => Ok(ReceiveProgressV::Complete(ReceivedMessageV::Error(m))),
                }
            } else if (h.flags & Flag::Multi.spec_raw()) != 0 {
                match walk_dump::<T>(b) {
                    Err(e) => Err(e),
                    Ok((ms, done)) => {
                        if done {
                            Ok(ReceiveProgressV::Complete(ReceivedMessageV::Multipart(ms)))
                        } else {
                            Ok(ReceiveProgressV::NeedMore(ms))
                        }
                    },
                }
            } else {
                match parse_message::<T>(b) {
                    Err(e) => Err(e),
                    Ok(m) => Ok(ReceiveProgressV::Complete(ReceivedMessageV::Message(m))),
                }
            }
        },
    }
}

/// What one further datagram of a dump leads to, given the messages
/// collected so far.
pub open spec fn spec_continue_receive<T: Payload>(
    acc: Seq<MessageV<T::V>>,
    b: Seq<u8>,
) -> Result<ReceiveProgressV<T::V>, NetlinkError> {
    match walk_dump::<T>(b) {
        Err(e) => Err(e),
        Ok((ms, done)) => {
            if done {
                Ok(ReceiveProgressV::Complete(ReceivedMessageV::Multipart(acc + ms)))
            } else {
                Ok(ReceiveProgressV::NeedMore(acc + ms))
            }
        },
    }
}

/// Walks one datagram of a dump, collecting typed messages until the
/// `Done` terminator or the end of the datagram.
fn walk_dump_exec<T: Payload>(bytes: &[u8]) -> (r: Result<(Vec<Message<T>>, bool), NetlinkError>)
    ensures
        match r {
            Ok((ms, done)) => walk_dump::<T>(bytes@) == Ok::<
                (Seq<MessageV<T::V>>, bool),
                NetlinkError,
            >((views_of(ms@), done)),
            Err(e) => walk_dump::<T>(bytes@) == Err::<(Seq<MessageV<T::V>>, bool), NetlinkError>(
                e,
            ),
        },
{
    let mut ms: Vec<Message<T>> = Vec::new();
    let mut pos: usize = 0;
    proof {
        assert(views_of(ms@) =~= Seq::<MessageV<T::V>>::empty());
        assert(bytes@.skip(0) =~= bytes@);
    }
    loop
        invariant
            pos <= bytes@.len(),
            walk_dump::<T>(bytes@) == (match walk_dump::<T>(bytes@.skip(pos as int)) {
                Ok((rest, d)) => Ok::<(Seq<MessageV<T::V>>, bool), NetlinkError>(
                    (views_of(ms@) + rest, d),
                ),
                Err(e) => Err::<(Seq<MessageV<T::V>>, bool), NetlinkError>(e),
            }),
        decreases bytes@.len() - pos,
    {
        let ghost bc = bytes@.skip(pos as int);
        if bytes.len() - pos == 0 {
            proof {
                assert(views_of(ms@) + Seq::<MessageV<T::V>>::empty() =~= views_of(ms@));
            }
            return Ok((ms, false));
        }
        if bytes.len() - pos < 16 {
            return Err(NetlinkError::BadFrame);
        }
        let traw = read_u16(bytes, pos + 4).unwrap();
        proof {
            assert(bc.subrange(4, 6) =~= bytes@.subrange(pos as int + 4, pos as int + 6));
        }
        let t = match Type::from_raw_value(traw) {
            Some(t) => t,
            None => {
                return Err(NetlinkError::BadFrame);
            },
        };
        if t == Type::Done {
            proof {
                assert(views_of(ms@) + Seq::<MessageV<T::V>>::empty() =~= views_of(ms@));
            }
            return Ok((ms, true));
        }
        let sub = slice_subrange(bytes, pos, bytes.len());
        proof {
            assert(sub@ =~= bc);
        }
        let m = match Message::<T>::deserialize(sub) {
            Ok(m) => m,
            Err(e) => {
                return Err(e);
            },
        };
        let length = m.length as usize;
        proof {
            assert(bc.subrange(0, 4) =~= sub@.subrange(0, 4));
            assert(bc.skip(length as int) =~= bytes@.skip(pos as int + length as int));
        }
        let ghost msv = views_of(ms@);
        ms.push(m);
        pos = pos + length;
        proof {
            assert(views_of(ms@) =~= msv + seq![m@]);
            match walk_dump::<T>(bytes@.skip(pos as int)) {
                Ok((rest, d)) => {
                    assert((msv + seq![m@]) + rest =~= msv + (seq![m@] + rest));
                },
                Err(_) => {},
            }
        }
    }
}

/// Processes the first datagram of a reception.
///
/// An `Error` header is answered at once, whatever its other flags. A
/// header with the `Multi` flag opens a dump, which is complete only
/// when its `Done` terminator has been seen. Anything else is a single
/// typed message whose outer type must match the payload kind.
pub fn begin_receive<T: Payload>(datagram: &[u8]) -> (r: Result<
    ReceiveProgress<T>,
    NetlinkError,
>)
    ensures
        match r {
            Ok(p) => spec_begin_receive::<T>(datagram@) == Ok::<
                ReceiveProgressV<T::V>,
                NetlinkError,
            >(p@),
            Err(e) => spec_begin_receive::<T>(datagram@) == Err::<
                ReceiveProgressV<T::V>,
                NetlinkError,
            >(e),
        },
{
    let header = match Header::deserialize(datagram) {
        Ok(h) => h,
        Err(_) => {
            return Err(NetlinkError::BadFrame);
        },
    };
    if header.message_type() == Type::Error {
        match Message::<ErrorPayload>::deserialize(datagram) {
            Ok(m) => Ok(ReceiveProgress::Complete(ReceivedMessage::Error(m))),
            Err(e) => Err(e),
        }
    } else if header.flags().has_flag(Flag::Multi) {
        match walk_dump_exec::<T>(datagram) {
            Ok((ms, true)) => Ok(ReceiveProgress::Complete(ReceivedMessage::Multipart(ms))),
            Ok((ms, false)) => Ok(ReceiveProgress::NeedMore(ms)),
            Err(e) => Err(e),
        }
    } else {
        match Message::<T>::deserialize(datagram) {
            Ok(m) => Ok(ReceiveProgress::Complete(ReceivedMessage::Message(m))),
            Err(e) => Err(e),
        }
    }
}

/// Processes one further datagram of a dump in progress: the messages
/// collected so far grow by this datagram's messages, in order, and
/// the dump completes when the terminator is seen.
pub fn continue_receive<T: Payload>(collected: Vec<Message<T>>, datagram: &[u8]) -> (r: Result<
    ReceiveProgress<T>,
    NetlinkError,
>)
    ensures
        match r {
            Ok(p) => spec_continue_receive::<T>(views_of(collected@), datagram@) == Ok::<
                ReceiveProgressV<T::V>,
                NetlinkError,
            >(p@),
            Err(e) => spec_continue_receive::<T>(views_of(collected@), datagram@) == Err::<
                ReceiveProgressV<T::V>,
                NetlinkError,
            >(e),
        },
{
    let mut collected = collected;
    match walk_dump_exec::<T>(datagram) {
        Ok((ms, done)) => {
            let ghost cv = views_of(collected@);
            let ghost mv = views_of(ms@);
            let mut ms = ms;
            collected.append(&mut ms);
            proof {
                assert(views_of(collected@) =~= cv + mv);
            }
            if done {
                Ok(ReceiveProgress::Complete(ReceivedMessage::Multipart(collected)))
            } else {
                Ok(ReceiveProgress::NeedMore(collected))
            }
        },
        Err(e) => Err(e),
    }
}


/// The bytes of several messages laid out back to back, as the kernel
/// packs a dump datagram.
pub open spec fn msgs_bytes<T: Payload>(es: Seq<Message<T>>) -> Seq<u8>
    decreases es.len(),
{
    if es.len() == 0 {
        Seq::empty()
    } else {
        es[0].spec_bytes() + msgs_bytes::<T>(es.drop_first())
    }
}

/// An error header is answered at once, whatever its other flags: when
/// the first header of a datagram carries the `Error` type, the
/// reception returns the parsed error message, never a type mismatch
/// against the expected payload kind.
pub proof fn lemma_error_takes_precedence<T: Payload>(b: Seq<u8>)
    requires
        parse_message::<crate::message::NoPayload>(b) matches Ok(h) && h.message_type
            == Type::Error,
    ensures
        spec_begin_receive::<T>(b) == (match parse_message::<ErrorPayload>(b) {
            Ok(m) => Ok::<ReceiveProgressV<T::V>, NetlinkError>(
                ReceiveProgressV::Complete(ReceivedMessageV::Error(m)),
            ),
            Err(e) => Err::<ReceiveProgressV<T::V>, NetlinkError>(e),
        }),
{
}

/// Walking a datagram that starts with serialized messages of the
/// expected kind yields exactly those messages, in order, followed by
/// whatever the walk of the remaining bytes yields.
pub proof fn lemma_walk_dump_concat<T: Payload>(es: Seq<Message<T>>, rest: Seq<u8>)
    requires
        forall|i: int| 0 <= i < es.len() ==> (#[trigger] es[i]).spec_wf(),
        T::spec_check_type(),
        T::spec_type_tag() != Type::Done,
    ensures
        walk_dump::<T>(msgs_bytes::<T>(es) + rest) == (match walk_dump::<T>(rest) {
            Ok((ms, d)) => Ok::<(Seq<MessageV<T::V>>, bool), NetlinkError>(
                (views_of(es) + ms, d),
            ),
            Err(e) => Err::<(Seq<MessageV<T::V>>, bool), NetlinkError>(e),
        }),
    decreases es.len(),
{
    if es.len() == 0 {
        assert(msgs_bytes::<T>(es) + rest =~= rest);
        match walk_dump::<T>(rest) {
            Ok((ms, d)) => {
                assert(views_of(es) + ms =~= ms);
            },
            Err(_) => {},
        }
    } else {
        let m = es[0];
        let tail = es.drop_first();
        let tail_bytes = msgs_bytes::<T>(tail) + rest;
        crate::message::lemma_parse_message_prefix::<T>(m, tail_bytes);
        m.message_type.lemma_raw_round_trip();
        let b = msgs_bytes::<T>(es) + rest;
        assert(b =~= m.spec_bytes() + tail_bytes);
        assert(forall|i: int|
            0 <= i < tail.len() ==> (#[trigger] tail[i]).spec_wf() && tail[i] == es[i + 1]);
        lemma_walk_dump_concat::<T>(tail, rest);
        assert(views_of(es) =~= seq![m@] + views_of(tail));
        let length = m.spec_bytes().len() as int;
        assert(b.skip(length) == tail_bytes);
        match walk_dump::<T>(rest) {
            Ok((ms, d)) => {
                assert(seq![m@] + (views_of(tail) + ms) =~= views_of(es) + ms);
            },
            Err(_) => {},
        }
    }
}

/// A whole dump inside one datagram: messages of the expected kind,
/// then a terminator. The reception completes with exactly those
/// messages, in datagram order.
pub proof fn lemma_dump_in_one_datagram<T: Payload>(es: Seq<Message<T>>, rest: Seq<u8>)
    requires
        es.len() > 0,
        forall|i: int| 0 <= i < es.len() ==> (#[trigger] es[i]).spec_wf(),
        T::spec_check_type(),
        T::spec_type_tag() != Type::Done,
        T::spec_type_tag() != Type::Error,
        (es[0]@.flags & Flag::Multi.spec_raw()) != 0,
        walk_dump::<T>(rest) == Ok::<(Seq<MessageV<T::V>>, bool), NetlinkError>(
            (Seq::empty(), true),
        ),
    ensures
        spec_begin_receive::<T>(msgs_bytes::<T>(es) + rest) == Ok::<
            ReceiveProgressV<T::V>,
            NetlinkError,
        >(ReceiveProgressV::Complete(ReceivedMessageV::Multipart(views_of(es)))),
{
    let b = msgs_bytes::<T>(es) + rest;
    let m = es[0];
    let tail_bytes = msgs_bytes::<T>(es.drop_first()) + rest;
    assert(b =~= m.spec_bytes() + tail_bytes);
    crate::message::lemma_parse_header_prefix::<T>(m, tail_bytes);
    lemma_walk_dump_concat::<T>(es, rest);
    assert(views_of(es) + Seq::<MessageV<T::V>>::empty() =~= views_of(es));
}

/// The messages of several datagram walks, concatenated in order.
pub open spec fn parts_concat<PV>(parts: Seq<Seq<MessageV<PV>>>) -> Seq<MessageV<PV>>
    decreases parts.len(),
{
    if parts.len() == 0 {
        Seq::empty()
    } else {
        parts[0] + parts_concat(parts.drop_first())
    }
}

/// Feeding a dump in progress one datagram after another: the
/// transcript of repeated continuations.
pub open spec fn spec_dump_rounds<T: Payload>(
    acc: Seq<MessageV<T::V>>,
    ds: Seq<Seq<u8>>,
) -> Result<ReceiveProgressV<T::V>, NetlinkError>
    decreases ds.len(),
{
    if ds.len() == 0 {
        Ok(ReceiveProgressV::NeedMore(acc))
    } else {
        match spec_continue_receive::<T>(acc, ds[0]) {
            Err(e) => Err(e),
            Ok(ReceiveProgressV::Complete(rm)) => Ok(ReceiveProgressV::Complete(rm)),
            Ok(ReceiveProgressV::NeedMore(acc2)) => spec_dump_rounds::<T>(acc2, ds.drop_first()),
        }
    }
}

/// A dump spanning several datagrams returns the concatenation of
/// their messages, in order: when each datagram walks cleanly and only
/// the last carries the terminator, the rounds complete with
/// everything collected so far followed by every datagram's messages.
pub proof fn lemma_dump_rounds_in_order<T: Payload>(
    acc: Seq<MessageV<T::V>>,
    ds: Seq<Seq<u8>>,
    parts: Seq<Seq<MessageV<T::V>>>,
)
    requires
        ds.len() == parts.len(),
        ds.len() > 0,
        forall|i: int|
            0 <= i < ds.len() ==> walk_dump::<T>(#[trigger] ds[i]) == Ok::<
                (Seq<MessageV<T::V>>, bool),
                NetlinkError,
            >((parts[i], i == ds.len() - 1)),
    ensures
        spec_dump_rounds::<T>(acc, ds) == Ok::<ReceiveProgressV<T::V>, NetlinkError>(
            ReceiveProgressV::Complete(ReceivedMessageV::Multipart(acc + parts_concat(parts))),
        ),
    decreases ds.len(),
{
    assert(walk_dump::<T>(ds[0]) == Ok::<(Seq<MessageV<T::V>>, bool), NetlinkError>(
        (parts[0], 0 == ds.len() - 1),
    ));
    if ds.len() == 1 {
        assert(parts_concat(parts.drop_first()) =~= Seq::<MessageV<T::V>>::empty());
        assert(acc + (parts[0] + parts_concat(parts.drop_first())) =~= acc + parts[0]);
        assert(acc + parts_concat(parts) =~= acc + parts[0]);
    } else {
        let acc2 = acc + parts[0];
        let ds2 = ds.drop_first();
        let parts2 = parts.drop_first();
        assert(forall|i: int|
            0 <= i < ds2.len() ==> #[trigger] ds2[i] == ds[i + 1] && parts2[i] == parts[i + 1]);
        assert(forall|i: int|
            0 <= i < ds2.len() ==> walk_dump::<T>(#[trigger] ds2[i]) == Ok::<
                (Seq<MessageV<T::V>>, bool),
                NetlinkError,
            >((parts2[i], i == ds2.len() - 1)));
        lemma_dump_rounds_in_order::<T>(acc2, ds2, parts2);
        assert(acc2 + parts_concat(parts2) =~= acc + parts_concat(parts));
    }
}


/// The transcript of a whole reception: the first datagram, then as
/// many further datagrams as the dump needs.
pub open spec fn spec_receive_rounds<T: Payload>(first: Seq<u8>, ds: Seq<Seq<u8>>) -> Result<
    ReceiveProgressV<T::V>,
    NetlinkError,
> {
    match spec_begin_receive::<T>(first) {
        Err(e) => Err(e),
        Ok(ReceiveProgressV::Complete(rm)) => Ok(ReceiveProgressV::Complete(rm)),
        Ok(ReceiveProgressV::NeedMore(acc)) => spec_dump_rounds::<T>(acc, ds),
    }
}

/// A dump spanning several datagrams returns the concatenation of all
/// their messages in order: what the first datagram collected, then
/// each following datagram's messages, until the terminator.
pub proof fn lemma_dump_spanning_datagrams<T: Payload>(
    first: Seq<u8>,
    ms0: Seq<MessageV<T::V>>,
    ds: Seq<Seq<u8>>,
    parts: Seq<Seq<MessageV<T::V>>>,
)
    requires
        spec_begin_receive::<T>(first) == Ok::<ReceiveProgressV<T::V>, NetlinkError>(
            ReceiveProgressV::NeedMore(ms0),
        ),
        ds.len() == parts.len(),
        ds.len() > 0,
        forall|i: int|
            0 <= i < ds.len() ==> walk_dump::<T>(#[trigger] ds[i]) == Ok::<
                (Seq<MessageV<T::V>>, bool),
                NetlinkError,
            >((parts[i], i == ds.len() - 1)),
    ensures
        spec_receive_rounds::<T>(first, ds) == Ok::<ReceiveProgressV<T::V>, NetlinkError>(
            ReceiveProgressV::Complete(
                ReceivedMessageV::Multipart(ms0 + parts_concat(parts)),
            ),
        ),
{
    lemma_dump_rounds_in_order::<T>(ms0, ds, parts);
}

} // verus!

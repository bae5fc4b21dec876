//! The envelope codec: the 16-byte outer message header followed by a
//! family-specific payload. The header carries the total length, the
//! message type, the flag bits and the two opaque identifiers; the
//! length is computed during serialization, never taken from the
//! caller.

use vstd::prelude::*;

verus! {

use vstd::bytes::lemma_auto_spec_u16_to_from_le_bytes;
use vstd::bytes::lemma_auto_spec_u32_to_from_le_bytes;
use vstd::bytes::spec_u16_from_le_bytes;
use vstd::bytes::spec_u16_to_le_bytes;
use vstd::bytes::spec_u32_from_le_bytes;
use vstd::bytes::spec_u32_to_le_bytes;
use vstd::slice::slice_subrange;

use crate::error::NetlinkError;
use crate::flag::Flags;
use crate::types::Type;
use crate::utils::lemma_cast_u32_i32;
use crate::utils::push_bytes;
use crate::utils::push_u16;
use crate::utils::push_u32;
use crate::utils::read_u16;
use crate::utils::read_u32;

/// A payload kind of the outer message: a family-specific record shape
/// together with its outer message type and both directions of its
/// codec. Contracts are stated over the view of the payload value.
pub trait Payload: View + Sized {
    /// The outer message type this payload kind is carried under.
    spec fn spec_type_tag() -> Type;

    /// Whether deserialization checks the outer type against this
    /// payload kind. Only the header-only payload skips the check.
    spec fn spec_check_type() -> bool;

    /// Whether the payload can be serialized: every attribute fits its
    /// frame.
    spec fn spec_enc_ok(&self) -> bool;

    /// Whether the payload also parses back to itself.
    spec fn spec_wf(&self) -> bool;

    /// The payload's exact wire bytes.
    spec fn spec_bytes(&self) -> Seq<u8>;

    /// What the payload bytes parse to in this family.
    spec fn spec_parse(b: Seq<u8>) -> Result<Self::V, NetlinkError>;

    /// The outer message type this payload kind is carried under.
    fn message_type() -> (t: Type)
        ensures
            t == Self::spec_type_tag(),
    ;

    /// Whether deserialization checks the outer type.
    fn check_type() -> (b: bool)
        ensures
            b == Self::spec_check_type(),
    ;

    /// Writes the payload's wire bytes.
    fn serialize(&self) -> (r: Result<Vec<u8>, NetlinkError>)
        ensures
            match r {
                Ok(v) => self.spec_enc_ok() && v@ == self.spec_bytes(),
                Err(e) => e == NetlinkError::AttributeTooLong && !self.spec_enc_ok(),
            },
    ;

    /// Reads a payload back from wire bytes.
    fn deserialize(bytes: &[u8]) -> (r: Result<Self, NetlinkError>)
        ensures
            match r {
                Ok(p) => Self::spec_parse(bytes@) == Ok::<Self::V, NetlinkError>(p@),
                Err(e) => Self::spec_parse(bytes@) == Err::<Self::V, NetlinkError>(e),
            },
    ;

    /// Parsing inverts serialization, for well-formed payloads.
    proof fn lemma_round_trip(&self)
        requires
            self.spec_wf(),
        ensures
            self.spec_enc_ok(),
            Self::spec_parse(self.spec_bytes()) == Ok::<Self::V, NetlinkError>(self@),
    ;
}

/// The payload of a header-only message: nothing. Parsing with this
/// payload kind reads the 16 header bytes and skips the type check.
#[derive(Debug, Clone, Copy, PartialEq, Eq, Structural)]
pub struct NoPayload;

impl View for NoPayload {
    type V = NoPayload;

    open spec fn view(&self) -> NoPayload {
        NoPayload
    }
}

impl Payload for NoPayload {
    open spec fn spec_type_tag() -> Type {
        Type::Noop
    }

    open spec fn spec_check_type() -> bool {
        false
    }

    open spec fn spec_enc_ok(&self) -> bool {
        true
    }

    open spec fn spec_wf(&self) -> bool {
        true
    }

    open spec fn spec_bytes(&self) -> Seq<u8> {
        Seq::empty()
    }

    open spec fn spec_parse(b: Seq<u8>) -> Result<NoPayload, NetlinkError> {
        Ok(NoPayload)
    }

    fn message_type() -> (t: Type) {
        Type::Noop
    }

    fn check_type() -> (b: bool) {
        false
    }

    fn serialize(&self) -> (r: Result<Vec<u8>, NetlinkError>) {
        Ok(Vec::new())
    }

    fn deserialize(bytes: &[u8]) -> (r: Result<NoPayload, NetlinkError>) {
        Ok(NoPayload)
    }

    proof fn lemma_round_trip(&self) {
    }
}

/// An outer message: the `nlmsghdr` fields and the payload. The length
/// field holds what the wire declared for received messages; for built
/// messages it is a placeholder that serialization recomputes.
#[derive(Debug, Clone, PartialEq, Eq)]
pub struct Message<T> {
    pub length: u32,
    pub message_type: Type,
    pub flags: Flags,
    pub seq: u32,
    pub pid: u32,
    pub payload: T,
}

/// The header of a message alone, with no payload: what a received
/// message is first parsed as.
pub type Header = Message<NoPayload>;

/// The mathematical model of a [`Message`]: its fields over plain
/// values, without the length, which is a function of the payload.
pub struct MessageV<PV> {
    pub message_type: Type,
    pub flags: u16,
    pub seq: u32,
    pub pid: u32,
    pub payload: PV,
}

impl<T: View> View for Message<T> {
    type V = MessageV<T::V>;

    open spec fn view(&self) -> MessageV<T::V> {
        MessageV {
            message_type: self.message_type,
            flags: self.flags@,
            seq: self.seq,
            pid: self.pid,
            payload: self.payload@,
        }
    }
}

/// What an envelope parses to: the header fields, with the payload
/// taken from offset 16 up to the declared length, so that further
/// messages may follow in the same datagram.
pub open spec fn parse_message<T: Payload>(b: Seq<u8>) -> Result<MessageV<T::V>, NetlinkError> {
    if b.len() < 16 {
        Err(NetlinkError::ShortInput)
    } else {
        let length = spec_u32_from_le_bytes(b.subrange(0, 4)) as int;
        if length < 16 || length > b.len() {
            Err(NetlinkError::BadFrame)
        } else {
            match Type::spec_from_raw(spec_u16_from_le_bytes(b.subrange(4, 6))) {
                None => Err(NetlinkError::UnknownEnumerant),
                Some(t) => {
                    if T::spec_check_type() && t != T::spec_type_tag() {
                        Err(NetlinkError::MessageTypeMismatch)
                    } else {
                        match T::spec_parse(b.subrange(16, length)) {
                            Ok(p) => Ok(
                                MessageV {
                                    message_type: t,
                                    flags: spec_u16_from_le_bytes(b.subrange(6, 8)),
                                    seq: spec_u32_from_le_bytes(b.subrange(8, 12)),
                                    pid: spec_u32_from_le_bytes(b.subrange(12, 16)),
                                    payload: p,
                                },
                            ),
                            Err(e) => Err(e),
                        }
                    }
                },
            }
        }
    }
}

impl<T: Payload> Message<T> {
    /// The length field as the wire declared it. Meaningful for
    /// received messages only; serialization recomputes it.
    pub open spec fn spec_length(self) -> u32 {
        self.length
    }

    /// The message's exact wire bytes: the recomputed total length, the
    /// raw type, the flag bits, the two identifiers, and the payload.
    pub open spec fn spec_bytes(self) -> Seq<u8> {
        spec_u32_to_le_bytes((16 + self.payload.spec_bytes().len()) as u32) + spec_u16_to_le_bytes(
            self.message_type.spec_raw(),
        ) + spec_u16_to_le_bytes(self.flags@) + spec_u32_to_le_bytes(self.seq)
            + spec_u32_to_le_bytes(self.pid) + self.payload.spec_bytes()
    }

    /// Whether the message can be serialized: the payload can, and the
    /// total length is representable.
    pub open spec fn spec_enc_ok(self) -> bool {
        self.payload.spec_enc_ok() && 16 + self.payload.spec_bytes().len() <= u32::MAX
    }

    /// Whether the message also parses back to itself: the payload
    /// does, the type matches the payload kind, and the length is
    /// representable.
    pub open spec fn spec_wf(self) -> bool {
        &&& self.payload.spec_wf()
        &&& (T::spec_check_type() ==> self.message_type == T::spec_type_tag())
        &&& 16 + self.payload.spec_bytes().len() <= u32::MAX
    }

    /// A new message to the kernel: sequence number and port id zero,
    /// the type inferred from the payload kind.
    pub fn new(flags: Flags, payload: T) -> (r: Message<T>)
        ensures
            r@ == (MessageV {
                message_type: T::spec_type_tag(),
                flags: flags@,
                seq: 0u32,
                pid: 0u32,
                payload: payload@,
            }),
            r.spec_length() == 16,
            r.spec_wf() == (payload.spec_wf() && 16 + payload.spec_bytes().len() <= u32::MAX),
    {
        Message {
            length: 16,
            message_type: T::message_type(),
            flags,
            seq: 0,
            pid: 0,
            payload,
        }
    }

    /// The message type of the header.
    pub fn message_type(&self) -> (t: Type)
        ensures
            t == self@.message_type,
    {
        self.message_type
    }

    /// The flag bits of the header.
    pub fn flags(&self) -> (f: Flags)
        ensures
            f@ == self@.flags,
    {
        self.flags
    }

    /// The sender's sequence number.
    pub fn seq(&self) -> (s: u32)
        ensures
            s == self@.seq,
    {
        self.seq
    }

    /// The sender's port id; zero stands for the kernel.
    pub fn pid(&self) -> (p: u32)
        ensures
            p == self@.pid,
    {
        self.pid
    }

    /// The payload of the message.
    pub fn payload(&self) -> (p: &T)
        ensures
            p@ == self@.payload,
    {
        &self.payload
    }

    /// The payload of the message, owned.
    pub fn into_payload(self) -> (p: T)
        ensures
            p@ == self@.payload,
    {
        self.payload
    }

    /// Writes the whole message: the 16-byte header with the final
    /// length, then the payload.
    pub fn serialize(&self) -> (r: Result<Vec<u8>, NetlinkError>)
        ensures
            match r {
                Ok(v) => {
                    &&& self.spec_enc_ok()
                    &&& v@ == self.spec_bytes()
                    &&& v@.len() == 16 + self.payload.spec_bytes().len()
                    &&& spec_u32_from_le_bytes(v@.subrange(0, 4)) == v@.len()
                },
                Err(e) => {
                    &&& !self.spec_enc_ok()
                    &&& e == (if !self.payload.spec_enc_ok() {
                        NetlinkError::AttributeTooLong
                    } else {
                        NetlinkError::BadFrame
                    })
                },
            },
    {
        proof {
            lemma_auto_spec_u16_to_from_le_bytes();
            lemma_auto_spec_u32_to_from_le_bytes();
        }
        let pbytes = match self.payload.serialize() {
            Ok(v) => v,
            Err(e) => {
                return Err(e);
            },
        };
        if pbytes.len() > (u32::MAX - 16) as usize {
            return Err(NetlinkError::BadFrame);
        }
        let total: u32 = 16 + pbytes.len() as u32;
        let mut buffer: Vec<u8> = Vec::new();
        push_u32(&mut buffer, total);
        push_u16(&mut buffer, self.message_type.raw_value());
        push_u16(&mut buffer, self.flags.bits());
        push_u32(&mut buffer, self.seq);
        push_u32(&mut buffer, self.pid);
        push_bytes(&mut buffer, pbytes.as_slice());
        proof {
            assert(buffer@ =~= self.spec_bytes());
            assert(buffer@.subrange(0, 4) =~= spec_u32_to_le_bytes(total));
        }
        Ok(buffer)
    }

    /// Reads a message back from wire bytes: the declared length bounds
    /// the payload, and for a typed payload kind the outer type must
    /// match it.
    pub fn deserialize(bytes: &[u8]) -> (r: Result<Message<T>, NetlinkError>)
        ensures
            match r {
                Ok(m) => {
                    &&& parse_message::<T>(bytes@) == Ok::<MessageV<T::V>, NetlinkError>(m@)
                    &&& bytes@.len() >= 16
                    &&& m.spec_length() == spec_u32_from_le_bytes(bytes@.subrange(0, 4))
                    &&& 16 <= m.spec_length() <= bytes@.len()
                },
                Err(e) => parse_message::<T>(bytes@) == Err::<MessageV<T::V>, NetlinkError>(e),
            },
    {
        if bytes.len() < 16 {
            return Err(NetlinkError::ShortInput);
        }
        let length = read_u32(bytes, 0).unwrap();
        if length < 16 || (length as usize) > bytes.len() {
            return Err(NetlinkError::BadFrame);
        }
        let traw = read_u16(bytes, 4).unwrap();
        let t = match Type::from_raw_value(traw) {
            Some(t) => t,
            None => {
                return Err(NetlinkError::UnknownEnumerant);
            },
        };
        if T::check_type() && !(t == T::message_type()) {
            return Err(NetlinkError::MessageTypeMismatch);
        }
        let flags = read_u16(bytes, 6).unwrap();
        let seq = read_u32(bytes, 8).unwrap();
        let pid = read_u32(bytes, 12).unwrap();
        let payload = match T::deserialize(slice_subrange(bytes, 16, length as usize)) {
            Ok(p) => p,
            Err(e) => {
                return Err(e);
            },
        };
        Ok(Message { length, message_type: t, flags: Flags::with_bits(flags), seq, pid, payload })
    }
}

impl Header {
    /// The length field as the wire declared it, for a received
    /// header-only message.
    pub fn length(&self) -> (r: u32)
        ensures
            r == self.spec_length(),
    {
        self.length
    }
}

/// Parsing a serialized message gives back its fields, for every
/// well-formed message of a recognized payload kind.
pub proof fn lemma_message_round_trip<T: Payload>(m: Message<T>)
    requires
        m.spec_wf(),
    ensures
        m.spec_enc_ok(),
        parse_message::<T>(m.spec_bytes()) == Ok::<MessageV<T::V>, NetlinkError>(m@),
        m.spec_bytes().len() == 16 + m.payload.spec_bytes().len(),
        spec_u32_from_le_bytes(m.spec_bytes().subrange(0, 4)) == m.spec_bytes().len(),
{
    lemma_auto_spec_u16_to_from_le_bytes();
    lemma_auto_spec_u32_to_from_le_bytes();
    m.payload.lemma_round_trip();
    m.message_type.lemma_raw_round_trip();
    let b = m.spec_bytes();
    let total = 16 + m.payload.spec_bytes().len();
    assert(b.subrange(0, 4) =~= spec_u32_to_le_bytes(total as u32));
    assert(b.subrange(4, 6) =~= spec_u16_to_le_bytes(m.message_type.spec_raw()));
    assert(b.subrange(6, 8) =~= spec_u16_to_le_bytes(m.flags@));
    assert(b.subrange(8, 12) =~= spec_u32_to_le_bytes(m.seq));
    assert(b.subrange(12, 16) =~= spec_u32_to_le_bytes(m.pid));
    assert(b.subrange(16, total as int) =~= m.payload.spec_bytes());
}

/// A serialized message at the head of a longer byte sequence parses
/// to its fields; the bytes that follow its declared length do not
/// disturb it.
pub proof fn lemma_parse_message_prefix<T: Payload>(m: Message<T>, rest: Seq<u8>)
    requires
        m.spec_wf(),
    ensures
        m.spec_enc_ok(),
        m.spec_bytes().len() == 16 + m.payload.spec_bytes().len(),
        parse_message::<T>(m.spec_bytes() + rest) == Ok::<MessageV<T::V>, NetlinkError>(m@),
        spec_u32_from_le_bytes((m.spec_bytes() + rest).subrange(0, 4)) == m.spec_bytes().len(),
        (m.spec_bytes() + rest).skip(m.spec_bytes().len() as int) == rest,
{
    lemma_auto_spec_u16_to_from_le_bytes();
    lemma_auto_spec_u32_to_from_le_bytes();
    m.payload.lemma_round_trip();
    m.message_type.lemma_raw_round_trip();
    let b = m.spec_bytes() + rest;
    let total = 16 + m.payload.spec_bytes().len();
    assert(b.subrange(0, 4) =~= spec_u32_to_le_bytes(total as u32));
    assert(b.subrange(4, 6) =~= spec_u16_to_le_bytes(m.message_type.spec_raw()));
    assert(b.subrange(6, 8) =~= spec_u16_to_le_bytes(m.flags@));
    assert(b.subrange(8, 12) =~= spec_u32_to_le_bytes(m.seq));
    assert(b.subrange(12, 16) =~= spec_u32_to_le_bytes(m.pid));
    assert(b.subrange(16, total as int) =~= m.payload.spec_bytes());
    assert(b.skip(total as int) =~= rest);
}

/// The header-only parse of a serialized message at the head of a
/// longer byte sequence: the same header fields, with the payload
/// ignored and the type accepted whatever it is.
pub proof fn lemma_parse_header_prefix<T: Payload>(m: Message<T>, rest: Seq<u8>)
    requires
        m.spec_wf(),
    ensures
        parse_message::<NoPayload>(m.spec_bytes() + rest) == Ok::<
            MessageV<NoPayload>,
            NetlinkError,
        >(
            MessageV {
                message_type: m@.message_type,
                flags: m@.flags,
                seq: m@.seq,
                pid: m@.pid,
                payload: NoPayload,
            },
        ),
{
    lemma_auto_spec_u16_to_from_le_bytes();
    lemma_auto_spec_u32_to_from_le_bytes();
    m.payload.lemma_round_trip();
    m.message_type.lemma_raw_round_trip();
    let b = m.spec_bytes() + rest;
    let total = 16 + m.payload.spec_bytes().len();
    assert(b.subrange(0, 4) =~= spec_u32_to_le_bytes(total as u32));
    assert(b.subrange(4, 6) =~= spec_u16_to_le_bytes(m.message_type.spec_raw()));
    assert(b.subrange(6, 8) =~= spec_u16_to_le_bytes(m.flags@));
    assert(b.subrange(8, 12) =~= spec_u32_to_le_bytes(m.seq));
    assert(b.subrange(12, 16) =~= spec_u32_to_le_bytes(m.pid));
}

/// The error payload: the 4-byte signed error code, then the header of
/// the request the kernel is answering, echoed back. The echoed length
/// field is kept as data, since it names the original request's length,
/// not the echo's.
#[derive(Debug, Clone, PartialEq, Eq)]
pub struct ErrorPayload {
    pub code: i32,
    pub header: Header,
}

/// The mathematical model of an [`ErrorPayload`].
pub struct ErrorPayloadV {
    pub code: i32,
    pub length: u32,
    pub message_type: Type,
    pub flags: u16,
    pub seq: u32,
    pub pid: u32,
}

impl View for ErrorPayload {
    type V = ErrorPayloadV;

    open spec fn view(&self) -> ErrorPayloadV {
        ErrorPayloadV {
            code: self.code,
            length: self.header.length,
            message_type: self.header.message_type,
            flags: self.header.flags@,
            seq: self.header.seq,
            pid: self.header.pid,
        }
    }
}

impl Payload for ErrorPayload {
    open spec fn spec_type_tag() -> Type {
        Type::Error
    }

    open spec fn spec_check_type() -> bool {
        true
    }

    open spec fn spec_enc_ok(&self) -> bool {
        true
    }

    open spec fn spec_wf(&self) -> bool {
        true
    }

    open spec fn spec_bytes(&self) -> Seq<u8> {
        spec_u32_to_le_bytes(self.code as u32) + spec_u32_to_le_bytes(self.header.length)
            + spec_u16_to_le_bytes(self.header.message_type.spec_raw()) + spec_u16_to_le_bytes(
            self.header.flags@,
        ) + spec_u32_to_le_bytes(self.header.seq) + spec_u32_to_le_bytes(self.header.pid)
    }

    open spec fn spec_parse(b: Seq<u8>) -> Result<ErrorPayloadV, NetlinkError> {
        if b.len() < 20 {
            Err(NetlinkError::ShortInput)
        } else {
            match Type::spec_from_raw(spec_u16_from_le_bytes(b.subrange(8, 10))) {
                None => Err(NetlinkError::UnknownEnumerant),
                Some(t) => Ok(
                    ErrorPayloadV {
                        code: spec_u32_from_le_bytes(b.subrange(0, 4)) as i32,
                        length: spec_u32_from_le_bytes(b.subrange(4, 8)),
                        message_type: t,
                        flags: spec_u16_from_le_bytes(b.subrange(10, 12)),
                        seq: spec_u32_from_le_bytes(b.subrange(12, 16)),
                        pid: spec_u32_from_le_bytes(b.subrange(16, 20)),
                    },
                ),
            }
        }
    }

    fn message_type() -> (t: Type) {
        Type::Error
    }

    fn check_type() -> (b: bool) {
        true
    }

    fn serialize(&self) -> (r: Result<Vec<u8>, NetlinkError>) {
        let mut buffer: Vec<u8> = Vec::new();
        push_u32(&mut buffer, self.code as u32);
        push_u32(&mut buffer, self.header.length);
        push_u16(&mut buffer, self.header.message_type.raw_value());
        push_u16(&mut buffer, self.header.flags.bits());
        push_u32(&mut buffer, self.header.seq);
        push_u32(&mut buffer, self.header.pid);
        proof {
            assert(buffer@ =~= self.spec_bytes());
        }
        Ok(buffer)
    }

    fn deserialize(bytes: &[u8]) -> (r: Result<ErrorPayload, NetlinkError>) {
        if bytes.len() < 20 {
            return Err(NetlinkError::ShortInput);
        }
        let code = read_u32(bytes, 0).unwrap() as i32;
        let length = read_u32(bytes, 4).unwrap();
        let traw = read_u16(bytes, 8).unwrap();
        let t = match Type::from_raw_value(traw) {
            Some(t) => t,
            None => {
                return Err(NetlinkError::UnknownEnumerant);
            },
        };
        let flags = read_u16(bytes, 10).unwrap();
        let seq = read_u32(bytes, 12).unwrap();
        let pid = read_u32(bytes, 16).unwrap();
        Ok(
            ErrorPayload {
                code,
                header: Message {
                    length,
                    message_type: t,
                    flags: Flags::with_bits(flags),
                    seq,
                    pid,
                    payload: NoPayload,
                },
            },
        )
    }

    proof fn lemma_round_trip(&self) {
        lemma_auto_spec_u16_to_from_le_bytes();
        lemma_auto_spec_u32_to_from_le_bytes();
        lemma_cast_u32_i32(self.code);
        self.header.message_type.lemma_raw_round_trip();
        let b = self.spec_bytes();
        assert(b.subrange(0, 4) =~= spec_u32_to_le_bytes(self.code as u32));
        assert(b.subrange(4, 8) =~= spec_u32_to_le_bytes(self.header.length));
        assert(b.subrange(8, 10) =~= spec_u16_to_le_bytes(self.header.message_type.spec_raw()));
        assert(b.subrange(10, 12) =~= spec_u16_to_le_bytes(self.header.flags@));
        assert(b.subrange(12, 16) =~= spec_u32_to_le_bytes(self.header.seq));
        assert(b.subrange(16, 20) =~= spec_u32_to_le_bytes(self.header.pid));
    }
}

} // verus!

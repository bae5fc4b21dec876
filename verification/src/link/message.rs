//! The interface information record, the kernel's `ifinfomsg`: a
//! 16-byte fixed header (family and padding, device type, interface
//! index, flags, change mask) followed by the link attribute stream.

use vstd::prelude::*;

verus! {

use vstd::bytes::lemma_auto_spec_u16_to_from_le_bytes;
use vstd::bytes::lemma_auto_spec_u32_to_from_le_bytes;
use vstd::bytes::spec_u16_from_le_bytes;
use vstd::bytes::spec_u16_to_le_bytes;
use vstd::bytes::spec_u32_from_le_bytes;
use vstd::bytes::spec_u32_to_le_bytes;

use crate::attribute::Attribute;
use crate::attribute::attrs_bytes;
use crate::attribute::attrs_enc_ok;
use crate::attribute::attrs_wf;
use crate::attribute::lemma_attrs_round_trip;
use crate::attribute::lemma_attrs_wf_enc;
use crate::attribute::parse_attrs;
use crate::attribute::parse_attrs_exec;
use crate::attribute::serialize_attrs;
use crate::attribute::views_of;
use crate::error::NetlinkError;
use crate::link::attribute::InterfaceInfoAttribute;
use crate::link::attribute::InterfaceInfoAttributeV;
use crate::link::device_type::ArpHardware;
use crate::link::flags::InterfaceFlags;
use crate::message::Payload;
use crate::types::RouteType;
use crate::types::Type;
use crate::utils::lemma_cast_u32_i32;
use crate::utils::lemma_mask_low_byte;
use crate::utils::push_u16;
use crate::utils::push_u32;
use crate::utils::read_u16;
use crate::utils::read_u32;

/// The interface information record: the `ifinfomsg` header fields and
/// the link attributes that follow them. The family field keeps the
/// header's padding byte covered; only its low byte is meaningful.
#[derive(Debug, Clone, PartialEq, Eq)]
pub struct InterfaceInfoMessage {
    pub family: u16,
    pub device_type: ArpHardware,
    pub index: i32,
    pub flags: InterfaceFlags,
    pub change: u32,
    pub attributes: Vec<InterfaceInfoAttribute>,
}

/// The mathematical model of an [`InterfaceInfoMessage`].
pub struct InterfaceInfoMessageV {
    pub family: u16,
    pub device_type: ArpHardware,
    pub index: i32,
    pub flags: u32,
    pub change: u32,
    pub attributes: Seq<InterfaceInfoAttributeV>,
}

impl View for InterfaceInfoMessage {
    type V = InterfaceInfoMessageV;

    open spec fn view(&self) -> InterfaceInfoMessageV {
        InterfaceInfoMessageV {
            family: self.family,
            device_type: self.device_type,
            index: self.index,
            flags: self.flags@,
            change: self.change,
            attributes: views_of(self.attributes@),
        }
    }
}

impl InterfaceInfoMessageV {
    /// The record's 16 header bytes: family with its padding byte,
    /// device type, index, flags and change mask, all little-endian.
    pub open spec fn header_bytes(self) -> Seq<u8> {
        spec_u16_to_le_bytes(self.family) + spec_u16_to_le_bytes(self.device_type.spec_raw())
            + spec_u32_to_le_bytes(self.index as u32) + spec_u32_to_le_bytes(self.flags)
            + spec_u32_to_le_bytes(self.change)
    }

    /// The record's exact wire bytes: the header, then every attribute
    /// framed, in order.
    pub open spec fn spec_bytes(self) -> Seq<u8> {
        self.header_bytes() + attrs_bytes::<InterfaceInfoAttribute>(self.attributes)
    }

    /// Whether the record can be serialized.
    pub open spec fn spec_enc_ok(self) -> bool {
        attrs_enc_ok::<InterfaceInfoAttribute>(self.attributes)
    }

    /// Whether the record also parses back to itself: the family fits
    /// its byte and every attribute round-trips.
    pub open spec fn spec_wf(self) -> bool {
        self.family <= 0xFF && attrs_wf::<InterfaceInfoAttribute>(self.attributes)
    }

    /// What record bytes parse to: the header fields validated, then
    /// the attribute stream to the end of the payload.
    pub open spec fn spec_parse(b: Seq<u8>) -> Result<InterfaceInfoMessageV, NetlinkError> {
        if b.len() < 16 {
            Err(NetlinkError::ShortInput)
        } else {
            match ArpHardware::spec_from_raw(spec_u16_from_le_bytes(b.subrange(2, 4))) {
                None => Err(NetlinkError::UnknownEnumerant),
                Some(device_type) => match parse_attrs::<InterfaceInfoAttribute>(b.skip(16)) {
                    Err(e) => Err(e),
                    Ok(attributes) => Ok(
                        InterfaceInfoMessageV {
                            family: spec_u16_from_le_bytes(b.subrange(0, 2)) & 0xFF,
                            device_type,
                            index: spec_u32_from_le_bytes(b.subrange(4, 8)) as i32,
                            flags: spec_u32_from_le_bytes(b.subrange(8, 12)),
                            change: spec_u32_from_le_bytes(b.subrange(12, 16)),
                            attributes,
                        },
                    ),
                },
            }
        }
    }
}

/// Parsing a serialized record gives back exactly the record, for every
/// well-formed record.
pub proof fn lemma_link_record_round_trip(v: InterfaceInfoMessageV)
    requires
        v.spec_wf(),
    ensures
        v.spec_enc_ok(),
        InterfaceInfoMessageV::spec_parse(v.spec_bytes()) == Ok::<
            InterfaceInfoMessageV,
            NetlinkError,
        >(v),
{
    lemma_auto_spec_u16_to_from_le_bytes();
    lemma_auto_spec_u32_to_from_le_bytes();
    lemma_attrs_wf_enc::<InterfaceInfoAttribute>(v.attributes);
    lemma_attrs_round_trip::<InterfaceInfoAttribute>(v.attributes);
    lemma_cast_u32_i32(v.index);
    lemma_mask_low_byte(v.family);
    v.device_type.lemma_raw_round_trip();
    let b = v.spec_bytes();
    assert(b.subrange(0, 2) =~= spec_u16_to_le_bytes(v.family));
    assert(b.subrange(2, 4) =~= spec_u16_to_le_bytes(v.device_type.spec_raw()));
    assert(b.subrange(4, 8) =~= spec_u32_to_le_bytes(v.index as u32));
    assert(b.subrange(8, 12) =~= spec_u32_to_le_bytes(v.flags));
    assert(b.subrange(12, 16) =~= spec_u32_to_le_bytes(v.change));
    assert(b.skip(16) =~= attrs_bytes::<InterfaceInfoAttribute>(v.attributes));
}

impl InterfaceInfoMessage {
    /// A new link record: unspecified family, the change mask all ones,
    /// as the kernel expects for write requests.
    pub fn new(
        device_type: ArpHardware,
        index: i32,
        flags: InterfaceFlags,
        attributes: Vec<InterfaceInfoAttribute>,
    ) -> (r: InterfaceInfoMessage)
        ensures
            r@ == (InterfaceInfoMessageV {
                family: 0u16,
                device_type,
                index,
                flags: flags@,
                change: 0xFFFFFFFFu32,
                attributes: views_of(attributes@),
            }),
    {
        InterfaceInfoMessage { family: 0, device_type, index, flags, change: 0xFFFFFFFF, attributes }
    }

    /// The data-link device type of the interface.
    pub fn device_type(&self) -> (r: ArpHardware)
        ensures
            r == self@.device_type,
    {
        self.device_type
    }

    /// The interface index.
    pub fn index(&self) -> (r: i32)
        ensures
            r == self@.index,
    {
        self.index
    }

    /// The interface flags.
    pub fn flags(&self) -> (r: InterfaceFlags)
        ensures
            r@ == self@.flags,
    {
        self.flags
    }

    /// The attributes of the record, in wire order.
    pub fn attributes(&self) -> (r: &Vec<InterfaceInfoAttribute>)
        ensures
            views_of(r@) == self@.attributes,
    {
        &self.attributes
    }

    /// Writes the record: the 16 header bytes, then every attribute.
    pub fn serialize(&self) -> (r: Result<Vec<u8>, NetlinkError>)
        ensures
            match r {
                Ok(v) => self@.spec_enc_ok() && v@ == self@.spec_bytes(),
                Err(e) => e == NetlinkError::AttributeTooLong && !self@.spec_enc_ok(),
            },
    {
        let mut buffer: Vec<u8> = Vec::new();
        push_u16(&mut buffer, self.family);
        push_u16(&mut buffer, self.device_type.raw_value());
        push_u32(&mut buffer, self.index as u32);
        push_u32(&mut buffer, self.flags.bits());
        push_u32(&mut buffer, self.change);
        match serialize_attrs::<InterfaceInfoAttribute>(&mut buffer, &self.attributes) {
            Ok(()) => {
                proof {
                    assert(buffer@ =~= self@.spec_bytes());
                }
                Ok(buffer)
            },
            Err(e) => Err(e),
        }
    }

    /// Reads a record back from payload bytes.
    pub fn deserialize(bytes: &[u8]) -> (r: Result<InterfaceInfoMessage, NetlinkError>)
        ensures
            match r {
                Ok(m) => InterfaceInfoMessageV::spec_parse(bytes@) == Ok::<
                    InterfaceInfoMessageV,
                    NetlinkError,
                >(m@),
                Err(e) => InterfaceInfoMessageV::spec_parse(bytes@) == Err::<
                    InterfaceInfoMessageV,
                    NetlinkError,
                >(e),
            },
    {
        if bytes.len() < 16 {
            return Err(NetlinkError::ShortInput);
        }
        let family = read_u16(bytes, 0).unwrap() & 0xFF;
        let draw = read_u16(bytes, 2).unwrap();
        let device_type = match ArpHardware::from_raw_value(draw) {
            Some(d) => d,
            None => {
                return Err(NetlinkError::UnknownEnumerant);
            },
        };
        let index = read_u32(bytes, 4).unwrap() as i32;
        let flags = read_u32(bytes, 8).unwrap();
        let change = read_u32(bytes, 12).unwrap();
        match parse_attrs_exec::<InterfaceInfoAttribute>(bytes, 16) {
            Ok(attributes) => Ok(
                InterfaceInfoMessage {
                    family,
                    device_type,
                    index,
                    flags: InterfaceFlags::with_bits(flags),
                    change,
                    attributes,
                },
            ),
            Err(e) => Err(e),
        }
    }
}


/// A message of the `RTM_NEWLINK` type.
#[derive(Debug, Clone, PartialEq, Eq)]
pub struct NewLink(pub InterfaceInfoMessage);

impl View for NewLink {
    type V = InterfaceInfoMessageV;

    open spec fn view(&self) -> InterfaceInfoMessageV {
        self.0@
    }
}

impl Payload for NewLink {
    open spec fn spec_type_tag() -> Type {
        Type::Route(RouteType::NewLink)
    }

    open spec fn spec_check_type() -> bool {
        true
    }

    open spec fn spec_enc_ok(&self) -> bool {
        self.0@.spec_enc_ok()
    }

    open spec fn spec_wf(&self) -> bool {
        self.0@.spec_wf()
    }

    open spec fn spec_bytes(&self) -> Seq<u8> {
        self.0@.spec_bytes()
    }

    open spec fn spec_parse(b: Seq<u8>) -> Result<InterfaceInfoMessageV, NetlinkError> {
        InterfaceInfoMessageV::spec_parse(b)
    }

    fn message_type() -> (t: Type) {
        Type::Route(RouteType::NewLink)
    }

    fn check_type() -> (b: bool) {
        true
    }

    fn serialize(&self) -> (r: Result<Vec<u8>, NetlinkError>) {
        self.0.serialize()
    }

    fn deserialize(bytes: &[u8]) -> (r: Result<NewLink, NetlinkError>) {
        match InterfaceInfoMessage::deserialize(bytes) {
            Ok(m) => Ok(NewLink(m)),
            Err(e) => Err(e),
        }
    }

    proof fn lemma_round_trip(&self) {
        lemma_link_record_round_trip(self.0@);
    }
}


/// A message of the `RTM_GETLINK` type.
#[derive(Debug, Clone, PartialEq, Eq)]
pub struct GetLink(pub InterfaceInfoMessage);

impl View for GetLink {
    type V = InterfaceInfoMessageV;

    open spec fn view(&self) -> InterfaceInfoMessageV {
        self.0@
    }
}

impl Payload for GetLink {
    open spec fn spec_type_tag() -> Type {
        Type::Route(RouteType::GetLink)
    }

    open spec fn spec_check_type() -> bool {
        true
    }

    open spec fn spec_enc_ok(&self) -> bool {
        self.0@.spec_enc_ok()
    }

    open spec fn spec_wf(&self) -> bool {
        self.0@.spec_wf()
    }

    open spec fn spec_bytes(&self) -> Seq<u8> {
        self.0@.spec_bytes()
    }

    open spec fn spec_parse(b: Seq<u8>) -> Result<InterfaceInfoMessageV, NetlinkError> {
        InterfaceInfoMessageV::spec_parse(b)
    }

    fn message_type() -> (t: Type) {
        Type::Route(RouteType::GetLink)
    }

    fn check_type() -> (b: bool) {
        true
    }

    fn serialize(&self) -> (r: Result<Vec<u8>, NetlinkError>) {
        self.0.serialize()
    }

    fn deserialize(bytes: &[u8]) -> (r: Result<GetLink, NetlinkError>) {
        match InterfaceInfoMessage::deserialize(bytes) {
            Ok(m) => Ok(GetLink(m)),
            Err(e) => Err(e),
        }
    }

    proof fn lemma_round_trip(&self) {
        lemma_link_record_round_trip(self.0@);
    }
}


/// A message of the `RTM_DELLINK` type.
#[derive(Debug, Clone, PartialEq, Eq)]
pub struct DeleteLink(pub InterfaceInfoMessage);

impl View for DeleteLink {
    type V = InterfaceInfoMessageV;

    open spec fn view(&self) -> InterfaceInfoMessageV {
        self.0@
    }
}

impl Payload for DeleteLink {
    open spec fn spec_type_tag() -> Type {
        Type::Route(RouteType::DeleteLink)
    }

    open spec fn spec_check_type() -> bool {
        true
    }

    open spec fn spec_enc_ok(&self) -> bool {
        self.0@.spec_enc_ok()
    }

    open spec fn spec_wf(&self) -> bool {
        self.0@.spec_wf()
    }

    open spec fn spec_bytes(&self) -> Seq<u8> {
        self.0@.spec_bytes()
    }

    open spec fn spec_parse(b: Seq<u8>) -> Result<InterfaceInfoMessageV, NetlinkError> {
        InterfaceInfoMessageV::spec_parse(b)
    }

    fn message_type() -> (t: Type) {
        Type::Route(RouteType::DeleteLink)
    }

    fn check_type() -> (b: bool) {
        true
    }

    fn serialize(&self) -> (r: Result<Vec<u8>, NetlinkError>) {
        self.0.serialize()
    }

    fn deserialize(bytes: &[u8]) -> (r: Result<DeleteLink, NetlinkError>) {
        match InterfaceInfoMessage::deserialize(bytes) {
            Ok(m) => Ok(DeleteLink(m)),
            Err(e) => Err(e),
        }
    }

    proof fn lemma_round_trip(&self) {
        lemma_link_record_round_trip(self.0@);
    }
}

} // verus!

//! The interface address record, the kernel's `ifaddrmsg`: an 8-byte
//! fixed header (family, prefix length, flags, scope, interface index)
//! followed by the address attribute stream.

use vstd::prelude::*;

verus! {

use vstd::bytes::lemma_auto_spec_u32_to_from_le_bytes;
use vstd::bytes::spec_u32_from_le_bytes;
use vstd::bytes::spec_u32_to_le_bytes;

use crate::address::attribute::InterfaceAddressAttribute;
use crate::address::attribute::InterfaceAddressAttributeV;
use crate::address::flags::AddressFlags;
use crate::address_family::AddressFamily;
use crate::attribute::Attribute;
use crate::attribute::attrs_bytes;
use crate::attribute::attrs_enc_ok;
use crate::attribute::attrs_wf;
use crate::attribute::lemma_attrs_round_trip;
use crate::attribute::lemma_attrs_wf_enc;
use crate::attribute::parse_attrs;
use crate::attribute::parse_attrs_exec;
use crate::attribute::serialize_attrs;
use crate::attribute::views_of;
use crate::error::NetlinkError;
use crate::message::Payload;
use crate::types::RouteType;
use crate::types::Type;
use crate::utils::lemma_cast_u8_u32;
use crate::utils::push_u32;
use crate::utils::read_u32;

/// The interface address record: the `ifaddrmsg` header fields and the
/// address attributes that follow them. The header's flag field is a
/// single byte; the full 32-bit flags travel in the flags attribute, so
/// only the low byte of this field reaches the wire.
#[derive(Debug, Clone, PartialEq, Eq)]
pub struct InterfaceAddressMessage {
    pub family: AddressFamily,
    pub prefixlen: u8,
    pub flags: AddressFlags,
    pub scope: u8,
    pub index: u32,
    pub attributes: Vec<InterfaceAddressAttribute>,
}

/// The mathematical model of an [`InterfaceAddressMessage`].
pub struct InterfaceAddressMessageV {
    pub family: AddressFamily,
    pub prefixlen: u8,
    pub flags: u32,
    pub scope: u8,
    pub index: u32,
    pub attributes: Seq<InterfaceAddressAttributeV>,
}

impl View for InterfaceAddressMessage {
    type V = InterfaceAddressMessageV;

    open spec fn view(&self) -> InterfaceAddressMessageV {
        InterfaceAddressMessageV {
            family: self.family,
            prefixlen: self.prefixlen,
            flags: self.flags@,
            scope: self.scope,
            index: self.index,
            attributes: views_of(self.attributes@),
        }
    }
}

impl InterfaceAddressMessageV {
    /// The record's 8 header bytes: four single-byte fields, then the
    /// interface index little-endian.
    pub open spec fn header_bytes(self) -> Seq<u8> {
        seq![self.family.spec_raw(), self.prefixlen, self.flags as u8, self.scope]
            + spec_u32_to_le_bytes(self.index)
    }

    /// The record's exact wire bytes: the header, then every attribute
    /// framed, in order.
    pub open spec fn spec_bytes(self) -> Seq<u8> {
        self.header_bytes() + attrs_bytes::<InterfaceAddressAttribute>(self.attributes)
    }

    /// Whether the record can be serialized.
    pub open spec fn spec_enc_ok(self) -> bool {
        attrs_enc_ok::<InterfaceAddressAttribute>(self.attributes)
    }

    /// Whether the record also parses back to itself: the flags fit the
    /// header's single byte and every attribute round-trips.
    pub open spec fn spec_wf(self) -> bool {
        self.flags <= 0xFF && attrs_wf::<InterfaceAddressAttribute>(self.attributes)
    }

    /// What record bytes parse to: the header fields validated, then
    /// the attribute stream to the end of the payload.
    pub open spec fn spec_parse(b: Seq<u8>) -> Result<InterfaceAddressMessageV, NetlinkError> {
        if b.len() < 8 {
            Err(NetlinkError::ShortInput)
        } else {
            match AddressFamily::spec_from_raw(b[0]) {
                None => Err(NetlinkError::UnknownEnumerant),
                Some(family) => match parse_attrs::<InterfaceAddressAttribute>(b.skip(8)) {
                    Err(e) => Err(e),
                    Ok(attributes) => Ok(
                        InterfaceAddressMessageV {
                            family,
                            prefixlen: b[1],
                            flags: b[2] as u32,
                            scope: b[3],
                            index: spec_u32_from_le_bytes(b.subrange(4, 8)),
                            attributes,
                        },
                    ),
                },
            }
        }
    }
}

/// Parsing a serialized record gives back exactly the record, for every
/// well-formed record.
pub proof fn lemma_address_record_round_trip(v: InterfaceAddressMessageV)
    requires
        v.spec_wf(),
    ensures
        v.spec_enc_ok(),
        InterfaceAddressMessageV::spec_parse(v.spec_bytes()) == Ok::<
            InterfaceAddressMessageV,
            NetlinkError,
        >(v),
{
    lemma_auto_spec_u32_to_from_le_bytes();
    lemma_attrs_wf_enc::<InterfaceAddressAttribute>(v.attributes);
    lemma_attrs_round_trip::<InterfaceAddressAttribute>(v.attributes);
    lemma_cast_u8_u32(v.flags);
    v.family.lemma_raw_round_trip();
    let b = v.spec_bytes();
    assert(b[0] == v.family.spec_raw());
    assert(b[1] == v.prefixlen);
    assert(b[2] == v.flags as u8);
    assert(b[3] == v.scope);
    assert(b.subrange(4, 8) =~= spec_u32_to_le_bytes(v.index));
    assert(b.skip(8) =~= attrs_bytes::<InterfaceAddressAttribute>(v.attributes));
}

impl InterfaceAddressMessage {
    /// A new address record, with scope zero and interface index zero.
    pub fn new(
        family: AddressFamily,
        prefixlen: u8,
        flags: AddressFlags,
        attributes: Vec<InterfaceAddressAttribute>,
    ) -> (r: InterfaceAddressMessage)
        ensures
            r@ == (InterfaceAddressMessageV {
                family,
                prefixlen,
                flags: flags@,
                scope: 0u8,
                index: 0u32,
                attributes: views_of(attributes@),
            }),
    {
        InterfaceAddressMessage { family, prefixlen, flags, scope: 0, index: 0, attributes }
    }

    /// The address family of the record.
    pub fn family(&self) -> (r: AddressFamily)
        ensures
            r == self@.family,
    {
        self.family
    }

    /// The interface index the address belongs to.
    pub fn index(&self) -> (r: u32)
        ensures
            r == self@.index,
    {
        self.index
    }

    /// The address flags of the record header.
    pub fn flags(&self) -> (r: AddressFlags)
        ensures
            r@ == self@.flags,
    {
        self.flags
    }

    /// The attributes of the record, in wire order.
    pub fn attributes(&self) -> (r: &Vec<InterfaceAddressAttribute>)
        ensures
            views_of(r@) == self@.attributes,
    {
        &self.attributes
    }

    /// Writes the record: the 8 header bytes, then every attribute.
    pub fn serialize(&self) -> (r: Result<Vec<u8>, NetlinkError>)
        ensures
            match r {
                Ok(v) => self@.spec_enc_ok() && v@ == self@.spec_bytes(),
                Err(e) => e == NetlinkError::AttributeTooLong && !self@.spec_enc_ok(),
            },
    {
        let mut buffer: Vec<u8> = Vec::new();
        buffer.push(self.family.raw_value());
        buffer.push(self.prefixlen);
        buffer.push(#[verifier::truncate] (self.flags.bits() as u8));
        buffer.push(self.scope);
        push_u32(&mut buffer, self.index);
        proof {
            assert(buffer@ =~= self@.header_bytes());
        }
        match serialize_attrs::<InterfaceAddressAttribute>(&mut buffer, &self.attributes) {
            Ok(()) => {
                proof {
                    assert(buffer@ =~= self@.spec_bytes());
                }
                Ok(buffer)
            },
            Err(e) => Err(e),
        }
    }

    /// Reads a record back from payload bytes.
    pub fn deserialize(bytes: &[u8]) -> (r: Result<InterfaceAddressMessage, NetlinkError>)
        ensures
            match r {
                Ok(m) => InterfaceAddressMessageV::spec_parse(bytes@) == Ok::<
                    InterfaceAddressMessageV,
                    NetlinkError,
                >(m@),
                Err(e) => InterfaceAddressMessageV::spec_parse(bytes@) == Err::<
                    InterfaceAddressMessageV,
                    NetlinkError,
                >(e),
            },
    {
        if bytes.len() < 8 {
            return Err(NetlinkError::ShortInput);
        }
        let family = match AddressFamily::from_raw_value(bytes[0]) {
            Some(f) => f,
            None => {
                return Err(NetlinkError::UnknownEnumerant);
            },
        };
        let prefixlen = bytes[1];
        let flags = bytes[2];
        let scope = bytes[3];
        let index = read_u32(bytes, 4).unwrap();
        match parse_attrs_exec::<InterfaceAddressAttribute>(bytes, 8) {
            Ok(attributes) => Ok(
                InterfaceAddressMessage {
                    family,
                    prefixlen,
                    flags: AddressFlags::with_bits(flags as u32),
                    scope,
                    index,
                    attributes,
                },
            ),
            Err(e) => Err(e),
        }
    }
}


/// A message of the `RTM_GETADDR` type.
#[derive(Debug, Clone, PartialEq, Eq)]
pub struct GetAddress(pub InterfaceAddressMessage);

impl View for GetAddress {
    type V = InterfaceAddressMessageV;

    open spec fn view(&self) -> InterfaceAddressMessageV {
        self.0@
    }
}

impl Payload for GetAddress {
    open spec fn spec_type_tag() -> Type {
        Type::Route(RouteType::GetAddress)
    }

    open spec fn spec_check_type() -> bool {
        true
    }

    open spec fn spec_enc_ok(&self) -> bool {
        self.0@.spec_enc_ok()
    }

    open spec fn spec_wf(&self) -> bool {
        self.0@.spec_wf()
    }

    open spec fn spec_bytes(&self) -> Seq<u8> {
        self.0@.spec_bytes()
    }

    open spec fn spec_parse(b: Seq<u8>) -> Result<InterfaceAddressMessageV, NetlinkError> {
        InterfaceAddressMessageV::spec_parse(b)
    }

    fn message_type() -> (t: Type) {
        Type::Route(RouteType::GetAddress)
    }

    fn check_type() -> (b: bool) {
        true
    }

    fn serialize(&self) -> (r: Result<Vec<u8>, NetlinkError>) {
        self.0.serialize()
    }

    fn deserialize(bytes: &[u8]) -> (r: Result<GetAddress, NetlinkError>) {
        match InterfaceAddressMessage::deserialize(bytes) {
            Ok(m) => Ok(GetAddress(m)),
            Err(e) => Err(e),
        }
    }

    proof fn lemma_round_trip(&self) {
        lemma_address_record_round_trip(self.0@);
    }
}


/// A message of the `RTM_NEWADDR` type.
#[derive(Debug, Clone, PartialEq, Eq)]
pub struct NewAddress(pub InterfaceAddressMessage);

impl View for NewAddress {
    type V = InterfaceAddressMessageV;

    open spec fn view(&self) -> InterfaceAddressMessageV {
        self.0@
    }
}

impl Payload for NewAddress {
    open spec fn spec_type_tag() -> Type {
        Type::Route(RouteType::NewAddress)
    }

    open spec fn spec_check_type() -> bool {
        true
    }

    open spec fn spec_enc_ok(&self) -> bool {
        self.0@.spec_enc_ok()
    }

    open spec fn spec_wf(&self) -> bool {
        self.0@.spec_wf()
    }

    open spec fn spec_bytes(&self) -> Seq<u8> {
        self.0@.spec_bytes()
    }

    open spec fn spec_parse(b: Seq<u8>) -> Result<InterfaceAddressMessageV, NetlinkError> {
        InterfaceAddressMessageV::spec_parse(b)
    }

    fn message_type() -> (t: Type) {
        Type::Route(RouteType::NewAddress)
    }

    fn check_type() -> (b: bool) {
        true
    }

    fn serialize(&self) -> (r: Result<Vec<u8>, NetlinkError>) {
        self.0.serialize()
    }

    fn deserialize(bytes: &[u8]) -> (r: Result<NewAddress, NetlinkError>) {
        match InterfaceAddressMessage::deserialize(bytes) {
            Ok(m) => Ok(NewAddress(m)),
            Err(e) => Err(e),
        }
    }

    proof fn lemma_round_trip(&self) {
        lemma_address_record_round_trip(self.0@);
    }
}


/// A message of the `RTM_DELADDR` type.
#[derive(Debug, Clone, PartialEq, Eq)]
pub struct DeleteAddress(pub InterfaceAddressMessage);

impl View for DeleteAddress {
    type V = InterfaceAddressMessageV;

    open spec fn view(&self) -> InterfaceAddressMessageV {
        self.0@
    }
}

impl Payload for DeleteAddress {
    open spec fn spec_type_tag() -> Type {
        Type::Route(RouteType::DeleteAddress)
    }

    open spec fn spec_check_type() -> bool {
        true
    }

    open spec fn spec_enc_ok(&self) -> bool {
        self.0@.spec_enc_ok()
    }

    open spec fn spec_wf(&self) -> bool {
        self.0@.spec_wf()
    }

    open spec fn spec_bytes(&self) -> Seq<u8> {
        self.0@.spec_bytes()
    }

    open spec fn spec_parse(b: Seq<u8>) -> Result<InterfaceAddressMessageV, NetlinkError> {
        InterfaceAddressMessageV::spec_parse(b)
    }

    fn message_type() -> (t: Type) {
        Type::Route(RouteType::DeleteAddress)
    }

    fn check_type() -> (b: bool) {
        true
    }

    fn serialize(&self) -> (r: Result<Vec<u8>, NetlinkError>) {
        self.0.serialize()
    }

    fn deserialize(bytes: &[u8]) -> (r: Result<DeleteAddress, NetlinkError>) {
        match InterfaceAddressMessage::deserialize(bytes) {
            Ok(m) => Ok(DeleteAddress(m)),
            Err(e) => Err(e),
        }
    }

    proof fn lemma_round_trip(&self) {
        lemma_address_record_round_trip(self.0@);
    }
}

} // verus!

//! The route record, the kernel's `rtmsg`: a 12-byte fixed header
//! (family, prefix lengths, type of service, table, protocol, scope,
//! route type, flags) followed by the route attribute stream.

use vstd::prelude::*;

verus! {

use vstd::bytes::lemma_auto_spec_u32_to_from_le_bytes;
use vstd::bytes::spec_u32_from_le_bytes;
use vstd::bytes::spec_u32_to_le_bytes;

use crate::address_family::AddressFamily;
use crate::attribute::Attribute;
use crate::attribute::attrs_bytes;
use crate::attribute::attrs_enc_ok;
use crate::attribute::attrs_wf;
use crate::attribute::lemma_attrs_round_trip;
use crate::attribute::lemma_attrs_wf_enc;
use crate::attribute::parse_attrs;
use crate::attribute::parse_attrs_exec;
use crate::attribute::serialize_attrs;
use crate::attribute::views_of;
use crate::error::NetlinkError;
use crate::message::Payload;
use crate::route::attribute::RouteAttribute;
use crate::route::attribute::RouteAttributeV;
use crate::route::flags::RouteFlags;
use crate::route::protocol::RouteProtocol;
use crate::route::scope::RouteScope;
use crate::route::table::RouteTable;
use crate::route::types::RouteType;
use crate::types::RouteType as RouteMessageType;
use crate::types::Type;
use crate::utils::push_u32;
use crate::utils::read_u32;

/// The route record: the `rtmsg` header fields and the route
/// attributes that follow them.
#[derive(Debug, Clone, PartialEq, Eq)]
pub struct RouteMessage {
    pub family: AddressFamily,
    pub dst_len: u8,
    pub src_len: u8,
    pub tos: u8,
    pub table: RouteTable,
    pub protocol: RouteProtocol,
    pub scope: RouteScope,
    pub route_type: RouteType,
    pub flags: RouteFlags,
    pub attributes: Vec<RouteAttribute>,
}

/// The mathematical model of a [`RouteMessage`].
pub struct RouteMessageV {
    pub family: AddressFamily,
    pub dst_len: u8,
    pub src_len: u8,
    pub tos: u8,
    pub table: RouteTable,
    pub protocol: RouteProtocol,
    pub scope: RouteScope,
    pub route_type: RouteType,
    pub flags: u32,
    pub attributes: Seq<RouteAttributeV>,
}

impl View for RouteMessage {
    type V = RouteMessageV;

    open spec fn view(&self) -> RouteMessageV {
        RouteMessageV {
            family: self.family,
            dst_len: self.dst_len,
            src_len: self.src_len,
            tos: self.tos,
            table: self.table,
            protocol: self.protocol,
            scope: self.scope,
            route_type: self.route_type,
            flags: self.flags@,
            attributes: views_of(self.attributes@),
        }
    }
}

impl RouteMessageV {
    /// The record's 12 header bytes: eight single-byte fields, then the
    /// route flags little-endian.
    pub open spec fn header_bytes(self) -> Seq<u8> {
        seq![
            self.family.spec_raw(),
            self.dst_len,
            self.src_len,
            self.tos,
            self.table.spec_raw(),
            self.protocol.spec_raw(),
            self.scope.spec_raw(),
            self.route_type.spec_raw(),
        ] + spec_u32_to_le_bytes(self.flags)
    }

    /// The record's exact wire bytes: the header, then every attribute
    /// framed, in order.
    pub open spec fn spec_bytes(self) -> Seq<u8> {
        self.header_bytes() + attrs_bytes::<RouteAttribute>(self.attributes)
    }

    /// Whether the record can be serialized.
    pub open spec fn spec_enc_ok(self) -> bool {
        attrs_enc_ok::<RouteAttribute>(self.attributes)
    }

    /// Whether the record also parses back to itself.
    pub open spec fn spec_wf(self) -> bool {
        attrs_wf::<RouteAttribute>(self.attributes)
    }

    /// What record bytes parse to: each closed enumeration byte
    /// validated, the flag bits preserved, then the attribute stream to
    /// the end of the payload.
    pub open spec fn spec_parse(b: Seq<u8>) -> Result<RouteMessageV, NetlinkError> {
        if b.len() < 12 {
            Err(NetlinkError::ShortInput)
        } else {
            match AddressFamily::spec_from_raw(b[0]) {
                None => Err(NetlinkError::UnknownEnumerant),
                Some(family) => match RouteTable::spec_from_raw(b[4]) {
                    None => Err(NetlinkError::UnknownEnumerant),
                    Some(table) => match RouteProtocol::spec_from_raw(b[5]) {
                        None => Err(NetlinkError::UnknownEnumerant),
                        Some(protocol) => match RouteScope::spec_from_raw(b[6]) {
                            None => Err(NetlinkError::UnknownEnumerant),
                            Some(scope) => match RouteType::spec_from_raw(b[7]) {
                                None => Err(NetlinkError::UnknownEnumerant),
                                Some(route_type) => match parse_attrs::<RouteAttribute>(
                                    b.skip(12),
                                ) {
                                    Err(e) => Err(e),
                                    Ok(attributes) => Ok(
                                        RouteMessageV {
                                            family,
                                            dst_len: b[1],
                                            src_len: b[2],
                                            tos: b[3],
                                            table,
                                            protocol,
                                            scope,
                                            route_type,
                                            flags: spec_u32_from_le_bytes(b.subrange(8, 12)),
                                            attributes,
                                        },
                                    ),
                                },
                            },
                        },
                    },
                },
            }
        }
    }
}

/// Parsing a serialized record gives back exactly the record, for every
/// well-formed record.
pub proof fn lemma_route_record_round_trip(v: RouteMessageV)
    requires
        v.spec_wf(),
    ensures
        v.spec_enc_ok(),
        RouteMessageV::spec_parse(v.spec_bytes()) == Ok::<RouteMessageV, NetlinkError>(v),
{
    lemma_auto_spec_u32_to_from_le_bytes();
    lemma_attrs_wf_enc::<RouteAttribute>(v.attributes);
    lemma_attrs_round_trip::<RouteAttribute>(v.attributes);
    v.family.lemma_raw_round_trip();
    v.table.lemma_raw_round_trip();
    v.protocol.lemma_raw_round_trip();
    v.scope.lemma_raw_round_trip();
    v.route_type.lemma_raw_round_trip();
    let b = v.spec_bytes();
    assert(b[0] == v.family.spec_raw());
    assert(b[1] == v.dst_len);
    assert(b[2] == v.src_len);
    assert(b[3] == v.tos);
    assert(b[4] == v.table.spec_raw());
    assert(b[5] == v.protocol.spec_raw());
    assert(b[6] == v.scope.spec_raw());
    assert(b[7] == v.route_type.spec_raw());
    assert(b.subrange(8, 12) =~= spec_u32_to_le_bytes(v.flags));
    assert(b.skip(12) =~= attrs_bytes::<RouteAttribute>(v.attributes));
}

impl RouteMessage {
    /// A new route record from all its header fields.
    pub fn new(
        family: AddressFamily,
        dst_len: u8,
        src_len: u8,
        tos: u8,
        table: RouteTable,
        protocol: RouteProtocol,
        scope: RouteScope,
        route_type: RouteType,
        flags: RouteFlags,
        attributes: Vec<RouteAttribute>,
    ) -> (r: RouteMessage)
        ensures
            r@ == (RouteMessageV {
                family,
                dst_len,
                src_len,
                tos,
                table,
                protocol,
                scope,
                route_type,
                flags: flags@,
                attributes: views_of(attributes@),
            }),
    {
        RouteMessage {
            family,
            dst_len,
            src_len,
            tos,
            table,
            protocol,
            scope,
            route_type,
            flags,
            attributes,
        }
    }

    /// The address family the route belongs to.
    pub fn family(&self) -> (r: AddressFamily)
        ensures
            r == self@.family,
    {
        self.family
    }

    /// The destination prefix length.
    pub fn dst_len(&self) -> (r: u8)
        ensures
            r == self@.dst_len,
    {
        self.dst_len
    }

    /// The source prefix length.
    pub fn src_len(&self) -> (r: u8)
        ensures
            r == self@.src_len,
    {
        self.src_len
    }

    /// The type of service of the route.
    pub fn tos(&self) -> (r: u8)
        ensures
            r == self@.tos,
    {
        self.tos
    }

    /// The routing table of the route.
    pub fn table(&self) -> (r: &RouteTable)
        ensures
            r == self@.table,
    {
        &self.table
    }

    /// The protocol that installed the route.
    pub fn protocol(&self) -> (r: &RouteProtocol)
        ensures
            r == self@.protocol,
    {
        &self.protocol
    }

    /// The scope of the route.
    pub fn scope(&self) -> (r: &RouteScope)
        ensures
            r == self@.scope,
    {
        &self.scope
    }

    /// The type of the route.
    pub fn route_type(&self) -> (r: &RouteType)
        ensures
            r == self@.route_type,
    {
        &self.route_type
    }

    /// The route flags of the record header.
    pub fn flags(&self) -> (r: RouteFlags)
        ensures
            r@ == self@.flags,
    {
        self.flags
    }

    /// The attributes of the record, in wire order.
    pub fn attributes(&self) -> (r: &Vec<RouteAttribute>)
        ensures
            views_of(r@) == self@.attributes,
    {
        &self.attributes
    }

    /// Writes the record: the 12 header bytes, then every attribute.
    pub fn serialize(&self) -> (r: Result<Vec<u8>, NetlinkError>)
        ensures
            match r {
                Ok(v) => self@.spec_enc_ok() && v@ == self@.spec_bytes(),
                Err(e) => e == NetlinkError::AttributeTooLong && !self@.spec_enc_ok(),
            },
    {
        let mut buffer: Vec<u8> = Vec::new();
        buffer.push(self.family.raw_value());
        buffer.push(self.dst_len);
        buffer.push(self.src_len);
        buffer.push(self.tos);
        buffer.push(self.table.raw_value());
        buffer.push(self.protocol.raw_value());
        buffer.push(self.scope.raw_value());
        buffer.push(self.route_type.raw_value());
        push_u32(&mut buffer, self.flags.bits());
        proof {
            assert(buffer@ =~= self@.header_bytes());
        }
        match serialize_attrs::<RouteAttribute>(&mut buffer, &self.attributes) {
            Ok(()) => {
                proof {
                    assert(buffer@ =~= self@.spec_bytes());
                }
                Ok(buffer)
            },
            Err(e) => Err(e),
        }
    }

    /// Reads a record back from payload bytes.
    pub fn deserialize(bytes: &[u8]) -> (r: Result<RouteMessage, NetlinkError>)
        ensures
            match r {
                Ok(m) => RouteMessageV::spec_parse(bytes@) == Ok::<RouteMessageV, NetlinkError>(
                    m@,
                ),
                Err(e) => RouteMessageV::spec_parse(bytes@) == Err::<RouteMessageV, NetlinkError>(
                    e,
                ),
            },
    {
        if bytes.len() < 12 {
            return Err(NetlinkError::ShortInput);
        }
        let family = match AddressFamily::from_raw_value(bytes[0]) {
            Some(f) => f,
            None => {
                return Err(NetlinkError::UnknownEnumerant);
            },
        };
        let table = match RouteTable::from_raw_value(bytes[4]) {
            Some(t) => t,
            None => {
                return Err(NetlinkError::UnknownEnumerant);
            },
        };
        let protocol = match RouteProtocol::from_raw_value(bytes[5]) {
            Some(p) => p,
            None => {
                return Err(NetlinkError::UnknownEnumerant);
            },
        };
        let scope = match RouteScope::from_raw_value(bytes[6]) {
            Some(s) => s,
            None => {
                return Err(NetlinkError::UnknownEnumerant);
            },
        };
        let route_type = match RouteType::from_raw_value(bytes[7]) {
            Some(t) => t,
            None => {
                return Err(NetlinkError::UnknownEnumerant);
            },
        };
        let flags = read_u32(bytes, 8).unwrap();
        match parse_attrs_exec::<RouteAttribute>(bytes, 12) {
            Ok(attributes) => Ok(
                RouteMessage {
                    family,
                    dst_len: bytes[1],
                    src_len: bytes[2],
                    tos: bytes[3],
                    table,
                    protocol,
                    scope,
                    route_type,
                    flags: RouteFlags::with_bits(flags),
                    attributes,
                },
            ),
            Err(e) => Err(e),
        }
    }
}


/// A message of the `RTM_NEWROUTE` type.
#[derive(Debug, Clone, PartialEq, Eq)]
pub struct NewRoute(pub RouteMessage);

impl View for NewRoute {
    type V = RouteMessageV;

    open spec fn view(&self) -> RouteMessageV {
        self.0@
    }
}

impl Payload for NewRoute {
    open spec fn spec_type_tag() -> Type {
        Type::Route(RouteMessageType::NewRoute)
    }

    open spec fn spec_check_type() -> bool {
        true
    }

    open spec fn spec_enc_ok(&self) -> bool {
        self.0@.spec_enc_ok()
    }

    open spec fn spec_wf(&self) -> bool {
        self.0@.spec_wf()
    }

    open spec fn spec_bytes(&self) -> Seq<u8> {
        self.0@.spec_bytes()
    }

    open spec fn spec_parse(b: Seq<u8>) -> Result<RouteMessageV, NetlinkError> {
        RouteMessageV::spec_parse(b)
    }

    fn message_type() -> (t: Type) {
        Type::Route(RouteMessageType::NewRoute)
    }

    fn check_type() -> (b: bool) {
        true
    }

    fn serialize(&self) -> (r: Result<Vec<u8>, NetlinkError>) {
        self.0.serialize()
    }

    fn deserialize(bytes: &[u8]) -> (r: Result<NewRoute, NetlinkError>) {
        match RouteMessage::deserialize(bytes) {
            Ok(m) => Ok(NewRoute(m)),
            Err(e) => Err(e),
        }
    }

    proof fn lemma_round_trip(&self) {
        lemma_route_record_round_trip(self.0@);
    }
}


/// A message of the `RTM_GETROUTE` type.
#[derive(Debug, Clone, PartialEq, Eq)]
pub struct GetRoute(pub RouteMessage);

impl View for GetRoute {
    type V = RouteMessageV;

    open spec fn view(&self) -> RouteMessageV {
        self.0@
    }
}

impl Payload for GetRoute {
    open spec fn spec_type_tag() -> Type {
        Type::Route(RouteMessageType::GetRoute)
    }

    open spec fn spec_check_type() -> bool {
        true
    }

    open spec fn spec_enc_ok(&self) -> bool {
        self.0@.spec_enc_ok()
    }

    open spec fn spec_wf(&self) -> bool {
        self.0@.spec_wf()
    }

    open spec fn spec_bytes(&self) -> Seq<u8> {
        self.0@.spec_bytes()
    }

    open spec fn spec_parse(b: Seq<u8>) -> Result<RouteMessageV, NetlinkError> {
        RouteMessageV::spec_parse(b)
    }

    fn message_type() -> (t: Type) {
        Type::Route(RouteMessageType::GetRoute)
    }

    fn check_type() -> (b: bool) {
        true
    }

    fn serialize(&self) -> (r: Result<Vec<u8>, NetlinkError>) {
        self.0.serialize()
    }

    fn deserialize(bytes: &[u8]) -> (r: Result<GetRoute, NetlinkError>) {
        match RouteMessage::deserialize(bytes) {
            Ok(m) => Ok(GetRoute(m)),
            Err(e) => Err(e),
        }
    }

    proof fn lemma_round_trip(&self) {
        lemma_route_record_round_trip(self.0@);
    }
}


/// A message of the `RTM_DELROUTE` type.
#[derive(Debug, Clone, PartialEq, Eq)]
pub struct DeleteRoute(pub RouteMessage);

impl View for DeleteRoute {
    type V = RouteMessageV;

    open spec fn view(&self) -> RouteMessageV {
        self.0@
    }
}

impl Payload for DeleteRoute {
    open spec fn spec_type_tag() -> Type {
        Type::Route(RouteMessageType::DeleteRoute)
    }

    open spec fn spec_check_type() -> bool {
        true
    }

    open spec fn spec_enc_ok(&self) -> bool {
        self.0@.spec_enc_ok()
    }

    open spec fn spec_wf(&self) -> bool {
        self.0@.spec_wf()
    }

    open spec fn spec_bytes(&self) -> Seq<u8> {
        self.0@.spec_bytes()
    }

    open spec fn spec_parse(b: Seq<u8>) -> Result<RouteMessageV, NetlinkError> {
        RouteMessageV::spec_parse(b)
    }

    fn message_type() -> (t: Type) {
        Type::Route(RouteMessageType::DeleteRoute)
    }

    fn check_type() -> (b: bool) {
        true
    }

    fn serialize(&self) -> (r: Result<Vec<u8>, NetlinkError>) {
        self.0.serialize()
    }

    fn deserialize(bytes: &[u8]) -> (r: Result<DeleteRoute, NetlinkError>) {
        match RouteMessage::deserialize(bytes) {
            Ok(m) => Ok(DeleteRoute(m)),
            Err(e) => Err(e),
        }
    }

    proof fn lemma_round_trip(&self) {
        lemma_route_record_round_trip(self.0@);
    }
}

} // verus!

//! The route attribute dictionary, the kernel's `RTA_*` tags.

use vstd::prelude::*;

verus! {

use vstd::bytes::lemma_auto_spec_u16_to_from_le_bytes;
use vstd::bytes::lemma_auto_spec_u32_to_from_le_bytes;

use crate::attribute::Attribute;
use crate::attribute::RawAttribute;
use crate::attribute::serialize_attribute_into;
use crate::attribute::spec_tlv;
use crate::attribute::tlv_fits;
use crate::error::NetlinkError;
use vstd::bytes::spec_u32_from_le_bytes;
use vstd::bytes::spec_u32_to_le_bytes;
use vstd::bytes::u32_from_le_bytes;
use vstd::bytes::u32_to_le_bytes;
use vstd::bytes::spec_u16_from_le_bytes;
use vstd::bytes::spec_u16_to_le_bytes;
use vstd::bytes::u16_from_le_bytes;
use vstd::bytes::u16_to_le_bytes;

use crate::utils::lemma_cast_u16_i16;
use crate::utils::lemma_cast_u32_i32;

/// The typed attributes of this dictionary. Unknown tags are kept in
/// the `Other` variant, bytes and all, and written back unchanged.
#[derive(Debug, Clone, PartialEq, Eq)]
pub enum RouteAttribute {
    /// `RTA_UNSPEC`
    Unspecified(Vec<u8>),
    /// `RTA_DST`
    Destination(Vec<u8>),
    /// `RTA_SRC`
    Source(Vec<u8>),
    /// `RTA_IIF`
    IncomingInterface(i32),
    /// `RTA_OIF`
    OutgoingInterface(i32),
    /// `RTA_GATEWAY`
    Gateway(Vec<u8>),
    /// `RTA_PRIORITY`
    RoutePriority(i32),
    /// `RTA_PREFSRC`
    PreferredSource(Vec<u8>),
    /// `RTA_METRICS`
    Metrics(i32),
    /// `RTA_MULTIPATH`
    Multipath(Vec<u8>),
    /// `RTA_PROTOINFO`
    ProtocolInfo(Vec<u8>),
    /// `RTA_FLOW`
    Flow(i32),
    /// `RTA_CACHEINFO`
    CacheInfo(Vec<u8>),
    /// `RTA_SESSION`
    Session(Vec<u8>),
    /// `RTA_MP_ALGO`
    MultipathAlgorithm(Vec<u8>),
    /// `RTA_TABLE`
    Table(i32),
    /// `RTA_MARK`
    Mark(i32),
    /// `RTA_MFC_STATS`
    MfcStats(Vec<u8>),
    /// `RTA_VIA`
    Via(Vec<u8>),
    /// `RTA_NEWDST`
    NewDestination(Vec<u8>),
    /// `RTA_PREF`
    RouterPreference(u8),
    /// `RTA_ENCAP_TYPE`
    EncapsulationType(i16),
    /// `RTA_ENCAP`
    Encapsulation(Vec<u8>),
    /// `RTA_EXPIRES`
    Expires(u32),
    /// An attribute with a tag this dictionary does not know.
    Other(u16, Vec<u8>),
}

/// The mathematical model of [`RouteAttribute`]: the same variants over
/// sequences and plain values.
pub enum RouteAttributeV {
    Unspecified(Seq<u8>),
    Destination(Seq<u8>),
    Source(Seq<u8>),
    IncomingInterface(i32),
    OutgoingInterface(i32),
    Gateway(Seq<u8>),
    RoutePriority(i32),
    PreferredSource(Seq<u8>),
    Metrics(i32),
    Multipath(Seq<u8>),
    ProtocolInfo(Seq<u8>),
    Flow(i32),
    CacheInfo(Seq<u8>),
    Session(Seq<u8>),
    MultipathAlgorithm(Seq<u8>),
    Table(i32),
    Mark(i32),
    MfcStats(Seq<u8>),
    Via(Seq<u8>),
    NewDestination(Seq<u8>),
    RouterPreference(u8),
    EncapsulationType(i16),
    Encapsulation(Seq<u8>),
    Expires(u32),
    Other(u16, Seq<u8>),
}

impl View for RouteAttribute {
    type V = RouteAttributeV;

    open spec fn view(&self) -> RouteAttributeV {
        match self {
            RouteAttribute::Unspecified(x) => RouteAttributeV::Unspecified(x@),
            RouteAttribute::Destination(x) => RouteAttributeV::Destination(x@),
            RouteAttribute::Source(x) => RouteAttributeV::Source(x@),
            RouteAttribute::IncomingInterface(x) => RouteAttributeV::IncomingInterface(*x),
            RouteAttribute::OutgoingInterface(x) => RouteAttributeV::OutgoingInterface(*x),
            RouteAttribute::Gateway(x) => RouteAttributeV::Gateway(x@),
            RouteAttribute::RoutePriority(x) => RouteAttributeV::RoutePriority(*x),
            RouteAttribute::PreferredSource(x) => RouteAttributeV::PreferredSource(x@),
            RouteAttribute::Metrics(x) => RouteAttributeV::Metrics(*x),
            RouteAttribute::Multipath(x) => RouteAttributeV::Multipath(x@),
            RouteAttribute::ProtocolInfo(x) => RouteAttributeV::ProtocolInfo(x@),
            RouteAttribute::Flow(x) => RouteAttributeV::Flow(*x),
            RouteAttribute::CacheInfo(x) => RouteAttributeV::CacheInfo(x@),
            RouteAttribute::Session(x) => RouteAttributeV::Session(x@),
            RouteAttribute::MultipathAlgorithm(x) => RouteAttributeV::MultipathAlgorithm(x@),
            RouteAttribute::Table(x) => RouteAttributeV::Table(*x),
            RouteAttribute::Mark(x) => RouteAttributeV::Mark(*x),
            RouteAttribute::MfcStats(x) => RouteAttributeV::MfcStats(x@),
            RouteAttribute::Via(x) => RouteAttributeV::Via(x@),
            RouteAttribute::NewDestination(x) => RouteAttributeV::NewDestination(x@),
            RouteAttribute::RouterPreference(x) => RouteAttributeV::RouterPreference(*x),
            RouteAttribute::EncapsulationType(x) => RouteAttributeV::EncapsulationType(*x),
            RouteAttribute::Encapsulation(x) => RouteAttributeV::Encapsulation(x@),
            RouteAttribute::Expires(x) => RouteAttributeV::Expires(*x),
            RouteAttribute::Other(t, b) => RouteAttributeV::Other(*t, b@),
        }
    }
}

/// Whether this dictionary assigns the tag a typed variant.
pub open spec fn route_attribute_known_tag(tag: u16) -> bool {
    tag <= 23
}

impl Attribute for RouteAttribute {
    open spec fn spec_tag(v: RouteAttributeV) -> u16 {
        match v {
            RouteAttributeV::Unspecified(_) => 0u16,
            RouteAttributeV::Destination(_) => 1u16,
            RouteAttributeV::Source(_) => 2u16,
            RouteAttributeV::IncomingInterface(_) => 3u16,
            RouteAttributeV::OutgoingInterface(_) => 4u16,
            RouteAttributeV::Gateway(_) => 5u16,
            RouteAttributeV::RoutePriority(_) => 6u16,
            RouteAttributeV::PreferredSource(_) => 7u16,
            RouteAttributeV::Metrics(_) => 8u16,
            RouteAttributeV::Multipath(_) => 9u16,
            RouteAttributeV::ProtocolInfo(_) => 10u16,
            RouteAttributeV::Flow(_) => 11u16,
            RouteAttributeV::CacheInfo(_) => 12u16,
            RouteAttributeV::Session(_) => 13u16,
            RouteAttributeV::MultipathAlgorithm(_) => 14u16,
            RouteAttributeV::Table(_) => 15u16,
            RouteAttributeV::Mark(_) => 16u16,
            RouteAttributeV::MfcStats(_) => 17u16,
            RouteAttributeV::Via(_) => 18u16,
            RouteAttributeV::NewDestination(_) => 19u16,
            RouteAttributeV::RouterPreference(_) => 20u16,
            RouteAttributeV::EncapsulationType(_) => 21u16,
            RouteAttributeV::Encapsulation(_) => 22u16,
            RouteAttributeV::Expires(_) => 23u16,
            RouteAttributeV::Other(t, _) => t,
        }
    }

    open spec fn spec_body(v: RouteAttributeV) -> Seq<u8> {
        match v {
            RouteAttributeV::Unspecified(b) => b,
            RouteAttributeV::Destination(b) => b,
            RouteAttributeV::Source(b) => b,
            RouteAttributeV::IncomingInterface(b) => spec_u32_to_le_bytes(b as u32),
            RouteAttributeV::OutgoingInterface(b) => spec_u32_to_le_bytes(b as u32),
            RouteAttributeV::Gateway(b) => b,
            RouteAttributeV::RoutePriority(b) => spec_u32_to_le_bytes(b as u32),
            RouteAttributeV::PreferredSource(b) => b,
            RouteAttributeV::Metrics(b) => spec_u32_to_le_bytes(b as u32),
            RouteAttributeV::Multipath(b) => b,
            RouteAttributeV::ProtocolInfo(b) => b,
            RouteAttributeV::Flow(b) => spec_u32_to_le_bytes(b as u32),
            RouteAttributeV::CacheInfo(b) => b,
            RouteAttributeV::Session(b) => b,
            RouteAttributeV::MultipathAlgorithm(b) => b,
            RouteAttributeV::Table(b) => spec_u32_to_le_bytes(b as u32),
            RouteAttributeV::Mark(b) => spec_u32_to_le_bytes(b as u32),
            RouteAttributeV::MfcStats(b) => b,
            RouteAttributeV::Via(b) => b,
            RouteAttributeV::NewDestination(b) => b,
            RouteAttributeV::RouterPreference(b) => seq![b],
            RouteAttributeV::EncapsulationType(b) => spec_u16_to_le_bytes(b as u16),
            RouteAttributeV::Encapsulation(b) => b,
            RouteAttributeV::Expires(b) => spec_u32_to_le_bytes(b),
            RouteAttributeV::Other(_, b) => b,
        }
    }

    open spec fn spec_enc_ok(v: RouteAttributeV) -> bool {
        match v {
            RouteAttributeV::Unspecified(_) => tlv_fits(RouteAttribute::spec_body(v)),
            RouteAttributeV::Destination(_) => tlv_fits(RouteAttribute::spec_body(v)),
            RouteAttributeV::Source(_) => tlv_fits(RouteAttribute::spec_body(v)),
            RouteAttributeV::IncomingInterface(_) => true,
            RouteAttributeV::OutgoingInterface(_) => true,
            RouteAttributeV::Gateway(_) => tlv_fits(RouteAttribute::spec_body(v)),
            RouteAttributeV::RoutePriority(_) => true,
            RouteAttributeV::PreferredSource(_) => tlv_fits(RouteAttribute::spec_body(v)),
            RouteAttributeV::Metrics(_) => true,
            RouteAttributeV::Multipath(_) => tlv_fits(RouteAttribute::spec_body(v)),
            RouteAttributeV::ProtocolInfo(_) => tlv_fits(RouteAttribute::spec_body(v)),
            RouteAttributeV::Flow(_) => true,
            RouteAttributeV::CacheInfo(_) => tlv_fits(RouteAttribute::spec_body(v)),
            RouteAttributeV::Session(_) => tlv_fits(RouteAttribute::spec_body(v)),
            RouteAttributeV::MultipathAlgorithm(_) => tlv_fits(RouteAttribute::spec_body(v)),
            RouteAttributeV::Table(_) => true,
            RouteAttributeV::Mark(_) => true,
            RouteAttributeV::MfcStats(_) => tlv_fits(RouteAttribute::spec_body(v)),
            RouteAttributeV::Via(_) => tlv_fits(RouteAttribute::spec_body(v)),
            RouteAttributeV::NewDestination(_) => tlv_fits(RouteAttribute::spec_body(v)),
            RouteAttributeV::RouterPreference(_) => true,
            RouteAttributeV::EncapsulationType(_) => true,
            RouteAttributeV::Encapsulation(_) => tlv_fits(RouteAttribute::spec_body(v)),
            RouteAttributeV::Expires(_) => true,
            RouteAttributeV::Other(_, b) => tlv_fits(b),
        }
    }

    open spec fn spec_wf(v: RouteAttributeV) -> bool {
        match v {
            RouteAttributeV::Unspecified(_) => tlv_fits(RouteAttribute::spec_body(v)),
            RouteAttributeV::Destination(_) => tlv_fits(RouteAttribute::spec_body(v)),
            RouteAttributeV::Source(_) => tlv_fits(RouteAttribute::spec_body(v)),
            RouteAttributeV::IncomingInterface(_) => true,
            RouteAttributeV::OutgoingInterface(_) => true,
            RouteAttributeV::Gateway(_) => tlv_fits(RouteAttribute::spec_body(v)),
            RouteAttributeV::RoutePriority(_) => true,
            RouteAttributeV::PreferredSource(_) => tlv_fits(RouteAttribute::spec_body(v)),
            RouteAttributeV::Metrics(_) => true,
            RouteAttributeV::Multipath(_) => tlv_fits(RouteAttribute::spec_body(v)),
            RouteAttributeV::ProtocolInfo(_) => tlv_fits(RouteAttribute::spec_body(v)),
            RouteAttributeV::Flow(_) => true,
            RouteAttributeV::CacheInfo(_) => tlv_fits(RouteAttribute::spec_body(v)),
            RouteAttributeV::Session(_) => tlv_fits(RouteAttribute::spec_body(v)),
            RouteAttributeV::MultipathAlgorithm(_) => tlv_fits(RouteAttribute::spec_body(v)),
            RouteAttributeV::Table(_) => true,
            RouteAttributeV::Mark(_) => true,
            RouteAttributeV::MfcStats(_) => tlv_fits(RouteAttribute::spec_body(v)),
            RouteAttributeV::Via(_) => tlv_fits(RouteAttribute::spec_body(v)),
            RouteAttributeV::NewDestination(_) => tlv_fits(RouteAttribute::spec_body(v)),
            RouteAttributeV::RouterPreference(_) => true,
            RouteAttributeV::EncapsulationType(_) => true,
            RouteAttributeV::Encapsulation(_) => tlv_fits(RouteAttribute::spec_body(v)),
            RouteAttributeV::Expires(_) => true,
            RouteAttributeV::Other(t, b) => !route_attribute_known_tag(t) && tlv_fits(b),
        }
    }

    open spec fn spec_decode(tag: u16, body: Seq<u8>) -> Result<RouteAttributeV, NetlinkError> {
        if tag == 0u16 {
            Ok(RouteAttributeV::Unspecified(body))
        } else if tag == 1u16 {
            Ok(RouteAttributeV::Destination(body))
        } else if tag == 2u16 {
            Ok(RouteAttributeV::Source(body))
        } else if tag == 3u16 {
            if body.len() == 4 {
                Ok(RouteAttributeV::IncomingInterface(spec_u32_from_le_bytes(body) as i32))
            } else {
                Err(NetlinkError::BadAttribute)
            }
        } else if tag == 4u16 {
            if body.len() == 4 {
                Ok(RouteAttributeV::OutgoingInterface(spec_u32_from_le_bytes(body) as i32))
            } else {
                Err(NetlinkError::BadAttribute)
            }
        } else if tag == 5u16 {
            Ok(RouteAttributeV::Gateway(body))
        } else if tag == 6u16 {
            if body.len() == 4 {
                Ok(RouteAttributeV::RoutePriority(spec_u32_from_le_bytes(body) as i32))
            } else {
                Err(NetlinkError::BadAttribute)
            }
        } else if tag == 7u16 {
            Ok(RouteAttributeV::PreferredSource(body))
        } else if tag == 8u16 {
            if body.len() == 4 {
                Ok(RouteAttributeV::Metrics(spec_u32_from_le_bytes(body) as i32))
            } else {
                Err(NetlinkError::BadAttribute)
            }
        } else if tag == 9u16 {
            Ok(RouteAttributeV::Multipath(body))
        } else if tag == 10u16 {
            Ok(RouteAttributeV::ProtocolInfo(body))
        } else if tag == 11u16 {
            if body.len() == 4 {
                Ok(RouteAttributeV::Flow(spec_u32_from_le_bytes(body) as i32))
            } else {
                Err(NetlinkError::BadAttribute)
            }
        } else if tag == 12u16 {
            Ok(RouteAttributeV::CacheInfo(body))
        } else if tag == 13u16 {
            Ok(RouteAttributeV::Session(body))
        } else if tag == 14u16 {
            Ok(RouteAttributeV::MultipathAlgorithm(body))
        } else if tag == 15u16 {
            if body.len() == 4 {
                Ok(RouteAttributeV::Table(spec_u32_from_le_bytes(body) as i32))
            } else {
                Err(NetlinkError::BadAttribute)
            }
        } else if tag == 16u16 {
            if body.len() == 4 {
                Ok(RouteAttributeV::Mark(spec_u32_from_le_bytes(body) as i32))
            } else {
                Err(NetlinkError::BadAttribute)
            }
        } else if tag == 17u16 {
            Ok(RouteAttributeV::MfcStats(body))
        } else if tag == 18u16 {
            Ok(RouteAttributeV::Via(body))
        } else if tag == 19u16 {
            Ok(RouteAttributeV::NewDestination(body))
        } else if tag == 20u16 {
            if body.len() == 1 {
                Ok(RouteAttributeV::RouterPreference(body[0]))
            } else {
                Err(NetlinkError::BadAttribute)
            }
        } else if tag == 21u16 {
            if body.len() == 2 {
                Ok(RouteAttributeV::EncapsulationType(spec_u16_from_le_bytes(body) as i16))
            } else {
                Err(NetlinkError::BadAttribute)
            }
        } else if tag == 22u16 {
            Ok(RouteAttributeV::Encapsulation(body))
        } else if tag == 23u16 {
            if body.len() == 4 {
                Ok(RouteAttributeV::Expires(spec_u32_from_le_bytes(body)))
            } else {
                Err(NetlinkError::BadAttribute)
            }
        } else {
            Ok(RouteAttributeV::Other(tag, body))
        }
    }

    proof fn lemma_wf_enc(v: RouteAttributeV) {
        match v {
            RouteAttributeV::Unspecified(_) => {},
            RouteAttributeV::Destination(_) => {},
            RouteAttributeV::Source(_) => {},
            RouteAttributeV::IncomingInterface(_) => {},
            RouteAttributeV::OutgoingInterface(_) => {},
            RouteAttributeV::Gateway(_) => {},
            RouteAttributeV::RoutePriority(_) => {},
            RouteAttributeV::PreferredSource(_) => {},
            RouteAttributeV::Metrics(_) => {},
            RouteAttributeV::Multipath(_) => {},
            RouteAttributeV::ProtocolInfo(_) => {},
            RouteAttributeV::Flow(_) => {},
            RouteAttributeV::CacheInfo(_) => {},
            RouteAttributeV::Session(_) => {},
            RouteAttributeV::MultipathAlgorithm(_) => {},
            RouteAttributeV::Table(_) => {},
            RouteAttributeV::Mark(_) => {},
            RouteAttributeV::MfcStats(_) => {},
            RouteAttributeV::Via(_) => {},
            RouteAttributeV::NewDestination(_) => {},
            RouteAttributeV::RouterPreference(_) => {},
            RouteAttributeV::EncapsulationType(_) => {},
            RouteAttributeV::Encapsulation(_) => {},
            RouteAttributeV::Expires(_) => {},
            RouteAttributeV::Other(_, _) => {},
        }
    }

    proof fn lemma_round_trip(v: RouteAttributeV) {
        lemma_auto_spec_u16_to_from_le_bytes();
        lemma_auto_spec_u32_to_from_le_bytes();
        match v {
            RouteAttributeV::Unspecified(_) => {},
            RouteAttributeV::Destination(_) => {},
            RouteAttributeV::Source(_) => {},
            RouteAttributeV::IncomingInterface(x) => {
                lemma_cast_u32_i32(x);
            },
            RouteAttributeV::OutgoingInterface(x) => {
                lemma_cast_u32_i32(x);
            },
            RouteAttributeV::Gateway(_) => {},
            RouteAttributeV::RoutePriority(x) => {
                lemma_cast_u32_i32(x);
            },
            RouteAttributeV::PreferredSource(_) => {},
            RouteAttributeV::Metrics(x) => {
                lemma_cast_u32_i32(x);
            },
            RouteAttributeV::Multipath(_) => {},
            RouteAttributeV::ProtocolInfo(_) => {},
            RouteAttributeV::Flow(x) => {
                lemma_cast_u32_i32(x);
            },
            RouteAttributeV::CacheInfo(_) => {},
            RouteAttributeV::Session(_) => {},
            RouteAttributeV::MultipathAlgorithm(_) => {},
            RouteAttributeV::Table(x) => {
                lemma_cast_u32_i32(x);
            },
            RouteAttributeV::Mark(x) => {
                lemma_cast_u32_i32(x);
            },
            RouteAttributeV::MfcStats(_) => {},
            RouteAttributeV::Via(_) => {},
            RouteAttributeV::NewDestination(_) => {},
            RouteAttributeV::RouterPreference(x) => {
                assert(seq![x].len() == 1 && seq![x][0] == x);
            },
            RouteAttributeV::EncapsulationType(x) => {
                lemma_cast_u16_i16(x);
            },
            RouteAttributeV::Encapsulation(_) => {},
            RouteAttributeV::Expires(_) => {},
            RouteAttributeV::Other(_, _) => {},
        }
    }

    fn from_raw(raw: RawAttribute) -> (r: Result<RouteAttribute, NetlinkError>) {
        let tag = raw.attr_type();
        let content = raw.into_payload();
        if tag == 0u16 {
            Ok(RouteAttribute::Unspecified(content))
        } else if tag == 1u16 {
            Ok(RouteAttribute::Destination(content))
        } else if tag == 2u16 {
            Ok(RouteAttribute::Source(content))
        } else if tag == 3u16 {
            if content.len() == 4 {
                Ok(RouteAttribute::IncomingInterface(u32_from_le_bytes(content.as_slice()) as i32))
            } else {
                Err(NetlinkError::BadAttribute)
            }
        } else if tag == 4u16 {
            if content.len() == 4 {
                Ok(RouteAttribute::OutgoingInterface(u32_from_le_bytes(content.as_slice()) as i32))
            } else {
                Err(NetlinkError::BadAttribute)
            }
        } else if tag == 5u16 {
            Ok(RouteAttribute::Gateway(content))
        } else if tag == 6u16 {
            if content.len() == 4 {
                Ok(RouteAttribute::RoutePriority(u32_from_le_bytes(content.as_slice()) as i32))
            } else {
                Err(NetlinkError::BadAttribute)
            }
        } else if tag == 7u16 {
            Ok(RouteAttribute::PreferredSource(content))
        } else if tag == 8u16 {
            if content.len() == 4 {
                Ok(RouteAttribute::Metrics(u32_from_le_bytes(content.as_slice()) as i32))
            } else {
                Err(NetlinkError::BadAttribute)
            }
        } else if tag == 9u16 {
            Ok(RouteAttribute::Multipath(content))
        } else if tag == 10u16 {
            Ok(RouteAttribute::ProtocolInfo(content))
        } else if tag == 11u16 {
            if content.len() == 4 {
                Ok(RouteAttribute::Flow(u32_from_le_bytes(content.as_slice()) as i32))
            } else {
                Err(NetlinkError::BadAttribute)
            }
        } else if tag == 12u16 {
            Ok(RouteAttribute::CacheInfo(content))
        } else if tag == 13u16 {
            Ok(RouteAttribute::Session(content))
        } else if tag == 14u16 {
            Ok(RouteAttribute::MultipathAlgorithm(content))
        } else if tag == 15u16 {
            if content.len() == 4 {
                Ok(RouteAttribute::Table(u32_from_le_bytes(content.as_slice()) as i32))
            } else {
                Err(NetlinkError::BadAttribute)
            }
        } else if tag == 16u16 {
            if content.len() == 4 {
                Ok(RouteAttribute::Mark(u32_from_le_bytes(content.as_slice()) as i32))
            } else {
                Err(NetlinkError::BadAttribute)
            }
        } else if tag == 17u16 {
            Ok(RouteAttribute::MfcStats(content))
        } else if tag == 18u16 {
            Ok(RouteAttribute::Via(content))
        } else if tag == 19u16 {
            Ok(RouteAttribute::NewDestination(content))
        } else if tag == 20u16 {
            if content.len() == 1 {
                Ok(RouteAttribute::RouterPreference(content[0]))
            } else {
                Err(NetlinkError::BadAttribute)
            }
        } else if tag == 21u16 {
            if content.len() == 2 {
                Ok(RouteAttribute::EncapsulationType(u16_from_le_bytes(content.as_slice()) as i16))
            } else {
                Err(NetlinkError::BadAttribute)
            }
        } else if tag == 22u16 {
            Ok(RouteAttribute::Encapsulation(content))
        } else if tag == 23u16 {
            if content.len() == 4 {
                Ok(RouteAttribute::Expires(u32_from_le_bytes(content.as_slice())))
            } else {
                Err(NetlinkError::BadAttribute)
            }
        } else {
            Ok(RouteAttribute::Other(tag, content))
        }
    }

    fn serialize_into(&self, buffer: &mut Vec<u8>) -> (r: Result<(), NetlinkError>) {
        proof {
            lemma_auto_spec_u16_to_from_le_bytes();
            lemma_auto_spec_u32_to_from_le_bytes();
        }
        match self {
            RouteAttribute::Unspecified(content) => serialize_attribute_into(buffer, 0u16, content.as_slice()),
            RouteAttribute::Destination(content) => serialize_attribute_into(buffer, 1u16, content.as_slice()),
            RouteAttribute::Source(content) => serialize_attribute_into(buffer, 2u16, content.as_slice()),
            RouteAttribute::IncomingInterface(x) => {
                let body = u32_to_le_bytes(*x as u32);
                serialize_attribute_into(buffer, 3u16, body.as_slice())
            },
            RouteAttribute::OutgoingInterface(x) => {
                let body = u32_to_le_bytes(*x as u32);
                serialize_attribute_into(buffer, 4u16, body.as_slice())
            },
            RouteAttribute::Gateway(content) => serialize_attribute_into(buffer, 5u16, content.as_slice()),
            RouteAttribute::RoutePriority(x) => {
                let body = u32_to_le_bytes(*x as u32);
                serialize_attribute_into(buffer, 6u16, body.as_slice())
            },
            RouteAttribute::PreferredSource(content) => serialize_attribute_into(buffer, 7u16, content.as_slice()),
            RouteAttribute::Metrics(x) => {
                let body = u32_to_le_bytes(*x as u32);
                serialize_attribute_into(buffer, 8u16, body.as_slice())
            },
            RouteAttribute::Multipath(content) => serialize_attribute_into(buffer, 9u16, content.as_slice()),
            RouteAttribute::ProtocolInfo(content) => serialize_attribute_into(buffer, 10u16, content.as_slice()),
            RouteAttribute::Flow(x) => {
                let body = u32_to_le_bytes(*x as u32);
                serialize_attribute_into(buffer, 11u16, body.as_slice())
            },
            RouteAttribute::CacheInfo(content) => serialize_attribute_into(buffer, 12u16, content.as_slice()),
            RouteAttribute::Session(content) => serialize_attribute_into(buffer, 13u16, content.as_slice()),
            RouteAttribute::MultipathAlgorithm(content) => serialize_attribute_into(buffer, 14u16, content.as_slice()),
            RouteAttribute::Table(x) => {
                let body = u32_to_le_bytes(*x as u32);
                serialize_attribute_into(buffer, 15u16, body.as_slice())
            },
            RouteAttribute::Mark(x) => {
                let body = u32_to_le_bytes(*x as u32);
                serialize_attribute_into(buffer, 16u16, body.as_slice())
            },
            RouteAttribute::MfcStats(content) => serialize_attribute_into(buffer, 17u16, content.as_slice()),
            RouteAttribute::Via(content) => serialize_attribute_into(buffer, 18u16, content.as_slice()),
            RouteAttribute::NewDestination(content) => serialize_attribute_into(buffer, 19u16, content.as_slice()),
            RouteAttribute::RouterPreference(x) => {
                let mut body: Vec<u8> = Vec::new();
                body.push(*x);
                proof {
                    assert(body@ =~= seq![*x]);
                }
                serialize_attribute_into(buffer, 20u16, body.as_slice())
            },
            RouteAttribute::EncapsulationType(x) => {
                let body = u16_to_le_bytes(*x as u16);
                serialize_attribute_into(buffer, 21u16, body.as_slice())
            },
            RouteAttribute::Encapsulation(content) => serialize_attribute_into(buffer, 22u16, content.as_slice()),
            RouteAttribute::Expires(x) => {
                let body = u32_to_le_bytes(*x);
                serialize_attribute_into(buffer, 23u16, body.as_slice())
            },
            RouteAttribute::Other(t, content) => serialize_attribute_into(buffer, *t, content.as_slice()),
        }
    }
}

impl RouteAttribute {
    /// The framed attribute on its own: length, tag, payload and
    /// padding.
    pub fn serialize(&self) -> (r: Result<Vec<u8>, NetlinkError>)
        ensures
            match r {
                Ok(v) => RouteAttribute::spec_enc_ok(self@) && v@ == spec_tlv(
                    RouteAttribute::spec_tag(self@),
                    RouteAttribute::spec_body(self@),
                ),
                Err(e) => e == NetlinkError::AttributeTooLong && !RouteAttribute::spec_enc_ok(self@),
            },
    {
        let mut buffer: Vec<u8> = Vec::new();
        match self.serialize_into(&mut buffer) {
            Ok(()) => Ok(buffer),
            Err(e) => Err(e),
        }
    }
}

} // verus!
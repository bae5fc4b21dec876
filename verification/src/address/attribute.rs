//! The address attribute dictionary, the kernel's `IFA_*` tags.

use vstd::prelude::*;

verus! {

use vstd::bytes::lemma_auto_spec_u16_to_from_le_bytes;
use vstd::bytes::lemma_auto_spec_u32_to_from_le_bytes;

use crate::attribute::Attribute;
use crate::attribute::RawAttribute;
use crate::attribute::serialize_attribute_into;
use crate::attribute::spec_tlv;
use crate::attribute::tlv_fits;
use crate::error::NetlinkError;
use vstd::bytes::spec_u32_from_le_bytes;
use vstd::bytes::spec_u32_to_le_bytes;
use vstd::bytes::u32_from_le_bytes;
use vstd::bytes::u32_to_le_bytes;
use vstd::slice::slice_subrange;
use vstd::slice::slice_to_vec;
use vstd::string::StrSliceExecFns;
use vstd::utf8::decode_utf8;
use vstd::utf8::encode_utf8;
use vstd::utf8::encode_utf8_decode_utf8;
use vstd::utf8::encode_utf8_valid_utf8;
use vstd::utf8::valid_utf8;

use crate::utils::string_from_utf8;
use crate::address::cache_info::AddressCacheInfo;
use crate::address::flags::AddressFlags;

pub const IFA_RT_PRIORITY: u16 = 9;

pub const IFA_TARGET_NETNSID: u16 = 10;

pub const IFA_PROTO: u16 = 11;

/// The typed attributes of this dictionary. Unknown tags are kept in
/// the `Other` variant, bytes and all, and written back unchanged.
#[derive(Debug, Clone, PartialEq, Eq)]
pub enum InterfaceAddressAttribute {
    /// `IFA_UNSPEC`
    Unspecified(Vec<u8>),
    /// `IFA_ADDRESS`
    Address(Vec<u8>),
    /// `IFA_LOCAL`
    Local(Vec<u8>),
    /// `IFA_LABEL`
    Label(String),
    /// `IFA_BROADCAST`
    Broadcast(Vec<u8>),
    /// `IFA_ANYCAST`
    Anycast(Vec<u8>),
    /// `IFA_CACHEINFO`
    CacheInfo(AddressCacheInfo),
    /// `IFA_MULTICAST`
    Multicast(Vec<u8>),
    /// `IFA_FLAGS`
    Flags(AddressFlags),
    /// `IFA_RT_PRIORITY`
    RoutePriority(u32),
    /// `IFA_TARGET_NETNSID`
    TargetNetNamespaceId(Vec<u8>),
    /// `IFA_PROTO`
    Protocol(u8),
    /// An attribute with a tag this dictionary does not know.
    Other(u16, Vec<u8>),
}

/// The mathematical model of [`InterfaceAddressAttribute`]: the same variants over
/// sequences and plain values.
pub enum InterfaceAddressAttributeV {
    Unspecified(Seq<u8>),
    Address(Seq<u8>),
    Local(Seq<u8>),
    Label(Seq<char>),
    Broadcast(Seq<u8>),
    Anycast(Seq<u8>),
    CacheInfo(AddressCacheInfo),
    Multicast(Seq<u8>),
    Flags(u32),
    RoutePriority(u32),
    TargetNetNamespaceId(Seq<u8>),
    Protocol(u8),
    Other(u16, Seq<u8>),
}

impl View for InterfaceAddressAttribute {
    type V = InterfaceAddressAttributeV;

    open spec fn view(&self) -> InterfaceAddressAttributeV {
        match self {
            InterfaceAddressAttribute::Unspecified(x) => InterfaceAddressAttributeV::Unspecified(x@),
            InterfaceAddressAttribute::Address(x) => InterfaceAddressAttributeV::Address(x@),
            InterfaceAddressAttribute::Local(x) => InterfaceAddressAttributeV::Local(x@),
            InterfaceAddressAttribute::Label(x) => InterfaceAddressAttributeV::Label(x@),
            InterfaceAddressAttribute::Broadcast(x) => InterfaceAddressAttributeV::Broadcast(x@),
            InterfaceAddressAttribute::Anycast(x) => InterfaceAddressAttributeV::Anycast(x@),
            InterfaceAddressAttribute::CacheInfo(x) => InterfaceAddressAttributeV::CacheInfo(*x),
            InterfaceAddressAttribute::Multicast(x) => InterfaceAddressAttributeV::Multicast(x@),
            InterfaceAddressAttribute::Flags(x) => InterfaceAddressAttributeV::Flags(x@),
            InterfaceAddressAttribute::RoutePriority(x) => InterfaceAddressAttributeV::RoutePriority(*x),
            InterfaceAddressAttribute::TargetNetNamespaceId(x) => InterfaceAddressAttributeV::TargetNetNamespaceId(x@),
            InterfaceAddressAttribute::Protocol(x) => InterfaceAddressAttributeV::Protocol(*x),
            InterfaceAddressAttribute::Other(t, b) => InterfaceAddressAttributeV::Other(*t, b@),
        }
    }
}

/// Whether this dictionary assigns the tag a typed variant.
pub open spec fn interface_address_attribute_known_tag(tag: u16) -> bool {
    tag <= 11
}

impl Attribute for InterfaceAddressAttribute {
    open spec fn spec_tag(v: InterfaceAddressAttributeV) -> u16 {
        match v {
            InterfaceAddressAttributeV::Unspecified(_) => 0u16,
            InterfaceAddressAttributeV::Address(_) => 1u16,
            InterfaceAddressAttributeV::Local(_) => 2u16,
            InterfaceAddressAttributeV::Label(_) => 3u16,
            InterfaceAddressAttributeV::Broadcast(_) => 4u16,
            InterfaceAddressAttributeV::Anycast(_) => 5u16,
            InterfaceAddressAttributeV::CacheInfo(_) => 6u16,
            InterfaceAddressAttributeV::Multicast(_) => 7u16,
            InterfaceAddressAttributeV::Flags(_) => 8u16,
            InterfaceAddressAttributeV::RoutePriority(_) => 9u16,
            InterfaceAddressAttributeV::TargetNetNamespaceId(_) => 10u16,
            InterfaceAddressAttributeV::Protocol(_) => 11u16,
            InterfaceAddressAttributeV::Other(t, _) => t,
        }
    }

    open spec fn spec_body(v: InterfaceAddressAttributeV) -> Seq<u8> {
        match v {
            InterfaceAddressAttributeV::Unspecified(b) => b,
            InterfaceAddressAttributeV::Address(b) => b,
            InterfaceAddressAttributeV::Local(b) => b,
            InterfaceAddressAttributeV::Label(b) => encode_utf8(b) + seq![0u8],
            InterfaceAddressAttributeV::Broadcast(b) => b,
            InterfaceAddressAttributeV::Anycast(b) => b,
            InterfaceAddressAttributeV::CacheInfo(b) => b.spec_bytes(),
            InterfaceAddressAttributeV::Multicast(b) => b,
            InterfaceAddressAttributeV::Flags(b) => spec_u32_to_le_bytes(b),
            InterfaceAddressAttributeV::RoutePriority(b) => spec_u32_to_le_bytes(b),
            InterfaceAddressAttributeV::TargetNetNamespaceId(b) => b,
            InterfaceAddressAttributeV::Protocol(b) => seq![b],
            InterfaceAddressAttributeV::Other(_, b) => b,
        }
    }

    open spec fn spec_enc_ok(v: InterfaceAddressAttributeV) -> bool {
        match v {
            InterfaceAddressAttributeV::Unspecified(_) => tlv_fits(InterfaceAddressAttribute::spec_body(v)),
            InterfaceAddressAttributeV::Address(_) => tlv_fits(InterfaceAddressAttribute::spec_body(v)),
            InterfaceAddressAttributeV::Local(_) => tlv_fits(InterfaceAddressAttribute::spec_body(v)),
            InterfaceAddressAttributeV::Label(_) => tlv_fits(InterfaceAddressAttribute::spec_body(v)),
            InterfaceAddressAttributeV::Broadcast(_) => tlv_fits(InterfaceAddressAttribute::spec_body(v)),
            InterfaceAddressAttributeV::Anycast(_) => tlv_fits(InterfaceAddressAttribute::spec_body(v)),
            InterfaceAddressAttributeV::CacheInfo(_) => true,
            InterfaceAddressAttributeV::Multicast(_) => tlv_fits(InterfaceAddressAttribute::spec_body(v)),
            InterfaceAddressAttributeV::Flags(_) => true,
            InterfaceAddressAttributeV::RoutePriority(_) => true,
            InterfaceAddressAttributeV::TargetNetNamespaceId(_) => tlv_fits(InterfaceAddressAttribute::spec_body(v)),
            InterfaceAddressAttributeV::Protocol(_) => true,
            InterfaceAddressAttributeV::Other(_, b) => tlv_fits(b),
        }
    }

    open spec fn spec_wf(v: InterfaceAddressAttributeV) -> bool {
        match v {
            InterfaceAddressAttributeV::Unspecified(_) => tlv_fits(InterfaceAddressAttribute::spec_body(v)),
            InterfaceAddressAttributeV::Address(_) => tlv_fits(InterfaceAddressAttribute::spec_body(v)),
            InterfaceAddressAttributeV::Local(_) => tlv_fits(InterfaceAddressAttribute::spec_body(v)),
            InterfaceAddressAttributeV::Label(_) => tlv_fits(InterfaceAddressAttribute::spec_body(v)),
            InterfaceAddressAttributeV::Broadcast(_) => tlv_fits(InterfaceAddressAttribute::spec_body(v)),
            InterfaceAddressAttributeV::Anycast(_) => tlv_fits(InterfaceAddressAttribute::spec_body(v)),
            InterfaceAddressAttributeV::CacheInfo(_) => true,
            InterfaceAddressAttributeV::Multicast(_) => tlv_fits(InterfaceAddressAttribute::spec_body(v)),
            InterfaceAddressAttributeV::Flags(_) => true,
            InterfaceAddressAttributeV::RoutePriority(_) => true,
            InterfaceAddressAttributeV::TargetNetNamespaceId(_) => tlv_fits(InterfaceAddressAttribute::spec_body(v)),
            InterfaceAddressAttributeV::Protocol(_) => true,
            InterfaceAddressAttributeV::Other(t, b) => !interface_address_attribute_known_tag(t) && tlv_fits(b),
        }
    }

    open spec fn spec_decode(tag: u16, body: Seq<u8>) -> Result<InterfaceAddressAttributeV, NetlinkError> {
        if tag == 0u16 {
            Ok(InterfaceAddressAttributeV::Unspecified(body))
        } else if tag == 1u16 {
            Ok(InterfaceAddressAttributeV::Address(body))
        } else if tag == 2u16 {
            Ok(InterfaceAddressAttributeV::Local(body))
        } else if tag == 3u16 {
            if body.len() >= 1 && body.last() == 0u8 {
                if valid_utf8(body.drop_last()) {
                    Ok(InterfaceAddressAttributeV::Label(decode_utf8(body.drop_last())))
                } else {
                    Err(NetlinkError::BadString)
                }
            } else {
                Err(NetlinkError::BadString)
            }
        } else if tag == 4u16 {
            Ok(InterfaceAddressAttributeV::Broadcast(body))
        } else if tag == 5u16 {
            Ok(InterfaceAddressAttributeV::Anycast(body))
        } else if tag == 6u16 {
            if body.len() == 16 {
                Ok(InterfaceAddressAttributeV::CacheInfo(AddressCacheInfo::spec_parse(body)))
            } else {
                Err(NetlinkError::BadAttribute)
            }
        } else if tag == 7u16 {
            Ok(InterfaceAddressAttributeV::Multicast(body))
        } else if tag == 8u16 {
            if body.len() == 4 {
                Ok(InterfaceAddressAttributeV::Flags(spec_u32_from_le_bytes(body)))
            } else {
                Err(NetlinkError::BadAttribute)
            }
        } else if tag == 9u16 {
            if body.len() == 4 {
                Ok(InterfaceAddressAttributeV::RoutePriority(spec_u32_from_le_bytes(body)))
            } else {
                Err(NetlinkError::BadAttribute)
            }
        } else if tag == 10u16 {
            Ok(InterfaceAddressAttributeV::TargetNetNamespaceId(body))
        } else if tag == 11u16 {
            if body.len() == 1 {
                Ok(InterfaceAddressAttributeV::Protocol(body[0]))
            } else {
                Err(NetlinkError::BadAttribute)
            }
        } else {
            Ok(InterfaceAddressAttributeV::Other(tag, body))
        }
    }

    proof fn lemma_wf_enc(v: InterfaceAddressAttributeV) {
        match v {
            InterfaceAddressAttributeV::Unspecified(_) => {},
            InterfaceAddressAttributeV::Address(_) => {},
            InterfaceAddressAttributeV::Local(_) => {},
            InterfaceAddressAttributeV::Label(_) => {},
            InterfaceAddressAttributeV::Broadcast(_) => {},
            InterfaceAddressAttributeV::Anycast(_) => {},
            InterfaceAddressAttributeV::CacheInfo(_) => {},
            InterfaceAddressAttributeV::Multicast(_) => {},
            InterfaceAddressAttributeV::Flags(_) => {},
            InterfaceAddressAttributeV::RoutePriority(_) => {},
            InterfaceAddressAttributeV::TargetNetNamespaceId(_) => {},
            InterfaceAddressAttributeV::Protocol(_) => {},
            InterfaceAddressAttributeV::Other(_, _) => {},
        }
    }

    proof fn lemma_round_trip(v: InterfaceAddressAttributeV) {
        lemma_auto_spec_u16_to_from_le_bytes();
        lemma_auto_spec_u32_to_from_le_bytes();
        match v {
            InterfaceAddressAttributeV::Unspecified(_) => {},
            InterfaceAddressAttributeV::Address(_) => {},
            InterfaceAddressAttributeV::Local(_) => {},
            InterfaceAddressAttributeV::Label(s) => {
                encode_utf8_valid_utf8(s);
                encode_utf8_decode_utf8(s);
                assert((encode_utf8(s) + seq![0u8]).last() == 0u8);
                assert((encode_utf8(s) + seq![0u8]).drop_last() =~= encode_utf8(s));
            },
            InterfaceAddressAttributeV::Broadcast(_) => {},
            InterfaceAddressAttributeV::Anycast(_) => {},
            InterfaceAddressAttributeV::CacheInfo(st) => {
                st.lemma_bytes_len();
                st.lemma_round_trip();
            },
            InterfaceAddressAttributeV::Multicast(_) => {},
            InterfaceAddressAttributeV::Flags(_) => {},
            InterfaceAddressAttributeV::RoutePriority(_) => {},
            InterfaceAddressAttributeV::TargetNetNamespaceId(_) => {},
            InterfaceAddressAttributeV::Protocol(x) => {
                assert(seq![x].len() == 1 && seq![x][0] == x);
            },
            InterfaceAddressAttributeV::Other(_, _) => {},
        }
    }

    fn from_raw(raw: RawAttribute) -> (r: Result<InterfaceAddressAttribute, NetlinkError>) {
        let tag = raw.attr_type();
        let content = raw.into_payload();
        if tag == 0u16 {
            Ok(InterfaceAddressAttribute::Unspecified(content))
        } else if tag == 1u16 {
            Ok(InterfaceAddressAttribute::Address(content))
        } else if tag == 2u16 {
            Ok(InterfaceAddressAttribute::Local(content))
        } else if tag == 3u16 {
            if content.len() >= 1 && content[content.len() - 1] == 0u8 {
                let stripped = slice_to_vec(slice_subrange(content.as_slice(), 0, content.len() - 1));
                proof {
                    assert(stripped@ =~= content@.drop_last());
                }
                match string_from_utf8(stripped) {
                    Some(s) => Ok(InterfaceAddressAttribute::Label(s)),
                    None => Err(NetlinkError::BadString),
                }
            } else {
                Err(NetlinkError::BadString)
            }
        } else if tag == 4u16 {
            Ok(InterfaceAddressAttribute::Broadcast(content))
        } else if tag == 5u16 {
            Ok(InterfaceAddressAttribute::Anycast(content))
        } else if tag == 6u16 {
            if content.len() == 16 {
                Ok(InterfaceAddressAttribute::CacheInfo(AddressCacheInfo::deserialize(content.as_slice())))
            } else {
                Err(NetlinkError::BadAttribute)
            }
        } else if tag == 7u16 {
            Ok(InterfaceAddressAttribute::Multicast(content))
        } else if tag == 8u16 {
            if content.len() == 4 {
                Ok(InterfaceAddressAttribute::Flags(AddressFlags::with_bits(u32_from_le_bytes(content.as_slice()))))
            } else {
                Err(NetlinkError::BadAttribute)
            }
        } else if tag == 9u16 {
            if content.len() == 4 {
                Ok(InterfaceAddressAttribute::RoutePriority(u32_from_le_bytes(content.as_slice())))
            } else {
                Err(NetlinkError::BadAttribute)
            }
        } else if tag == 10u16 {
            Ok(InterfaceAddressAttribute::TargetNetNamespaceId(content))
        } else if tag == 11u16 {
            if content.len() == 1 {
                Ok(InterfaceAddressAttribute::Protocol(content[0]))
            } else {
                Err(NetlinkError::BadAttribute)
            }
        } else {
            Ok(InterfaceAddressAttribute::Other(tag, content))
        }
    }

    fn serialize_into(&self, buffer: &mut Vec<u8>) -> (r: Result<(), NetlinkError>) {
        proof {
            lemma_auto_spec_u16_to_from_le_bytes();
            lemma_auto_spec_u32_to_from_le_bytes();
        }
        match self {
            InterfaceAddressAttribute::Unspecified(content) => serialize_attribute_into(buffer, 0u16, content.as_slice()),
            InterfaceAddressAttribute::Address(content) => serialize_attribute_into(buffer, 1u16, content.as_slice()),
            InterfaceAddressAttribute::Local(content) => serialize_attribute_into(buffer, 2u16, content.as_slice()),
            InterfaceAddressAttribute::Label(s) => {
                let mut body = s.as_str().as_bytes_vec();
                body.push(0u8);
                proof {
                    assert(body@ =~= encode_utf8(s@) + seq![0u8]);
                }
                serialize_attribute_into(buffer, 3u16, body.as_slice())
            },
            InterfaceAddressAttribute::Broadcast(content) => serialize_attribute_into(buffer, 4u16, content.as_slice()),
            InterfaceAddressAttribute::Anycast(content) => serialize_attribute_into(buffer, 5u16, content.as_slice()),
            InterfaceAddressAttribute::CacheInfo(st) => {
                let body = st.serialize();
                proof {
                    st.lemma_bytes_len();
                }
                serialize_attribute_into(buffer, 6u16, body.as_slice())
            },
            InterfaceAddressAttribute::Multicast(content) => serialize_attribute_into(buffer, 7u16, content.as_slice()),
            InterfaceAddressAttribute::Flags(f) => {
                let body = u32_to_le_bytes(f.bits());
                serialize_attribute_into(buffer, 8u16, body.as_slice())
            },
            InterfaceAddressAttribute::RoutePriority(x) => {
                let body = u32_to_le_bytes(*x);
                serialize_attribute_into(buffer, 9u16, body.as_slice())
            },
            InterfaceAddressAttribute::TargetNetNamespaceId(content) => serialize_attribute_into(buffer, 10u16, content.as_slice()),
            InterfaceAddressAttribute::Protocol(x) => {
                let mut body: Vec<u8> = Vec::new();
                body.push(*x);
                proof {
                    assert(body@ =~= seq![*x]);
                }
                serialize_attribute_into(buffer, 11u16, body.as_slice())
            },
            InterfaceAddressAttribute::Other(t, content) => serialize_attribute_into(buffer, *t, content.as_slice()),
        }
    }
}

impl InterfaceAddressAttribute {
    /// The framed attribute on its own: length, tag, payload and
    /// padding.
    pub fn serialize(&self) -> (r: Result<Vec<u8>, NetlinkError>)
        ensures
            match r {
                Ok(v) => InterfaceAddressAttribute::spec_enc_ok(self@) && v@ == spec_tlv(
                    InterfaceAddressAttribute::spec_tag(self@),
                    InterfaceAddressAttribute::spec_body(self@),
                ),
                Err(e) => e == NetlinkError::AttributeTooLong && !InterfaceAddressAttribute::spec_enc_ok(self@),
            },
    {
        let mut buffer: Vec<u8> = Vec::new();
        match self.serialize_into(&mut buffer) {
            Ok(()) => Ok(buffer),
            Err(e) => Err(e),
        }
    }
}

} // verus!
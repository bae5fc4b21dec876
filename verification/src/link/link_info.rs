//! Link information, the kernel's `IFLA_INFO_*` attributes: a nested
//! attribute list carried inside the link dictionary, with the kind and
//! data of a link.

use vstd::prelude::*;

verus! {

use vstd::bytes::lemma_auto_spec_u16_to_from_le_bytes;
use vstd::bytes::lemma_auto_spec_u32_to_from_le_bytes;

use crate::attribute::Attribute;
use crate::attribute::RawAttribute;
use crate::attribute::serialize_attribute_into;
use crate::attribute::spec_tlv;
use crate::attribute::tlv_fits;
use crate::error::NetlinkError;

/// The typed attributes of this dictionary. Unknown tags are kept in
/// the `Other` variant, bytes and all, and written back unchanged.
#[derive(Debug, Clone, PartialEq, Eq)]
pub enum LinkInfo {
    /// `IFLA_INFO_UNSPEC`
    Unspecified(Vec<u8>),
    /// `IFLA_INFO_KIND`
    Kind(Vec<u8>),
    /// `IFLA_INFO_DATA`
    Data(Vec<u8>),
    /// `IFLA_INFO_XSTATS`
    ExtendedStats(Vec<u8>),
    /// `IFLA_INFO_SLAVE_KIND`
    SlaveKind(Vec<u8>),
    /// `IFLA_INFO_SLAVE_DATA`
    SlaveData(Vec<u8>),
    /// An attribute with a tag this dictionary does not know.
    Other(u16, Vec<u8>),
}

/// The mathematical model of [`LinkInfo`]: the same variants over
/// sequences and plain values.
pub enum LinkInfoV {
    Unspecified(Seq<u8>),
    Kind(Seq<u8>),
    Data(Seq<u8>),
    ExtendedStats(Seq<u8>),
    SlaveKind(Seq<u8>),
    SlaveData(Seq<u8>),
    Other(u16, Seq<u8>),
}

impl View for LinkInfo {
    type V = LinkInfoV;

    open spec fn view(&self) -> LinkInfoV {
        match self {
            LinkInfo::Unspecified(x) => LinkInfoV::Unspecified(x@),
            LinkInfo::Kind(x) => LinkInfoV::Kind(x@),
            LinkInfo::Data(x) => LinkInfoV::Data(x@),
            LinkInfo::ExtendedStats(x) => LinkInfoV::ExtendedStats(x@),
            LinkInfo::SlaveKind(x) => LinkInfoV::SlaveKind(x@),
            LinkInfo::SlaveData(x) => LinkInfoV::SlaveData(x@),
            LinkInfo::Other(t, b) => LinkInfoV::Other(*t, b@),
        }
    }
}

/// Whether this dictionary assigns the tag a typed variant.
pub open spec fn link_info_known_tag(tag: u16) -> bool {
    tag <= 5
}

impl Attribute for LinkInfo {
    open spec fn spec_tag(v: LinkInfoV) -> u16 {
        match v {
            LinkInfoV::Unspecified(_) => 0u16,
            LinkInfoV::Kind(_) => 1u16,
            LinkInfoV::Data(_) => 2u16,
            LinkInfoV::ExtendedStats(_) => 3u16,
            LinkInfoV::SlaveKind(_) => 4u16,
            LinkInfoV::SlaveData(_) => 5u16,
            LinkInfoV::Other(t, _) => t,
        }
    }

    open spec fn spec_body(v: LinkInfoV) -> Seq<u8> {
        match v {
            LinkInfoV::Unspecified(b) => b,
            LinkInfoV::Kind(b) => b,
            LinkInfoV::Data(b) => b,
            LinkInfoV::ExtendedStats(b) => b,
            LinkInfoV::SlaveKind(b) => b,
            LinkInfoV::SlaveData(b) => b,
            LinkInfoV::Other(_, b) => b,
        }
    }

    open spec fn spec_enc_ok(v: LinkInfoV) -> bool {
        match v {
            LinkInfoV::Unspecified(_) => tlv_fits(LinkInfo::spec_body(v)),
            LinkInfoV::Kind(_) => tlv_fits(LinkInfo::spec_body(v)),
            LinkInfoV::Data(_) => tlv_fits(LinkInfo::spec_body(v)),
            LinkInfoV::ExtendedStats(_) => tlv_fits(LinkInfo::spec_body(v)),
            LinkInfoV::SlaveKind(_) => tlv_fits(LinkInfo::spec_body(v)),
            LinkInfoV::SlaveData(_) => tlv_fits(LinkInfo::spec_body(v)),
            LinkInfoV::Other(_, b) => tlv_fits(b),
        }
    }

    open spec fn spec_wf(v: LinkInfoV) -> bool {
        match v {
            LinkInfoV::Unspecified(_) => tlv_fits(LinkInfo::spec_body(v)),
            LinkInfoV::Kind(_) => tlv_fits(LinkInfo::spec_body(v)),
            LinkInfoV::Data(_) => tlv_fits(LinkInfo::spec_body(v)),
            LinkInfoV::ExtendedStats(_) => tlv_fits(LinkInfo::spec_body(v)),
            LinkInfoV::SlaveKind(_) => tlv_fits(LinkInfo::spec_body(v)),
            LinkInfoV::SlaveData(_) => tlv_fits(LinkInfo::spec_body(v)),
            LinkInfoV::Other(t, b) => !link_info_known_tag(t) && tlv_fits(b),
        }
    }

    open spec fn spec_decode(tag: u16, body: Seq<u8>) -> Result<LinkInfoV, NetlinkError> {
        if tag == 0u16 {
            Ok(LinkInfoV::Unspecified(body))
        } else if tag == 1u16 {
            Ok(LinkInfoV::Kind(body))
        } else if tag == 2u16 {
            Ok(LinkInfoV::Data(body))
        } else if tag == 3u16 {
            Ok(LinkInfoV::ExtendedStats(body))
        } else if tag == 4u16 {
            Ok(LinkInfoV::SlaveKind(body))
        } else if tag == 5u16 {
            Ok(LinkInfoV::SlaveData(body))
        } else {
            Ok(LinkInfoV::Other(tag, body))
        }
    }

    proof fn lemma_wf_enc(v: LinkInfoV) {
        match v {
            LinkInfoV::Unspecified(_) => {},
            LinkInfoV::Kind(_) => {},
            LinkInfoV::Data(_) => {},
            LinkInfoV::ExtendedStats(_) => {},
            LinkInfoV::SlaveKind(_) => {},
            LinkInfoV::SlaveData(_) => {},
            LinkInfoV::Other(_, _) => {},
        }
    }

    proof fn lemma_round_trip(v: LinkInfoV) {
        lemma_auto_spec_u16_to_from_le_bytes();
        lemma_auto_spec_u32_to_from_le_bytes();
        match v {
            LinkInfoV::Unspecified(_) => {},
            LinkInfoV::Kind(_) => {},
            LinkInfoV::Data(_) => {},
            LinkInfoV::ExtendedStats(_) => {},
            LinkInfoV::SlaveKind(_) => {},
            LinkInfoV::SlaveData(_) => {},
            LinkInfoV::Other(_, _) => {},
        }
    }

    fn from_raw(raw: RawAttribute) -> (r: Result<LinkInfo, NetlinkError>) {
        let tag = raw.attr_type();
        let content = raw.into_payload();
        if tag == 0u16 {
            Ok(LinkInfo::Unspecified(content))
        } else if tag == 1u16 {
            Ok(LinkInfo::Kind(content))
        } else if tag == 2u16 {
            Ok(LinkInfo::Data(content))
        } else if tag == 3u16 {
            Ok(LinkInfo::ExtendedStats(content))
        } else if tag == 4u16 {
            Ok(LinkInfo::SlaveKind(content))
        } else if tag == 5u16 {
            Ok(LinkInfo::SlaveData(content))
        } else {
            Ok(LinkInfo::Other(tag, content))
        }
    }

    fn serialize_into(&self, buffer: &mut Vec<u8>) -> (r: Result<(), NetlinkError>) {
        proof {
            lemma_auto_spec_u16_to_from_le_bytes();
            lemma_auto_spec_u32_to_from_le_bytes();
        }
        match self {
            LinkInfo::Unspecified(content) => serialize_attribute_into(buffer, 0u16, content.as_slice()),
            LinkInfo::Kind(content) => serialize_attribute_into(buffer, 1u16, content.as_slice()),
            LinkInfo::Data(content) => serialize_attribute_into(buffer, 2u16, content.as_slice()),
            LinkInfo::ExtendedStats(content) => serialize_attribute_into(buffer, 3u16, content.as_slice()),
            LinkInfo::SlaveKind(content) => serialize_attribute_into(buffer, 4u16, content.as_slice()),
            LinkInfo::SlaveData(content) => serialize_attribute_into(buffer, 5u16, content.as_slice()),
            LinkInfo::Other(t, content) => serialize_attribute_into(buffer, *t, content.as_slice()),
        }
    }
}

impl LinkInfo {
    /// The framed attribute on its own: length, tag, payload and
    /// padding.
    pub fn serialize(&self) -> (r: Result<Vec<u8>, NetlinkError>)
        ensures
            match r {
                Ok(v) => LinkInfo::spec_enc_ok(self@) && v@ == spec_tlv(
                    LinkInfo::spec_tag(self@),
                    LinkInfo::spec_body(self@),
                ),
                Err(e) => e == NetlinkError::AttributeTooLong && !LinkInfo::spec_enc_ok(self@),
            },
    {
        let mut buffer: Vec<u8> = Vec::new();
        match self.serialize_into(&mut buffer) {
            Ok(()) => Ok(buffer),
            Err(e) => Err(e),
        }
    }
}

} // verus!
//! Address-family specific link information, the kernel's
//! `IFLA_AF_SPEC` nested attribute list: one entry per address family,
//! each tagged with the family's own value.

use vstd::prelude::*;

verus! {

use crate::address_family::AddressFamily;
use crate::attribute::Attribute;
use crate::attribute::RawAttribute;
use crate::attribute::serialize_attribute_into;
use crate::attribute::spec_tlv;
use crate::attribute::tlv_fits;
use crate::error::NetlinkError;

/// One per-family entry of the `IFLA_AF_SPEC` list. The tag of an entry
/// is the address family itself; the payload stays opaque here.
#[derive(Debug, Clone, PartialEq, Eq)]
pub enum AddressFamilySpecific {
    /// `IFLA_INET_*`
    Inet(Vec<u8>),
    /// `IFLA_INET6_*`
    Inet6(Vec<u8>),
    /// An entry of another recognized address family.
    Other(AddressFamily, Vec<u8>),
}

/// The mathematical model of [`AddressFamilySpecific`].
pub enum AddressFamilySpecificV {
    Inet(Seq<u8>),
    Inet6(Seq<u8>),
    Other(AddressFamily, Seq<u8>),
}

impl View for AddressFamilySpecific {
    type V = AddressFamilySpecificV;

    open spec fn view(&self) -> AddressFamilySpecificV {
        match self {
            AddressFamilySpecific::Inet(b) => AddressFamilySpecificV::Inet(b@),
            AddressFamilySpecific::Inet6(b) => AddressFamilySpecificV::Inet6(b@),
            AddressFamilySpecific::Other(f, b) => AddressFamilySpecificV::Other(*f, b@),
        }
    }
}

impl Attribute for AddressFamilySpecific {
    open spec fn spec_tag(v: AddressFamilySpecificV) -> u16 {
        match v {
            AddressFamilySpecificV::Inet(_) => 2u16,
            AddressFamilySpecificV::Inet6(_) => 10u16,
            AddressFamilySpecificV::Other(f, _) => f.spec_raw() as u16,
        }
    }

    open spec fn spec_body(v: AddressFamilySpecificV) -> Seq<u8> {
        match v {
            AddressFamilySpecificV::Inet(b) => b,
            AddressFamilySpecificV::Inet6(b) => b,
            AddressFamilySpecificV::Other(_, b) => b,
        }
    }

    open spec fn spec_enc_ok(v: AddressFamilySpecificV) -> bool {
        tlv_fits(AddressFamilySpecific::spec_body(v))
    }

    open spec fn spec_wf(v: AddressFamilySpecificV) -> bool {
        match v {
            AddressFamilySpecificV::Inet(b) => tlv_fits(b),
            AddressFamilySpecificV::Inet6(b) => tlv_fits(b),
            AddressFamilySpecificV::Other(f, b) => {
                &&& f != AddressFamily::Inet
                &&& f != AddressFamily::Inet6
                &&& tlv_fits(b)
            },
        }
    }

    open spec fn spec_decode(tag: u16, body: Seq<u8>) -> Result<
        AddressFamilySpecificV,
        NetlinkError,
    > {
        if tag == 2u16 {
            Ok(AddressFamilySpecificV::Inet(body))
        } else if tag == 10u16 {
            Ok(AddressFamilySpecificV::Inet6(body))
        } else if tag <= 0xFFu16 {
            match AddressFamily::spec_from_raw(tag as u8) {
                Some(f) => Ok(AddressFamilySpecificV::Other(f, body)),
                None => Err(NetlinkError::UnknownEnumerant),
            }
        } else {
            Err(NetlinkError::UnknownEnumerant)
        }
    }

    proof fn lemma_wf_enc(v: AddressFamilySpecificV) {
    }

    proof fn lemma_round_trip(v: AddressFamilySpecificV) {
        match v {
            AddressFamilySpecificV::Other(f, _) => {
                f.lemma_raw_round_trip();
            },
            _ => {},
        }
    }

    fn from_raw(raw: RawAttribute) -> (r: Result<AddressFamilySpecific, NetlinkError>) {
        let tag = raw.attr_type();
        let content = raw.into_payload();
        if tag == 2u16 {
            Ok(AddressFamilySpecific::Inet(content))
        } else if tag == 10u16 {
            Ok(AddressFamilySpecific::Inet6(content))
        } else if tag <= 0xFFu16 {
            match AddressFamily::from_raw_value(tag as u8) {
                Some(f) => Ok(AddressFamilySpecific::Other(f, content)),
                None => Err(NetlinkError::UnknownEnumerant),
            }
        } else {
            Err(NetlinkError::UnknownEnumerant)
        }
    }

    fn serialize_into(&self, buffer: &mut Vec<u8>) -> (r: Result<(), NetlinkError>) {
        match self {
            AddressFamilySpecific::Inet(content) => serialize_attribute_into(
                buffer,
                2u16,
                content.as_slice(),
            ),
            AddressFamilySpecific::Inet6(content) => serialize_attribute_into(
                buffer,
                10u16,
                content.as_slice(),
            ),
            AddressFamilySpecific::Other(f, content) => serialize_attribute_into(
                buffer,
                f.raw_value() as u16,
                content.as_slice(),
            ),
        }
    }
}

impl AddressFamilySpecific {
    /// The framed entry on its own: length, family tag, payload and
    /// padding.
    pub fn serialize(&self) -> (r: Result<Vec<u8>, NetlinkError>)
        ensures
            match r {
                Ok(v) => AddressFamilySpecific::spec_enc_ok(self@) && v@ == spec_tlv(
                    AddressFamilySpecific::spec_tag(self@),
                    AddressFamilySpecific::spec_body(self@),
                ),
                Err(e) => e == NetlinkError::AttributeTooLong && !AddressFamilySpecific::spec_enc_ok(
                    self@,
                ),
            },
    {
        let mut buffer: Vec<u8> = Vec::new();
        match self.serialize_into(&mut buffer) {
            Ok(()) => Ok(buffer),
            Err(e) => Err(e),
        }
    }
}

} // verus!

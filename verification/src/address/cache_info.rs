//! The address cache information record, the kernel's `ifa_cacheinfo`:
//! preferred and valid lifetimes and the two creation timestamps.

use vstd::prelude::*;

verus! {

use vstd::bytes::lemma_auto_spec_u32_to_from_le_bytes;
use vstd::bytes::spec_u32_from_le_bytes;
use vstd::bytes::spec_u32_to_le_bytes;

use crate::utils::push_u32;
use crate::utils::read_u32;

/// The address cache information, `ifa_cacheinfo`.
#[derive(Debug, Clone, PartialEq, Eq, Structural)]
pub struct AddressCacheInfo {
    pub preferred: u32,
    pub valid: u32,
    pub created_timestamp: u32,
    pub updated_timestamp: u32,
}

impl AddressCacheInfo {
    /// The exact wire form: each field as a little-endian u32, in
    /// declared order, with no padding between fields.
    pub open spec fn spec_bytes(self) -> Seq<u8> {
        spec_u32_to_le_bytes(self.preferred) + spec_u32_to_le_bytes(self.valid) + spec_u32_to_le_bytes(self.created_timestamp) + spec_u32_to_le_bytes(self.updated_timestamp)
    }

    /// The record read back from its 16 wire bytes.
    pub open spec fn spec_parse(b: Seq<u8>) -> AddressCacheInfo {
        AddressCacheInfo {
            preferred: spec_u32_from_le_bytes(b.subrange(0, 4)),
            valid: spec_u32_from_le_bytes(b.subrange(4, 8)),
            created_timestamp: spec_u32_from_le_bytes(b.subrange(8, 12)),
            updated_timestamp: spec_u32_from_le_bytes(b.subrange(12, 16)),
        }
    }

    /// The wire form is 16 bytes long.
    pub proof fn lemma_bytes_len(self)
        ensures
            self.spec_bytes().len() == 16,
    {
        lemma_auto_spec_u32_to_from_le_bytes();
    }

    /// Reading the wire form back gives the same record.
    pub proof fn lemma_round_trip(self)
        ensures
            AddressCacheInfo::spec_parse(self.spec_bytes()) == self,
    {
        lemma_auto_spec_u32_to_from_le_bytes();
        let b = self.spec_bytes();
        assert(b.subrange(0, 4) =~= spec_u32_to_le_bytes(self.preferred));
        assert(b.subrange(4, 8) =~= spec_u32_to_le_bytes(self.valid));
        assert(b.subrange(8, 12) =~= spec_u32_to_le_bytes(self.created_timestamp));
        assert(b.subrange(12, 16) =~= spec_u32_to_le_bytes(self.updated_timestamp));
    }

    /// Writes the record in its wire form.
    pub fn serialize(&self) -> (r: Vec<u8>)
        ensures
            r@ == self.spec_bytes(),
    {
        let mut buffer: Vec<u8> = Vec::new();
        push_u32(&mut buffer, self.preferred);
        push_u32(&mut buffer, self.valid);
        push_u32(&mut buffer, self.created_timestamp);
        push_u32(&mut buffer, self.updated_timestamp);
        assert(buffer@ =~= self.spec_bytes());
        buffer
    }

    /// Reads the record from exactly 16 bytes.
    pub fn deserialize(bytes: &[u8]) -> (r: AddressCacheInfo)
        requires
            bytes@.len() == 16,
        ensures
            r == AddressCacheInfo::spec_parse(bytes@),
    {
        AddressCacheInfo {
            preferred: read_u32(bytes, 0).unwrap(),
            valid: read_u32(bytes, 4).unwrap(),
            created_timestamp: read_u32(bytes, 8).unwrap(),
            updated_timestamp: read_u32(bytes, 12).unwrap(),
        }
    }
}

} // verus!

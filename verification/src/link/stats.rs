//! Interface statistics records, the kernel's `rtnl_link_stats` and
//! `rtnl_link_stats64`. Both are plain sequences of little-endian
//! counters with no internal padding; their field names follow
//! `<linux/if_link.h>` verbatim.

use vstd::prelude::*;

verus! {

use vstd::bytes::lemma_auto_spec_u32_to_from_le_bytes;
use vstd::bytes::lemma_auto_spec_u64_to_from_le_bytes;
use vstd::bytes::spec_u32_from_le_bytes;
use vstd::bytes::spec_u32_to_le_bytes;
use vstd::bytes::spec_u64_from_le_bytes;
use vstd::bytes::spec_u64_to_le_bytes;

use crate::utils::push_u32;
use crate::utils::push_u64;
use crate::utils::read_u32;
use crate::utils::read_u64;

/// The 32-bit interface statistics, `rtnl_link_stats`.
#[derive(Debug, Clone, PartialEq, Eq, Structural)]
pub struct InterfaceStats {
    pub rx_packets: u32,
    pub tx_packets: u32,
    pub rx_bytes: u32,
    pub tx_bytes: u32,
    pub rx_errors: u32,
    pub tx_errors: u32,
    pub rx_dropped: u32,
    pub tx_dropped: u32,
    pub multicast: u32,
    pub collisions: u32,
    pub rx_length_errors: u32,
    pub rx_over_errors: u32,
    pub rx_crc_errors: u32,
    pub rx_frame_errors: u32,
    pub rx_fifo_errors: u32,
    pub rx_missed_errors: u32,
    pub tx_aborted_errors: u32,
    pub tx_carrier_errors: u32,
    pub tx_fifo_errors: u32,
    pub tx_heartbeat_errors: u32,
    pub tx_window_errors: u32,
    pub rx_compressed: u32,
    pub tx_compressed: u32,
    pub rx_nohandler: u32,
}

impl InterfaceStats {
    /// The exact wire form: each field as a little-endian u32, in
    /// declared order, with no padding between fields.
    pub open spec fn spec_bytes(self) -> Seq<u8> {
        spec_u32_to_le_bytes(self.rx_packets) + spec_u32_to_le_bytes(self.tx_packets) + spec_u32_to_le_bytes(self.rx_bytes) + spec_u32_to_le_bytes(self.tx_bytes) + spec_u32_to_le_bytes(self.rx_errors) + spec_u32_to_le_bytes(self.tx_errors) + spec_u32_to_le_bytes(self.rx_dropped) + spec_u32_to_le_bytes(self.tx_dropped) + spec_u32_to_le_bytes(self.multicast) + spec_u32_to_le_bytes(self.collisions) + spec_u32_to_le_bytes(self.rx_length_errors) + spec_u32_to_le_bytes(self.rx_over_errors) + spec_u32_to_le_bytes(self.rx_crc_errors) + spec_u32_to_le_bytes(self.rx_frame_errors) + spec_u32_to_le_bytes(self.rx_fifo_errors) + spec_u32_to_le_bytes(self.rx_missed_errors) + spec_u32_to_le_bytes(self.tx_aborted_errors) + spec_u32_to_le_bytes(self.tx_carrier_errors) + spec_u32_to_le_bytes(self.tx_fifo_errors) + spec_u32_to_le_bytes(self.tx_heartbeat_errors) + spec_u32_to_le_bytes(self.tx_window_errors) + spec_u32_to_le_bytes(self.rx_compressed) + spec_u32_to_le_bytes(self.tx_compressed) + spec_u32_to_le_bytes(self.rx_nohandler)
    }

    /// The record read back from its 96 wire bytes.
    pub open spec fn spec_parse(b: Seq<u8>) -> InterfaceStats {
        InterfaceStats {
            rx_packets: spec_u32_from_le_bytes(b.subrange(0, 4)),
            tx_packets: spec_u32_from_le_bytes(b.subrange(4, 8)),
            rx_bytes: spec_u32_from_le_bytes(b.subrange(8, 12)),
            tx_bytes: spec_u32_from_le_bytes(b.subrange(12, 16)),
            rx_errors: spec_u32_from_le_bytes(b.subrange(16, 20)),
            tx_errors: spec_u32_from_le_bytes(b.subrange(20, 24)),
            rx_dropped: spec_u32_from_le_bytes(b.subrange(24, 28)),
            tx_dropped: spec_u32_from_le_bytes(b.subrange(28, 32)),
            multicast: spec_u32_from_le_bytes(b.subrange(32, 36)),
            collisions: spec_u32_from_le_bytes(b.subrange(36, 40)),
            rx_length_errors: spec_u32_from_le_bytes(b.subrange(40, 44)),
            rx_over_errors: spec_u32_from_le_bytes(b.subrange(44, 48)),
            rx_crc_errors: spec_u32_from_le_bytes(b.subrange(48, 52)),
            rx_frame_errors: spec_u32_from_le_bytes(b.subrange(52, 56)),
            rx_fifo_errors: spec_u32_from_le_bytes(b.subrange(56, 60)),
            rx_missed_errors: spec_u32_from_le_bytes(b.subrange(60, 64)),
            tx_aborted_errors: spec_u32_from_le_bytes(b.subrange(64, 68)),
            tx_carrier_errors: spec_u32_from_le_bytes(b.subrange(68, 72)),
            tx_fifo_errors: spec_u32_from_le_bytes(b.subrange(72, 76)),
            tx_heartbeat_errors: spec_u32_from_le_bytes(b.subrange(76, 80)),
            tx_window_errors: spec_u32_from_le_bytes(b.subrange(80, 84)),
            rx_compressed: spec_u32_from_le_bytes(b.subrange(84, 88)),
            tx_compressed: spec_u32_from_le_bytes(b.subrange(88, 92)),
            rx_nohandler: spec_u32_from_le_bytes(b.subrange(92, 96)),
        }
    }

    /// The wire form is 96 bytes long.
    pub proof fn lemma_bytes_len(self)
        ensures
            self.spec_bytes().len() == 96,
    {
        lemma_auto_spec_u32_to_from_le_bytes();
    }

    /// Reading the wire form back gives the same record.
    pub proof fn lemma_round_trip(self)
        ensures
            InterfaceStats::spec_parse(self.spec_bytes()) == self,
    {
        lemma_auto_spec_u32_to_from_le_bytes();
        let b = self.spec_bytes();
        assert(b.subrange(0, 4) =~= spec_u32_to_le_bytes(self.rx_packets));
        assert(b.subrange(4, 8) =~= spec_u32_to_le_bytes(self.tx_packets));
        assert(b.subrange(8, 12) =~= spec_u32_to_le_bytes(self.rx_bytes));
        assert(b.subrange(12, 16) =~= spec_u32_to_le_bytes(self.tx_bytes));
        assert(b.subrange(16, 20) =~= spec_u32_to_le_bytes(self.rx_errors));
        assert(b.subrange(20, 24) =~= spec_u32_to_le_bytes(self.tx_errors));
        assert(b.subrange(24, 28) =~= spec_u32_to_le_bytes(self.rx_dropped));
        assert(b.subrange(28, 32) =~= spec_u32_to_le_bytes(self.tx_dropped));
        assert(b.subrange(32, 36) =~= spec_u32_to_le_bytes(self.multicast));
        assert(b.subrange(36, 40) =~= spec_u32_to_le_bytes(self.collisions));
        assert(b.subrange(40, 44) =~= spec_u32_to_le_bytes(self.rx_length_errors));
        assert(b.subrange(44, 48) =~= spec_u32_to_le_bytes(self.rx_over_errors));
        assert(b.subrange(48, 52) =~= spec_u32_to_le_bytes(self.rx_crc_errors));
        assert(b.subrange(52, 56) =~= spec_u32_to_le_bytes(self.rx_frame_errors));
        assert(b.subrange(56, 60) =~= spec_u32_to_le_bytes(self.rx_fifo_errors));
        assert(b.subrange(60, 64) =~= spec_u32_to_le_bytes(self.rx_missed_errors));
        assert(b.subrange(64, 68) =~= spec_u32_to_le_bytes(self.tx_aborted_errors));
        assert(b.subrange(68, 72) =~= spec_u32_to_le_bytes(self.tx_carrier_errors));
        assert(b.subrange(72, 76) =~= spec_u32_to_le_bytes(self.tx_fifo_errors));
        assert(b.subrange(76, 80) =~= spec_u32_to_le_bytes(self.tx_heartbeat_errors));
        assert(b.subrange(80, 84) =~= spec_u32_to_le_bytes(self.tx_window_errors));
        assert(b.subrange(84, 88) =~= spec_u32_to_le_bytes(self.rx_compressed));
        assert(b.subrange(88, 92) =~= spec_u32_to_le_bytes(self.tx_compressed));
        assert(b.subrange(92, 96) =~= spec_u32_to_le_bytes(self.rx_nohandler));
    }

    /// Writes the record in its wire form.
    pub fn serialize(&self) -> (r: Vec<u8>)
        ensures
            r@ == self.spec_bytes(),
    {
        let mut buffer: Vec<u8> = Vec::new();
        push_u32(&mut buffer, self.rx_packets);
        push_u32(&mut buffer, self.tx_packets);
        push_u32(&mut buffer, self.rx_bytes);
        push_u32(&mut buffer, self.tx_bytes);
        push_u32(&mut buffer, self.rx_errors);
        push_u32(&mut buffer, self.tx_errors);
        push_u32(&mut buffer, self.rx_dropped);
        push_u32(&mut buffer, self.tx_dropped);
        push_u32(&mut buffer, self.multicast);
        push_u32(&mut buffer, self.collisions);
        push_u32(&mut buffer, self.rx_length_errors);
        push_u32(&mut buffer, self.rx_over_errors);
        push_u32(&mut buffer, self.rx_crc_errors);
        push_u32(&mut buffer, self.rx_frame_errors);
        push_u32(&mut buffer, self.rx_fifo_errors);
        push_u32(&mut buffer, self.rx_missed_errors);
        push_u32(&mut buffer, self.tx_aborted_errors);
        push_u32(&mut buffer, self.tx_carrier_errors);
        push_u32(&mut buffer, self.tx_fifo_errors);
        push_u32(&mut buffer, self.tx_heartbeat_errors);
        push_u32(&mut buffer, self.tx_window_errors);
        push_u32(&mut buffer, self.rx_compressed);
        push_u32(&mut buffer, self.tx_compressed);
        push_u32(&mut buffer, self.rx_nohandler);
        assert(buffer@ =~= self.spec_bytes());
        buffer
    }

    /// Reads the record from exactly 96 bytes.
    pub fn deserialize(bytes: &[u8]) -> (r: InterfaceStats)
        requires
            bytes@.len() == 96,
        ensures
            r == InterfaceStats::spec_parse(bytes@),
    {
        InterfaceStats {
            rx_packets: read_u32(bytes, 0).unwrap(),
            tx_packets: read_u32(bytes, 4).unwrap(),
            rx_bytes: read_u32(bytes, 8).unwrap(),
            tx_bytes: read_u32(bytes, 12).unwrap(),
            rx_errors: read_u32(bytes, 16).unwrap(),
            tx_errors: read_u32(bytes, 20).unwrap(),
            rx_dropped: read_u32(bytes, 24).unwrap(),
            tx_dropped: read_u32(bytes, 28).unwrap(),
            multicast: read_u32(bytes, 32).unwrap(),
            collisions: read_u32(bytes, 36).unwrap(),
            rx_length_errors: read_u32(bytes, 40).unwrap(),
            rx_over_errors: read_u32(bytes, 44).unwrap(),
            rx_crc_errors: read_u32(bytes, 48).unwrap(),
            rx_frame_errors: read_u32(bytes, 52).unwrap(),
            rx_fifo_errors: read_u32(bytes, 56).unwrap(),
            rx_missed_errors: read_u32(bytes, 60).unwrap(),
            tx_aborted_errors: read_u32(bytes, 64).unwrap(),
            tx_carrier_errors: read_u32(bytes, 68).unwrap(),
            tx_fifo_errors: read_u32(bytes, 72).unwrap(),
            tx_heartbeat_errors: read_u32(bytes, 76).unwrap(),
            tx_window_errors: read_u32(bytes, 80).unwrap(),
            rx_compressed: read_u32(bytes, 84).unwrap(),
            tx_compressed: read_u32(bytes, 88).unwrap(),
            rx_nohandler: read_u32(bytes, 92).unwrap(),
        }
    }
}

/// The 64-bit interface statistics, `rtnl_link_stats64`.
#[derive(Debug, Clone, PartialEq, Eq, Structural)]
pub struct InterfaceStats64 {
    pub rx_packets: u64,
    pub tx_packets: u64,
    pub rx_bytes: u64,
    pub tx_bytes: u64,
    pub rx_errors: u64,
    pub tx_errors: u64,
    pub rx_dropped: u64,
    pub tx_dropped: u64,
    pub multicast: u64,
    pub collisions: u64,
    pub rx_length_errors: u64,
    pub rx_over_errors: u64,
    pub rx_crc_errors: u64,
    pub rx_frame_errors: u64,
    pub rx_fifo_errors: u64,
    pub rx_missed_errors: u64,
    pub tx_aborted_errors: u64,
    pub tx_carrier_errors: u64,
    pub tx_fifo_errors: u64,
    pub tx_heartbeat_errors: u64,
    pub tx_window_errors: u64,
    pub rx_compressed: u64,
    pub tx_compressed: u64,
    pub rx_nohandler: u64,
    pub rx_otherhost_dropped: u64,
}

impl InterfaceStats64 {
    /// The exact wire form: each field as a little-endian u64, in
    /// declared order, with no padding between fields.
    pub open spec fn spec_bytes(self) -> Seq<u8> {
        spec_u64_to_le_bytes(self.rx_packets) + spec_u64_to_le_bytes(self.tx_packets) + spec_u64_to_le_bytes(self.rx_bytes) + spec_u64_to_le_bytes(self.tx_bytes) + spec_u64_to_le_bytes(self.rx_errors) + spec_u64_to_le_bytes(self.tx_errors) + spec_u64_to_le_bytes(self.rx_dropped) + spec_u64_to_le_bytes(self.tx_dropped) + spec_u64_to_le_bytes(self.multicast) + spec_u64_to_le_bytes(self.collisions) + spec_u64_to_le_bytes(self.rx_length_errors) + spec_u64_to_le_bytes(self.rx_over_errors) + spec_u64_to_le_bytes(self.rx_crc_errors) + spec_u64_to_le_bytes(self.rx_frame_errors) + spec_u64_to_le_bytes(self.rx_fifo_errors) + spec_u64_to_le_bytes(self.rx_missed_errors) + spec_u64_to_le_bytes(self.tx_aborted_errors) + spec_u64_to_le_bytes(self.tx_carrier_errors) + spec_u64_to_le_bytes(self.tx_fifo_errors) + spec_u64_to_le_bytes(self.tx_heartbeat_errors) + spec_u64_to_le_bytes(self.tx_window_errors) + spec_u64_to_le_bytes(self.rx_compressed) + spec_u64_to_le_bytes(self.tx_compressed) + spec_u64_to_le_bytes(self.rx_nohandler) + spec_u64_to_le_bytes(self.rx_otherhost_dropped)
    }

    /// The record read back from its 200 wire bytes.
    pub open spec fn spec_parse(b: Seq<u8>) -> InterfaceStats64 {
        InterfaceStats64 {
            rx_packets: spec_u64_from_le_bytes(b.subrange(0, 8)),
            tx_packets: spec_u64_from_le_bytes(b.subrange(8, 16)),
            rx_bytes: spec_u64_from_le_bytes(b.subrange(16, 24)),
            tx_bytes: spec_u64_from_le_bytes(b.subrange(24, 32)),
            rx_errors: spec_u64_from_le_bytes(b.subrange(32, 40)),
            tx_errors: spec_u64_from_le_bytes(b.subrange(40, 48)),
            rx_dropped: spec_u64_from_le_bytes(b.subrange(48, 56)),
            tx_dropped: spec_u64_from_le_bytes(b.subrange(56, 64)),
            multicast: spec_u64_from_le_bytes(b.subrange(64, 72)),
            collisions: spec_u64_from_le_bytes(b.subrange(72, 80)),
            rx_length_errors: spec_u64_from_le_bytes(b.subrange(80, 88)),
            rx_over_errors: spec_u64_from_le_bytes(b.subrange(88, 96)),
            rx_crc_errors: spec_u64_from_le_bytes(b.subrange(96, 104)),
            rx_frame_errors: spec_u64_from_le_bytes(b.subrange(104, 112)),
            rx_fifo_errors: spec_u64_from_le_bytes(b.subrange(112, 120)),
            rx_missed_errors: spec_u64_from_le_bytes(b.subrange(120, 128)),
            tx_aborted_errors: spec_u64_from_le_bytes(b.subrange(128, 136)),
            tx_carrier_errors: spec_u64_from_le_bytes(b.subrange(136, 144)),
            tx_fifo_errors: spec_u64_from_le_bytes(b.subrange(144, 152)),
            tx_heartbeat_errors: spec_u64_from_le_bytes(b.subrange(152, 160)),
            tx_window_errors: spec_u64_from_le_bytes(b.subrange(160, 168)),
            rx_compressed: spec_u64_from_le_bytes(b.subrange(168, 176)),
            tx_compressed: spec_u64_from_le_bytes(b.subrange(176, 184)),
            rx_nohandler: spec_u64_from_le_bytes(b.subrange(184, 192)),
            rx_otherhost_dropped: spec_u64_from_le_bytes(b.subrange(192, 200)),
        }
    }

    /// The wire form is 200 bytes long.
    pub proof fn lemma_bytes_len(self)
        ensures
            self.spec_bytes().len() == 200,
    {
        lemma_auto_spec_u64_to_from_le_bytes();
    }

    /// Reading the wire form back gives the same record.
    pub proof fn lemma_round_trip(self)
        ensures
            InterfaceStats64::spec_parse(self.spec_bytes()) == self,
    {
        lemma_auto_spec_u64_to_from_le_bytes();
        let b = self.spec_bytes();
        assert(b.subrange(0, 8) =~= spec_u64_to_le_bytes(self.rx_packets));
        assert(b.subrange(8, 16) =~= spec_u64_to_le_bytes(self.tx_packets));
        assert(b.subrange(16, 24) =~= spec_u64_to_le_bytes(self.rx_bytes));
        assert(b.subrange(24, 32) =~= spec_u64_to_le_bytes(self.tx_bytes));
        assert(b.subrange(32, 40) =~= spec_u64_to_le_bytes(self.rx_errors));
        assert(b.subrange(40, 48) =~= spec_u64_to_le_bytes(self.tx_errors));
        assert(b.subrange(48, 56) =~= spec_u64_to_le_bytes(self.rx_dropped));
        assert(b.subrange(56, 64) =~= spec_u64_to_le_bytes(self.tx_dropped));
        assert(b.subrange(64, 72) =~= spec_u64_to_le_bytes(self.multicast));
        assert(b.subrange(72, 80) =~= spec_u64_to_le_bytes(self.collisions));
        assert(b.subrange(80, 88) =~= spec_u64_to_le_bytes(self.rx_length_errors));
        assert(b.subrange(88, 96) =~= spec_u64_to_le_bytes(self.rx_over_errors));
        assert(b.subrange(96, 104) =~= spec_u64_to_le_bytes(self.rx_crc_errors));
        assert(b.subrange(104, 112) =~= spec_u64_to_le_bytes(self.rx_frame_errors));
        assert(b.subrange(112, 120) =~= spec_u64_to_le_bytes(self.rx_fifo_errors));
        assert(b.subrange(120, 128) =~= spec_u64_to_le_bytes(self.rx_missed_errors));
        assert(b.subrange(128, 136) =~= spec_u64_to_le_bytes(self.tx_aborted_errors));
        assert(b.subrange(136, 144) =~= spec_u64_to_le_bytes(self.tx_carrier_errors));
        assert(b.subrange(144, 152) =~= spec_u64_to_le_bytes(self.tx_fifo_errors));
        assert(b.subrange(152, 160) =~= spec_u64_to_le_bytes(self.tx_heartbeat_errors));
        assert(b.subrange(160, 168) =~= spec_u64_to_le_bytes(self.tx_window_errors));
        assert(b.subrange(168, 176) =~= spec_u64_to_le_bytes(self.rx_compressed));
        assert(b.subrange(176, 184) =~= spec_u64_to_le_bytes(self.tx_compressed));
        assert(b.subrange(184, 192) =~= spec_u64_to_le_bytes(self.rx_nohandler));
        assert(b.subrange(192, 200) =~= spec_u64_to_le_bytes(self.rx_otherhost_dropped));
    }

    /// Writes the record in its wire form.
    pub fn serialize(&self) -> (r: Vec<u8>)
        ensures
            r@ == self.spec_bytes(),
    {
        let mut buffer: Vec<u8> = Vec::new();
        push_u64(&mut buffer, self.rx_packets);
        push_u64(&mut buffer, self.tx_packets);
        push_u64(&mut buffer, self.rx_bytes);
        push_u64(&mut buffer, self.tx_bytes);
        push_u64(&mut buffer, self.rx_errors);
        push_u64(&mut buffer, self.tx_errors);
        push_u64(&mut buffer, self.rx_dropped);
        push_u64(&mut buffer, self.tx_dropped);
        push_u64(&mut buffer, self.multicast);
        push_u64(&mut buffer, self.collisions);
        push_u64(&mut buffer, self.rx_length_errors);
        push_u64(&mut buffer, self.rx_over_errors);
        push_u64(&mut buffer, self.rx_crc_errors);
        push_u64(&mut buffer, self.rx_frame_errors);
        push_u64(&mut buffer, self.rx_fifo_errors);
        push_u64(&mut buffer, self.rx_missed_errors);
        push_u64(&mut buffer, self.tx_aborted_errors);
        push_u64(&mut buffer, self.tx_carrier_errors);
        push_u64(&mut buffer, self.tx_fifo_errors);
        push_u64(&mut buffer, self.tx_heartbeat_errors);
        push_u64(&mut buffer, self.tx_window_errors);
        push_u64(&mut buffer, self.rx_compressed);
        push_u64(&mut buffer, self.tx_compressed);
        push_u64(&mut buffer, self.rx_nohandler);
        push_u64(&mut buffer, self.rx_otherhost_dropped);
        assert(buffer@ =~= self.spec_bytes());
        buffer
    }

    /// Reads the record from exactly 200 bytes.
    pub fn deserialize(bytes: &[u8]) -> (r: InterfaceStats64)
        requires
            bytes@.len() == 200,
        ensures
            r == InterfaceStats64::spec_parse(bytes@),
    {
        InterfaceStats64 {
            rx_packets: read_u64(bytes, 0).unwrap(),
            tx_packets: read_u64(bytes, 8).unwrap(),
            rx_bytes: read_u64(bytes, 16).unwrap(),
            tx_bytes: read_u64(bytes, 24).unwrap(),
            rx_errors: read_u64(bytes, 32).unwrap(),
            tx_errors: read_u64(bytes, 40).unwrap(),
            rx_dropped: read_u64(bytes, 48).unwrap(),
            tx_dropped: read_u64(bytes, 56).unwrap(),
            multicast: read_u64(bytes, 64).unwrap(),
            collisions: read_u64(bytes, 72).unwrap(),
            rx_length_errors: read_u64(bytes, 80).unwrap(),
            rx_over_errors: read_u64(bytes, 88).unwrap(),
            rx_crc_errors: read_u64(bytes, 96).unwrap(),
            rx_frame_errors: read_u64(bytes, 104).unwrap(),
            rx_fifo_errors: read_u64(bytes, 112).unwrap(),
            rx_missed_errors: read_u64(bytes, 120).unwrap(),
            tx_aborted_errors: read_u64(bytes, 128).unwrap(),
            tx_carrier_errors: read_u64(bytes, 136).unwrap(),
            tx_fifo_errors: read_u64(bytes, 144).unwrap(),
            tx_heartbeat_errors: read_u64(bytes, 152).unwrap(),
            tx_window_errors: read_u64(bytes, 160).unwrap(),
            rx_compressed: read_u64(bytes, 168).unwrap(),
            tx_compressed: read_u64(bytes, 176).unwrap(),
            rx_nohandler: read_u64(bytes, 184).unwrap(),
            rx_otherhost_dropped: read_u64(bytes, 192).unwrap(),
        }
    }
}

} // verus!

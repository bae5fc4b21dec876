//! Address families, the kernel's `AF_*` values.

use vstd::prelude::*;

verus! {

/// Address families used in network communication, a closed set: a
/// received value outside it is rejected as an unknown enumerant.
#[derive(Debug, Clone, Copy, PartialEq, Eq, Structural)]
pub enum AddressFamily {
    /// `AF_UNSPEC`
    Unspecified,
    /// `AF_UNIX`
    Unix,
    /// `AF_INET`
    Inet,
    /// `AF_AX25`
    Ax25,
    /// `AF_IPX`
    Ipx,
    /// `AF_APPLETALK`
    AppleTalk,
    /// `AF_NETROM`
    NetRom,
    /// `AF_BRIDGE`
    Bridge,
    /// `AF_ATMPVC`
    AtmPvc,
    /// `AF_X25`
    X25,
    /// `AF_INET6`
    Inet6,
    /// `AF_ROSE`
    Rose,
    /// `AF_DECnet`
    DecNet,
    /// `AF_NETBEUI`
    NetBEUI,
    /// `AF_SECURITY`
    Security,
    /// `AF_KEY`
    Key,
    /// `AF_NETLINK`
    Netlink,
    /// `AF_PACKET`
    Packet,
    /// `AF_ASH`
    Ash,
    /// `AF_ECONET`
    Econet,
    /// `AF_ATMSVC`
    AtmSvc,
    /// `AF_RDS`
    Rds,
    /// `AF_SNA`
    Sna,
    /// `AF_IRDA`
    IrDA,
    /// `AF_PPPOX`
    PPPoX,
    /// `AF_WANPIPE`
    WanPipe,
    /// `AF_LLC`
    Llc,
    /// `AF_CAN`
    Can,
    /// `AF_TIPC`
    Tipc,
    /// `AF_BLUETOOTH`
    Bluetooth,
    /// `AF_IUCV`
    Iucv,
    /// `AF_RXRPC`
    RxRPC,
    /// `AF_ISDN`
    Isdn,
    /// `AF_PHONET`
    Phonet,
    /// `AF_IEEE802154`
    Ieee802154,
    /// `AF_CAIF`
    Caif,
    /// `AF_ALG`
    Alg,
    /// `AF_NFC`
    Nfc,
    /// `AF_VSOCK`
    Vsock,
    /// `AF_XDP`
    Xdp,
}

impl AddressFamily {
    /// The kernel's numeric value of this address family.
    pub open spec fn spec_raw(self) -> u8 {
        match self {
            AddressFamily::Unspecified => 0u8,
            AddressFamily::Unix => 1u8,
            AddressFamily::Inet => 2u8,
            AddressFamily::Ax25 => 3u8,
            AddressFamily::Ipx => 4u8,
            AddressFamily::AppleTalk => 5u8,
            AddressFamily::NetRom => 6u8,
            AddressFamily::Bridge => 7u8,
            AddressFamily::AtmPvc => 8u8,
            AddressFamily::X25 => 9u8,
            AddressFamily::Inet6 => 10u8,
            AddressFamily::Rose => 11u8,
            AddressFamily::DecNet => 12u8,
            AddressFamily::NetBEUI => 13u8,
            AddressFamily::Security => 14u8,
            AddressFamily::Key => 15u8,
            AddressFamily::Netlink => 16u8,
            AddressFamily::Packet => 17u8,
            AddressFamily::Ash => 18u8,
            AddressFamily::Econet => 19u8,
            AddressFamily::AtmSvc => 20u8,
            AddressFamily::Rds => 21u8,
            AddressFamily::Sna => 22u8,
            AddressFamily::IrDA => 23u8,
            AddressFamily::PPPoX => 24u8,
            AddressFamily::WanPipe => 25u8,
            AddressFamily::Llc => 26u8,
            AddressFamily::Can => 29u8,
            AddressFamily::Tipc => 30u8,
            AddressFamily::Bluetooth => 31u8,
            AddressFamily::Iucv => 32u8,
            AddressFamily::RxRPC => 33u8,
            AddressFamily::Isdn => 34u8,
            AddressFamily::Phonet => 35u8,
            AddressFamily::Ieee802154 => 36u8,
            AddressFamily::Caif => 37u8,
            AddressFamily::Alg => 38u8,
            AddressFamily::Nfc => 39u8,
            AddressFamily::Vsock => 40u8,
            AddressFamily::Xdp => 44u8,
        }
    }

    /// The kernel's numeric value of this address family.
    pub fn raw_value(&self) -> (r: u8)
        ensures
            r == self.spec_raw(),
    {
        match self {
            AddressFamily::Unspecified => 0u8,
            AddressFamily::Unix => 1u8,
            AddressFamily::Inet => 2u8,
            AddressFamily::Ax25 => 3u8,
            AddressFamily::Ipx => 4u8,
            AddressFamily::AppleTalk => 5u8,
            AddressFamily::NetRom => 6u8,
            AddressFamily::Bridge => 7u8,
            AddressFamily::AtmPvc => 8u8,
            AddressFamily::X25 => 9u8,
            AddressFamily::Inet6 => 10u8,
            AddressFamily::Rose => 11u8,
            AddressFamily::DecNet => 12u8,
            AddressFamily::NetBEUI => 13u8,
            AddressFamily::Security => 14u8,
            AddressFamily::Key => 15u8,
            AddressFamily::Netlink => 16u8,
            AddressFamily::Packet => 17u8,
            AddressFamily::Ash => 18u8,
            AddressFamily::Econet => 19u8,
            AddressFamily::AtmSvc => 20u8,
            AddressFamily::Rds => 21u8,
            AddressFamily::Sna => 22u8,
            AddressFamily::IrDA => 23u8,
            AddressFamily::PPPoX => 24u8,
            AddressFamily::WanPipe => 25u8,
            AddressFamily::Llc => 26u8,
            AddressFamily::Can => 29u8,
            AddressFamily::Tipc => 30u8,
            AddressFamily::Bluetooth => 31u8,
            AddressFamily::Iucv => 32u8,
            AddressFamily::RxRPC => 33u8,
            AddressFamily::Isdn => 34u8,
            AddressFamily::Phonet => 35u8,
            AddressFamily::Ieee802154 => 36u8,
            AddressFamily::Caif => 37u8,
            AddressFamily::Alg => 38u8,
            AddressFamily::Nfc => 39u8,
            AddressFamily::Vsock => 40u8,
            AddressFamily::Xdp => 44u8,
        }
    }

    /// The address family with this numeric value, if it is recognized.
    pub open spec fn spec_from_raw(value: u8) -> Option<AddressFamily> {
        if value == 0u8 {
            Some(AddressFamily::Unspecified)
        } else if value == 1u8 {
            Some(AddressFamily::Unix)
        } else if value == 2u8 {
            Some(AddressFamily::Inet)
        } else if value == 3u8 {
            Some(AddressFamily::Ax25)
        } else if value == 4u8 {
            Some(AddressFamily::Ipx)
        } else if value == 5u8 {
            Some(AddressFamily::AppleTalk)
        } else if value == 6u8 {
            Some(AddressFamily::NetRom)
        } else if value == 7u8 {
            Some(AddressFamily::Bridge)
        } else if value == 8u8 {
            Some(AddressFamily::AtmPvc)
        } else if value == 9u8 {
            Some(AddressFamily::X25)
        } else if value == 10u8 {
            Some(AddressFamily::Inet6)
        } else if value == 11u8 {
            Some(AddressFamily::Rose)
        } else if value == 12u8 {
            Some(AddressFamily::DecNet)
        } else if value == 13u8 {
            Some(AddressFamily::NetBEUI)
        } else if value == 14u8 {
            Some(AddressFamily::Security)
        } else if value == 15u8 {
            Some(AddressFamily::Key)
        } else if value == 16u8 {
            Some(AddressFamily::Netlink)
        } else if value == 17u8 {
            Some(AddressFamily::Packet)
        } else if value == 18u8 {
            Some(AddressFamily::Ash)
        } else if value == 19u8 {
            Some(AddressFamily::Econet)
        } else if value == 20u8 {
            Some(AddressFamily::AtmSvc)
        } else if value == 21u8 {
            Some(AddressFamily::Rds)
        } else if value == 22u8 {
            Some(AddressFamily::Sna)
        } else if value == 23u8 {
            Some(AddressFamily::IrDA)
        } else if value == 24u8 {
            Some(AddressFamily::PPPoX)
        } else if value == 25u8 {
            Some(AddressFamily::WanPipe)
        } else if value == 26u8 {
            Some(AddressFamily::Llc)
        } else if value == 29u8 {
            Some(AddressFamily::Can)
        } else if value == 30u8 {
            Some(AddressFamily::Tipc)
        } else if value == 31u8 {
            Some(AddressFamily::Bluetooth)
        } else if value == 32u8 {
            Some(AddressFamily::Iucv)
        } else if value == 33u8 {
            Some(AddressFamily::RxRPC)
        } else if value == 34u8 {
            Some(AddressFamily::Isdn)
        } else if value == 35u8 {
            Some(AddressFamily::Phonet)
        } else if value == 36u8 {
            Some(AddressFamily::Ieee802154)
        } else if value == 37u8 {
            Some(AddressFamily::Caif)
        } else if value == 38u8 {
            Some(AddressFamily::Alg)
        } else if value == 39u8 {
            Some(AddressFamily::Nfc)
        } else if value == 40u8 {
            Some(AddressFamily::Vsock)
        } else if value == 44u8 {
            Some(AddressFamily::Xdp)
        } else {
            None
        }
    }

    /// The address family with this numeric value, if it is recognized.
    pub fn from_raw_value(value: u8) -> (r: Option<AddressFamily>)
        ensures
            r == AddressFamily::spec_from_raw(value),
    {
        if value == 0u8 {
            Some(AddressFamily::Unspecified)
        } else if value == 1u8 {
            Some(AddressFamily::Unix)
        } else if value == 2u8 {
            Some(AddressFamily::Inet)
        } else if value == 3u8 {
            Some(AddressFamily::Ax25)
        } else if value == 4u8 {
            Some(AddressFamily::Ipx)
        } else if value == 5u8 {
            Some(AddressFamily::AppleTalk)
        } else if value == 6u8 {
            Some(AddressFamily::NetRom)
        } else if value == 7u8 {
            Some(AddressFamily::Bridge)
        } else if value == 8u8 {
            Some(AddressFamily::AtmPvc)
        } else if value == 9u8 {
            Some(AddressFamily::X25)
        } else if value == 10u8 {
            Some(AddressFamily::Inet6)
        } else if value == 11u8 {
            Some(AddressFamily::Rose)
        } else if value == 12u8 {
            Some(AddressFamily::DecNet)
        } else if value == 13u8 {
            Some(AddressFamily::NetBEUI)
        } else if value == 14u8 {
            Some(AddressFamily::Security)
        } else if value == 15u8 {
            Some(AddressFamily::Key)
        } else if value == 16u8 {
            Some(AddressFamily::Netlink)
        } else if value == 17u8 {
            Some(AddressFamily::Packet)
        } else if value == 18u8 {
            Some(AddressFamily::Ash)
        } else if value == 19u8 {
            Some(AddressFamily::Econet)
        } else if value == 20u8 {
            Some(AddressFamily::AtmSvc)
        } else if value == 21u8 {
            Some(AddressFamily::Rds)
        } else if value == 22u8 {
            Some(AddressFamily::Sna)
        } else if value == 23u8 {
            Some(AddressFamily::IrDA)
        } else if value == 24u8 {
            Some(AddressFamily::PPPoX)
        } else if value == 25u8 {
            Some(AddressFamily::WanPipe)
        } else if value == 26u8 {
            Some(AddressFamily::Llc)
        } else if value == 29u8 {
            Some(AddressFamily::Can)
        } else if value == 30u8 {
            Some(AddressFamily::Tipc)
        } else if value == 31u8 {
            Some(AddressFamily::Bluetooth)
        } else if value == 32u8 {
            Some(AddressFamily::Iucv)
        } else if value == 33u8 {
            Some(AddressFamily::RxRPC)
        } else if value == 34u8 {
            Some(AddressFamily::Isdn)
        } else if value == 35u8 {
            Some(AddressFamily::Phonet)
        } else if value == 36u8 {
            Some(AddressFamily::Ieee802154)
        } else if value == 37u8 {
            Some(AddressFamily::Caif)
        } else if value == 38u8 {
            Some(AddressFamily::Alg)
        } else if value == 39u8 {
            Some(AddressFamily::Nfc)
        } else if value == 40u8 {
            Some(AddressFamily::Vsock)
        } else if value == 44u8 {
            Some(AddressFamily::Xdp)
        } else {
            None
        }
    }

    /// Writing the value and reading it back gives the same address family.
    pub proof fn lemma_raw_round_trip(self)
        ensures
            AddressFamily::spec_from_raw(self.spec_raw()) == Some(self),
    {
    }
}

} // verus!

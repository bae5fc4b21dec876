//! Data-link device types, the kernel's `ARPHRD_*` values.

use vstd::prelude::*;

verus! {

/// The data-link device types, with the kernel's `ARPHRD_*` values.
/// The term *ARP hardware* is historical: read it as the OSI layer-2
/// device class. Most common interfaces are of the Ethernet type, even
/// wireless cards. A closed set: a received value outside it is
/// rejected as an unknown enumerant.
#[derive(Debug, Clone, Copy, PartialEq, Eq, Structural)]
pub enum ArpHardware {
    /// `ARPHRD_NETROM`
    NetRom,
    /// `ARPHRD_ETHER`
    Ethernet,
    /// `ARPHRD_EETHER`
    ExperimentalEthernet,
    /// `ARPHRD_AX25`
    Ax25,
    /// `ARPHRD_PRONET`
    Pronet,
    /// `ARPHRD_CHAOS`
    Chaos,
    /// `ARPHRD_IEEE802`
    Ieee802,
    /// `ARPHRD_ARCNET`
    ArcNet,
    /// `ARPHRD_APPLETLK`
    AppleTalk,
    /// `ARPHRD_DLCI`
    Dlci,
    /// `ARPHRD_ATM`
    Atm,
    /// `ARPHRD_METRICOM`
    Metricom,
    /// `ARPHRD_IEEE1394`
    Ieee1394,
    /// `ARPHRD_EUI64`
    Eui64,
    /// `ARPHRD_INFINIBAND`
    InfiniBand,
    /// `ARPHRD_SLIP`
    Slip,
    /// `ARPHRD_CSLIP`
    CSlip,
    /// `ARPHRD_SLIP6`
    Slip6,
    /// `ARPHRD_CSLIP6`
    CSlip6,
    /// `ARPHRD_RSRVD`
    Rsrvd,
    /// `ARPHRD_ADAPT`
    Adapt,
    /// `ARPHRD_ROSE`
    Rose,
    /// `ARPHRD_X25`
    X25,
    /// `ARPHRD_HWX25`
    HardwareX25,
    /// `ARPHRD_CAN`
    Can,
    /// `ARPHRD_MCTP`
    Mctp,
    /// `ARPHRD_PPP`
    Ppp,
    /// `ARPHRD_CISCO`
    Hdlc,
    /// `ARPHRD_LAPB`
    Lapd,
    /// `ARPHRD_DDCMP`
    Ddcmp,
    /// `ARPHRD_RAWHDLC`
    RawHdlc,
    /// `ARPHRD_RAWIP`
    RawIp,
    /// `ARPHRD_TUNNEL`
    Tunnel,
    /// `ARPHRD_TUNNEL6`
    Tunnel6,
    /// `ARPHRD_FRAD`
    Frad,
    /// `ARPHRD_SKIP`
    Skip,
    /// `ARPHRD_LOOPBACK`
    Loopback,
    /// `ARPHRD_LOCALTLK`
    Localtalk,
    /// `ARPHRD_FDDI`
    Fddi,
    /// `ARPHRD_BIF`
    Bif,
    /// `ARPHRD_SIT`
    Sit,
    /// `ARPHRD_IPDDP`
    IpDdp,
    /// `ARPHRD_IPGRE`
    IpGre,
    /// `ARPHRD_PIMREG`
    PimReg,
    /// `ARPHRD_HIPPI`
    HiPPI,
    /// `ARPHRD_ASH`
    Ash,
    /// `ARPHRD_ECONET`
    Econet,
    /// `ARPHRD_IRDA`
    IrDA,
    /// `ARPHRD_FCPP`
    Fcpp,
    /// `ARPHRD_FCAL`
    Fcal,
    /// `ARPHRD_FCPL`
    Fcpl,
    /// `ARPHRD_FCFABRIC`
    FcFabric,
    /// `ARPHRD_IEEE802_TR`
    Ieee802TR,
    /// `ARPHRD_IEEE80211`
    Ieee80211,
    /// `ARPHRD_IEEE80211_PRISM`
    Ieee80211Prism,
    /// `ARPHRD_IEEE80211_RADIOTAP`
    Ieee80211RadioTap,
    /// `ARPHRD_IEEE802154`
    Ieee802154,
    /// `ARPHRD_IEEE802154_MONITOR`
    Ieee802154Monitor,
    /// `ARPHRD_PHONET`
    PhoNet,
    /// `ARPHRD_PHONET_PIPE`
    PhoNetPipe,
    /// `ARPHRD_CAIF`
    Caif,
    /// `ARPHRD_IP6GRE`
    Ipv6Gre,
    /// `ARPHRD_NETLINK`
    Netlink,
    /// `ARPHRD_6LOWPAN`
    Ipv6OverLowpan,
    /// `ARPHRD_VSOCKMON`
    VsockMonitor,
    /// `ARPHRD_VOID`
    Void,
    /// `ARPHRD_NONE`
    NoDevice,
}

impl ArpHardware {
    /// The kernel's numeric value of this device type.
    pub open spec fn spec_raw(self) -> u16 {
        match self {
            ArpHardware::NetRom => 0u16,
            ArpHardware::Ethernet => 1u16,
            ArpHardware::ExperimentalEthernet => 2u16,
            ArpHardware::Ax25 => 3u16,
            ArpHardware::Pronet => 4u16,
            ArpHardware::Chaos => 5u16,
            ArpHardware::Ieee802 => 6u16,
            ArpHardware::ArcNet => 7u16,
            ArpHardware::AppleTalk => 8u16,
            ArpHardware::Dlci => 15u16,
            ArpHardware::Atm => 19u16,
            ArpHardware::Metricom => 23u16,
            ArpHardware::Ieee1394 => 24u16,
            ArpHardware::Eui64 => 27u16,
            ArpHardware::InfiniBand => 32u16,
            ArpHardware::Slip => 256u16,
            ArpHardware::CSlip => 257u16,
            ArpHardware::Slip6 => 258u16,
            ArpHardware::CSlip6 => 259u16,
            ArpHardware::Rsrvd => 260u16,
            ArpHardware::Adapt => 264u16,
            ArpHardware::Rose => 270u16,
            ArpHardware::X25 => 271u16,
            ArpHardware::HardwareX25 => 272u16,
            ArpHardware::Can => 280u16,
            ArpHardware::Mctp => 290u16,
            ArpHardware::Ppp => 512u16,
            ArpHardware::Hdlc => 513u16,
            ArpHardware::Lapd => 516u16,
            ArpHardware::Ddcmp => 517u16,
            ArpHardware::RawHdlc => 518u16,
            ArpHardware::RawIp => 519u16,
            ArpHardware::Tunnel => 768u16,
            ArpHardware::Tunnel6 => 769u16,
            ArpHardware::Frad => 770u16,
            ArpHardware::Skip => 771u16,
            ArpHardware::Loopback => 772u16,
            ArpHardware::Localtalk => 773u16,
            ArpHardware::Fddi => 774u16,
            ArpHardware::Bif => 775u16,
            ArpHardware::Sit => 776u16,
            ArpHardware::IpDdp => 777u16,
            ArpHardware::IpGre => 778u16,
            ArpHardware::PimReg => 779u16,
            ArpHardware::HiPPI => 780u16,
            ArpHardware::Ash => 781u16,
            ArpHardware::Econet => 782u16,
            ArpHardware::IrDA => 783u16,
            ArpHardware::Fcpp => 784u16,
            ArpHardware::Fcal => 785u16,
            ArpHardware::Fcpl => 786u16,
            ArpHardware::FcFabric => 787u16,
            ArpHardware::Ieee802TR => 800u16,
            ArpHardware::Ieee80211 => 801u16,
            ArpHardware::Ieee80211Prism => 802u16,
            ArpHardware::Ieee80211RadioTap => 803u16,
            ArpHardware::Ieee802154 => 804u16,
            ArpHardware::Ieee802154Monitor => 805u16,
            ArpHardware::PhoNet => 820u16,
            ArpHardware::PhoNetPipe => 821u16,
            ArpHardware::Caif => 822u16,
            ArpHardware::Ipv6Gre => 823u16,
            ArpHardware::Netlink => 824u16,
            ArpHardware::Ipv6OverLowpan => 825u16,
            ArpHardware::VsockMonitor => 826u16,
            ArpHardware::Void => 0xFFFFu16,
            ArpHardware::NoDevice => 0xFFFEu16,
        }
    }

    /// The kernel's numeric value of this device type.
    pub fn raw_value(&self) -> (r: u16)
        ensures
            r == self.spec_raw(),
    {
        match self {
            ArpHardware::NetRom => 0u16,
            ArpHardware::Ethernet => 1u16,
            ArpHardware::ExperimentalEthernet => 2u16,
            ArpHardware::Ax25 => 3u16,
            ArpHardware::Pronet => 4u16,
            ArpHardware::Chaos => 5u16,
            ArpHardware::Ieee802 => 6u16,
            ArpHardware::ArcNet => 7u16,
            ArpHardware::AppleTalk => 8u16,
            ArpHardware::Dlci => 15u16,
            ArpHardware::Atm => 19u16,
            ArpHardware::Metricom => 23u16,
            ArpHardware::Ieee1394 => 24u16,
            ArpHardware::Eui64 => 27u16,
            ArpHardware::InfiniBand => 32u16,
            ArpHardware::Slip => 256u16,
            ArpHardware::CSlip => 257u16,
            ArpHardware::Slip6 => 258u16,
            ArpHardware::CSlip6 => 259u16,
            ArpHardware::Rsrvd => 260u16,
            ArpHardware::Adapt => 264u16,
            ArpHardware::Rose => 270u16,
            ArpHardware::X25 => 271u16,
            ArpHardware::HardwareX25 => 272u16,
            ArpHardware::Can => 280u16,
            ArpHardware::Mctp => 290u16,
            ArpHardware::Ppp => 512u16,
            ArpHardware::Hdlc => 513u16,
            ArpHardware::Lapd => 516u16,
            ArpHardware::Ddcmp => 517u16,
            ArpHardware::RawHdlc => 518u16,
            ArpHardware::RawIp => 519u16,
            ArpHardware::Tunnel => 768u16,
            ArpHardware::Tunnel6 => 769u16,
            ArpHardware::Frad => 770u16,
            ArpHardware::Skip => 771u16,
            ArpHardware::Loopback => 772u16,
            ArpHardware::Localtalk => 773u16,
            ArpHardware::Fddi => 774u16,
            ArpHardware::Bif => 775u16,
            ArpHardware::Sit => 776u16,
            ArpHardware::IpDdp => 777u16,
            ArpHardware::IpGre => 778u16,
            ArpHardware::PimReg => 779u16,
            ArpHardware::HiPPI => 780u16,
            ArpHardware::Ash => 781u16,
            ArpHardware::Econet => 782u16,
            ArpHardware::IrDA => 783u16,
            ArpHardware::Fcpp => 784u16,
            ArpHardware::Fcal => 785u16,
            ArpHardware::Fcpl => 786u16,
            ArpHardware::FcFabric => 787u16,
            ArpHardware::Ieee802TR => 800u16,
            ArpHardware::Ieee80211 => 801u16,
            ArpHardware::Ieee80211Prism => 802u16,
            ArpHardware::Ieee80211RadioTap => 803u16,
            ArpHardware::Ieee802154 => 804u16,
            ArpHardware::Ieee802154Monitor => 805u16,
            ArpHardware::PhoNet => 820u16,
            ArpHardware::PhoNetPipe => 821u16,
            ArpHardware::Caif => 822u16,
            ArpHardware::Ipv6Gre => 823u16,
            ArpHardware::Netlink => 824u16,
            ArpHardware::Ipv6OverLowpan => 825u16,
            ArpHardware::VsockMonitor => 826u16,
            ArpHardware::Void => 0xFFFFu16,
            ArpHardware::NoDevice => 0xFFFEu16,
        }
    }

    /// The device type with this numeric value, if it is recognized.
    pub open spec fn spec_from_raw(value: u16) -> Option<ArpHardware> {
        if value == 0u16 {
            Some(ArpHardware::NetRom)
        } else if value == 1u16 {
            Some(ArpHardware::Ethernet)
        } else if value == 2u16 {
            Some(ArpHardware::ExperimentalEthernet)
        } else if value == 3u16 {
            Some(ArpHardware::Ax25)
        } else if value == 4u16 {
            Some(ArpHardware::Pronet)
        } else if value == 5u16 {
            Some(ArpHardware::Chaos)
        } else if value == 6u16 {
            Some(ArpHardware::Ieee802)
        } else if value == 7u16 {
            Some(ArpHardware::ArcNet)
        } else if value == 8u16 {
            Some(ArpHardware::AppleTalk)
        } else if value == 15u16 {
            Some(ArpHardware::Dlci)
        } else if value == 19u16 {
            Some(ArpHardware::Atm)
        } else if value == 23u16 {
            Some(ArpHardware::Metricom)
        } else if value == 24u16 {
            Some(ArpHardware::Ieee1394)
        } else if value == 27u16 {
            Some(ArpHardware::Eui64)
        } else if value == 32u16 {
            Some(ArpHardware::InfiniBand)
        } else if value == 256u16 {
            Some(ArpHardware::Slip)
        } else if value == 257u16 {
            Some(ArpHardware::CSlip)
        } else if value == 258u16 {
            Some(ArpHardware::Slip6)
        } else if value == 259u16 {
            Some(ArpHardware::CSlip6)
        } else if value == 260u16 {
            Some(ArpHardware::Rsrvd)
        } else if value == 264u16 {
            Some(ArpHardware::Adapt)
        } else if value == 270u16 {
            Some(ArpHardware::Rose)
        } else if value == 271u16 {
            Some(ArpHardware::X25)
        } else if value == 272u16 {
            Some(ArpHardware::HardwareX25)
        } else if value == 280u16 {
            Some(ArpHardware::Can)
        } else if value == 290u16 {
            Some(ArpHardware::Mctp)
        } else if value == 512u16 {
            Some(ArpHardware::Ppp)
        } else if value == 513u16 {
            Some(ArpHardware::Hdlc)
        } else if value == 516u16 {
            Some(ArpHardware::Lapd)
        } else if value == 517u16 {
            Some(ArpHardware::Ddcmp)
        } else if value == 518u16 {
            Some(ArpHardware::RawHdlc)
        } else if value == 519u16 {
            Some(ArpHardware::RawIp)
        } else if value == 768u16 {
            Some(ArpHardware::Tunnel)
        } else if value == 769u16 {
            Some(ArpHardware::Tunnel6)
        } else if value == 770u16 {
            Some(ArpHardware::Frad)
        } else if value == 771u16 {
            Some(ArpHardware::Skip)
        } else if value == 772u16 {
            Some(ArpHardware::Loopback)
        } else if value == 773u16 {
            Some(ArpHardware::Localtalk)
        } else if value == 774u16 {
            Some(ArpHardware::Fddi)
        } else if value == 775u16 {
            Some(ArpHardware::Bif)
        } else if value == 776u16 {
            Some(ArpHardware::Sit)
        } else if value == 777u16 {
            Some(ArpHardware::IpDdp)
        } else if value == 778u16 {
            Some(ArpHardware::IpGre)
        } else if value == 779u16 {
            Some(ArpHardware::PimReg)
        } else if value == 780u16 {
            Some(ArpHardware::HiPPI)
        } else if value == 781u16 {
            Some(ArpHardware::Ash)
        } else if value == 782u16 {
            Some(ArpHardware::Econet)
        } else if value == 783u16 {
            Some(ArpHardware::IrDA)
        } else if value == 784u16 {
            Some(ArpHardware::Fcpp)
        } else if value == 785u16 {
            Some(ArpHardware::Fcal)
        } else if value == 786u16 {
            Some(ArpHardware::Fcpl)
        } else if value == 787u16 {
            Some(ArpHardware::FcFabric)
        } else if value == 800u16 {
            Some(ArpHardware::Ieee802TR)
        } else if value == 801u16 {
            Some(ArpHardware::Ieee80211)
        } else if value == 802u16 {
            Some(ArpHardware::Ieee80211Prism)
        } else if value == 803u16 {
            Some(ArpHardware::Ieee80211RadioTap)
        } else if value == 804u16 {
            Some(ArpHardware::Ieee802154)
        } else if value == 805u16 {
            Some(ArpHardware::Ieee802154Monitor)
        } else if value == 820u16 {
            Some(ArpHardware::PhoNet)
        } else if value == 821u16 {
            Some(ArpHardware::PhoNetPipe)
        } else if value == 822u16 {
            Some(ArpHardware::Caif)
        } else if value == 823u16 {
            Some(ArpHardware::Ipv6Gre)
        } else if value == 824u16 {
            Some(ArpHardware::Netlink)
        } else if value == 825u16 {
            Some(ArpHardware::Ipv6OverLowpan)
        } else if value == 826u16 {
            Some(ArpHardware::VsockMonitor)
        } else if value == 0xFFFFu16 {
            Some(ArpHardware::Void)
        } else if value == 0xFFFEu16 {
            Some(ArpHardware::NoDevice)
        } else {
            None
        }
    }

    /// The device type with this numeric value, if it is recognized.
    pub fn from_raw_value(value: u16) -> (r: Option<ArpHardware>)
        ensures
            r == ArpHardware::spec_from_raw(value),
    {
        if value == 0u16 {
            Some(ArpHardware::NetRom)
        } else if value == 1u16 {
            Some(ArpHardware::Ethernet)
        } else if value == 2u16 {
            Some(ArpHardware::ExperimentalEthernet)
        } else if value == 3u16 {
            Some(ArpHardware::Ax25)
        } else if value == 4u16 {
            Some(ArpHardware::Pronet)
        } else if value == 5u16 {
            Some(ArpHardware::Chaos)
        } else if value == 6u16 {
            Some(ArpHardware::Ieee802)
        } else if value == 7u16 {
            Some(ArpHardware::ArcNet)
        } else if value == 8u16 {
            Some(ArpHardware::AppleTalk)
        } else if value == 15u16 {
            Some(ArpHardware::Dlci)
        } else if value == 19u16 {
            Some(ArpHardware::Atm)
        } else if value == 23u16 {
            Some(ArpHardware::Metricom)
        } else if value == 24u16 {
            Some(ArpHardware::Ieee1394)
        } else if value == 27u16 {
            Some(ArpHardware::Eui64)
        } else if value == 32u16 {
            Some(ArpHardware::InfiniBand)
        } else if value == 256u16 {
            Some(ArpHardware::Slip)
        } else if value == 257u16 {
            Some(ArpHardware::CSlip)
        } else if value == 258u16 {
            Some(ArpHardware::Slip6)
        } else if value == 259u16 {
            Some(ArpHardware::CSlip6)
        } else if value == 260u16 {
            Some(ArpHardware::Rsrvd)
        } else if value == 264u16 {
            Some(ArpHardware::Adapt)
        } else if value == 270u16 {
            Some(ArpHardware::Rose)
        } else if value == 271u16 {
            Some(ArpHardware::X25)
        } else if value == 272u16 {
            Some(ArpHardware::HardwareX25)
        } else if value == 280u16 {
            Some(ArpHardware::Can)
        } else if value == 290u16 {
            Some(ArpHardware::Mctp)
        } else if value == 512u16 {
            Some(ArpHardware::Ppp)
        } else if value == 513u16 {
            Some(ArpHardware::Hdlc)
        } else if value == 516u16 {
            Some(ArpHardware::Lapd)
        } else if value == 517u16 {
            Some(ArpHardware::Ddcmp)
        } else if value == 518u16 {
            Some(ArpHardware::RawHdlc)
        } else if value == 519u16 {
            Some(ArpHardware::RawIp)
        } else if value == 768u16 {
            Some(ArpHardware::Tunnel)
        } else if value == 769u16 {
            Some(ArpHardware::Tunnel6)
        } else if value == 770u16 {
            Some(ArpHardware::Frad)
        } else if value == 771u16 {
            Some(ArpHardware::Skip)
        } else if value == 772u16 {
            Some(ArpHardware::Loopback)
        } else if value == 773u16 {
            Some(ArpHardware::Localtalk)
        } else if value == 774u16 {
            Some(ArpHardware::Fddi)
        } else if value == 775u16 {
            Some(ArpHardware::Bif)
        } else if value == 776u16 {
            Some(ArpHardware::Sit)
        } else if value == 777u16 {
            Some(ArpHardware::IpDdp)
        } else if value == 778u16 {
            Some(ArpHardware::IpGre)
        } else if value == 779u16 {
            Some(ArpHardware::PimReg)
        } else if value == 780u16 {
            Some(ArpHardware::HiPPI)
        } else if value == 781u16 {
            Some(ArpHardware::Ash)
        } else if value == 782u16 {
            Some(ArpHardware::Econet)
        } else if value == 783u16 {
            Some(ArpHardware::IrDA)
        } else if value == 784u16 {
            Some(ArpHardware::Fcpp)
        } else if value == 785u16 {
            Some(ArpHardware::Fcal)
        } else if value == 786u16 {
            Some(ArpHardware::Fcpl)
        } else if value == 787u16 {
            Some(ArpHardware::FcFabric)
        } else if value == 800u16 {
            Some(ArpHardware::Ieee802TR)
        } else if value == 801u16 {
            Some(ArpHardware::Ieee80211)
        } else if value == 802u16 {
            Some(ArpHardware::Ieee80211Prism)
        } else if value == 803u16 {
            Some(ArpHardware::Ieee80211RadioTap)
        } else if value == 804u16 {
            Some(ArpHardware::Ieee802154)
        } else if value == 805u16 {
            Some(ArpHardware::Ieee802154Monitor)
        } else if value == 820u16 {
            Some(ArpHardware::PhoNet)
        } else if value == 821u16 {
            Some(ArpHardware::PhoNetPipe)
        } else if value == 822u16 {
            Some(ArpHardware::Caif)
        } else if value == 823u16 {
            Some(ArpHardware::Ipv6Gre)
        } else if value == 824u16 {
            Some(ArpHardware::Netlink)
        } else if value == 825u16 {
            Some(ArpHardware::Ipv6OverLowpan)
        } else if value == 826u16 {
            Some(ArpHardware::VsockMonitor)
        } else if value == 0xFFFFu16 {
            Some(ArpHardware::Void)
        } else if value == 0xFFFEu16 {
            Some(ArpHardware::NoDevice)
        } else {
            None
        }
    }

    /// Writing the value and reading it back gives the same device type.
    pub proof fn lemma_raw_round_trip(self)
        ensures
            ArpHardware::spec_from_raw(self.spec_raw()) == Some(self),
    {
    }
}

} // verus!

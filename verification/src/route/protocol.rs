//! Route origins, the kernel's `RTPROT_*` values.

use vstd::prelude::*;

verus! {

pub const RTPROT_GATED: u8 = 8;

pub const RTPROT_RA: u8 = 9;

pub const RTPROT_MRT: u8 = 10;

pub const RTPROT_ZEBRA: u8 = 11;

pub const RTPROT_BIRD: u8 = 12;

pub const RTPROT_DNROUTED: u8 = 13;

pub const RTPROT_XORP: u8 = 14;

pub const RTPROT_NTK: u8 = 15;

pub const RTPROT_DHCP: u8 = 16;

pub const RTPROT_MROUTED: u8 = 17;

pub const RTPROT_KEEPALIVED: u8 = 18;

pub const RTPROT_BABEL: u8 = 42;

pub const RTPROT_OPENR: u8 = 99;

pub const RTPROT_BGP: u8 = 186;

pub const RTPROT_ISIS: u8 = 187;

pub const RTPROT_OSPF: u8 = 188;

pub const RTPROT_RIP: u8 = 189;

pub const RTPROT_EIGRP: u8 = 192;

/// The routing protocol that installed a route, with the kernel's
/// `RTPROT_*` values. A closed set: a received value outside it is
/// rejected as an unknown enumerant.
#[derive(Debug, Clone, Copy, PartialEq, Eq, Structural)]
pub enum RouteProtocol {
    /// `RTPROT_UNSPEC`
    Unspecified,
    /// `RTPROT_REDIRECT`
    Redirect,
    /// `RTPROT_KERNEL`
    Kernel,
    /// `RTPROT_BOOT`
    Boot,
    /// `RTPROT_STATIC`
    Static,
    /// `RTPROT_GATED`
    Gated,
    /// `RTPROT_RA`
    RouteAdvertisement,
    /// `RTPROT_MRT`
    MeritMrt,
    /// `RTPROT_ZEBRA`
    Zebra,
    /// `RTPROT_BIRD`
    Bird,
    /// `RTPROT_DNROUTED`
    Dnrouted,
    /// `RTPROT_XORP`
    Xorp,
    /// `RTPROT_NTK`
    Netsukuku,
    /// `RTPROT_DHCP`
    Dhcp,
    /// `RTPROT_MROUTED`
    Mrouted,
    /// `RTPROT_KEEPALIVED`
    KeepAlived,
    /// `RTPROT_BABEL`
    Babel,
    /// `RTPROT_OPENR`
    OpenR,
    /// `RTPROT_BGP`
    Bgp,
    /// `RTPROT_ISIS`
    Isis,
    /// `RTPROT_OSPF`
    Ospf,
    /// `RTPROT_RIP`
    Rip,
    /// `RTPROT_EIGRP`
    EIgrp,
}

impl RouteProtocol {
    /// The kernel's numeric value of this route protocol.
    pub open spec fn spec_raw(self) -> u8 {
        match self {
            RouteProtocol::Unspecified => 0u8,
            RouteProtocol::Redirect => 1u8,
            RouteProtocol::Kernel => 2u8,
            RouteProtocol::Boot => 3u8,
            RouteProtocol::Static => 4u8,
            RouteProtocol::Gated => RTPROT_GATED,
            RouteProtocol::RouteAdvertisement => RTPROT_RA,
            RouteProtocol::MeritMrt => RTPROT_MRT,
            RouteProtocol::Zebra => RTPROT_ZEBRA,
            RouteProtocol::Bird => RTPROT_BIRD,
            RouteProtocol::Dnrouted => RTPROT_DNROUTED,
            RouteProtocol::Xorp => RTPROT_XORP,
            RouteProtocol::Netsukuku => RTPROT_NTK,
            RouteProtocol::Dhcp => RTPROT_DHCP,
            RouteProtocol::Mrouted => RTPROT_MROUTED,
            RouteProtocol::KeepAlived => RTPROT_KEEPALIVED,
            RouteProtocol::Babel => RTPROT_BABEL,
            RouteProtocol::OpenR => RTPROT_OPENR,
            RouteProtocol::Bgp => RTPROT_BGP,
            RouteProtocol::Isis => RTPROT_ISIS,
            RouteProtocol::Ospf => RTPROT_OSPF,
            RouteProtocol::Rip => RTPROT_RIP,
            RouteProtocol::EIgrp => RTPROT_EIGRP,
        }
    }

    /// The kernel's numeric value of this route protocol.
    pub fn raw_value(&self) -> (r: u8)
        ensures
            r == self.spec_raw(),
    {
        match self {
            RouteProtocol::Unspecified => 0u8,
            RouteProtocol::Redirect => 1u8,
            RouteProtocol::Kernel => 2u8,
            RouteProtocol::Boot => 3u8,
            RouteProtocol::Static => 4u8,
            RouteProtocol::Gated => RTPROT_GATED,
            RouteProtocol::RouteAdvertisement => RTPROT_RA,
            RouteProtocol::MeritMrt => RTPROT_MRT,
            RouteProtocol::Zebra => RTPROT_ZEBRA,
            RouteProtocol::Bird => RTPROT_BIRD,
            RouteProtocol::Dnrouted => RTPROT_DNROUTED,
            RouteProtocol::Xorp => RTPROT_XORP,
            RouteProtocol::Netsukuku => RTPROT_NTK,
            RouteProtocol::Dhcp => RTPROT_DHCP,
            RouteProtocol::Mrouted => RTPROT_MROUTED,
            RouteProtocol::KeepAlived => RTPROT_KEEPALIVED,
            RouteProtocol::Babel => RTPROT_BABEL,
            RouteProtocol::OpenR => RTPROT_OPENR,
            RouteProtocol::Bgp => RTPROT_BGP,
            RouteProtocol::Isis => RTPROT_ISIS,
            RouteProtocol::Ospf => RTPROT_OSPF,
            RouteProtocol::Rip => RTPROT_RIP,
            RouteProtocol::EIgrp => RTPROT_EIGRP,
        }
    }

    /// The route protocol with this numeric value, if it is recognized.
    pub open spec fn spec_from_raw(value: u8) -> Option<RouteProtocol> {
        if value == 0u8 {
            Some(RouteProtocol::Unspecified)
        } else if value == 1u8 {
            Some(RouteProtocol::Redirect)
        } else if value == 2u8 {
            Some(RouteProtocol::Kernel)
        } else if value == 3u8 {
            Some(RouteProtocol::Boot)
        } else if value == 4u8 {
            Some(RouteProtocol::Static)
        } else if value == RTPROT_GATED {
            Some(RouteProtocol::Gated)
        } else if value == RTPROT_RA {
            Some(RouteProtocol::RouteAdvertisement)
        } else if value == RTPROT_MRT {
            Some(RouteProtocol::MeritMrt)
        } else if value == RTPROT_ZEBRA {
            Some(RouteProtocol::Zebra)
        } else if value == RTPROT_BIRD {
            Some(RouteProtocol::Bird)
        } else if value == RTPROT_DNROUTED {
            Some(RouteProtocol::Dnrouted)
        } else if value == RTPROT_XORP {
            Some(RouteProtocol::Xorp)
        } else if value == RTPROT_NTK {
            Some(RouteProtocol::Netsukuku)
        } else if value == RTPROT_DHCP {
            Some(RouteProtocol::Dhcp)
        } else if value == RTPROT_MROUTED {
            Some(RouteProtocol::Mrouted)
        } else if value == RTPROT_KEEPALIVED {
            Some(RouteProtocol::KeepAlived)
        } else if value == RTPROT_BABEL {
            Some(RouteProtocol::Babel)
        } else if value == RTPROT_OPENR {
            Some(RouteProtocol::OpenR)
        } else if value == RTPROT_BGP {
            Some(RouteProtocol::Bgp)
        } else if value == RTPROT_ISIS {
            Some(RouteProtocol::Isis)
        } else if value == RTPROT_OSPF {
            Some(RouteProtocol::Ospf)
        } else if value == RTPROT_RIP {
            Some(RouteProtocol::Rip)
        } else if value == RTPROT_EIGRP {
            Some(RouteProtocol::EIgrp)
        } else {
            None
        }
    }

    /// The route protocol with this numeric value, if it is recognized.
    pub fn from_raw_value(value: u8) -> (r: Option<RouteProtocol>)
        ensures
            r == RouteProtocol::spec_from_raw(value),
    {
        if value == 0u8 {
            Some(RouteProtocol::Unspecified)
        } else if value == 1u8 {
            Some(RouteProtocol::Redirect)
        } else if value == 2u8 {
            Some(RouteProtocol::Kernel)
        } else if value == 3u8 {
            Some(RouteProtocol::Boot)
        } else if value == 4u8 {
            Some(RouteProtocol::Static)
        } else if value == RTPROT_GATED {
            Some(RouteProtocol::Gated)
        } else if value == RTPROT_RA {
            Some(RouteProtocol::RouteAdvertisement)
        } else if value == RTPROT_MRT {
            Some(RouteProtocol::MeritMrt)
        } else if value == RTPROT_ZEBRA {
            Some(RouteProtocol::Zebra)
        } else if value == RTPROT_BIRD {
            Some(RouteProtocol::Bird)
        } else if value == RTPROT_DNROUTED {
            Some(RouteProtocol::Dnrouted)
        } else if value == RTPROT_XORP {
            Some(RouteProtocol::Xorp)
        } else if value == RTPROT_NTK {
            Some(RouteProtocol::Netsukuku)
        } else if value == RTPROT_DHCP {
            Some(RouteProtocol::Dhcp)
        } else if value == RTPROT_MROUTED {
            Some(RouteProtocol::Mrouted)
        } else if value == RTPROT_KEEPALIVED {
            Some(RouteProtocol::KeepAlived)
        } else if value == RTPROT_BABEL {
            Some(RouteProtocol::Babel)
        } else if value == RTPROT_OPENR {
            Some(RouteProtocol::OpenR)
        } else if value == RTPROT_BGP {
            Some(RouteProtocol::Bgp)
        } else if value == RTPROT_ISIS {
            Some(RouteProtocol::Isis)
        } else if value == RTPROT_OSPF {
            Some(RouteProtocol::Ospf)
        } else if value == RTPROT_RIP {
            Some(RouteProtocol::Rip)
        } else if value == RTPROT_EIGRP {
            Some(RouteProtocol::EIgrp)
        } else {
            None
        }
    }

    /// Writing the value and reading it back gives the same route protocol.
    pub proof fn lemma_raw_round_trip(self)
        ensures
            RouteProtocol::spec_from_raw(self.spec_raw()) == Some(self),
    {
    }
}

} // verus!

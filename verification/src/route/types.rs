//! Route types, the kernel's `RTN_*` values.

use vstd::prelude::*;

verus! {

/// The type of a route, with the kernel's `RTN_*` values. A closed
/// set: a received value outside it is rejected as an unknown
/// enumerant.
#[derive(Debug, Clone, Copy, PartialEq, Eq, Structural)]
pub enum RouteType {
    /// `RTN_UNSPEC`
    Unspecified,
    /// `RTN_UNICAST`
    Unicast,
    /// `RTN_LOCAL`
    Local,
    /// `RTN_BROADCAST`
    Broadcast,
    /// `RTN_ANYCAST`
    Anycast,
    /// `RTN_MULTICAST`
    Multicast,
    /// `RTN_BLACKHOLE`
    Blackhole,
    /// `RTN_UNREACHABLE`
    Unreachable,
    /// `RTN_PROHIBIT`
    Prohibit,
    /// `RTN_THROW`
    Throw,
    /// `RTN_NAT`
    Nat,
    /// `RTN_XRESOLVE`
    ExternalResolve,
}

impl RouteType {
    /// The kernel's numeric value of this route type.
    pub open spec fn spec_raw(self) -> u8 {
        match self {
            RouteType::Unspecified => 0u8,
            RouteType::Unicast => 1u8,
            RouteType::Local => 2u8,
            RouteType::Broadcast => 3u8,
            RouteType::Anycast => 4u8,
            RouteType::Multicast => 5u8,
            RouteType::Blackhole => 6u8,
            RouteType::Unreachable => 7u8,
            RouteType::Prohibit => 8u8,
            RouteType::Throw => 9u8,
            RouteType::Nat => 10u8,
            RouteType::ExternalResolve => 11u8,
        }
    }

    /// The kernel's numeric value of this route type.
    pub fn raw_value(&self) -> (r: u8)
        ensures
            r == self.spec_raw(),
    {
        match self {
            RouteType::Unspecified => 0u8,
            RouteType::Unicast => 1u8,
            RouteType::Local => 2u8,
            RouteType::Broadcast => 3u8,
            RouteType::Anycast => 4u8,
            RouteType::Multicast => 5u8,
            RouteType::Blackhole => 6u8,
            RouteType::Unreachable => 7u8,
            RouteType::Prohibit => 8u8,
            RouteType::Throw => 9u8,
            RouteType::Nat => 10u8,
            RouteType::ExternalResolve => 11u8,
        }
    }

    /// The route type with this numeric value, if it is recognized.
    pub open spec fn spec_from_raw(value: u8) -> Option<RouteType> {
        if value == 0u8 {
            Some(RouteType::Unspecified)
        } else if value == 1u8 {
            Some(RouteType::Unicast)
        } else if value == 2u8 {
            Some(RouteType::Local)
        } else if value == 3u8 {
            Some(RouteType::Broadcast)
        } else if value == 4u8 {
            Some(RouteType::Anycast)
        } else if value == 5u8 {
            Some(RouteType::Multicast)
        } else if value == 6u8 {
            Some(RouteType::Blackhole)
        } else if value == 7u8 {
            Some(RouteType::Unreachable)
        } else if value == 8u8 {
            Some(RouteType::Prohibit)
        } else if value == 9u8 {
            Some(RouteType::Throw)
        } else if value == 10u8 {
            Some(RouteType::Nat)
        } else if value == 11u8 {
            Some(RouteType::ExternalResolve)
        } else {
            None
        }
    }

    /// The route type with this numeric value, if it is recognized.
    pub fn from_raw_value(value: u8) -> (r: Option<RouteType>)
        ensures
            r == RouteType::spec_from_raw(value),
    {
        if value == 0u8 {
            Some(RouteType::Unspecified)
        } else if value == 1u8 {
            Some(RouteType::Unicast)
        } else if value == 2u8 {
            Some(RouteType::Local)
        } else if value == 3u8 {
            Some(RouteType::Broadcast)
        } else if value == 4u8 {
            Some(RouteType::Anycast)
        } else if value == 5u8 {
            Some(RouteType::Multicast)
        } else if value == 6u8 {
            Some(RouteType::Blackhole)
        } else if value == 7u8 {
            Some(RouteType::Unreachable)
        } else if value == 8u8 {
            Some(RouteType::Prohibit)
        } else if value == 9u8 {
            Some(RouteType::Throw)
        } else if value == 10u8 {
            Some(RouteType::Nat)
        } else if value == 11u8 {
            Some(RouteType::ExternalResolve)
        } else {
            None
        }
    }

    /// Writing the value and reading it back gives the same route type.
    pub proof fn lemma_raw_round_trip(self)
        ensures
            RouteType::spec_from_raw(self.spec_raw()) == Some(self),
    {
    }
}

} // verus!

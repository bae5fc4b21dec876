//! Route scopes, the kernel's `RT_SCOPE_*` values.

use vstd::prelude::*;

verus! {

/// The scope of a route, with the kernel's `RT_SCOPE_*` values. A
/// closed set: a received value outside it is rejected as an unknown
/// enumerant.
#[derive(Debug, Clone, Copy, PartialEq, Eq, Structural)]
pub enum RouteScope {
    /// `RT_SCOPE_UNIVERSE`
    Universe,
    /// `RT_SCOPE_SITE`
    Site,
    /// `RT_SCOPE_LINK`
    Link,
    /// `RT_SCOPE_HOST`
    Host,
    /// `RT_SCOPE_NOWHERE`
    Nowhere,
}

impl RouteScope {
    /// The kernel's numeric value of this route scope.
    pub open spec fn spec_raw(self) -> u8 {
        match self {
            RouteScope::Universe => 0u8,
            RouteScope::Site => 200u8,
            RouteScope::Link => 253u8,
            RouteScope::Host => 254u8,
            RouteScope::Nowhere => 255u8,
        }
    }

    /// The kernel's numeric value of this route scope.
    pub fn raw_value(&self) -> (r: u8)
        ensures
            r == self.spec_raw(),
    {
        match self {
            RouteScope::Universe => 0u8,
            RouteScope::Site => 200u8,
            RouteScope::Link => 253u8,
            RouteScope::Host => 254u8,
            RouteScope::Nowhere => 255u8,
        }
    }

    /// The route scope with this numeric value, if it is recognized.
    pub open spec fn spec_from_raw(value: u8) -> Option<RouteScope> {
        if value == 0u8 {
            Some(RouteScope::Universe)
        } else if value == 200u8 {
            Some(RouteScope::Site)
        } else if value == 253u8 {
            Some(RouteScope::Link)
        } else if value == 254u8 {
            Some(RouteScope::Host)
        } else if value == 255u8 {
            Some(RouteScope::Nowhere)
        } else {
            None
        }
    }

    /// The route scope with this numeric value, if it is recognized.
    pub fn from_raw_value(value: u8) -> (r: Option<RouteScope>)
        ensures
            r == RouteScope::spec_from_raw(value),
    {
        if value == 0u8 {
            Some(RouteScope::Universe)
        } else if value == 200u8 {
            Some(RouteScope::Site)
        } else if value == 253u8 {
            Some(RouteScope::Link)
        } else if value == 254u8 {
            Some(RouteScope::Host)
        } else if value == 255u8 {
            Some(RouteScope::Nowhere)
        } else {
            None
        }
    }

    /// Writing the value and reading it back gives the same route scope.
    pub proof fn lemma_raw_round_trip(self)
        ensures
            RouteScope::spec_from_raw(self.spec_raw()) == Some(self),
    {
    }
}

} // verus!

//! Message types of the outer header: the four base types every
//! netlink family shares, and the route sub-protocol's own operations.

use vstd::prelude::*;

verus! {

/// Message types of the route sub-protocol, with the kernel's `RTM_*`
/// values. The abbreviations of the C names are expanded: `Del` to
/// `Delete`, `Addr` to `Address`, `Neigh` to `Neighbor`, `T` to
/// `Traffic`.
#[derive(Debug, Clone, Copy, PartialEq, Eq, Structural)]
pub enum RouteType {
    /// `RTM_NEWLINK`
    NewLink,
    /// `RTM_DELLINK`
    DeleteLink,
    /// `RTM_GETLINK`
    GetLink,
    /// `RTM_NEWADDR`
    NewAddress,
    /// `RTM_DELADDR`
    DeleteAddress,
    /// `RTM_GETADDR`
    GetAddress,
    /// `RTM_NEWROUTE`
    NewRoute,
    /// `RTM_DELROUTE`
    DeleteRoute,
    /// `RTM_GETROUTE`
    GetRoute,
    /// `RTM_NEWNEIGH`
    NewNeighbor,
    /// `RTM_DELNEIGH`
    DeleteNeighbor,
    /// `RTM_GETNEIGH`
    GetNeighbor,
    /// `RTM_NEWRULE`
    NewRule,
    /// `RTM_DELRULE`
    DeleteRule,
    /// `RTM_GETRULE`
    GetRule,
    /// `RTM_NEWTCLASS`
    NewTrafficClass,
    /// `RTM_DELTCLASS`
    DeleteTrafficClass,
    /// `RTM_GETTCLASS`
    GetTrafficClass,
    /// `RTM_NEWTFILTER`
    NewTrafficFilter,
    /// `RTM_DELTFILTER`
    DeleteTrafficFilter,
    /// `RTM_GETTFILTER`
    GetTrafficFilter,
}

impl RouteType {
    /// The kernel's numeric value of this route message type.
    pub open spec fn spec_raw(self) -> u16 {
        match self {
            RouteType::NewLink => 16u16,
            RouteType::DeleteLink => 17u16,
            RouteType::GetLink => 18u16,
            RouteType::NewAddress => 20u16,
            RouteType::DeleteAddress => 21u16,
            RouteType::GetAddress => 22u16,
            RouteType::NewRoute => 24u16,
            RouteType::DeleteRoute => 25u16,
            RouteType::GetRoute => 26u16,
            RouteType::NewNeighbor => 28u16,
            RouteType::DeleteNeighbor => 29u16,
            RouteType::GetNeighbor => 30u16,
            RouteType::NewRule => 32u16,
            RouteType::DeleteRule => 33u16,
            RouteType::GetRule => 34u16,
            RouteType::NewTrafficClass => 36u16,
            RouteType::DeleteTrafficClass => 37u16,
            RouteType::GetTrafficClass => 38u16,
            RouteType::NewTrafficFilter => 40u16,
            RouteType::DeleteTrafficFilter => 41u16,
            RouteType::GetTrafficFilter => 42u16,
        }
    }

    /// The kernel's numeric value of this route message type.
    pub fn raw_value(&self) -> (r: u16)
        ensures
            r == self.spec_raw(),
    {
        match self {
            RouteType::NewLink => 16u16,
            RouteType::DeleteLink => 17u16,
            RouteType::GetLink => 18u16,
            RouteType::NewAddress => 20u16,
            RouteType::DeleteAddress => 21u16,
            RouteType::GetAddress => 22u16,
            RouteType::NewRoute => 24u16,
            RouteType::DeleteRoute => 25u16,
            RouteType::GetRoute => 26u16,
            RouteType::NewNeighbor => 28u16,
            RouteType::DeleteNeighbor => 29u16,
            RouteType::GetNeighbor => 30u16,
            RouteType::NewRule => 32u16,
            RouteType::DeleteRule => 33u16,
            RouteType::GetRule => 34u16,
            RouteType::NewTrafficClass => 36u16,
            RouteType::DeleteTrafficClass => 37u16,
            RouteType::GetTrafficClass => 38u16,
            RouteType::NewTrafficFilter => 40u16,
            RouteType::DeleteTrafficFilter => 41u16,
            RouteType::GetTrafficFilter => 42u16,
        }
    }

    /// The route message type with this numeric value, if it is recognized.
    pub open spec fn spec_from_raw(value: u16) -> Option<RouteType> {
        if value == 16u16 {
            Some(RouteType::NewLink)
        } else if value == 17u16 {
            Some(RouteType::DeleteLink)
        } else if value == 18u16 {
            Some(RouteType::GetLink)
        } else if value == 20u16 {
            Some(RouteType::NewAddress)
        } else if value == 21u16 {
            Some(RouteType::DeleteAddress)
        } else if value == 22u16 {
            Some(RouteType::GetAddress)
        } else if value == 24u16 {
            Some(RouteType::NewRoute)
        } else if value == 25u16 {
            Some(RouteType::DeleteRoute)
        } else if value == 26u16 {
            Some(RouteType::GetRoute)
        } else if value == 28u16 {
            Some(RouteType::NewNeighbor)
        } else if value == 29u16 {
            Some(RouteType::DeleteNeighbor)
        } else if value == 30u16 {
            Some(RouteType::GetNeighbor)
        } else if value == 32u16 {
            Some(RouteType::NewRule)
        } else if value == 33u16 {
            Some(RouteType::DeleteRule)
        } else if value == 34u16 {
            Some(RouteType::GetRule)
        } else if value == 36u16 {
            Some(RouteType::NewTrafficClass)
        } else if value == 37u16 {
            Some(RouteType::DeleteTrafficClass)
        } else if value == 38u16 {
            Some(RouteType::GetTrafficClass)
        } else if value == 40u16 {
            Some(RouteType::NewTrafficFilter)
        } else if value == 41u16 {
            Some(RouteType::DeleteTrafficFilter)
        } else if value == 42u16 {
            Some(RouteType::GetTrafficFilter)
        } else {
            None
        }
    }

    /// The route message type with this numeric value, if it is recognized.
    pub fn from_raw_value(value: u16) -> (r: Option<RouteType>)
        ensures
            r == RouteType::spec_from_raw(value),
    {
        if value == 16u16 {
            Some(RouteType::NewLink)
        } else if value == 17u16 {
            Some(RouteType::DeleteLink)
        } else if value == 18u16 {
            Some(RouteType::GetLink)
        } else if value == 20u16 {
            Some(RouteType::NewAddress)
        } else if value == 21u16 {
            Some(RouteType::DeleteAddress)
        } else if value == 22u16 {
            Some(RouteType::GetAddress)
        } else if value == 24u16 {
            Some(RouteType::NewRoute)
        } else if value == 25u16 {
            Some(RouteType::DeleteRoute)
        } else if value == 26u16 {
            Some(RouteType::GetRoute)
        } else if value == 28u16 {
            Some(RouteType::NewNeighbor)
        } else if value == 29u16 {
            Some(RouteType::DeleteNeighbor)
        } else if value == 30u16 {
            Some(RouteType::GetNeighbor)
        } else if value == 32u16 {
            Some(RouteType::NewRule)
        } else if value == 33u16 {
            Some(RouteType::DeleteRule)
        } else if value == 34u16 {
            Some(RouteType::GetRule)
        } else if value == 36u16 {
            Some(RouteType::NewTrafficClass)
        } else if value == 37u16 {
            Some(RouteType::DeleteTrafficClass)
        } else if value == 38u16 {
            Some(RouteType::GetTrafficClass)
        } else if value == 40u16 {
            Some(RouteType::NewTrafficFilter)
        } else if value == 41u16 {
            Some(RouteType::DeleteTrafficFilter)
        } else if value == 42u16 {
            Some(RouteType::GetTrafficFilter)
        } else {
            None
        }
    }

    /// Writing the value and reading it back gives the same route message type.
    pub proof fn lemma_raw_round_trip(self)
        ensures
            RouteType::spec_from_raw(self.spec_raw()) == Some(self),
    {
    }
}

/// A message type of the outer header: one of the four base types
/// every netlink family shares, or an operation of the route
/// sub-protocol. A closed set: a received value outside it is rejected
/// as an unknown enumerant.
#[derive(Debug, Clone, Copy, PartialEq, Eq, Structural)]
pub enum Type {
    /// `NLMSG_NOOP`
    Noop,
    /// `NLMSG_ERROR`
    Error,
    /// `NLMSG_DONE`
    Done,
    /// `NLMSG_OVERRUN`
    Overrun,
    /// An operation of the route sub-protocol, `RTM_*`.
    Route(RouteType),
}

impl Type {
    /// The kernel's numeric value of this message type.
    pub open spec fn spec_raw(self) -> u16 {
        match self {
            Type::Noop => 1u16,
            Type::Error => 2u16,
            Type::Done => 3u16,
            Type::Overrun => 4u16,
            Type::Route(r) => r.spec_raw(),
        }
    }

    /// The kernel's numeric value of this message type.
    pub fn raw_value(&self) -> (r: u16)
        ensures
            r == self.spec_raw(),
    {
        match self {
            Type::Noop => 1u16,
            Type::Error => 2u16,
            Type::Done => 3u16,
            Type::Overrun => 4u16,
            Type::Route(r) => r.raw_value(),
        }
    }

    /// The message type with this numeric value, if it is recognized.
    pub open spec fn spec_from_raw(value: u16) -> Option<Type> {
        if value == 1u16 {
            Some(Type::Noop)
        } else if value == 2u16 {
            Some(Type::Error)
        } else if value == 3u16 {
            Some(Type::Done)
        } else if value == 4u16 {
            Some(Type::Overrun)
        } else {
            match RouteType::spec_from_raw(value) {
                Some(r) => Some(Type::Route(r)),
                None => None,
            }
        }
    }

    /// The message type with this numeric value, if it is recognized.
    pub fn from_raw_value(value: u16) -> (r: Option<Type>)
        ensures
            r == Type::spec_from_raw(value),
    {
        if value == 1u16 {
            Some(Type::Noop)
        } else if value == 2u16 {
            Some(Type::Error)
        } else if value == 3u16 {
            Some(Type::Done)
        } else if value == 4u16 {
            Some(Type::Overrun)
        } else {
            match RouteType::from_raw_value(value) {
                Some(r) => Some(Type::Route(r)),
                None => None,
            }
        }
    }

    /// Writing the value and reading it back gives the same type.
    pub proof fn lemma_raw_round_trip(self)
        ensures
            Type::spec_from_raw(self.spec_raw()) == Some(self),
    {
        match self {
            Type::Route(r) => {
                r.lemma_raw_round_trip();
            },
            _ => {},
        }
    }
}

impl From<RouteType> for Type {
    /// A route operation, as an outer message type.
    fn from(route: RouteType) -> (r: Type) {
        Type::Route(route)
    }
}

impl vstd::std_specs::convert::FromSpecImpl<RouteType> for Type {
    open spec fn obeys_from_spec() -> bool {
        true
    }

    open spec fn from_spec(route: RouteType) -> Type {
        Type::Route(route)
    }
}

/// The netlink sub-protocols this library knows. Only the routing
/// sub-protocol is implemented by the core; the enumeration leaves room
/// for the others.
#[derive(Debug, Clone, Copy, PartialEq, Eq, Structural)]
pub enum Protocol {
    /// `NETLINK_ROUTE`
    Route,
}

impl Protocol {
    /// The kernel's numeric value of this sub-protocol.
    pub open spec fn spec_raw(self) -> i32 {
        match self {
            Protocol::Route => 0i32,
        }
    }

    /// The kernel's numeric value of this sub-protocol.
    pub fn raw_value(&self) -> (r: i32)
        ensures
            r == self.spec_raw(),
    {
        match self {
            Protocol::Route => 0i32,
        }
    }
}


} // verus!

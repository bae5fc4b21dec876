//! Routing tables, the kernel's `RT_TABLE_*` values.

use vstd::prelude::*;

verus! {

/// The routing table a route belongs to, with the kernel's
/// `RT_TABLE_*` values. A closed set: a received value outside it is
/// rejected as an unknown enumerant.
#[derive(Debug, Clone, Copy, PartialEq, Eq, Structural)]
pub enum RouteTable {
    /// `RT_TABLE_UNSPEC`
    Unspecified,
    /// `RT_TABLE_COMPAT`
    Compat,
    /// `RT_TABLE_DEFAULT`
    Default,
    /// `RT_TABLE_MAIN`
    Main,
    /// `RT_TABLE_LOCAL`
    Local,
}

impl RouteTable {
    /// The kernel's numeric value of this routing table.
    pub open spec fn spec_raw(self) -> u8 {
        match self {
            RouteTable::Unspecified => 0u8,
            RouteTable::Compat => 252u8,
            RouteTable::Default => 253u8,
            RouteTable::Main => 254u8,
            RouteTable::Local => 255u8,
        }
    }

    /// The kernel's numeric value of this routing table.
    pub fn raw_value(&self) -> (r: u8)
        ensures
            r == self.spec_raw(),
    {
        match self {
            RouteTable::Unspecified => 0u8,
            RouteTable::Compat => 252u8,
            RouteTable::Default => 253u8,
            RouteTable::Main => 254u8,
            RouteTable::Local => 255u8,
        }
    }

    /// The routing table with this numeric value, if it is recognized.
    pub open spec fn spec_from_raw(value: u8) -> Option<RouteTable> {
        if value == 0u8 {
            Some(RouteTable::Unspecified)
        } else if value == 252u8 {
            Some(RouteTable::Compat)
        } else if value == 253u8 {
            Some(RouteTable::Default)
        } else if value == 254u8 {
            Some(RouteTable::Main)
        } else if value == 255u8 {
            Some(RouteTable::Local)
        } else {
            None
        }
    }

    /// The routing table with this numeric value, if it is recognized.
    pub fn from_raw_value(value: u8) -> (r: Option<RouteTable>)
        ensures
            r == RouteTable::spec_from_raw(value),
    {
        if value == 0u8 {
            Some(RouteTable::Unspecified)
        } else if value == 252u8 {
            Some(RouteTable::Compat)
        } else if value == 253u8 {
            Some(RouteTable::Default)
        } else if value == 254u8 {
            Some(RouteTable::Main)
        } else if value == 255u8 {
            Some(RouteTable::Local)
        } else {
            None
        }
    }

    /// Writing the value and reading it back gives the same routing table.
    pub proof fn lemma_raw_round_trip(self)
        ensures
            RouteTable::spec_from_raw(self.spec_raw()) == Some(self),
    {
    }
}

} // verus!

//! Route flags of the route record: the `RTM_F_*` constants and the
//! 32-bit field that carries them.

use vstd::prelude::*;

verus! {

/// One route flag, with the kernel's `RTM_F_*` value.
#[derive(Debug, Clone, Copy, PartialEq, Eq, Structural)]
pub enum RouteFlag {
    /// `RTM_F_NOTIFY`
    Notify,
    /// `RTM_F_CLONED`
    Cloned,
    /// `RTM_F_EQUALIZE`
    Equalize,
    /// `RTM_F_PREFIX`
    Prefix,
}

impl RouteFlag {
    /// The kernel's numeric value of this route flag.
    pub open spec fn spec_raw(self) -> u32 {
        match self {
            RouteFlag::Notify => 0x100u32,
            RouteFlag::Cloned => 0x200u32,
            RouteFlag::Equalize => 0x400u32,
            RouteFlag::Prefix => 0x800u32,
        }
    }

    /// The kernel's numeric value of this route flag.
    pub fn raw_value(&self) -> (r: u32)
        ensures
            r == self.spec_raw(),
    {
        match self {
            RouteFlag::Notify => 0x100u32,
            RouteFlag::Cloned => 0x200u32,
            RouteFlag::Equalize => 0x400u32,
            RouteFlag::Prefix => 0x800u32,
        }
    }

    /// The route flag with this numeric value, if it is recognized.
    pub open spec fn spec_from_raw(value: u32) -> Option<RouteFlag> {
        if value == 0x100u32 {
            Some(RouteFlag::Notify)
        } else if value == 0x200u32 {
            Some(RouteFlag::Cloned)
        } else if value == 0x400u32 {
            Some(RouteFlag::Equalize)
        } else if value == 0x800u32 {
            Some(RouteFlag::Prefix)
        } else {
            None
        }
    }

    /// The route flag with this numeric value, if it is recognized.
    pub fn from_raw_value(value: u32) -> (r: Option<RouteFlag>)
        ensures
            r == RouteFlag::spec_from_raw(value),
    {
        if value == 0x100u32 {
            Some(RouteFlag::Notify)
        } else if value == 0x200u32 {
            Some(RouteFlag::Cloned)
        } else if value == 0x400u32 {
            Some(RouteFlag::Equalize)
        } else if value == 0x800u32 {
            Some(RouteFlag::Prefix)
        } else {
            None
        }
    }

    /// Writing the value and reading it back gives the same route flag.
    pub proof fn lemma_raw_round_trip(self)
        ensures
            RouteFlag::spec_from_raw(self.spec_raw()) == Some(self),
    {
    }
}

/// The 32-bit route flag field of the route record. Known bits have
/// named flags; unknown bits are preserved and round-tripped.
#[derive(Debug, Clone, Copy, PartialEq, Eq, Structural)]
pub struct RouteFlags {
    inner: u32,
}

impl View for RouteFlags {
    type V = u32;

    closed spec fn view(&self) -> u32 {
        self.inner
    }
}

impl RouteFlags {
    /// The bits of a list of flags, OR-ed together.
    pub open spec fn spec_bits_of(flags: Seq<RouteFlag>) -> u32
        decreases flags.len(),
    {
        if flags.len() == 0 {
            0u32
        } else {
            RouteFlags::spec_bits_of(flags.drop_last()) | flags.last().spec_raw()
        }
    }

    /// A bitfield holding exactly the given flags.
    pub fn new(flags: &[RouteFlag]) -> (r: RouteFlags)
        ensures
            r@ == RouteFlags::spec_bits_of(flags@),
    {
        let mut inner: u32 = 0;
        let mut i: usize = 0;
        proof {
            assert(flags@.take(0) =~= Seq::<RouteFlag>::empty());
        }
        while i < flags.len()
            invariant
                i <= flags@.len(),
                inner == RouteFlags::spec_bits_of(flags@.take(i as int)),
            decreases flags@.len() - i,
        {
            inner = inner | flags[i].raw_value();
            proof {
                assert(flags@.take(i + 1).drop_last() =~= flags@.take(i as int));
                assert(flags@.take(i + 1).last() == flags@[i as int]);
            }
            i = i + 1;
        }
        proof {
            assert(flags@.take(flags@.len() as int) =~= flags@);
        }
        RouteFlags { inner }
    }

    /// A bitfield with no flag set.
    pub fn empty() -> (r: RouteFlags)
        ensures
            r@ == 0,
    {
        RouteFlags { inner: 0 }
    }

    /// A bitfield holding exactly these bits. Unknown bits are kept as
    /// they are, so received patterns round-trip untouched.
    pub fn with_bits(flags: u32) -> (r: RouteFlags)
        ensures
            r@ == flags,
    {
        RouteFlags { inner: flags }
    }

    /// The raw bits of the bitfield.
    pub fn bits(&self) -> (r: u32)
        ensures
            r == self@,
    {
        self.inner
    }

    /// The bitfield with this flag also set.
    pub fn add_flag(self, flag: RouteFlag) -> (r: RouteFlags)
        ensures
            r@ == (self@ | flag.spec_raw()),
    {
        RouteFlags { inner: self.inner | flag.raw_value() }
    }

    /// The bitfield with this flag cleared.
    pub fn remove_flag(self, flag: RouteFlag) -> (r: RouteFlags)
        ensures
            r@ == (self@ & !flag.spec_raw()),
    {
        RouteFlags { inner: self.inner & !flag.raw_value() }
    }

    /// Whether this flag is set.
    pub fn has_flag(&self, flag: RouteFlag) -> (r: bool)
        ensures
            r == ((self@ & flag.spec_raw()) > 0),
    {
        (self.inner & flag.raw_value()) > 0
    }
}

impl Default for RouteFlags {
    /// The empty bitfield.
    fn default() -> (r: RouteFlags)
        ensures
            r@ == 0,
    {
        RouteFlags { inner: 0 }
    }
}

} // verus!

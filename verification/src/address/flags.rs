//! Address flags of the address record: the `IFA_F_*` constants and
//! the bitfield that carries them.

use vstd::prelude::*;

verus! {

/// One address flag, with the kernel's `IFA_F_*` value.
#[derive(Debug, Clone, Copy, PartialEq, Eq, Structural)]
pub enum AddressFlag {
    /// `IFA_F_TEMPORARY`
    Temporary,
    /// `IFA_F_NODAD`
    NoDad,
    /// `IFA_F_OPTIMISTIC`
    Optimistic,
    /// `IFA_F_DADFAILED`
    DadFailed,
    /// `IFA_F_HOMEADDRESS`
    HomeAddress,
    /// `IFA_F_DEPRECATED`
    Deprecated,
    /// `IFA_F_TENTATIVE`
    Tentative,
    /// `IFA_F_PERMANENT`
    Permanent,
    /// `IFA_F_MANAGETEMPADDR`
    ManageTempAddr,
    /// `IFA_F_NOPREFIXROUTE`
    NoPrefixRoute,
    /// `IFA_F_MCAUTOJOIN`
    MulticastAutoJoin,
    /// `IFA_F_STABLE_PRIVACY`
    StablePrivacy,
}

impl AddressFlag {
    /// The kernel's numeric value of this address flag.
    pub open spec fn spec_raw(self) -> u32 {
        match self {
            AddressFlag::Temporary => 0x01u32,
            AddressFlag::NoDad => 0x02u32,
            AddressFlag::Optimistic => 0x04u32,
            AddressFlag::DadFailed => 0x08u32,
            AddressFlag::HomeAddress => 0x10u32,
            AddressFlag::Deprecated => 0x20u32,
            AddressFlag::Tentative => 0x40u32,
            AddressFlag::Permanent => 0x80u32,
            AddressFlag::ManageTempAddr => 0x100u32,
            AddressFlag::NoPrefixRoute => 0x200u32,
            AddressFlag::MulticastAutoJoin => 0x400u32,
            AddressFlag::StablePrivacy => 0x800u32,
        }
    }

    /// The kernel's numeric value of this address flag.
    pub fn raw_value(&self) -> (r: u32)
        ensures
            r == self.spec_raw(),
    {
        match self {
            AddressFlag::Temporary => 0x01u32,
            AddressFlag::NoDad => 0x02u32,
            AddressFlag::Optimistic => 0x04u32,
            AddressFlag::DadFailed => 0x08u32,
            AddressFlag::HomeAddress => 0x10u32,
            AddressFlag::Deprecated => 0x20u32,
            AddressFlag::Tentative => 0x40u32,
            AddressFlag::Permanent => 0x80u32,
            AddressFlag::ManageTempAddr => 0x100u32,
            AddressFlag::NoPrefixRoute => 0x200u32,
            AddressFlag::MulticastAutoJoin => 0x400u32,
            AddressFlag::StablePrivacy => 0x800u32,
        }
    }

    /// The address flag with this numeric value, if it is recognized.
    pub open spec fn spec_from_raw(value: u32) -> Option<AddressFlag> {
        if value == 0x01u32 {
            Some(AddressFlag::Temporary)
        } else if value == 0x02u32 {
            Some(AddressFlag::NoDad)
        } else if value == 0x04u32 {
            Some(AddressFlag::Optimistic)
        } else if value == 0x08u32 {
            Some(AddressFlag::DadFailed)
        } else if value == 0x10u32 {
            Some(AddressFlag::HomeAddress)
        } else if value == 0x20u32 {
            Some(AddressFlag::Deprecated)
        } else if value == 0x40u32 {
            Some(AddressFlag::Tentative)
        } else if value == 0x80u32 {
            Some(AddressFlag::Permanent)
        } else if value == 0x100u32 {
            Some(AddressFlag::ManageTempAddr)
        } else if value == 0x200u32 {
            Some(AddressFlag::NoPrefixRoute)
        } else if value == 0x400u32 {
            Some(AddressFlag::MulticastAutoJoin)
        } else if value == 0x800u32 {
            Some(AddressFlag::StablePrivacy)
        } else {
            None
        }
    }

    /// The address flag with this numeric value, if it is recognized.
    pub fn from_raw_value(value: u32) -> (r: Option<AddressFlag>)
        ensures
            r == AddressFlag::spec_from_raw(value),
    {
        if value == 0x01u32 {
            Some(AddressFlag::Temporary)
        } else if value == 0x02u32 {
            Some(AddressFlag::NoDad)
        } else if value == 0x04u32 {
            Some(AddressFlag::Optimistic)
        } else if value == 0x08u32 {
            Some(AddressFlag::DadFailed)
        } else if value == 0x10u32 {
            Some(AddressFlag::HomeAddress)
        } else if value == 0x20u32 {
            Some(AddressFlag::Deprecated)
        } else if value == 0x40u32 {
            Some(AddressFlag::Tentative)
        } else if value == 0x80u32 {
            Some(AddressFlag::Permanent)
        } else if value == 0x100u32 {
            Some(AddressFlag::ManageTempAddr)
        } else if value == 0x200u32 {
            Some(AddressFlag::NoPrefixRoute)
        } else if value == 0x400u32 {
            Some(AddressFlag::MulticastAutoJoin)
        } else if value == 0x800u32 {
            Some(AddressFlag::StablePrivacy)
        } else {
            None
        }
    }

    /// Writing the value and reading it back gives the same address flag.
    pub proof fn lemma_raw_round_trip(self)
        ensures
            AddressFlag::spec_from_raw(self.spec_raw()) == Some(self),
    {
    }
}

/// The address flag bits. The address record header carries the low
/// eight of them; the flags attribute carries all 32. Unknown bits are
/// preserved and round-tripped.
#[derive(Debug, Clone, Copy, PartialEq, Eq, Structural)]
pub struct AddressFlags {
    inner: u32,
}

impl View for AddressFlags {
    type V = u32;

    closed spec fn view(&self) -> u32 {
        self.inner
    }
}

impl AddressFlags {
    /// The bits of a list of flags, OR-ed together.
    pub open spec fn spec_bits_of(flags: Seq<AddressFlag>) -> u32
        decreases flags.len(),
    {
        if flags.len() == 0 {
            0u32
        } else {
            AddressFlags::spec_bits_of(flags.drop_last()) | flags.last().spec_raw()
        }
    }

    /// A bitfield holding exactly the given flags.
    pub fn new(flags: &[AddressFlag]) -> (r: AddressFlags)
        ensures
            r@ == AddressFlags::spec_bits_of(flags@),
    {
        let mut inner: u32 = 0;
        let mut i: usize = 0;
        proof {
            assert(flags@.take(0) =~= Seq::<AddressFlag>::empty());
        }
        while i < flags.len()
            invariant
                i <= flags@.len(),
                inner == AddressFlags::spec_bits_of(flags@.take(i as int)),
            decreases flags@.len() - i,
        {
            inner = inner | flags[i].raw_value();
            proof {
                assert(flags@.take(i + 1).drop_last() =~= flags@.take(i as int));
                assert(flags@.take(i + 1).last() == flags@[i as int]);
            }
            i = i + 1;
        }
        proof {
            assert(flags@.take(flags@.len() as int) =~= flags@);
        }
        AddressFlags { inner }
    }

    /// A bitfield with no flag set.
    pub fn empty() -> (r: AddressFlags)
        ensures
            r@ == 0,
    {
        AddressFlags { inner: 0 }
    }

    /// A bitfield holding exactly these bits. Unknown bits are kept as
    /// they are, so received patterns round-trip untouched.
    pub fn with_bits(flags: u32) -> (r: AddressFlags)
        ensures
            r@ == flags,
    {
        AddressFlags { inner: flags }
    }

    /// The raw bits of the bitfield.
    pub fn bits(&self) -> (r: u32)
        ensures
            r == self@,
    {
        self.inner
    }

    /// The bitfield with this flag also set.
    pub fn add_flag(self, flag: AddressFlag) -> (r: AddressFlags)
        ensures
            r@ == (self@ | flag.spec_raw()),
    {
        AddressFlags { inner: self.inner | flag.raw_value() }
    }

    /// The bitfield with this flag cleared.
    pub fn remove_flag(self, flag: AddressFlag) -> (r: AddressFlags)
        ensures
            r@ == (self@ & !flag.spec_raw()),
    {
        AddressFlags { inner: self.inner & !flag.raw_value() }
    }

    /// Whether this flag is set.
    pub fn has_flag(&self, flag: AddressFlag) -> (r: bool)
        ensures
            r == ((self@ & flag.spec_raw()) > 0),
    {
        (self.inner & flag.raw_value()) > 0
    }
}

impl Default for AddressFlags {
    /// The empty bitfield.
    fn default() -> (r: AddressFlags)
        ensures
            r@ == 0,
    {
        AddressFlags { inner: 0 }
    }
}

} // verus!

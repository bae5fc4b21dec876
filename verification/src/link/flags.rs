//! Interface flags of the link record: the `IFF_*` constants and the
//! 32-bit field that carries them.

use vstd::prelude::*;

verus! {

/// One interface flag, with the kernel's `IFF_*` value.
#[derive(Debug, Clone, Copy, PartialEq, Eq, Structural)]
pub enum InterfaceFlag {
    /// `IFF_UP`
    Up,
    /// `IFF_BROADCAST`
    Broadcast,
    /// `IFF_DEBUG`
    Debug,
    /// `IFF_LOOPBACK`
    Loopback,
    /// `IFF_POINTOPOINT`
    PointToPoint,
    /// `IFF_RUNNING`
    Running,
    /// `IFF_NOARP`
    NoArp,
    /// `IFF_PROMISC`
    Promiscuous,
    /// `IFF_NOTRAILERS`
    NoTrailers,
    /// `IFF_ALLMULTI`
    AllMulticast,
    /// `IFF_MASTER`
    Master,
    /// `IFF_SLAVE`
    Slave,
    /// `IFF_MULTICAST`
    Multicast,
    /// `IFF_PORTSEL`
    PortSelect,
    /// `IFF_AUTOMEDIA`
    AutoMedia,
    /// `IFF_DYNAMIC`
    Dynamic,
    /// `IFF_LOWER_UP`
    LowerUp,
    /// `IFF_DORMANT`
    Dormant,
    /// `IFF_ECHO`
    Echo,
}

impl InterfaceFlag {
    /// The kernel's numeric value of this interface flag.
    pub open spec fn spec_raw(self) -> u32 {
        match self {
            InterfaceFlag::Up => 0x1u32,
            InterfaceFlag::Broadcast => 0x2u32,
            InterfaceFlag::Debug => 0x4u32,
            InterfaceFlag::Loopback => 0x8u32,
            InterfaceFlag::PointToPoint => 0x10u32,
            InterfaceFlag::Running => 0x40u32,
            InterfaceFlag::NoArp => 0x80u32,
            InterfaceFlag::Promiscuous => 0x100u32,
            InterfaceFlag::NoTrailers => 0x20u32,
            InterfaceFlag::AllMulticast => 0x200u32,
            InterfaceFlag::Master => 0x400u32,
            InterfaceFlag::Slave => 0x800u32,
            InterfaceFlag::Multicast => 0x1000u32,
            InterfaceFlag::PortSelect => 0x2000u32,
            InterfaceFlag::AutoMedia => 0x4000u32,
            InterfaceFlag::Dynamic => 0x8000u32,
            InterfaceFlag::LowerUp => 0x10000u32,
            InterfaceFlag::Dormant => 0x20000u32,
            InterfaceFlag::Echo => 0x40000u32,
        }
    }

    /// The kernel's numeric value of this interface flag.
    pub fn raw_value(&self) -> (r: u32)
        ensures
            r == self.spec_raw(),
    {
        match self {
            InterfaceFlag::Up => 0x1u32,
            InterfaceFlag::Broadcast => 0x2u32,
            InterfaceFlag::Debug => 0x4u32,
            InterfaceFlag::Loopback => 0x8u32,
            InterfaceFlag::PointToPoint => 0x10u32,
            InterfaceFlag::Running => 0x40u32,
            InterfaceFlag::NoArp => 0x80u32,
            InterfaceFlag::Promiscuous => 0x100u32,
            InterfaceFlag::NoTrailers => 0x20u32,
            InterfaceFlag::AllMulticast => 0x200u32,
            InterfaceFlag::Master => 0x400u32,
            InterfaceFlag::Slave => 0x800u32,
            InterfaceFlag::Multicast => 0x1000u32,
            InterfaceFlag::PortSelect => 0x2000u32,
            InterfaceFlag::AutoMedia => 0x4000u32,
            InterfaceFlag::Dynamic => 0x8000u32,
            InterfaceFlag::LowerUp => 0x10000u32,
            InterfaceFlag::Dormant => 0x20000u32,
            InterfaceFlag::Echo => 0x40000u32,
        }
    }

    /// The interface flag with this numeric value, if it is recognized.
    pub open spec fn spec_from_raw(value: u32) -> Option<InterfaceFlag> {
        if value == 0x1u32 {
            Some(InterfaceFlag::Up)
        } else if value == 0x2u32 {
            Some(InterfaceFlag::Broadcast)
        } else if value == 0x4u32 {
            Some(InterfaceFlag::Debug)
        } else if value == 0x8u32 {
            Some(InterfaceFlag::Loopback)
        } else if value == 0x10u32 {
            Some(InterfaceFlag::PointToPoint)
        } else if value == 0x40u32 {
            Some(InterfaceFlag::Running)
        } else if value == 0x80u32 {
            Some(InterfaceFlag::NoArp)
        } else if value == 0x100u32 {
            Some(InterfaceFlag::Promiscuous)
        } else if value == 0x20u32 {
            Some(InterfaceFlag::NoTrailers)
        } else if value == 0x200u32 {
            Some(InterfaceFlag::AllMulticast)
        } else if value == 0x400u32 {
            Some(InterfaceFlag::Master)
        } else if value == 0x800u32 {
            Some(InterfaceFlag::Slave)
        } else if value == 0x1000u32 {
            Some(InterfaceFlag::Multicast)
        } else if value == 0x2000u32 {
            Some(InterfaceFlag::PortSelect)
        } else if value == 0x4000u32 {
            Some(InterfaceFlag::AutoMedia)
        } else if value == 0x8000u32 {
            Some(InterfaceFlag::Dynamic)
        } else if value == 0x10000u32 {
            Some(InterfaceFlag::LowerUp)
        } else if value == 0x20000u32 {
            Some(InterfaceFlag::Dormant)
        } else if value == 0x40000u32 {
            Some(InterfaceFlag::Echo)
        } else {
            None
        }
    }

    /// The interface flag with this numeric value, if it is recognized.
    pub fn from_raw_value(value: u32) -> (r: Option<InterfaceFlag>)
        ensures
            r == InterfaceFlag::spec_from_raw(value),
    {
        if value == 0x1u32 {
            Some(InterfaceFlag::Up)
        } else if value == 0x2u32 {
            Some(InterfaceFlag::Broadcast)
        } else if value == 0x4u32 {
            Some(InterfaceFlag::Debug)
        } else if value == 0x8u32 {
            Some(InterfaceFlag::Loopback)
        } else if value == 0x10u32 {
            Some(InterfaceFlag::PointToPoint)
        } else if value == 0x40u32 {
            Some(InterfaceFlag::Running)
        } else if value == 0x80u32 {
            Some(InterfaceFlag::NoArp)
        } else if value == 0x100u32 {
            Some(InterfaceFlag::Promiscuous)
        } else if value == 0x20u32 {
            Some(InterfaceFlag::NoTrailers)
        } else if value == 0x200u32 {
            Some(InterfaceFlag::AllMulticast)
        } else if value == 0x400u32 {
            Some(InterfaceFlag::Master)
        } else if value == 0x800u32 {
            Some(InterfaceFlag::Slave)
        } else if value == 0x1000u32 {
            Some(InterfaceFlag::Multicast)
        } else if value == 0x2000u32 {
            Some(InterfaceFlag::PortSelect)
        } else if value == 0x4000u32 {
            Some(InterfaceFlag::AutoMedia)
        } else if value == 0x8000u32 {
            Some(InterfaceFlag::Dynamic)
        } else if value == 0x10000u32 {
            Some(InterfaceFlag::LowerUp)
        } else if value == 0x20000u32 {
            Some(InterfaceFlag::Dormant)
        } else if value == 0x40000u32 {
            Some(InterfaceFlag::Echo)
        } else {
            None
        }
    }

    /// Writing the value and reading it back gives the same interface flag.
    pub proof fn lemma_raw_round_trip(self)
        ensures
            InterfaceFlag::spec_from_raw(self.spec_raw()) == Some(self),
    {
    }
}

/// The 32-bit interface flag field of the link record. Known bits have
/// named flags; unknown bits are preserved and round-tripped.
#[derive(Debug, Clone, Copy, PartialEq, Eq, Structural)]
pub struct InterfaceFlags {
    inner: u32,
}

impl View for InterfaceFlags {
    type V = u32;

    closed spec fn view(&self) -> u32 {
        self.inner
    }
}

impl InterfaceFlags {
    /// The bits of a list of flags, OR-ed together.
    pub open spec fn spec_bits_of(flags: Seq<InterfaceFlag>) -> u32
        decreases flags.len(),
    {
        if flags.len() == 0 {
            0u32
        } else {
            InterfaceFlags::spec_bits_of(flags.drop_last()) | flags.last().spec_raw()
        }
    }

    /// A bitfield holding exactly the given flags.
    pub fn new(flags: &[InterfaceFlag]) -> (r: InterfaceFlags)
        ensures
            r@ == InterfaceFlags::spec_bits_of(flags@),
    {
        let mut inner: u32 = 0;
        let mut i: usize = 0;
        proof {
            assert(flags@.take(0) =~= Seq::<InterfaceFlag>::empty());
        }
        while i < flags.len()
            invariant
                i <= flags@.len(),
                inner == InterfaceFlags::spec_bits_of(flags@.take(i as int)),
            decreases flags@.len() - i,
        {
            inner = inner | flags[i].raw_value();
            proof {
                assert(flags@.take(i + 1).drop_last() =~= flags@.take(i as int));
                assert(flags@.take(i + 1).last() == flags@[i as int]);
            }
            i = i + 1;
        }
        proof {
            assert(flags@.take(flags@.len() as int) =~= flags@);
        }
        InterfaceFlags { inner }
    }

    /// A bitfield with no flag set.
    pub fn empty() -> (r: InterfaceFlags)
        ensures
            r@ == 0,
    {
        InterfaceFlags { inner: 0 }
    }

    /// A bitfield holding exactly these bits. Unknown bits are kept as
    /// they are, so received patterns round-trip untouched.
    pub fn with_bits(flags: u32) -> (r: InterfaceFlags)
        ensures
            r@ == flags,
    {
        InterfaceFlags { inner: flags }
    }

    /// The raw bits of the bitfield.
    pub fn bits(&self) -> (r: u32)
        ensures
            r == self@,
    {
        self.inner
    }

    /// The bitfield with this flag also set.
    pub fn add_flag(self, flag: InterfaceFlag) -> (r: InterfaceFlags)
        ensures
            r@ == (self@ | flag.spec_raw()),
    {
        InterfaceFlags { inner: self.inner | flag.raw_value() }
    }

    /// The bitfield with this flag cleared.
    pub fn remove_flag(self, flag: InterfaceFlag) -> (r: InterfaceFlags)
        ensures
            r@ == (self@ & !flag.spec_raw()),
    {
        InterfaceFlags { inner: self.inner & !flag.raw_value() }
    }

    /// Whether this flag is set.
    pub fn has_flag(&self, flag: InterfaceFlag) -> (r: bool)
        ensures
            r == ((self@ & flag.spec_raw()) > 0),
    {
        (self.inner & flag.raw_value()) > 0
    }
}

impl Default for InterfaceFlags {
    /// The empty bitfield.
    fn default() -> (r: InterfaceFlags)
        ensures
            r@ == 0,
    {
        InterfaceFlags { inner: 0 }
    }
}

} // verus!

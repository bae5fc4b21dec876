//! The flag bitfield of the outer message header: the `NLM_F_*`
//! constants and the 16-bit field that carries them.

use vstd::prelude::*;

verus! {

/// One flag of the outer message header, with the kernel's
/// `NLM_F_*` value. Several of them share bits: the get selectors and
/// the new-object modifiers overlay each other.
#[derive(Debug, Clone, Copy, PartialEq, Eq, Structural)]
pub enum Flag {
    /// `NLM_F_REQUEST`
    Request,
    /// `NLM_F_MULTI`
    Multi,
    /// `NLM_F_ACK`
    Ack,
    /// `NLM_F_ECHO`
    Echo,
    /// `NLM_F_ROOT`
    Root,
    /// `NLM_F_MATCH`
    Match,
    /// `NLM_F_ATOMIC`
    Atomic,
    /// `NLM_F_DUMP`
    Dump,
    /// `NLM_F_REPLACE`
    Replace,
    /// `NLM_F_EXCL`
    Excl,
    /// `NLM_F_CREATE`
    Create,
    /// `NLM_F_APPEND`
    Append,
}

impl Flag {
    /// The kernel's numeric value of this flag.
    pub open spec fn spec_raw(self) -> u16 {
        match self {
            Flag::Request => 1u16,
            Flag::Multi => 2u16,
            Flag::Ack => 4u16,
            Flag::Echo => 8u16,
            Flag::Root => 0x100u16,
            Flag::Match => 0x200u16,
            Flag::Atomic => 0x400u16,
            Flag::Dump => 0x300u16,
            Flag::Replace => 0x100u16,
            Flag::Excl => 0x200u16,
            Flag::Create => 0x400u16,
            Flag::Append => 0x800u16,
        }
    }

    /// The kernel's numeric value of this flag.
    pub fn raw_value(&self) -> (r: u16)
        ensures
            r == self.spec_raw(),
    {
        match self {
            Flag::Request => 1u16,
            Flag::Multi => 2u16,
            Flag::Ack => 4u16,
            Flag::Echo => 8u16,
            Flag::Root => 0x100u16,
            Flag::Match => 0x200u16,
            Flag::Atomic => 0x400u16,
            Flag::Dump => 0x300u16,
            Flag::Replace => 0x100u16,
            Flag::Excl => 0x200u16,
            Flag::Create => 0x400u16,
            Flag::Append => 0x800u16,
        }
    }
}

/// The 16-bit flag field of the outer message header. Known bits have
/// named flags; unknown bits are preserved and round-tripped.
#[derive(Debug, Clone, Copy, PartialEq, Eq, Structural)]
pub struct Flags {
    inner: u16,
}

impl View for Flags {
    type V = u16;

    closed spec fn view(&self) -> u16 {
        self.inner
    }
}

impl Flags {
    /// The bits of a list of flags, OR-ed together.
    pub open spec fn spec_bits_of(flags: Seq<Flag>) -> u16
        decreases flags.len(),
    {
        if flags.len() == 0 {
            0u16
        } else {
            Flags::spec_bits_of(flags.drop_last()) | flags.last().spec_raw()
        }
    }

    /// A bitfield holding exactly the given flags.
    pub fn new(flags: &[Flag]) -> (r: Flags)
        ensures
            r@ == Flags::spec_bits_of(flags@),
    {
        let mut inner: u16 = 0;
        let mut i: usize = 0;
        proof {
            assert(flags@.take(0) =~= Seq::<Flag>::empty());
        }
        while i < flags.len()
            invariant
                i <= flags@.len(),
                inner == Flags::spec_bits_of(flags@.take(i as int)),
            decreases flags@.len() - i,
        {
            inner = inner | flags[i].raw_value();
            proof {
                assert(flags@.take(i + 1).drop_last() =~= flags@.take(i as int));
                assert(flags@.take(i + 1).last() == flags@[i as int]);
            }
            i = i + 1;
        }
        proof {
            assert(flags@.take(flags@.len() as int) =~= flags@);
        }
        Flags { inner }
    }

    /// A bitfield with no flag set.
    pub fn empty() -> (r: Flags)
        ensures
            r@ == 0,
    {
        Flags { inner: 0 }
    }

    /// A bitfield holding exactly these bits. Unknown bits are kept as
    /// they are, so received patterns round-trip untouched.
    pub fn with_bits(flags: u16) -> (r: Flags)
        ensures
            r@ == flags,
    {
        Flags { inner: flags }
    }

    /// The raw bits of the bitfield.
    pub fn bits(&self) -> (r: u16)
        ensures
            r == self@,
    {
        self.inner
    }

    /// The bitfield with this flag also set.
    pub fn add_flag(self, flag: Flag) -> (r: Flags)
        ensures
            r@ == (self@ | flag.spec_raw()),
    {
        Flags { inner: self.inner | flag.raw_value() }
    }

    /// The bitfield with this flag cleared.
    pub fn remove_flag(self, flag: Flag) -> (r: Flags)
        ensures
            r@ == (self@ & !flag.spec_raw()),
    {
        Flags { inner: self.inner & !flag.raw_value() }
    }

    /// Whether this flag is set.
    pub fn has_flag(&self, flag: Flag) -> (r: bool)
        ensures
            r == ((self@ & flag.spec_raw()) > 0),
    {
        (self.inner & flag.raw_value()) > 0
    }
}

impl Default for Flags {
    /// The empty bitfield.
    fn default() -> (r: Flags)
        ensures
            r@ == 0,
    {
        Flags { inner: 0 }
    }
}

} // verus!

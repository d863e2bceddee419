//! The flags register.
use vstd::prelude::*;

verus! {

/// A value of the flags register.
#[derive(Copy, Clone, Debug, PartialEq, Eq, Structural)]
pub struct RFlags(pub u64);

impl RFlags {
    /// The bit that enables interrupts.
    pub const INTERRUPT_FLAG: u64 = 0x200;

    /// Whether any bit of `flag` is set in the flags.
    pub fn contains(&self, flag: u64) -> (r: bool)
        ensures
            r == (self.0 & flag != 0),
    {
        self.0 & flag != 0
    }
}

/// Whether the flags enable interrupts.
pub fn interrupts_enabled(flags: RFlags) -> (r: bool)
    ensures
        r == (flags.0 & RFlags::INTERRUPT_FLAG != 0),
{
    flags.contains(RFlags::INTERRUPT_FLAG)
}

} // verus!

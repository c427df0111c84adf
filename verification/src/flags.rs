//! The processor status register `P`.

use vstd::prelude::*;

verus! {

/// Bit 0: the carry out of the last addition, shift or compare.
pub const CARRY: u8 = 0b0000_0001;

/// Bit 1: the last result was zero.
pub const ZERO: u8 = 0b0000_0010;

/// Bit 2: maskable interrupts are ignored.
pub const INTERRUPT_DISABLE: u8 = 0b0000_0100;

/// Bit 3: decimal mode, which this processor stores and ignores.
pub const DECIMAL_MODE: u8 = 0b0000_1000;

/// Bit 4: set in the status byte that `BRK` and `PHP` push.
pub const BREAK: u8 = 0b0001_0000;

/// Bit 5: unused, and set in every status byte that is pushed.
pub const BREAK2: u8 = 0b0010_0000;

/// Bit 6: the last addition or subtraction overflowed as a signed one.
pub const OVERFLOW: u8 = 0b0100_0000;

/// Bit 7: bit 7 of the last result.
pub const NEGATIVE: u8 = 0b1000_0000;

/// Whether every bit of `mask` is set in `p`.
pub open spec fn has_flag(p: u8, mask: u8) -> bool {
    p & mask == mask
}

/// `p` with the bits of `mask` set, or cleared, and its other bits as they
/// were.
pub open spec fn with_flag(p: u8, mask: u8, on: bool) -> u8 {
    if on {
        p | mask
    } else {
        p & !mask
    }
}

/// The status register: eight flag bits in one byte.
#[derive(Debug, Clone, Copy, PartialEq, Eq, Structural)]
pub struct CpuFlags {
    pub bits: u8,
}

impl CpuFlags {
    /// The mask of [`CARRY`].
    pub const CARRY: u8 = 0b0000_0001;

    /// The mask of [`ZERO`].
    pub const ZERO: u8 = 0b0000_0010;

    /// The mask of [`INTERRUPT_DISABLE`].
    pub const INTERRUPT_DISABLE: u8 = 0b0000_0100;

    /// The mask of [`DECIMAL_MODE`].
    pub const DECIMAL_MODE: u8 = 0b0000_1000;

    /// The mask of [`BREAK`].
    pub const BREAK: u8 = 0b0001_0000;

    /// The mask of [`BREAK2`].
    pub const BREAK2: u8 = 0b0010_0000;

    /// The mask of [`OVERFLOW`].
    pub const OVERFLOW: u8 = 0b0100_0000;

    /// The mask of [`NEGATIVE`].
    pub const NEGATIV: u8 = 0b1000_0000;

    /// The register that holds exactly `bits`; all eight bits are flags, so
    /// none is dropped.
    pub fn from_bits_truncate(bits: u8) -> (flags: CpuFlags)
        ensures
            flags.bits == bits,
    {
        CpuFlags { bits }
    }

    /// The register as a byte.
    pub fn bits(&self) -> (bits: u8)
        ensures
            bits == self.bits,
    {
        self.bits
    }

    /// Whether every flag of `mask` is set.
    pub fn contains(&self, mask: u8) -> (set: bool)
        ensures
            set == has_flag(self.bits, mask),
    {
        self.bits & mask == mask
    }

    /// Sets the flags of `mask`.
    pub fn insert(&mut self, mask: u8)
        ensures
            final(self).bits == with_flag(old(self).bits, mask, true),
    {
        self.bits = self.bits | mask;
    }

    /// Clears the flags of `mask`.
    pub fn remove(&mut self, mask: u8)
        ensures
            final(self).bits == with_flag(old(self).bits, mask, false),
    {
        self.bits = self.bits & !mask;
    }

    /// Sets the flags of `mask` if `value` holds, and clears them if not.
    pub fn set(&mut self, mask: u8, value: bool)
        ensures
            final(self).bits == with_flag(old(self).bits, mask, value),
    {
        if value {
            self.insert(mask);
        } else {
            self.remove(mask);
        }
    }
}

/// After a flag is set or cleared, a test of it says so.
pub proof fn lemma_with_flag_decides(p: u8, mask: u8, on: bool)
    requires
        mask != 0,
    ensures
        has_flag(with_flag(p, mask, on), mask) == on,
{
    assert((p | mask) & mask == mask) by (bit_vector);
    assert(mask != 0 ==> (p & !mask) & mask != mask) by (bit_vector);
}

/// Setting or clearing flags leaves every disjoint flag as it was.
pub proof fn lemma_with_flag_keeps(p: u8, mask: u8, other: u8, on: bool)
    requires
        mask & other == 0,
    ensures
        has_flag(with_flag(p, mask, on), other) == has_flag(p, other),
{
    assert(mask & other == 0 ==> (p | mask) & other == p & other) by (bit_vector);
    assert(mask & other == 0 ==> (p & !mask) & other == p & other) by (bit_vector);
}

} // verus!

//! Sticky modifier flags, held as a bit set in one byte.
use vstd::prelude::*;

verus! {

/// The Control modifier bit.
pub const CTRL_BITS: u8 = 0b00001;

/// The Shift modifier bit.
pub const SHFT_BITS: u8 = 0b00010;

/// A set of sticky modifier flags. Each bit of `bits` is one flag.
#[derive(Clone, Copy, Debug, PartialEq, Eq, Structural)]
pub struct StateFlags {
    pub bits: u8,
}

impl StateFlags {
    /// The set with no flag.
    pub fn empty() -> (r: StateFlags)
        ensures
            r.bits == 0,
    {
        StateFlags { bits: 0 }
    }

    /// The set holding the Control flag alone.
    pub fn ctrl() -> (r: StateFlags)
        ensures
            r.bits == CTRL_BITS,
    {
        StateFlags { bits: CTRL_BITS }
    }

    /// The set holding the Shift flag alone.
    pub fn shft() -> (r: StateFlags)
        ensures
            r.bits == SHFT_BITS,
    {
        StateFlags { bits: SHFT_BITS }
    }

    /// The set whose flags are the bits of `bits`.
    pub fn from_bits(bits: u8) -> (r: StateFlags)
        ensures
            r.bits == bits,
    {
        StateFlags { bits }
    }

    /// The flags of both sets.
    pub open spec fn union_spec(self, other: StateFlags) -> StateFlags {
        StateFlags { bits: self.bits | other.bits }
    }

    /// The flags of `self` that are not in `other`.
    pub open spec fn difference_spec(self, other: StateFlags) -> StateFlags {
        StateFlags { bits: self.bits & !other.bits }
    }

    /// Every flag of `other` is in `self`.
    pub open spec fn contains_spec(self, other: StateFlags) -> bool {
        self.bits & other.bits == other.bits
    }

    /// Whether no flag is set.
    pub fn is_empty(&self) -> (r: bool)
        ensures
            r == (self.bits == 0),
    {
        self.bits == 0
    }

    /// Whether every flag of `other` is set in `self`.
    pub fn contains(&self, other: StateFlags) -> (r: bool)
        ensures
            r == self.contains_spec(other),
    {
        self.bits & other.bits == other.bits
    }

    /// Sets every flag of `other`.
    pub fn insert(&mut self, other: StateFlags)
        ensures
            *final(self) == old(self).union_spec(other),
    {
        self.bits = self.bits | other.bits;
    }

    /// Clears every flag of `other`.
    pub fn remove(&mut self, other: StateFlags)
        ensures
            *final(self) == old(self).difference_spec(other),
    {
        self.bits = self.bits & !other.bits;
    }
}

} // verus!

//! The modifier and state bits attached to an event.
use vstd::prelude::*;

verus! {

/// No bit set.
pub const FLAG_NULL: u64 = 0;

/// Caps lock is on.
pub const FLAG_ALPHA_SHIFT: u64 = 0x0001_0000;

/// A shift key is down.
pub const FLAG_SHIFT: u64 = 0x0002_0000;

/// A control key is down.
pub const FLAG_CONTROL: u64 = 0x0004_0000;

/// An option key is down.
pub const FLAG_ALTERNATE: u64 = 0x0008_0000;

/// A command key is down.
pub const FLAG_COMMAND: u64 = 0x0010_0000;

/// The help key is down.
pub const FLAG_HELP: u64 = 0x0040_0000;

/// The fn key is down.
pub const FLAG_SECONDARY_FN: u64 = 0x0080_0000;

/// The key belongs to the numeric keypad.
pub const FLAG_NUMERIC_PAD: u64 = 0x0020_0000;

/// Mouse and pen movements are not being coalesced.
pub const FLAG_NON_COALESCED: u64 = 0x0000_0100;

/// The union of the nine named bits.
pub const FLAG_ALL_NAMED: u64 = 0x00FF_0100;

/// A set of modifier and state bits: a 64-bit mask. Every combination of
/// bits is a value of this type, named or not; nothing is rejected or
/// dropped.
#[derive(Clone, Copy, Debug, PartialEq, Eq, Structural, Hash)]
pub struct CGEventFlags {
    bits: u64,
}

impl View for CGEventFlags {
    type V = u64;

    /// A set of flags is its mask.
    closed spec fn view(&self) -> u64 {
        self.bits
    }
}

impl CGEventFlags {
    /// The set with exactly the bits of `bits`.
    pub fn from_bits(bits: u64) -> (flags: CGEventFlags)
        ensures
            flags@ == bits,
    {
        CGEventFlags { bits }
    }

    /// The mask of this set.
    pub fn bits(&self) -> (bits: u64)
        ensures
            bits == self@,
    {
        self.bits
    }

    /// The empty set.
    pub fn empty() -> (flags: CGEventFlags)
        ensures
            flags@ == 0,
    {
        CGEventFlags { bits: 0 }
    }

    /// The set of the nine named bits.
    pub fn all_named() -> (flags: CGEventFlags)
        ensures
            flags@ == FLAG_ALL_NAMED,
            flags@ == FLAG_ALPHA_SHIFT | FLAG_SHIFT | FLAG_CONTROL | FLAG_ALTERNATE | FLAG_COMMAND
                | FLAG_HELP | FLAG_SECONDARY_FN | FLAG_NUMERIC_PAD | FLAG_NON_COALESCED,
    {
        assert(0x00FF_0100u64 == 0x0001_0000u64 | 0x0002_0000u64 | 0x0004_0000u64 | 0x0008_0000u64
            | 0x0010_0000u64 | 0x0040_0000u64 | 0x0080_0000u64 | 0x0020_0000u64 | 0x0000_0100u64)
            by (bit_vector);
        CGEventFlags { bits: FLAG_ALL_NAMED }
    }

    /// Whether no bit is set.
    pub fn is_empty(&self) -> (empty: bool)
        ensures
            empty <==> self@ == 0,
    {
        self.bits == 0
    }

    /// Whether every bit of `other` is set in `self`.
    pub fn contains(&self, other: CGEventFlags) -> (all: bool)
        ensures
            all <==> self@ & other@ == other@,
    {
        self.bits & other.bits == other.bits
    }

    /// Whether some bit of `other` is set in `self`.
    pub fn intersects(&self, other: CGEventFlags) -> (some: bool)
        ensures
            some <==> self@ & other@ != 0,
    {
        self.bits & other.bits != 0
    }

    /// The bits set in `self` or in `other`.
    pub fn union(self, other: CGEventFlags) -> (flags: CGEventFlags)
        ensures
            flags@ == self@ | other@,
    {
        CGEventFlags { bits: self.bits | other.bits }
    }

    /// The bits set in both `self` and `other`.
    pub fn intersection(self, other: CGEventFlags) -> (flags: CGEventFlags)
        ensures
            flags@ == self@ & other@,
    {
        CGEventFlags { bits: self.bits & other.bits }
    }

    /// The bits set in `self` and not in `other`.
    pub fn difference(self, other: CGEventFlags) -> (flags: CGEventFlags)
        ensures
            flags@ == self@ & !other@,
    {
        CGEventFlags { bits: self.bits & !other.bits }
    }

    /// The bits of the 64-bit mask that are not set in `self`.
    pub fn complement(self) -> (flags: CGEventFlags)
        ensures
            flags@ == !self@,
    {
        CGEventFlags { bits: !self.bits }
    }

    /// Sets every bit of `other`.
    pub fn insert(&mut self, other: CGEventFlags)
        ensures
            final(self)@ == old(self)@ | other@,
    {
        self.bits = self.bits | other.bits;
    }

    /// Clears every bit of `other`.
    pub fn remove(&mut self, other: CGEventFlags)
        ensures
            final(self)@ == old(self)@ & !other@,
    {
        self.bits = self.bits & !other.bits;
    }

    /// A set is determined by its mask: two sets with one mask are equal.
    pub proof fn lemma_view_injective(a: CGEventFlags, b: CGEventFlags)
        requires
            a@ == b@,
        ensures
            a == b,
    {
    }
}

/// The complement of a complement is the set itself, whatever its bits.
pub proof fn lemma_complement_involution(a: u64)
    ensures
        !!a == a,
{
    assert(!!a == a) by (bit_vector);
}

/// Union and intersection are exchanged by the complement.
pub proof fn lemma_de_morgan(a: u64, b: u64)
    ensures
        !(a | b) == !a & !b,
        !(a & b) == !a | !b,
{
    assert(!(a | b) == !a & !b) by (bit_vector);
    assert(!(a & b) == !a | !b) by (bit_vector);
}

/// After the bits of `b` are set in `a`, they are all there, and after they
/// are cleared, none of them is.
pub proof fn lemma_insert_remove(a: u64, b: u64)
    ensures
        (a | b) & b == b,
        (a & !b) & b == 0,
{
    assert((a | b) & b == b) by (bit_vector);
    assert((a & !b) & b == 0) by (bit_vector);
}

} // verus!

//! Sets of held modifier keys.
use vstd::prelude::*;

verus! {

/// The number of set bits of `b`.
pub open spec fn popcount(b: u8) -> int {
    (b & 1) as int + ((b >> 1u8) & 1) as int + ((b >> 2u8) & 1) as int + ((b >> 3u8) & 1) as int
        + ((b >> 4u8) & 1) as int + ((b >> 5u8) & 1) as int + ((b >> 6u8) & 1) as int + ((b
        >> 7u8) & 1) as int
}

proof fn lemma_popcount_clear_lowest(b: u8)
    requires
        b != 0,
    ensures
        popcount(b & ((b - 1) as u8)) + 1 == popcount(b),
{
    assert(popcount(b & ((b - 1) as u8)) + 1 == popcount(b)) by (bit_vector)
        requires
            b != 0,
    ;
}

proof fn lemma_popcount_zero()
    ensures
        popcount(0) == 0,
{
    assert(popcount(0) == 0) by (bit_vector);
}

/// A set of modifier keys: shift, control, alt and logo, one bit each.
#[derive(Debug, Clone, Copy, PartialEq, Eq, Structural, Hash)]
pub struct KeyMod {
    pub(crate) bits: u8,
}

impl KeyMod {
    /// No modifier.
    pub fn none() -> (r: KeyMod)
        ensures
            r@ == 0b0000_0000,
    {
        KeyMod { bits: 0b0000_0000 }
    }

    /// Shift alone.
    pub fn shift() -> (r: KeyMod)
        ensures
            r@ == 0b0000_0001,
    {
        KeyMod { bits: 0b0000_0001 }
    }

    /// Control alone.
    pub fn ctrl() -> (r: KeyMod)
        ensures
            r@ == 0b0000_0010,
    {
        KeyMod { bits: 0b0000_0010 }
    }

    /// Alt alone.
    pub fn alt() -> (r: KeyMod)
        ensures
            r@ == 0b0000_0100,
    {
        KeyMod { bits: 0b0000_0100 }
    }

    /// The logo key alone.
    pub fn logo() -> (r: KeyMod)
        ensures
            r@ == 0b0000_1000,
    {
        KeyMod { bits: 0b0000_1000 }
    }

    /// The bits of all four modifiers.
    pub open spec fn all_bits() -> u8 {
        0b0000_1111
    }

    /// The bits of the set.
    pub open(crate) spec fn view(&self) -> u8 {
        self.bits
    }

    pub fn empty() -> (r: KeyMod)
        ensures
            r@ == 0,
    {
        KeyMod { bits: 0 }
    }

    pub fn all() -> (r: KeyMod)
        ensures
            r@ == Self::all_bits(),
    {
        KeyMod { bits: 0b0000_1111 }
    }

    /// The set of the modifiers among `bits`; other bits are dropped.
    pub fn from_bits_truncate(bits: u8) -> (r: KeyMod)
        ensures
            r@ == bits & Self::all_bits(),
    {
        KeyMod { bits: bits & 0b0000_1111 }
    }

    /// The set of the modifiers whose flag is true.
    pub fn from_flags(shift: bool, ctrl: bool, alt: bool, logo: bool) -> (r: KeyMod)
        ensures
            r@ == (if shift { 1u8 } else { 0u8 }) | (if ctrl { 2u8 } else { 0u8 }) | (if alt {
                4u8
            } else {
                0u8
            }) | (if logo { 8u8 } else { 0u8 }),
    {
        let s: u8 = if shift { 1 } else { 0 };
        let c: u8 = if ctrl { 2 } else { 0 };
        let a: u8 = if alt { 4 } else { 0 };
        let l: u8 = if logo { 8 } else { 0 };
        KeyMod { bits: s | c | a | l }
    }

    pub fn bits(&self) -> (r: u8)
        ensures
            r == self@,
    {
        self.bits
    }

    pub fn is_empty(&self) -> (r: bool)
        ensures
            r == (self@ == 0),
    {
        self.bits == 0
    }

    /// Whether every modifier of `other` is in `self`.
    pub fn contains(&self, other: KeyMod) -> (r: bool)
        ensures
            r == (self@ & other@ == other@),
    {
        self.bits & other.bits == other.bits
    }

    /// The modifiers of either set.
    pub fn union(self, other: KeyMod) -> (r: KeyMod)
        ensures
            r@ == self@ | other@,
    {
        KeyMod { bits: self.bits | other.bits }
    }

    /// The modifiers of `self` that are not in `other`.
    pub fn difference(self, other: KeyMod) -> (r: KeyMod)
        ensures
            r@ == self@ & !other@,
    {
        KeyMod { bits: self.bits & !other.bits }
    }

    /// The modifiers that are not in `self`.
    pub fn complement(self) -> (r: KeyMod)
        ensures
            r@ == !self@ & Self::all_bits(),
    {
        KeyMod { bits: !self.bits & 0b0000_1111 }
    }

    /// Amount of flags set (Kernighan/Wegner/Lehmer method).
    pub fn count(&self) -> (r: u8)
        ensures
            r == popcount(self@),
    {
        let mut num_set: u8 = 0;
        let mut bits = self.bits;
        proof {
            let b = self.bits;
            assert(popcount(b) <= 8) by (bit_vector);
        }
        while bits != 0
            invariant
                num_set + popcount(bits) == popcount(self@),
                popcount(self@) <= 8,
            decreases bits,
        {
            proof {
                lemma_popcount_clear_lowest(bits);
                assert(bits & ((bits - 1) as u8) < bits) by (bit_vector)
                    requires
                        bits != 0,
                ;
            }
            bits = bits & (bits - 1);
            num_set = num_set + 1;
        }
        proof {
            lemma_popcount_zero();
        }
        num_set
    }
}

impl Default for KeyMod {
    fn default() -> (r: KeyMod)
        ensures
            r@ == 0,
    {
        KeyMod { bits: 0 }
    }
}

impl core::ops::BitOr for KeyMod {
    type Output = KeyMod;

    fn bitor(self, other: KeyMod) -> (r: KeyMod) {
        self.union(other)
    }
}

impl vstd::std_specs::ops::BitOrSpecImpl for KeyMod {
    open spec fn obeys_bitor_spec() -> bool {
        true
    }

    open spec fn bitor_req(self, other: KeyMod) -> bool {
        true
    }

    closed spec fn bitor_spec(self, other: KeyMod) -> KeyMod {
        KeyMod { bits: self.bits | other.bits }
    }
}

impl core::ops::Sub for KeyMod {
    type Output = KeyMod;

    fn sub(self, other: KeyMod) -> (r: KeyMod) {
        self.difference(other)
    }
}

impl vstd::std_specs::ops::SubSpecImpl for KeyMod {
    open spec fn obeys_sub_spec() -> bool {
        true
    }

    open spec fn sub_req(self, other: KeyMod) -> bool {
        true
    }

    closed spec fn sub_spec(self, other: KeyMod) -> KeyMod {
        KeyMod { bits: self.bits & !other.bits }
    }
}

impl core::ops::Not for KeyMod {
    type Output = KeyMod;

    fn not(self) -> (r: KeyMod) {
        self.complement()
    }
}

impl vstd::std_specs::ops::NotSpecImpl for KeyMod {
    open spec fn obeys_not_spec() -> bool {
        true
    }

    open spec fn not_req(self) -> bool {
        true
    }

    closed spec fn not_spec(self) -> KeyMod {
        KeyMod { bits: !self.bits & 0b0000_1111 }
    }
}

} // verus!

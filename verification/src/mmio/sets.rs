//! Bit sets of interrupt sources, buttons and layers.
use crate::bits::{get_bits, lemma_mask_ops, lemma_set_u16, lemma_single_bit, read_field, set_bits, write_field};
use vstd::prelude::*;

verus! {

/// A layer that a window applies to.
#[derive(Copy, Clone, Debug, PartialEq, Eq, Structural)]
pub enum WinTarget {
    /// The `Bg0` member.
    Bg0,
    /// The `Bg1` member.
    Bg1,
    /// The `Bg2` member.
    Bg2,
    /// The `Bg3` member.
    Bg3,
    /// The `Obj` member.
    Obj,
    /// The `ColorEffect` member.
    ColorEffect,
}
impl WinTarget {
    /// The bit position of this member.
    pub open spec fn code(self) -> u32 {
        match self {
            WinTarget::Bg0 => 0,
            WinTarget::Bg1 => 1,
            WinTarget::Bg2 => 2,
            WinTarget::Bg3 => 3,
            WinTarget::Obj => 4,
            WinTarget::ColorEffect => 5,
        }
    }

    /// The bit position of this member.
    pub fn bit(self) -> (r: u32)
        ensures
            r == self.code(),
            r < 6,
    {
        match self {
            WinTarget::Bg0 => 0,
            WinTarget::Bg1 => 1,
            WinTarget::Bg2 => 2,
            WinTarget::Bg3 => 3,
            WinTarget::Obj => 4,
            WinTarget::ColorEffect => 5,
        }
    }
}

/// A set of [`WinTarget`] values, stored as a bit mask.
#[derive(Copy, Clone, Debug)]
pub struct WinTargetSet {
    bits: u32,
}
impl View for WinTargetSet {
    type V = u32;
    closed spec fn view(&self) -> u32 {
        self.bits
    }
}
impl WinTargetSet {
    #[verifier::type_invariant]
    closed spec fn wf(self) -> bool {
        self.bits <= 63
    }

    /// The mask of all members.
    pub open spec fn spec_all_bits() -> u32 {
        63
    }

    /// Whether the set holds a given member.
    pub open spec fn has(self, e: WinTarget) -> bool {
        get_bits(self@, e.code(), 1) == 1
    }

    /// The empty set.
    pub fn empty() -> (r: Self)
        ensures
            r@ == 0,
    {
        WinTargetSet { bits: 0 }
    }

    /// The set of all members.
    pub fn all() -> (r: Self)
        ensures
            r@ == Self::spec_all_bits(),
    {
        WinTargetSet { bits: 63 }
    }

    /// The set holding one member.
    pub fn only(e: WinTarget) -> (r: Self)
        ensures
            r@ == 1u32 << e.code(),
            r.has(e),
    {
        let b = e.bit();
        let bits = 1u32 << b;
        proof {
            lemma_single_bit(b, 63);
        }
        WinTargetSet { bits }
    }

    /// Builds a set from a bit mask, dropping bits that name no member.
    pub fn from_bits_truncated(bits: u32) -> (r: Self)
        ensures
            r@ == bits & 63,
    {
        let b = bits & 63;
        proof {
            lemma_mask_ops(0, bits, 63);
        }
        WinTargetSet { bits: b }
    }

    /// The bit mask of this set.
    pub fn as_u32_truncated(&self) -> (r: u32)
        ensures
            r == self@,
            r <= 63,
    {
        proof {
            use_type_invariant(self);
        }
        self.bits
    }

    /// Whether the set holds a given member.
    pub fn contains(&self, e: WinTarget) -> (r: bool)
        ensures
            r == self.has(e),
    {
        read_field(self.bits, e.bit(), 1) == 1
    }

    /// Whether the set is empty.
    pub fn is_empty(&self) -> (r: bool)
        ensures
            r == (self@ == 0),
    {
        self.bits == 0
    }

    /// Whether the two sets have no member in common.
    pub fn is_disjoint(&self, other: Self) -> (r: bool)
        ensures
            r == (self@ & other@ == 0),
    {
        self.bits & other.bits == 0
    }

    /// The members of either set.
    pub fn union(self, other: Self) -> (r: Self)
        ensures
            r@ == self@ | other@,
    {
        proof {
            use_type_invariant(self);
            use_type_invariant(other);
        }
        let a = self.bits;
        let b = other.bits;
        let c = a | b;
        proof {
            lemma_mask_ops(a, b, 63);
        }
        WinTargetSet { bits: c }
    }

    /// The members of both sets.
    pub fn intersection(self, other: Self) -> (r: Self)
        ensures
            r@ == self@ & other@,
    {
        proof {
            use_type_invariant(self);
            use_type_invariant(other);
        }
        let a = self.bits;
        let b = other.bits;
        let c = a & b;
        proof {
            lemma_mask_ops(a, b, 63);
        }
        WinTargetSet { bits: c }
    }

    /// The members of exactly one of the sets.
    pub fn symmetric_difference(self, other: Self) -> (r: Self)
        ensures
            r@ == self@ ^ other@,
    {
        proof {
            use_type_invariant(self);
            use_type_invariant(other);
        }
        let a = self.bits;
        let b = other.bits;
        let c = a ^ b;
        proof {
            lemma_mask_ops(a, b, 63);
        }
        WinTargetSet { bits: c }
    }

    /// The members of this set that are not in the other.
    pub fn difference(self, other: Self) -> (r: Self)
        ensures
            r@ == self@ & !other@,
    {
        proof {
            use_type_invariant(self);
        }
        let a = self.bits;
        let b = other.bits;
        let c = a & !b;
        proof {
            lemma_mask_ops(a, b, 63);
        }
        WinTargetSet { bits: c }
    }

    /// The members not in this set.
    pub fn complement(self) -> (r: Self)
        ensures
            r@ == !self@ & 63,
    {
        let a = self.bits;
        let c = !a & 63;
        proof {
            lemma_mask_ops(0, a, 63);
        }
        WinTargetSet { bits: c }
    }

    /// Adds a member to this set.
    pub fn insert(&mut self, e: WinTarget)
        ensures
            final(self)@ == old(self)@ | (1u32 << e.code()),
    {
        *self = self.union(Self::only(e));
    }

    /// Removes a member from this set.
    pub fn remove(&mut self, e: WinTarget)
        ensures
            final(self)@ == old(self)@ & !(1u32 << e.code()),
    {
        *self = self.difference(Self::only(e));
    }
}

/// Represents a layer that may be blended.
#[derive(Copy, Clone, Debug, PartialEq, Eq, Structural)]
pub enum BlendTarget {
    /// The `Bg0` member.
    Bg0,
    /// The `Bg1` member.
    Bg1,
    /// The `Bg2` member.
    Bg2,
    /// The `Bg3` member.
    Bg3,
    /// The `Obj` member.
    Obj,
    /// The `Backdrop` member.
    Backdrop,
}
impl BlendTarget {
    /// The bit position of this member.
    pub open spec fn code(self) -> u32 {
        match self {
            BlendTarget::Bg0 => 0,
            BlendTarget::Bg1 => 1,
            BlendTarget::Bg2 => 2,
            BlendTarget::Bg3 => 3,
            BlendTarget::Obj => 4,
            BlendTarget::Backdrop => 5,
        }
    }

    /// The bit position of this member.
    pub fn bit(self) -> (r: u32)
        ensures
            r == self.code(),
            r < 6,
    {
        match self {
            BlendTarget::Bg0 => 0,
            BlendTarget::Bg1 => 1,
            BlendTarget::Bg2 => 2,
            BlendTarget::Bg3 => 3,
            BlendTarget::Obj => 4,
            BlendTarget::Backdrop => 5,
        }
    }
}

/// A set of [`BlendTarget`] values, stored as a bit mask.
#[derive(Copy, Clone, Debug)]
pub struct BlendTargetSet {
    bits: u32,
}
impl View for BlendTargetSet {
    type V = u32;
    closed spec fn view(&self) -> u32 {
        self.bits
    }
}
impl BlendTargetSet {
    #[verifier::type_invariant]
    closed spec fn wf(self) -> bool {
        self.bits <= 63
    }

    /// The mask of all members.
    pub open spec fn spec_all_bits() -> u32 {
        63
    }

    /// Whether the set holds a given member.
    pub open spec fn has(self, e: BlendTarget) -> bool {
        get_bits(self@, e.code(), 1) == 1
    }

    /// The empty set.
    pub fn empty() -> (r: Self)
        ensures
            r@ == 0,
    {
        BlendTargetSet { bits: 0 }
    }

    /// The set of all members.
    pub fn all() -> (r: Self)
        ensures
            r@ == Self::spec_all_bits(),
    {
        BlendTargetSet { bits: 63 }
    }

    /// The set holding one member.
    pub fn only(e: BlendTarget) -> (r: Self)
        ensures
            r@ == 1u32 << e.code(),
            r.has(e),
    {
        let b = e.bit();
        let bits = 1u32 << b;
        proof {
            lemma_single_bit(b, 63);
        }
        BlendTargetSet { bits }
    }

    /// Builds a set from a bit mask, dropping bits that name no member.
    pub fn from_bits_truncated(bits: u32) -> (r: Self)
        ensures
            r@ == bits & 63,
    {
        let b = bits & 63;
        proof {
            lemma_mask_ops(0, bits, 63);
        }
        BlendTargetSet { bits: b }
    }

    /// The bit mask of this set.
    pub fn as_u32_truncated(&self) -> (r: u32)
        ensures
            r == self@,
            r <= 63,
    {
        proof {
            use_type_invariant(self);
        }
        self.bits
    }

    /// Whether the set holds a given member.
    pub fn contains(&self, e: BlendTarget) -> (r: bool)
        ensures
            r == self.has(e),
    {
        read_field(self.bits, e.bit(), 1) == 1
    }

    /// Whether the set is empty.
    pub fn is_empty(&self) -> (r: bool)
        ensures
            r == (self@ == 0),
    {
        self.bits == 0
    }

    /// Whether the two sets have no member in common.
    pub fn is_disjoint(&self, other: Self) -> (r: bool)
        ensures
            r == (self@ & other@ == 0),
    {
        self.bits & other.bits == 0
    }

    /// The members of either set.
    pub fn union(self, other: Self) -> (r: Self)
        ensures
            r@ == self@ | other@,
    {
        proof {
            use_type_invariant(self);
            use_type_invariant(other);
        }
        let a = self.bits;
        let b = other.bits;
        let c = a | b;
        proof {
            lemma_mask_ops(a, b, 63);
        }
        BlendTargetSet { bits: c }
    }

    /// The members of both sets.
    pub fn intersection(self, other: Self) -> (r: Self)
        ensures
            r@ == self@ & other@,
    {
        proof {
            use_type_invariant(self);
            use_type_invariant(other);
        }
        let a = self.bits;
        let b = other.bits;
        let c = a & b;
        proof {
            lemma_mask_ops(a, b, 63);
        }
        BlendTargetSet { bits: c }
    }

    /// The members of exactly one of the sets.
    pub fn symmetric_difference(self, other: Self) -> (r: Self)
        ensures
            r@ == self@ ^ other@,
    {
        proof {
            use_type_invariant(self);
            use_type_invariant(other);
        }
        let a = self.bits;
        let b = other.bits;
        let c = a ^ b;
        proof {
            lemma_mask_ops(a, b, 63);
        }
        BlendTargetSet { bits: c }
    }

    /// The members of this set that are not in the other.
    pub fn difference(self, other: Self) -> (r: Self)
        ensures
            r@ == self@ & !other@,
    {
        proof {
            use_type_invariant(self);
        }
        let a = self.bits;
        let b = other.bits;
        let c = a & !b;
        proof {
            lemma_mask_ops(a, b, 63);
        }
        BlendTargetSet { bits: c }
    }

    /// The members not in this set.
    pub fn complement(self) -> (r: Self)
        ensures
            r@ == !self@ & 63,
    {
        let a = self.bits;
        let c = !a & 63;
        proof {
            lemma_mask_ops(0, a, 63);
        }
        BlendTargetSet { bits: c }
    }

    /// Adds a member to this set.
    pub fn insert(&mut self, e: BlendTarget)
        ensures
            final(self)@ == old(self)@ | (1u32 << e.code()),
    {
        *self = self.union(Self::only(e));
    }

    /// Removes a member from this set.
    pub fn remove(&mut self, e: BlendTarget)
        ensures
            final(self)@ == old(self)@ & !(1u32 << e.code()),
    {
        *self = self.difference(Self::only(e));
    }
}

/// Represents the various kinds of interrupts that can be raised on the GBA.
#[derive(Copy, Clone, Debug, PartialEq, Eq, Structural)]
pub enum Interrupt {
    /// The `VBlank` member.
    VBlank,
    /// The `HBlank` member.
    HBlank,
    /// The `VCounter` member.
    VCounter,
    /// The `Timer0` member.
    Timer0,
    /// The `Timer1` member.
    Timer1,
    /// The `Timer2` member.
    Timer2,
    /// The `Timer3` member.
    Timer3,
    /// The `Serial` member.
    Serial,
    /// The `Dma0` member.
    Dma0,
    /// The `Dma1` member.
    Dma1,
    /// The `Dma2` member.
    Dma2,
    /// The `Dma3` member.
    Dma3,
    /// The `Keypad` member.
    Keypad,
    /// The `GamePak` member.
    GamePak,
}
impl Interrupt {
    /// The bit position of this member.
    pub open spec fn code(self) -> u32 {
        match self {
            Interrupt::VBlank => 0,
            Interrupt::HBlank => 1,
            Interrupt::VCounter => 2,
            Interrupt::Timer0 => 3,
            Interrupt::Timer1 => 4,
            Interrupt::Timer2 => 5,
            Interrupt::Timer3 => 6,
            Interrupt::Serial => 7,
            Interrupt::Dma0 => 8,
            Interrupt::Dma1 => 9,
            Interrupt::Dma2 => 10,
            Interrupt::Dma3 => 11,
            Interrupt::Keypad => 12,
            Interrupt::GamePak => 13,
        }
    }

    /// The bit position of this member.
    pub fn bit(self) -> (r: u32)
        ensures
            r == self.code(),
            r < 14,
    {
        match self {
            Interrupt::VBlank => 0,
            Interrupt::HBlank => 1,
            Interrupt::VCounter => 2,
            Interrupt::Timer0 => 3,
            Interrupt::Timer1 => 4,
            Interrupt::Timer2 => 5,
            Interrupt::Timer3 => 6,
            Interrupt::Serial => 7,
            Interrupt::Dma0 => 8,
            Interrupt::Dma1 => 9,
            Interrupt::Dma2 => 10,
            Interrupt::Dma3 => 11,
            Interrupt::Keypad => 12,
            Interrupt::GamePak => 13,
        }
    }
}

/// A set of [`Interrupt`] values, stored as a bit mask.
#[derive(Copy, Clone, Debug)]
pub struct InterruptSet {
    bits: u32,
}
impl View for InterruptSet {
    type V = u32;
    closed spec fn view(&self) -> u32 {
        self.bits
    }
}
impl InterruptSet {
    #[verifier::type_invariant]
    closed spec fn wf(self) -> bool {
        self.bits <= 16383
    }

    /// The mask of all members.
    pub open spec fn spec_all_bits() -> u32 {
        16383
    }

    /// Whether the set holds a given member.
    pub open spec fn has(self, e: Interrupt) -> bool {
        get_bits(self@, e.code(), 1) == 1
    }

    /// The empty set.
    pub fn empty() -> (r: Self)
        ensures
            r@ == 0,
    {
        InterruptSet { bits: 0 }
    }

    /// The set of all members.
    pub fn all() -> (r: Self)
        ensures
            r@ == Self::spec_all_bits(),
    {
        InterruptSet { bits: 16383 }
    }

    /// The set holding one member.
    pub fn only(e: Interrupt) -> (r: Self)
        ensures
            r@ == 1u32 << e.code(),
            r.has(e),
    {
        let b = e.bit();
        let bits = 1u32 << b;
        proof {
            lemma_single_bit(b, 16383);
        }
        InterruptSet { bits }
    }

    /// Builds a set from a bit mask, dropping bits that name no member.
    pub fn from_bits_truncated(bits: u32) -> (r: Self)
        ensures
            r@ == bits & 16383,
    {
        let b = bits & 16383;
        proof {
            lemma_mask_ops(0, bits, 16383);
        }
        InterruptSet { bits: b }
    }

    /// The bit mask of this set.
    pub fn as_u32_truncated(&self) -> (r: u32)
        ensures
            r == self@,
            r <= 16383,
    {
        proof {
            use_type_invariant(self);
        }
        self.bits
    }

    /// Whether the set holds a given member.
    pub fn contains(&self, e: Interrupt) -> (r: bool)
        ensures
            r == self.has(e),
    {
        read_field(self.bits, e.bit(), 1) == 1
    }

    /// Whether the set is empty.
    pub fn is_empty(&self) -> (r: bool)
        ensures
            r == (self@ == 0),
    {
        self.bits == 0
    }

    /// Whether the two sets have no member in common.
    pub fn is_disjoint(&self, other: Self) -> (r: bool)
        ensures
            r == (self@ & other@ == 0),
    {
        self.bits & other.bits == 0
    }

    /// The members of either set.
    pub fn union(self, other: Self) -> (r: Self)
        ensures
            r@ == self@ | other@,
    {
        proof {
            use_type_invariant(self);
            use_type_invariant(other);
        }
        let a = self.bits;
        let b = other.bits;
        let c = a | b;
        proof {
            lemma_mask_ops(a, b, 16383);
        }
        InterruptSet { bits: c }
    }

    /// The members of both sets.
    pub fn intersection(self, other: Self) -> (r: Self)
        ensures
            r@ == self@ & other@,
    {
        proof {
            use_type_invariant(self);
            use_type_invariant(other);
        }
        let a = self.bits;
        let b = other.bits;
        let c = a & b;
        proof {
            lemma_mask_ops(a, b, 16383);
        }
        InterruptSet { bits: c }
    }

    /// The members of exactly one of the sets.
    pub fn symmetric_difference(self, other: Self) -> (r: Self)
        ensures
            r@ == self@ ^ other@,
    {
        proof {
            use_type_invariant(self);
            use_type_invariant(other);
        }
        let a = self.bits;
        let b = other.bits;
        let c = a ^ b;
        proof {
            lemma_mask_ops(a, b, 16383);
        }
        InterruptSet { bits: c }
    }

    /// The members of this set that are not in the other.
    pub fn difference(self, other: Self) -> (r: Self)
        ensures
            r@ == self@ & !other@,
    {
        proof {
            use_type_invariant(self);
        }
        let a = self.bits;
        let b = other.bits;
        let c = a & !b;
        proof {
            lemma_mask_ops(a, b, 16383);
        }
        InterruptSet { bits: c }
    }

    /// The members not in this set.
    pub fn complement(self) -> (r: Self)
        ensures
            r@ == !self@ & 16383,
    {
        let a = self.bits;
        let c = !a & 16383;
        proof {
            lemma_mask_ops(0, a, 16383);
        }
        InterruptSet { bits: c }
    }

    /// Adds a member to this set.
    pub fn insert(&mut self, e: Interrupt)
        ensures
            final(self)@ == old(self)@ | (1u32 << e.code()),
    {
        *self = self.union(Self::only(e));
    }

    /// Removes a member from this set.
    pub fn remove(&mut self, e: Interrupt)
        ensures
            final(self)@ == old(self)@ & !(1u32 << e.code()),
    {
        *self = self.difference(Self::only(e));
    }
}

/// An enum representing all buttons available on the GBA.
#[derive(Copy, Clone, Debug, PartialEq, Eq, Structural)]
pub enum Button {
    /// The `A` member.
    A,
    /// The `B` member.
    B,
    /// The `Select` member.
    Select,
    /// The `Start` member.
    Start,
    /// The `Right` member.
    Right,
    /// The `Left` member.
    Left,
    /// The `Up` member.
    Up,
    /// The `Down` member.
    Down,
    /// The `R` member.
    R,
    /// The `L` member.
    L,
}
impl Button {
    /// The bit position of this member.
    pub open spec fn code(self) -> u32 {
        match self {
            Button::A => 0,
            Button::B => 1,
            Button::Select => 2,
            Button::Start => 3,
            Button::Right => 4,
            Button::Left => 5,
            Button::Up => 6,
            Button::Down => 7,
            Button::R => 8,
            Button::L => 9,
        }
    }

    /// The bit position of this member.
    pub fn bit(self) -> (r: u32)
        ensures
            r == self.code(),
            r < 10,
    {
        match self {
            Button::A => 0,
            Button::B => 1,
            Button::Select => 2,
            Button::Start => 3,
            Button::Right => 4,
            Button::Left => 5,
            Button::Up => 6,
            Button::Down => 7,
            Button::R => 8,
            Button::L => 9,
        }
    }
}

/// A set of [`Button`] values, stored as a bit mask.
#[derive(Copy, Clone, Debug)]
pub struct ButtonSet {
    bits: u32,
}
impl View for ButtonSet {
    type V = u32;
    closed spec fn view(&self) -> u32 {
        self.bits
    }
}
impl ButtonSet {
    #[verifier::type_invariant]
    closed spec fn wf(self) -> bool {
        self.bits <= 1023
    }

    /// The mask of all members.
    pub open spec fn spec_all_bits() -> u32 {
        1023
    }

    /// Whether the set holds a given member.
    pub open spec fn has(self, e: Button) -> bool {
        get_bits(self@, e.code(), 1) == 1
    }

    /// The empty set.
    pub fn empty() -> (r: Self)
        ensures
            r@ == 0,
    {
        ButtonSet { bits: 0 }
    }

    /// The set of all members.
    pub fn all() -> (r: Self)
        ensures
            r@ == Self::spec_all_bits(),
    {
        ButtonSet { bits: 1023 }
    }

    /// The set holding one member.
    pub fn only(e: Button) -> (r: Self)
        ensures
            r@ == 1u32 << e.code(),
            r.has(e),
    {
        let b = e.bit();
        let bits = 1u32 << b;
        proof {
            lemma_single_bit(b, 1023);
        }
        ButtonSet { bits }
    }

    /// Builds a set from a bit mask, dropping bits that name no member.
    pub fn from_bits_truncated(bits: u32) -> (r: Self)
        ensures
            r@ == bits & 1023,
    {
        let b = bits & 1023;
        proof {
            lemma_mask_ops(0, bits, 1023);
        }
        ButtonSet { bits: b }
    }

    /// The bit mask of this set.
    pub fn as_u32_truncated(&self) -> (r: u32)
        ensures
            r == self@,
            r <= 1023,
    {
        proof {
            use_type_invariant(self);
        }
        self.bits
    }

    /// Whether the set holds a given member.
    pub fn contains(&self, e: Button) -> (r: bool)
        ensures
            r == self.has(e),
    {
        read_field(self.bits, e.bit(), 1) == 1
    }

    /// Whether the set is empty.
    pub fn is_empty(&self) -> (r: bool)
        ensures
            r == (self@ == 0),
    {
        self.bits == 0
    }

    /// Whether the two sets have no member in common.
    pub fn is_disjoint(&self, other: Self) -> (r: bool)
        ensures
            r == (self@ & other@ == 0),
    {
        self.bits & other.bits == 0
    }

    /// The members of either set.
    pub fn union(self, other: Self) -> (r: Self)
        ensures
            r@ == self@ | other@,
    {
        proof {
            use_type_invariant(self);
            use_type_invariant(other);
        }
        let a = self.bits;
        let b = other.bits;
        let c = a | b;
        proof {
            lemma_mask_ops(a, b, 1023);
        }
        ButtonSet { bits: c }
    }

    /// The members of both sets.
    pub fn intersection(self, other: Self) -> (r: Self)
        ensures
            r@ == self@ & other@,
    {
        proof {
            use_type_invariant(self);
            use_type_invariant(other);
        }
        let a = self.bits;
        let b = other.bits;
        let c = a & b;
        proof {
            lemma_mask_ops(a, b, 1023);
        }
        ButtonSet { bits: c }
    }

    /// The members of exactly one of the sets.
    pub fn symmetric_difference(self, other: Self) -> (r: Self)
        ensures
            r@ == self@ ^ other@,
    {
        proof {
            use_type_invariant(self);
            use_type_invariant(other);
        }
        let a = self.bits;
        let b = other.bits;
        let c = a ^ b;
        proof {
            lemma_mask_ops(a, b, 1023);
        }
        ButtonSet { bits: c }
    }

    /// The members of this set that are not in the other.
    pub fn difference(self, other: Self) -> (r: Self)
        ensures
            r@ == self@ & !other@,
    {
        proof {
            use_type_invariant(self);
        }
        let a = self.bits;
        let b = other.bits;
        let c = a & !b;
        proof {
            lemma_mask_ops(a, b, 1023);
        }
        ButtonSet { bits: c }
    }

    /// The members not in this set.
    pub fn complement(self) -> (r: Self)
        ensures
            r@ == !self@ & 1023,
    {
        let a = self.bits;
        let c = !a & 1023;
        proof {
            lemma_mask_ops(0, a, 1023);
        }
        ButtonSet { bits: c }
    }

    /// Adds a member to this set.
    pub fn insert(&mut self, e: Button)
        ensures
            final(self)@ == old(self)@ | (1u32 << e.code()),
    {
        *self = self.union(Self::only(e));
    }

    /// Removes a member from this set.
    pub fn remove(&mut self, e: Button)
        ensures
            final(self)@ == old(self)@ & !(1u32 << e.code()),
    {
        *self = self.difference(Self::only(e));
    }
}

} // verus!

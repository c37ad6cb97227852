//! Register layouts of the DMA, timer, keypad and wait state controls.
use crate::bits::{get_bits, lemma_fits_small, lemma_set_u16, read_field, set_bits, write_field};
use crate::mmio::sets::ButtonSet;
use vstd::prelude::*;

verus! {

/// How a DMA address changes after each unit is copied.
#[derive(Copy, Clone, Debug, PartialEq, Eq, Structural)]
pub enum DmaAddrCnt {
    /// The address increases.
    Increment,
    /// The address decreases.
    Decrement,
    /// The address stays the same.
    Fixed,
}
impl DmaAddrCnt {
    /// The numeric value of this variant in a register.
    pub open spec fn code(self) -> u32 {
        match self {
            DmaAddrCnt::Increment => 0,
            DmaAddrCnt::Decrement => 1,
            DmaAddrCnt::Fixed => 2,
        }
    }

    /// The variant with a given numeric value.
    pub open spec fn from_code(c: u32) -> Self {
        if c == 0 { DmaAddrCnt::Increment } else if c == 1 { DmaAddrCnt::Decrement } else { DmaAddrCnt::Fixed }
    }

    /// Converts this variant to its numeric value.
    pub fn to_u16(self) -> (r: u16)
        ensures
            r as u32 == self.code(),
            r < 3,
    {
        match self {
            DmaAddrCnt::Increment => 0,
            DmaAddrCnt::Decrement => 1,
            DmaAddrCnt::Fixed => 2,
        }
    }

    /// Converts a numeric value to a variant, if it names one.
    pub fn try_from_u16(v: u16) -> (r: Option<Self>)
        ensures
            r.is_some() == (v < 3),
            r matches Some(m) ==> m.code() == v as u32 && m == Self::from_code(v as u32),
    {
        if v == 0 { Some(DmaAddrCnt::Increment) } else if v == 1 { Some(DmaAddrCnt::Decrement) } else if v == 2 { Some(DmaAddrCnt::Fixed) } else { None }
    }
}

/// The register value of every variant is in range, and converting it back gives the
/// variant.
pub proof fn lemma_dma_addr_cnt_code(m: DmaAddrCnt)
    ensures
        m.code() < 3,
        DmaAddrCnt::from_code(m.code()) == m,
{
}

/// When a DMA transfer starts.
#[derive(Copy, Clone, Debug, PartialEq, Eq, Structural)]
pub enum DmaStartTiming {
    /// Start at once.
    Immediately,
    /// Start at the next vertical blank.
    VBlank,
    /// Start at the next horizontal blank.
    HBlank,
    /// Start on a channel-specific event.
    Special,
}
impl DmaStartTiming {
    /// The numeric value of this variant in a register.
    pub open spec fn code(self) -> u32 {
        match self {
            DmaStartTiming::Immediately => 0,
            DmaStartTiming::VBlank => 1,
            DmaStartTiming::HBlank => 2,
            DmaStartTiming::Special => 3,
        }
    }

    /// The variant with a given numeric value.
    pub open spec fn from_code(c: u32) -> Self {
        if c == 0 { DmaStartTiming::Immediately } else if c == 1 { DmaStartTiming::VBlank } else if c == 2 { DmaStartTiming::HBlank } else { DmaStartTiming::Special }
    }

    /// Converts this variant to its numeric value.
    pub fn to_u16(self) -> (r: u16)
        ensures
            r as u32 == self.code(),
            r < 4,
    {
        match self {
            DmaStartTiming::Immediately => 0,
            DmaStartTiming::VBlank => 1,
            DmaStartTiming::HBlank => 2,
            DmaStartTiming::Special => 3,
        }
    }

    /// Converts a numeric value to a variant, if it names one.
    pub fn try_from_u16(v: u16) -> (r: Option<Self>)
        ensures
            r.is_some() == (v < 4),
            r matches Some(m) ==> m.code() == v as u32 && m == Self::from_code(v as u32),
    {
        if v == 0 { Some(DmaStartTiming::Immediately) } else if v == 1 { Some(DmaStartTiming::VBlank) } else if v == 2 { Some(DmaStartTiming::HBlank) } else if v == 3 { Some(DmaStartTiming::Special) } else { None }
    }
}

/// The register value of every variant is in range, and converting it back gives the
/// variant.
pub proof fn lemma_dma_start_timing_code(m: DmaStartTiming)
    ensures
        m.code() < 4,
        DmaStartTiming::from_code(m.code()) == m,
{
}

/// The prescaler of a timer.
#[derive(Copy, Clone, Debug, PartialEq, Eq, Structural)]
pub enum TimerScale {
    /// One tick per cycle.
    NoDiv,
    /// One tick per 64 cycles.
    Div64,
    /// One tick per 256 cycles.
    Div256,
    /// One tick per 1024 cycles.
    Div1024,
}
impl TimerScale {
    /// The numeric value of this variant in a register.
    pub open spec fn code(self) -> u32 {
        match self {
            TimerScale::NoDiv => 0,
            TimerScale::Div64 => 1,
            TimerScale::Div256 => 2,
            TimerScale::Div1024 => 3,
        }
    }

    /// The variant with a given numeric value.
    pub open spec fn from_code(c: u32) -> Self {
        if c == 0 { TimerScale::NoDiv } else if c == 1 { TimerScale::Div64 } else if c == 2 { TimerScale::Div256 } else { TimerScale::Div1024 }
    }

    /// Converts this variant to its numeric value.
    pub fn to_u16(self) -> (r: u16)
        ensures
            r as u32 == self.code(),
            r < 4,
    {
        match self {
            TimerScale::NoDiv => 0,
            TimerScale::Div64 => 1,
            TimerScale::Div256 => 2,
            TimerScale::Div1024 => 3,
        }
    }

    /// Converts a numeric value to a variant, if it names one.
    pub fn try_from_u16(v: u16) -> (r: Option<Self>)
        ensures
            r.is_some() == (v < 4),
            r matches Some(m) ==> m.code() == v as u32 && m == Self::from_code(v as u32),
    {
        if v == 0 { Some(TimerScale::NoDiv) } else if v == 1 { Some(TimerScale::Div64) } else if v == 2 { Some(TimerScale::Div256) } else if v == 3 { Some(TimerScale::Div1024) } else { None }
    }
}

/// The register value of every variant is in range, and converting it back gives the
/// variant.
pub proof fn lemma_timer_scale_code(m: TimerScale)
    ensures
        m.code() < 4,
        TimerScale::from_code(m.code()) == m,
{
}

/// How the keys of a keypad interrupt are combined.
#[derive(Copy, Clone, Debug, PartialEq, Eq, Structural)]
pub enum ButtonCondition {
    /// Any of the keys triggers the interrupt.
    LogicalOr,
    /// All of the keys must be held.
    LogicalAnd,
}
impl ButtonCondition {
    /// The numeric value of this variant in a register.
    pub open spec fn code(self) -> u32 {
        match self {
            ButtonCondition::LogicalOr => 0,
            ButtonCondition::LogicalAnd => 1,
        }
    }

    /// The variant with a given numeric value.
    pub open spec fn from_code(c: u32) -> Self {
        if c == 0 { ButtonCondition::LogicalOr } else { ButtonCondition::LogicalAnd }
    }

    /// Converts this variant to its numeric value.
    pub fn to_u16(self) -> (r: u16)
        ensures
            r as u32 == self.code(),
            r < 2,
    {
        match self {
            ButtonCondition::LogicalOr => 0,
            ButtonCondition::LogicalAnd => 1,
        }
    }

    /// Converts a numeric value to a variant, if it names one.
    pub fn try_from_u16(v: u16) -> (r: Option<Self>)
        ensures
            r.is_some() == (v < 2),
            r matches Some(m) ==> m.code() == v as u32 && m == Self::from_code(v as u32),
    {
        if v == 0 { Some(ButtonCondition::LogicalOr) } else if v == 1 { Some(ButtonCondition::LogicalAnd) } else { None }
    }
}

/// The register value of every variant is in range, and converting it back gives the
/// variant.
pub proof fn lemma_button_condition_code(m: ButtonCondition)
    ensures
        m.code() < 2,
        ButtonCondition::from_code(m.code()) == m,
{
}

/// A game pak wait state setting.
#[derive(Copy, Clone, Debug, PartialEq, Eq, Structural)]
pub enum WaitState {
    /// Four wait cycles.
    Wait4,
    /// Three wait cycles.
    Wait3,
    /// Two wait cycles.
    Wait2,
    /// Eight wait cycles.
    Wait8,
}
impl WaitState {
    /// The numeric value of this variant in a register.
    pub open spec fn code(self) -> u32 {
        match self {
            WaitState::Wait4 => 0,
            WaitState::Wait3 => 1,
            WaitState::Wait2 => 2,
            WaitState::Wait8 => 3,
        }
    }

    /// The variant with a given numeric value.
    pub open spec fn from_code(c: u32) -> Self {
        if c == 0 { WaitState::Wait4 } else if c == 1 { WaitState::Wait3 } else if c == 2 { WaitState::Wait2 } else { WaitState::Wait8 }
    }

    /// Converts this variant to its numeric value.
    pub fn to_u16(self) -> (r: u16)
        ensures
            r as u32 == self.code(),
            r < 4,
    {
        match self {
            WaitState::Wait4 => 0,
            WaitState::Wait3 => 1,
            WaitState::Wait2 => 2,
            WaitState::Wait8 => 3,
        }
    }

    /// Converts a numeric value to a variant, if it names one.
    pub fn try_from_u16(v: u16) -> (r: Option<Self>)
        ensures
            r.is_some() == (v < 4),
            r matches Some(m) ==> m.code() == v as u32 && m == Self::from_code(v as u32),
    {
        if v == 0 { Some(WaitState::Wait4) } else if v == 1 { Some(WaitState::Wait3) } else if v == 2 { Some(WaitState::Wait2) } else if v == 3 { Some(WaitState::Wait8) } else { None }
    }
}

/// The register value of every variant is in range, and converting it back gives the
/// variant.
pub proof fn lemma_wait_state_code(m: WaitState)
    ensures
        m.code() < 4,
        WaitState::from_code(m.code()) == m,
{
}

/// The control word of a DMA channel.
#[derive(Copy, Clone, Debug, PartialEq, Eq, Structural)]
pub struct DmaCnt(u16);
impl View for DmaCnt {
    type V = u32;
    closed spec fn view(&self) -> u32 {
        self.0 as u32
    }
}
impl Default for DmaCnt {
    fn default() -> (r: Self)
        ensures
            r@ == 0,
    {
        DmaCnt(0)
    }
}
impl DmaCnt {
    /// Every value fits in 16 bits.
    pub proof fn lemma_bounded(self)
        ensures
            self@ < 0x10000,
    {
    }

    /// The value with all fields zero.
    pub fn new() -> (r: Self)
        ensures
            r@ == 0,
    {
        DmaCnt(0)
    }

    /// Builds a value from its raw register bits.
    pub fn from_bits(bits: u16) -> (r: Self)
        ensures
            r@ == bits as u32,
    {
        DmaCnt(bits)
    }

    /// The raw register bits of this value.
    pub fn bits(&self) -> (r: u16)
        ensures
            r as u32 == self@,
    {
        self.0
    }

    /// How the destination address changes.
    pub fn dst_ctl(&self) -> (r: DmaAddrCnt)
        requires
            get_bits(self@, 5, 2) < 3,
        ensures
            r.code() == get_bits(self@, 5, 2),
    {
        let v = read_field(self.0 as u32, 5, 2);
        DmaAddrCnt::try_from_u16(v as u16).unwrap()
    }

    /// Sets the [`dst_ctl`](`DmaCnt::dst_ctl`) field.
    pub fn with_dst_ctl(self, value: DmaAddrCnt) -> (r: Self)
        ensures
            r@ == set_bits(self@, 5, 2, value.code()),
    {
        let x = value.to_u16() as u32;
        proof {
            lemma_fits_small(x, 2);
        }
        let v = write_field(self.0 as u32, 5, 2, x);
        proof {
            lemma_set_u16(self.0 as u32, 5, 2, x);
        }
        DmaCnt(v as u16)
    }

    /// How the source address changes.
    pub fn src_ctl(&self) -> (r: DmaAddrCnt)
        requires
            get_bits(self@, 7, 2) < 3,
        ensures
            r.code() == get_bits(self@, 7, 2),
    {
        let v = read_field(self.0 as u32, 7, 2);
        DmaAddrCnt::try_from_u16(v as u16).unwrap()
    }

    /// Sets the [`src_ctl`](`DmaCnt::src_ctl`) field.
    pub fn with_src_ctl(self, value: DmaAddrCnt) -> (r: Self)
        ensures
            r@ == set_bits(self@, 7, 2, value.code()),
    {
        let x = value.to_u16() as u32;
        proof {
            lemma_fits_small(x, 2);
        }
        let v = write_field(self.0 as u32, 7, 2, x);
        proof {
            lemma_set_u16(self.0 as u32, 7, 2, x);
        }
        DmaCnt(v as u16)
    }

    /// Whether the transfer repeats.
    pub fn repeat(&self) -> (r: bool)
        ensures
            r == (get_bits(self@, 9, 1) == 1),
    {
        read_field(self.0 as u32, 9, 1) == 1
    }

    /// Sets the [`repeat`](`DmaCnt::repeat`) field.
    pub fn with_repeat(self, value: bool) -> (r: Self)
        ensures
            r@ == set_bits(self@, 9, 1, if value { 1 } else { 0 }),
    {
        let x: u32 = if value { 1 } else { 0 };
        proof {
            lemma_fits_small(x, 1);
        }
        let v = write_field(self.0 as u32, 9, 1, x);
        proof {
            lemma_set_u16(self.0 as u32, 9, 1, x);
        }
        DmaCnt(v as u16)
    }

    /// Whether 32-bit units are copied.
    pub fn transfer_u32(&self) -> (r: bool)
        ensures
            r == (get_bits(self@, 10, 1) == 1),
    {
        read_field(self.0 as u32, 10, 1) == 1
    }

    /// Sets the [`transfer_u32`](`DmaCnt::transfer_u32`) field.
    pub fn with_transfer_u32(self, value: bool) -> (r: Self)
        ensures
            r@ == set_bits(self@, 10, 1, if value { 1 } else { 0 }),
    {
        let x: u32 = if value { 1 } else { 0 };
        proof {
            lemma_fits_small(x, 1);
        }
        let v = write_field(self.0 as u32, 10, 1, x);
        proof {
            lemma_set_u16(self.0 as u32, 10, 1, x);
        }
        DmaCnt(v as u16)
    }

    /// Whether game pak DRQ is used.
    pub fn game_pak_drq(&self) -> (r: bool)
        ensures
            r == (get_bits(self@, 11, 1) == 1),
    {
        read_field(self.0 as u32, 11, 1) == 1
    }

    /// Sets the [`game_pak_drq`](`DmaCnt::game_pak_drq`) field.
    pub fn with_game_pak_drq(self, value: bool) -> (r: Self)
        ensures
            r@ == set_bits(self@, 11, 1, if value { 1 } else { 0 }),
    {
        let x: u32 = if value { 1 } else { 0 };
        proof {
            lemma_fits_small(x, 1);
        }
        let v = write_field(self.0 as u32, 11, 1, x);
        proof {
            lemma_set_u16(self.0 as u32, 11, 1, x);
        }
        DmaCnt(v as u16)
    }

    /// When the transfer starts.
    pub fn start_timing(&self) -> (r: DmaStartTiming)
        ensures
            r.code() == get_bits(self@, 12, 2),
    {
        let v = read_field(self.0 as u32, 12, 2);
        proof {
            lemma_fits_small(v, 2);
        }
        DmaStartTiming::try_from_u16(v as u16).unwrap()
    }

    /// Sets the [`start_timing`](`DmaCnt::start_timing`) field.
    pub fn with_start_timing(self, value: DmaStartTiming) -> (r: Self)
        ensures
            r@ == set_bits(self@, 12, 2, value.code()),
    {
        let x = value.to_u16() as u32;
        proof {
            lemma_fits_small(x, 2);
        }
        let v = write_field(self.0 as u32, 12, 2, x);
        proof {
            lemma_set_u16(self.0 as u32, 12, 2, x);
        }
        DmaCnt(v as u16)
    }

    /// Whether an IRQ is sent on completion.
    pub fn send_irq(&self) -> (r: bool)
        ensures
            r == (get_bits(self@, 14, 1) == 1),
    {
        read_field(self.0 as u32, 14, 1) == 1
    }

    /// Sets the [`send_irq`](`DmaCnt::send_irq`) field.
    pub fn with_send_irq(self, value: bool) -> (r: Self)
        ensures
            r@ == set_bits(self@, 14, 1, if value { 1 } else { 0 }),
    {
        let x: u32 = if value { 1 } else { 0 };
        proof {
            lemma_fits_small(x, 1);
        }
        let v = write_field(self.0 as u32, 14, 1, x);
        proof {
            lemma_set_u16(self.0 as u32, 14, 1, x);
        }
        DmaCnt(v as u16)
    }

    /// Whether the channel is enabled.
    pub fn enabled(&self) -> (r: bool)
        ensures
            r == (get_bits(self@, 15, 1) == 1),
    {
        read_field(self.0 as u32, 15, 1) == 1
    }

    /// Sets the [`enabled`](`DmaCnt::enabled`) field.
    pub fn with_enabled(self, value: bool) -> (r: Self)
        ensures
            r@ == set_bits(self@, 15, 1, if value { 1 } else { 0 }),
    {
        let x: u32 = if value { 1 } else { 0 };
        proof {
            lemma_fits_small(x, 1);
        }
        let v = write_field(self.0 as u32, 15, 1, x);
        proof {
            lemma_set_u16(self.0 as u32, 15, 1, x);
        }
        DmaCnt(v as u16)
    }
}

/// The control word of a timer.
#[derive(Copy, Clone, Debug, PartialEq, Eq, Structural)]
pub struct TimerCnt(u16);
impl View for TimerCnt {
    type V = u32;
    closed spec fn view(&self) -> u32 {
        self.0 as u32
    }
}
impl Default for TimerCnt {
    fn default() -> (r: Self)
        ensures
            r@ == 0,
    {
        TimerCnt(0)
    }
}
impl TimerCnt {
    /// Every value fits in 16 bits.
    pub proof fn lemma_bounded(self)
        ensures
            self@ < 0x10000,
    {
    }

    /// The value with all fields zero.
    pub fn new() -> (r: Self)
        ensures
            r@ == 0,
    {
        TimerCnt(0)
    }

    /// Builds a value from its raw register bits.
    pub fn from_bits(bits: u16) -> (r: Self)
        ensures
            r@ == bits as u32,
    {
        TimerCnt(bits)
    }

    /// The raw register bits of this value.
    pub fn bits(&self) -> (r: u16)
        ensures
            r as u32 == self@,
    {
        self.0
    }

    /// The prescaler.
    pub fn scale(&self) -> (r: TimerScale)
        ensures
            r.code() == get_bits(self@, 0, 2),
    {
        let v = read_field(self.0 as u32, 0, 2);
        proof {
            lemma_fits_small(v, 2);
        }
        TimerScale::try_from_u16(v as u16).unwrap()
    }

    /// Sets the [`scale`](`TimerCnt::scale`) field.
    pub fn with_scale(self, value: TimerScale) -> (r: Self)
        ensures
            r@ == set_bits(self@, 0, 2, value.code()),
    {
        let x = value.to_u16() as u32;
        proof {
            lemma_fits_small(x, 2);
        }
        let v = write_field(self.0 as u32, 0, 2, x);
        proof {
            lemma_set_u16(self.0 as u32, 0, 2, x);
        }
        TimerCnt(v as u16)
    }

    /// Whether the timer counts overflows of the previous timer.
    pub fn cascade(&self) -> (r: bool)
        ensures
            r == (get_bits(self@, 2, 1) == 1),
    {
        read_field(self.0 as u32, 2, 1) == 1
    }

    /// Sets the [`cascade`](`TimerCnt::cascade`) field.
    pub fn with_cascade(self, value: bool) -> (r: Self)
        ensures
            r@ == set_bits(self@, 2, 1, if value { 1 } else { 0 }),
    {
        let x: u32 = if value { 1 } else { 0 };
        proof {
            lemma_fits_small(x, 1);
        }
        let v = write_field(self.0 as u32, 2, 1, x);
        proof {
            lemma_set_u16(self.0 as u32, 2, 1, x);
        }
        TimerCnt(v as u16)
    }

    /// Whether an IRQ is sent on overflow.
    pub fn enable_irq(&self) -> (r: bool)
        ensures
            r == (get_bits(self@, 6, 1) == 1),
    {
        read_field(self.0 as u32, 6, 1) == 1
    }

    /// Sets the [`enable_irq`](`TimerCnt::enable_irq`) field.
    pub fn with_enable_irq(self, value: bool) -> (r: Self)
        ensures
            r@ == set_bits(self@, 6, 1, if value { 1 } else { 0 }),
    {
        let x: u32 = if value { 1 } else { 0 };
        proof {
            lemma_fits_small(x, 1);
        }
        let v = write_field(self.0 as u32, 6, 1, x);
        proof {
            lemma_set_u16(self.0 as u32, 6, 1, x);
        }
        TimerCnt(v as u16)
    }

    /// Whether the timer runs.
    pub fn enabled(&self) -> (r: bool)
        ensures
            r == (get_bits(self@, 7, 1) == 1),
    {
        read_field(self.0 as u32, 7, 1) == 1
    }

    /// Sets the [`enabled`](`TimerCnt::enabled`) field.
    pub fn with_enabled(self, value: bool) -> (r: Self)
        ensures
            r@ == set_bits(self@, 7, 1, if value { 1 } else { 0 }),
    {
        let x: u32 = if value { 1 } else { 0 };
        proof {
            lemma_fits_small(x, 1);
        }
        let v = write_field(self.0 as u32, 7, 1, x);
        proof {
            lemma_set_u16(self.0 as u32, 7, 1, x);
        }
        TimerCnt(v as u16)
    }
}

/// The keypad interrupt control word.
#[derive(Copy, Clone, Debug, PartialEq, Eq, Structural)]
pub struct KeyCnt(u16);
impl View for KeyCnt {
    type V = u32;
    closed spec fn view(&self) -> u32 {
        self.0 as u32
    }
}
impl Default for KeyCnt {
    fn default() -> (r: Self)
        ensures
            r@ == 0,
    {
        KeyCnt(0)
    }
}
impl KeyCnt {
    /// Every value fits in 16 bits.
    pub proof fn lemma_bounded(self)
        ensures
            self@ < 0x10000,
    {
    }

    /// The value with all fields zero.
    pub fn new() -> (r: Self)
        ensures
            r@ == 0,
    {
        KeyCnt(0)
    }

    /// Builds a value from its raw register bits.
    pub fn from_bits(bits: u16) -> (r: Self)
        ensures
            r@ == bits as u32,
    {
        KeyCnt(bits)
    }

    /// The raw register bits of this value.
    pub fn bits(&self) -> (r: u16)
        ensures
            r as u32 == self@,
    {
        self.0
    }

    /// The keys that take part.
    pub fn keys(&self) -> (r: ButtonSet)
        ensures
            r@ == get_bits(self@, 0, 10),
    {
        let v = read_field(self.0 as u32, 0, 10);
        proof {
            lemma_fits_small(v, 10);
        }
        ButtonSet::from_bits_truncated(v)
    }

    /// Sets the [`keys`](`KeyCnt::keys`) field.
    pub fn with_keys(self, value: ButtonSet) -> (r: Self)
        ensures
            r@ == set_bits(self@, 0, 10, value@),
    {
        let x = value.as_u32_truncated();
        proof {
            lemma_fits_small(x, 10);
        }
        let v = write_field(self.0 as u32, 0, 10, x);
        proof {
            lemma_set_u16(self.0 as u32, 0, 10, x);
        }
        KeyCnt(v as u16)
    }

    /// Whether the interrupt is enabled.
    pub fn enable_irq(&self) -> (r: bool)
        ensures
            r == (get_bits(self@, 14, 1) == 1),
    {
        read_field(self.0 as u32, 14, 1) == 1
    }

    /// Sets the [`enable_irq`](`KeyCnt::enable_irq`) field.
    pub fn with_enable_irq(self, value: bool) -> (r: Self)
        ensures
            r@ == set_bits(self@, 14, 1, if value { 1 } else { 0 }),
    {
        let x: u32 = if value { 1 } else { 0 };
        proof {
            lemma_fits_small(x, 1);
        }
        let v = write_field(self.0 as u32, 14, 1, x);
        proof {
            lemma_set_u16(self.0 as u32, 14, 1, x);
        }
        KeyCnt(v as u16)
    }

    /// How the keys are combined.
    pub fn condition(&self) -> (r: ButtonCondition)
        ensures
            r.code() == get_bits(self@, 15, 1),
    {
        let v = read_field(self.0 as u32, 15, 1);
        proof {
            lemma_fits_small(v, 1);
        }
        ButtonCondition::try_from_u16(v as u16).unwrap()
    }

    /// Sets the [`condition`](`KeyCnt::condition`) field.
    pub fn with_condition(self, value: ButtonCondition) -> (r: Self)
        ensures
            r@ == set_bits(self@, 15, 1, value.code()),
    {
        let x = value.to_u16() as u32;
        proof {
            lemma_fits_small(x, 1);
        }
        let v = write_field(self.0 as u32, 15, 1, x);
        proof {
            lemma_set_u16(self.0 as u32, 15, 1, x);
        }
        KeyCnt(v as u16)
    }
}

/// The game pak wait state control word.
#[derive(Copy, Clone, Debug, PartialEq, Eq, Structural)]
pub struct WaitCnt(u16);
impl View for WaitCnt {
    type V = u32;
    closed spec fn view(&self) -> u32 {
        self.0 as u32
    }
}
impl Default for WaitCnt {
    fn default() -> (r: Self)
        ensures
            r@ == 0,
    {
        WaitCnt(0)
    }
}
impl WaitCnt {
    /// Every value fits in 16 bits.
    pub proof fn lemma_bounded(self)
        ensures
            self@ < 0x10000,
    {
    }

    /// The value with all fields zero.
    pub fn new() -> (r: Self)
        ensures
            r@ == 0,
    {
        WaitCnt(0)
    }

    /// Builds a value from its raw register bits.
    pub fn from_bits(bits: u16) -> (r: Self)
        ensures
            r@ == bits as u32,
    {
        WaitCnt(bits)
    }

    /// The raw register bits of this value.
    pub fn bits(&self) -> (r: u16)
        ensures
            r as u32 == self@,
    {
        self.0
    }

    /// The SRAM wait state.
    pub fn sram_wait(&self) -> (r: WaitState)
        ensures
            r.code() == get_bits(self@, 0, 2),
    {
        let v = read_field(self.0 as u32, 0, 2);
        proof {
            lemma_fits_small(v, 2);
        }
        WaitState::try_from_u16(v as u16).unwrap()
    }

    /// Sets the [`sram_wait`](`WaitCnt::sram_wait`) field.
    pub fn with_sram_wait(self, value: WaitState) -> (r: Self)
        ensures
            r@ == set_bits(self@, 0, 2, value.code()),
    {
        let x = value.to_u16() as u32;
        proof {
            lemma_fits_small(x, 2);
        }
        let v = write_field(self.0 as u32, 0, 2, x);
        proof {
            lemma_set_u16(self.0 as u32, 0, 2, x);
        }
        WaitCnt(v as u16)
    }

    /// The first ROM mirror wait state.
    pub fn rom0_wait(&self) -> (r: WaitState)
        ensures
            r.code() == get_bits(self@, 2, 2),
    {
        let v = read_field(self.0 as u32, 2, 2);
        proof {
            lemma_fits_small(v, 2);
        }
        WaitState::try_from_u16(v as u16).unwrap()
    }

    /// Sets the [`rom0_wait`](`WaitCnt::rom0_wait`) field.
    pub fn with_rom0_wait(self, value: WaitState) -> (r: Self)
        ensures
            r@ == set_bits(self@, 2, 2, value.code()),
    {
        let x = value.to_u16() as u32;
        proof {
            lemma_fits_small(x, 2);
        }
        let v = write_field(self.0 as u32, 2, 2, x);
        proof {
            lemma_set_u16(self.0 as u32, 2, 2, x);
        }
        WaitCnt(v as u16)
    }

    /// Whether sequential access to the first ROM mirror is fast.
    pub fn rom0_fast_seq(&self) -> (r: bool)
        ensures
            r == (get_bits(self@, 4, 1) == 1),
    {
        read_field(self.0 as u32, 4, 1) == 1
    }

    /// Sets the [`rom0_fast_seq`](`WaitCnt::rom0_fast_seq`) field.
    pub fn with_rom0_fast_seq(self, value: bool) -> (r: Self)
        ensures
            r@ == set_bits(self@, 4, 1, if value { 1 } else { 0 }),
    {
        let x: u32 = if value { 1 } else { 0 };
        proof {
            lemma_fits_small(x, 1);
        }
        let v = write_field(self.0 as u32, 4, 1, x);
        proof {
            lemma_set_u16(self.0 as u32, 4, 1, x);
        }
        WaitCnt(v as u16)
    }

    /// The second ROM mirror wait state.
    pub fn rom1_wait(&self) -> (r: WaitState)
        ensures
            r.code() == get_bits(self@, 5, 2),
    {
        let v = read_field(self.0 as u32, 5, 2);
        proof {
            lemma_fits_small(v, 2);
        }
        WaitState::try_from_u16(v as u16).unwrap()
    }

    /// Sets the [`rom1_wait`](`WaitCnt::rom1_wait`) field.
    pub fn with_rom1_wait(self, value: WaitState) -> (r: Self)
        ensures
            r@ == set_bits(self@, 5, 2, value.code()),
    {
        let x = value.to_u16() as u32;
        proof {
            lemma_fits_small(x, 2);
        }
        let v = write_field(self.0 as u32, 5, 2, x);
        proof {
            lemma_set_u16(self.0 as u32, 5, 2, x);
        }
        WaitCnt(v as u16)
    }

    /// Whether sequential access to the second ROM mirror is fast.
    pub fn rom1_fast_seq(&self) -> (r: bool)
        ensures
            r == (get_bits(self@, 7, 1) == 1),
    {
        read_field(self.0 as u32, 7, 1) == 1
    }

    /// Sets the [`rom1_fast_seq`](`WaitCnt::rom1_fast_seq`) field.
    pub fn with_rom1_fast_seq(self, value: bool) -> (r: Self)
        ensures
            r@ == set_bits(self@, 7, 1, if value { 1 } else { 0 }),
    {
        let x: u32 = if value { 1 } else { 0 };
        proof {
            lemma_fits_small(x, 1);
        }
        let v = write_field(self.0 as u32, 7, 1, x);
        proof {
            lemma_set_u16(self.0 as u32, 7, 1, x);
        }
        WaitCnt(v as u16)
    }

    /// The third ROM mirror wait state.
    pub fn rom2_wait(&self) -> (r: WaitState)
        ensures
            r.code() == get_bits(self@, 8, 2),
    {
        let v = read_field(self.0 as u32, 8, 2);
        proof {
            lemma_fits_small(v, 2);
        }
        WaitState::try_from_u16(v as u16).unwrap()
    }

    /// Sets the [`rom2_wait`](`WaitCnt::rom2_wait`) field.
    pub fn with_rom2_wait(self, value: WaitState) -> (r: Self)
        ensures
            r@ == set_bits(self@, 8, 2, value.code()),
    {
        let x = value.to_u16() as u32;
        proof {
            lemma_fits_small(x, 2);
        }
        let v = write_field(self.0 as u32, 8, 2, x);
        proof {
            lemma_set_u16(self.0 as u32, 8, 2, x);
        }
        WaitCnt(v as u16)
    }

    /// Whether sequential access to the third ROM mirror is fast.
    pub fn rom2_fast_seq(&self) -> (r: bool)
        ensures
            r == (get_bits(self@, 10, 1) == 1),
    {
        read_field(self.0 as u32, 10, 1) == 1
    }

    /// Sets the [`rom2_fast_seq`](`WaitCnt::rom2_fast_seq`) field.
    pub fn with_rom2_fast_seq(self, value: bool) -> (r: Self)
        ensures
            r@ == set_bits(self@, 10, 1, if value { 1 } else { 0 }),
    {
        let x: u32 = if value { 1 } else { 0 };
        proof {
            lemma_fits_small(x, 1);
        }
        let v = write_field(self.0 as u32, 10, 1, x);
        proof {
            lemma_set_u16(self.0 as u32, 10, 1, x);
        }
        WaitCnt(v as u16)
    }

    /// Whether the ROM prefetch buffer is enabled.
    pub fn enable_rom_prefetch(&self) -> (r: bool)
        ensures
            r == (get_bits(self@, 14, 1) == 1),
    {
        read_field(self.0 as u32, 14, 1) == 1
    }

    /// Sets the [`enable_rom_prefetch`](`WaitCnt::enable_rom_prefetch`) field.
    pub fn with_enable_rom_prefetch(self, value: bool) -> (r: Self)
        ensures
            r@ == set_bits(self@, 14, 1, if value { 1 } else { 0 }),
    {
        let x: u32 = if value { 1 } else { 0 };
        proof {
            lemma_fits_small(x, 1);
        }
        let v = write_field(self.0 as u32, 14, 1, x);
        proof {
            lemma_set_u16(self.0 as u32, 14, 1, x);
        }
        WaitCnt(v as u16)
    }

    /// Whether the console is a CGB.
    pub fn is_cgb(&self) -> (r: bool)
        ensures
            r == (get_bits(self@, 15, 1) == 1),
    {
        read_field(self.0 as u32, 15, 1) == 1
    }

    /// Sets the [`is_cgb`](`WaitCnt::is_cgb`) field.
    pub fn with_is_cgb(self, value: bool) -> (r: Self)
        ensures
            r@ == set_bits(self@, 15, 1, if value { 1 } else { 0 }),
    {
        let x: u32 = if value { 1 } else { 0 };
        proof {
            lemma_fits_small(x, 1);
        }
        let v = write_field(self.0 as u32, 15, 1, x);
        proof {
            lemma_set_u16(self.0 as u32, 15, 1, x);
        }
        WaitCnt(v as u16)
    }
}

} // verus!

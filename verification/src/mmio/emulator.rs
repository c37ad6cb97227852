//! Register layouts of the emulator debug interfaces.
use crate::bits::{get_bits, lemma_fits_small, lemma_set_u16, read_field, set_bits, write_field};
use vstd::prelude::*;

verus! {

/// A message level of the mGBA debug interface.
#[derive(Copy, Clone, Debug, PartialEq, Eq, Structural)]
pub enum MgbaDebugLevel {
    /// Fatal.
    Fatal,
    /// Error.
    Error,
    /// Warning.
    Warn,
    /// Information.
    Info,
    /// Debugging.
    Debug,
    /// Stub.
    Stub,
    /// Game error.
    GameError,
}
impl MgbaDebugLevel {
    /// The numeric value of this variant in a register.
    pub open spec fn code(self) -> u32 {
        match self {
            MgbaDebugLevel::Fatal => 0,
            MgbaDebugLevel::Error => 1,
            MgbaDebugLevel::Warn => 2,
            MgbaDebugLevel::Info => 3,
            MgbaDebugLevel::Debug => 4,
            MgbaDebugLevel::Stub => 5,
            MgbaDebugLevel::GameError => 6,
        }
    }

    /// The variant with a given numeric value.
    pub open spec fn from_code(c: u32) -> Self {
        if c == 0 { MgbaDebugLevel::Fatal } else if c == 1 { MgbaDebugLevel::Error } else if c == 2 { MgbaDebugLevel::Warn } else if c == 3 { MgbaDebugLevel::Info } else if c == 4 { MgbaDebugLevel::Debug } else if c == 5 { MgbaDebugLevel::Stub } else { MgbaDebugLevel::GameError }
    }

    /// Converts this variant to its numeric value.
    pub fn to_u16(self) -> (r: u16)
        ensures
            r as u32 == self.code(),
            r < 7,
    {
        match self {
            MgbaDebugLevel::Fatal => 0,
            MgbaDebugLevel::Error => 1,
            MgbaDebugLevel::Warn => 2,
            MgbaDebugLevel::Info => 3,
            MgbaDebugLevel::Debug => 4,
            MgbaDebugLevel::Stub => 5,
            MgbaDebugLevel::GameError => 6,
        }
    }

    /// Converts a numeric value to a variant, if it names one.
    pub fn try_from_u16(v: u16) -> (r: Option<Self>)
        ensures
            r.is_some() == (v < 7),
            r matches Some(m) ==> m.code() == v as u32 && m == Self::from_code(v as u32),
    {
        if v == 0 { Some(MgbaDebugLevel::Fatal) } else if v == 1 { Some(MgbaDebugLevel::Error) } else if v == 2 { Some(MgbaDebugLevel::Warn) } else if v == 3 { Some(MgbaDebugLevel::Info) } else if v == 4 { Some(MgbaDebugLevel::Debug) } else if v == 5 { Some(MgbaDebugLevel::Stub) } else if v == 6 { Some(MgbaDebugLevel::GameError) } else { None }
    }
}

/// The register value of every variant is in range, and converting it back gives the
/// variant.
pub proof fn lemma_mgba_debug_level_code(m: MgbaDebugLevel)
    ensures
        m.code() < 7,
        MgbaDebugLevel::from_code(m.code()) == m,
{
}

/// The flag word of the mGBA debug interface.
#[derive(Copy, Clone, Debug, PartialEq, Eq, Structural)]
pub struct MgbaDebugFlag(u16);
impl View for MgbaDebugFlag {
    type V = u32;
    closed spec fn view(&self) -> u32 {
        self.0 as u32
    }
}
impl Default for MgbaDebugFlag {
    fn default() -> (r: Self)
        ensures
            r@ == 0,
    {
        MgbaDebugFlag(0)
    }
}
impl MgbaDebugFlag {
    /// Every value fits in 16 bits.
    pub proof fn lemma_bounded(self)
        ensures
            self@ < 0x10000,
    {
    }

    /// The value with all fields zero.
    pub fn new() -> (r: Self)
        ensures
            r@ == 0,
    {
        MgbaDebugFlag(0)
    }

    /// Builds a value from its raw register bits.
    pub fn from_bits(bits: u16) -> (r: Self)
        ensures
            r@ == bits as u32,
    {
        MgbaDebugFlag(bits)
    }

    /// The raw register bits of this value.
    pub fn bits(&self) -> (r: u16)
        ensures
            r as u32 == self@,
    {
        self.0
    }

    /// The message level.
    pub fn level(&self) -> (r: MgbaDebugLevel)
        requires
            get_bits(self@, 0, 3) < 7,
        ensures
            r.code() == get_bits(self@, 0, 3),
    {
        let v = read_field(self.0 as u32, 0, 3);
        MgbaDebugLevel::try_from_u16(v as u16).unwrap()
    }

    /// Sets the [`level`](`MgbaDebugFlag::level`) field.
    pub fn with_level(self, value: MgbaDebugLevel) -> (r: Self)
        ensures
            r@ == set_bits(self@, 0, 3, value.code()),
    {
        let x = value.to_u16() as u32;
        proof {
            lemma_fits_small(x, 3);
        }
        let v = write_field(self.0 as u32, 0, 3, x);
        proof {
            lemma_set_u16(self.0 as u32, 0, 3, x);
        }
        MgbaDebugFlag(v as u16)
    }

    /// Whether to send the buffered message.
    pub fn send(&self) -> (r: bool)
        ensures
            r == (get_bits(self@, 8, 1) == 1),
    {
        read_field(self.0 as u32, 8, 1) == 1
    }

    /// Sets the [`send`](`MgbaDebugFlag::send`) field.
    pub fn with_send(self, value: bool) -> (r: Self)
        ensures
            r@ == set_bits(self@, 8, 1, if value { 1 } else { 0 }),
    {
        let x: u32 = if value { 1 } else { 0 };
        proof {
            lemma_fits_small(x, 1);
        }
        let v = write_field(self.0 as u32, 8, 1, x);
        proof {
            lemma_set_u16(self.0 as u32, 8, 1, x);
        }
        MgbaDebugFlag(v as u16)
    }
}

} // verus!

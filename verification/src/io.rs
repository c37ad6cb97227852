//! Memory-mapped registers: their addresses, and the writes the library asks the hardware layer
//! to perform.
use core::marker::PhantomData;
use vstd::layout::size_of;
use vstd::prelude::*;

verus! {

/// A write of a value to a memory-mapped address.
#[derive(Copy, Clone, Debug, PartialEq, Eq, Structural)]
pub enum IoWrite {
    /// An 8-bit write.
    U8 { addr: usize, value: u8 },
    /// A 16-bit write.
    U16 { addr: usize, value: u16 },
    /// A 32-bit write.
    U32 { addr: usize, value: u32 },
}

/// Marks a register that safe code may access.
#[derive(Copy, Clone, Debug)]
pub enum Safe {
    /// The only value.
    Marker,
}

/// Marks a register whose access is unsafe.
#[derive(Copy, Clone, Debug)]
pub enum Unsafe {
    /// The only value.
    Marker,
}

/// A memory-mapped register holding values of type `T`.
pub struct Register<T, S> {
    addr: usize,
    _phantom: PhantomData<(T, S)>,
}

impl<T, S> Register<T, S> {
    /// The address of the register.
    pub closed spec fn address(&self) -> usize {
        self.addr
    }

    /// A register at the given address.
    pub fn new(offset: usize) -> (r: Self)
        ensures
            r.address() == offset,
    {
        Register { addr: offset, _phantom: PhantomData }
    }

    /// The address of the register.
    pub fn as_ptr(&self) -> (r: usize)
        ensures
            r == self.address(),
    {
        self.addr
    }
}

/// An array of `COUNT` consecutive memory-mapped registers.
pub struct RegArray<T, const COUNT: usize, S> {
    addr: usize,
    _phantom: PhantomData<(T, S)>,
}

impl<T, const COUNT: usize, S> RegArray<T, COUNT, S> {
    /// The address of the first register.
    pub closed spec fn address(&self) -> usize {
        self.addr
    }

    /// The registers fit in the address space.
    pub closed spec fn wf(&self) -> bool {
        self.addr + COUNT * size_of::<T>() <= usize::MAX
    }

    /// An array at the given address.
    pub fn new(offset: usize) -> (r: Self)
        requires
            offset + COUNT * size_of::<T>() <= usize::MAX,
        ensures
            r.address() == offset,
            r.wf(),
    {
        RegArray { addr: offset, _phantom: PhantomData }
    }

    /// The register at a given index.
    pub fn index(&self, offset: usize) -> (r: Register<T, S>)
        requires
            self.wf(),
            offset < COUNT,
        ensures
            r.address() == self.address() + offset * size_of::<T>(),
    {
        let size = core::mem::size_of::<T>();
        assert(offset * size <= COUNT * size) by (nonlinear_arith)
            requires
                offset < COUNT,
        ;
        Register::new(self.addr + offset * size)
    }

    /// The address of the first register.
    pub fn as_ptr(&self) -> (r: usize)
        ensures
            r == self.address(),
    {
        self.addr
    }
}

/// An array of `COUNT` memory-mapped registers placed `SPAN` elements apart.
pub struct RegSpanned<T, const COUNT: usize, const SPAN: usize, S> {
    addr: usize,
    _phantom: PhantomData<(T, S)>,
}

impl<T, const COUNT: usize, const SPAN: usize, S> RegSpanned<T, COUNT, SPAN, S> {
    /// The address of the first register.
    pub closed spec fn address(&self) -> usize {
        self.addr
    }

    /// The registers fit in the address space.
    pub closed spec fn wf(&self) -> bool {
        self.addr + COUNT * SPAN * size_of::<T>() <= usize::MAX && COUNT * SPAN <= usize::MAX
    }

    /// A spanned array at the given address.
    pub fn new(offset: usize) -> (r: Self)
        requires
            offset + COUNT * SPAN * size_of::<T>() <= usize::MAX,
            COUNT * SPAN <= usize::MAX,
        ensures
            r.address() == offset,
            r.wf(),
    {
        RegSpanned { addr: offset, _phantom: PhantomData }
    }

    /// The register at a given index.
    pub fn index(&self, offset: usize) -> (r: Register<T, S>)
        requires
            self.wf(),
            offset < COUNT,
        ensures
            r.address() == self.address() + SPAN * offset * size_of::<T>(),
    {
        let size = core::mem::size_of::<T>();
        assert(SPAN * offset * size <= COUNT * SPAN * size) by (nonlinear_arith)
            requires
                offset < COUNT,
        ;
        assert(SPAN * offset <= COUNT * SPAN) by (nonlinear_arith)
            requires
                offset < COUNT,
        ;
        Register::new(self.addr + SPAN * offset * size)
    }

    /// The address of the first register.
    pub fn as_ptr(&self) -> (r: usize)
        ensures
            r == self.address(),
    {
        self.addr
    }
}

/// The address of the LCD control register.
pub const DISPCNT: usize = 0x4000000;

/// The address of the LCD status register.
pub const DISPSTAT: usize = 0x4000004;

/// The address of the scanline counter register.
pub const VCOUNT: usize = 0x4000006;

/// The address of the first background control register.
pub const BG_CNT: usize = 0x4000008;

/// The address of the first background horizontal offset register.
pub const BG_HOFS: usize = 0x4000010;

/// The address of the first background vertical offset register.
pub const BG_VOFS: usize = 0x4000012;

/// The address of the background palette RAM.
pub const BG_PALETTE_RAM: usize = 0x5000000;

/// The start of video RAM.
pub const VRAM_BASE: usize = 0x6000000;

/// The end of the background part of video RAM.
pub const VRAM_END: usize = 0x6010000;

/// The address of the first timer counter register.
pub const TM_CNT_L: usize = 0x4000100;

/// The address of the first timer control register.
pub const TM_CNT_H: usize = 0x4000102;

/// The address of the first DMA source address register.
pub const DMA_SAD: usize = 0x40000B0;

/// The address of the first DMA destination address register.
pub const DMA_DAD: usize = 0x40000B4;

/// The address of the first DMA word count register.
pub const DMA_CNT_L: usize = 0x40000B8;

/// The address of the first DMA control register.
pub const DMA_CNT_H: usize = 0x40000BA;

/// The address of the interrupt enable register.
pub const IE: usize = 0x4000200;

/// The address of the interrupt request flags register.
pub const IF: usize = 0x4000202;

/// The address of the interrupt master enable register.
pub const IME: usize = 0x4000208;

/// The address of the interrupt flags the BIOS waits on, in work RAM.
pub const BIOS_IF: usize = 0x3007FF8;

/// The address of the mGBA debug enable register.
pub const MGBA_DEBUG_ENABLE: usize = 0x4fff780;

/// The value written to the mGBA debug enable register to ask for debug output.
pub const MGBA_DEBUG_ENABLE_INPUT: u16 = 0xC0DE;

/// The value mGBA answers in its debug enable register.
pub const MGBA_DEBUG_ENABLE_OUTPUT: u16 = 0x1DEA;

/// The address of the mGBA debug string buffer, 256 bytes long.
pub const MGBA_DEBUG_STR: usize = 0x4fff600;

/// The address of the mGBA debug flag register, which sends the buffer.
pub const MGBA_DEBUG_FLAG: usize = 0x4fff700;

/// The address of the no$gba character output register.
pub const NO_CASH_CHAR: usize = 0x04fffa1c;

/// The address of the no$gba signature, 16 bytes long.
pub const NO_CASH_SIG: usize = 0x04fffa00;

/// The address of the key status register: a bit is clear while its key is held.
pub const KEYINPUT: usize = 0x4000130;

/// The address of the keypad interrupt control register.
pub const KEYCNT: usize = 0x4000132;

/// The address of the game pak wait state control register.
pub const WAITCNT: usize = 0x4000204;

} // verus!

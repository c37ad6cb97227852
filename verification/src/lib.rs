//! A verified model of a low-level GBA library: register layouts, display state,
//! terminal rendering, timers, DMA control and related helpers.

pub mod allocator;
pub mod bits;
pub mod convert;
pub mod debug;
pub mod mmio;
pub mod panic_screen;
pub mod save;
pub mod display;
pub mod sync;
pub mod sys;
pub mod timer;
pub mod io;
pub mod irq;
pub mod dma;
pub mod font_builder;
pub mod header;

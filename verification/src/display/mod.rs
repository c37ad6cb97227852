//! Interfaces to the GBA's graphics chip.

pub mod color;
pub mod fonts;
pub mod layers;
pub mod modes;
pub mod terminal;
pub mod vram;

//! Memory-mapped register layouts and their bit fields.

pub mod display;
pub mod emulator;
pub mod sets;
pub mod sys;

//! Building the terminal fonts from the source fonts: choosing the characters, assigning
//! their glyphs to slots of the character data, and encoding the lookup tables.
pub mod chars;
pub mod planes;
pub mod tables;
pub mod files;
pub mod sources;

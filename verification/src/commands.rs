//! The user-facing operations: checksum validation and preparing an image
//! for writing.

pub mod validate;
pub mod write_rom;

//! Inspection, validation and binary patching of legacy PC option ROM images.
//!
//! An option ROM is a firmware image identified by a `0x55 0xAA` signature,
//! with its length declared in 512-byte units at offset 2 and a final
//! checksum byte that makes the byte-sum of the whole image 0 modulo 256.

mod byte_ops;
pub mod commands;
pub mod hex;
pub mod option_rom;
pub mod option_rom_patcher;
pub mod splice;

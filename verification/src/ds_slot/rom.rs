//! Cartridge ROM devices.

pub mod key1;
pub mod normal;

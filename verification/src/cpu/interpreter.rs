//! The interpreters of the two CPUs.

pub mod alu_utils;
pub mod arm7;
pub mod arm9;
pub mod regs;

//! Simulation core of a dual-CPU handheld console: event scheduling, interrupt
//! control, timers, memory dispatch and video memory bank mapping.

pub mod bits;
pub mod bytes;
pub mod cpu;
pub mod ds_slot;
pub mod emu;
pub mod gpu;
pub mod ipc;
pub mod wifi;

//! Per-CPU components: the event schedule, the interrupt controller and the timer bank.

pub mod arm7;
pub mod arm9;
pub mod dma;
pub mod interpreter;
pub mod irqs;
pub mod psr;
pub mod schedule;
pub mod timers;

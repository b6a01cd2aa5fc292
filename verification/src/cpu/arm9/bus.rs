//! The ARM9's view of memory.

pub mod fallback;

//! Save devices.

pub mod empty;
pub mod save_type;

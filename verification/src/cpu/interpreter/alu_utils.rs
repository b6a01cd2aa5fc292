//! Arithmetic and logic with the flags that the instructions set.

pub mod bit_ops;

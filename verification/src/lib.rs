//! The instruction core of an 8-bit accumulator machine of the 6502 family.

pub mod cpu;
pub mod instruction;
pub mod laws;
pub mod memory;
pub mod status;

//! An instruction engine for an 8-bit handheld console CPU, together with the
//! memory bus it addresses.

pub mod registers;
pub mod instructions;
pub mod error;
pub mod graphics;
pub mod memory;
pub mod cpu;

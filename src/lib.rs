//! An interpreter for the CHIP-8 instruction set: sixteen 8-bit registers,
//! 4 KiB of memory, a 64x32 monochrome screen, a call stack of sixteen
//! return addresses and two countdown timers.
pub mod cpu;
pub mod laws;
pub mod model;

pub use cpu::Cpu;
pub use model::Status;

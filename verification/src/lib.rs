//! A CHIP-8 virtual machine core: protected memory, a monochrome framebuffer
//! and the fetch-decode-execute engine that drives them.
//!
//! Every operation carries a contract over a mathematical model of the
//! machine: memory is a sequence of 4096 bytes, the framebuffer a sequence of
//! 2048 pixels, and the processor a record of registers, stack and timers.

pub mod error;
pub mod ram;
pub mod display;
pub mod opcode;
pub mod state;
pub mod cpu;
pub mod chip8;
pub mod laws;

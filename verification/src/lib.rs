//! A small 8-bit virtual machine with 4096 bytes of memory, sixteen 8-bit
//! registers, a 16-slot call stack, a 64x32 monochrome framebuffer, two
//! countdown timers and a 16-key keypad, driven one instruction per cycle.
use vstd::prelude::*;

pub mod cpu;
pub mod error;
pub mod laws;
pub mod opcode;
pub mod operation_map;
pub mod operations;
pub mod state;

pub use cpu::Cpu;

verus! {

/// Width of the framebuffer in pixels.
pub const CHIP8_WIDTH: u32 = 64;

/// Height of the framebuffer in pixels.
pub const CHIP8_HEIGHT: u32 = 32;

} // verus!

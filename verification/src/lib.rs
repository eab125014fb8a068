//! Core of a handheld-console emulator: an 8-bit processor with register
//! file and flag arithmetic, a flat 64 KiB memory map with memory-mapped
//! joypad and video registers, and a tile-based picture-processing unit.
//!
//! The host presentation layer (window, keyboard, vsync pacing) lives
//! outside this crate; it drives the emulation one frame at a time through
//! [`cpu::Cpu::start_cycle`] and reads pixels back with
//! [`renderer::Renderer::get_screen`].

use vstd::prelude::*;

pub mod cardridge;
pub mod cpu;
pub mod cpu_alu;
pub mod cpu_ops;
pub mod laws;
pub mod machine;
pub mod memory_map;
pub mod renderer;
pub mod settings;

verus! {

/// Machine cycles in one frame; the processor returns to the host once the
/// cycle counter crosses this budget.
pub const CYCLES_PER_FRAME: usize = 69905;

} // verus!

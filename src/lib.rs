//! An interpreter for a CHIP-8 class virtual machine: 4 KiB of memory, sixteen
//! byte registers, a sixteen-level call stack, two countdown timers and a
//! 64 x 32 monochrome display composited by XOR.
pub mod app;
pub mod cpu;
pub mod display;
pub mod error;
pub mod instruction;
pub mod mem;
pub mod theorems;

pub use app::App;
pub use cpu::{Cpu, Machine};
pub use display::Display;
pub use error::CpuError;
pub use instruction::Instruction;
pub use mem::Memory;

//! A CHIP-8 interpreter core: memory, framebuffer and the
//! fetch-decode-execute engine, with their behaviour proved.
pub mod chip8;
pub mod display;
pub mod instruction;
pub mod memory;

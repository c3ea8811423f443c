//! Virtual machine for the CHIP-8 programming language.
//!
//! The library covers the decode/execute engine and the framebuffer: opcodes
//! are decoded into [`instructions::Instruction`] values, which the
//! [`vm::VM`] executes one at a time against its registers, memory, display
//! and keypad.
pub mod display;
pub mod errors;
pub mod font;
pub mod instructions;
pub mod keypad;
pub mod memory;
pub mod vm;

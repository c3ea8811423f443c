//! Crate error types
use vstd::prelude::*;

use crate::instructions::Instruction;

verus! {

/// Error type for all errors in this crate
#[derive(Clone, Copy, Debug, PartialEq, Eq, Structural)]
pub enum Chip8Error {
    /// Invalid register definition
    InvalidRegister(u8),
    /// Unknown instruction
    UnknownInstruction(u16),
    /// Known but unimplemented instruction
    UnimplementedInstruction(Instruction),
    /// Invalid key definition
    InvalidKey(u8),
    /// Value is out of valid range
    OutOfRange(u16),
}

} // verus!

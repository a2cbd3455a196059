//! Single-instruction decoder for the MOS 6502 instruction set.
//!
//! Given a forward-only byte cursor positioned at an instruction boundary,
//! the decoder identifies the operation and its addressing mode, consumes
//! exactly the bytes that addressing mode requires, and produces a typed
//! [`Instruction`] record. Undocumented opcodes are deliberately left
//! unrecognized.

use vstd::prelude::*;

pub mod decoder;
pub mod error;
pub mod inst;
pub mod operand;
pub mod reader;

pub use decoder::InstDecoder;
pub use error::DecodeError;
pub use inst::Instruction;
pub use operand::Opcode;
pub use operand::Operand;
pub use reader::ByteReader;

verus! {

/// Marker for the MOS 6502 architecture: an 8-bit word, a 16-bit address
/// space, and the instruction set decoded by [`InstDecoder`].
#[derive(Debug)]
pub struct N6502;

/// Payload width classes of the addressing modes: a two-byte word, a single
/// byte, or no payload at all.
#[derive(Debug, Copy, Clone)]
pub enum Width {
    W,
    B,
    Zero,
}

} // verus!

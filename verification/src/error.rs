//! The decode error taxonomy.

use vstd::prelude::*;

verus! {

/// Why a decode attempt failed. All variants are terminal for a single
/// attempt: a malformed byte stream cannot change by retrying.
///
/// `InvalidOperand` is never produced by this decoder — every declared
/// classification pairs a valid tag with a consistent payload width — but is
/// retained in the taxonomy for forward compatibility.
#[derive(Debug, Copy, Clone, PartialEq, Eq)]
pub enum DecodeError {
    ExhaustedInput,
    InvalidOpcode,
    InvalidOperand,
}

impl DecodeError {
    /// Did the decoder fail because it reached the end of input?
    pub fn data_exhausted(&self) -> (r: bool)
        ensures
            r <==> *self == DecodeError::ExhaustedInput,
    {
        match self {
            DecodeError::ExhaustedInput => true,
            _ => false,
        }
    }

    /// Did the decoder fail because the opcode byte has no declared
    /// classification?
    pub fn bad_opcode(&self) -> (r: bool)
        ensures
            r <==> *self == DecodeError::InvalidOpcode,
    {
        match self {
            DecodeError::InvalidOpcode => true,
            _ => false,
        }
    }

    /// Did the decoder fail because an operand payload was rejected?
    pub fn bad_operand(&self) -> (r: bool)
        ensures
            r <==> *self == DecodeError::InvalidOperand,
    {
        match self {
            DecodeError::InvalidOperand => true,
            _ => false,
        }
    }

    /// A human-friendly description of this decode error.
    pub fn description(&self) -> (r: &'static str)
        ensures
            *self == DecodeError::ExhaustedInput ==> r@ == "exhausted input"@,
            *self == DecodeError::InvalidOpcode ==> r@ == "invalid opcode"@,
            *self == DecodeError::InvalidOperand ==> r@ == "invalid operand"@,
    {
        match self {
            DecodeError::ExhaustedInput => "exhausted input",
            DecodeError::InvalidOpcode => "invalid opcode",
            DecodeError::InvalidOperand => "invalid operand",
        }
    }
}

} // verus!

//! The decoded instruction record.

use vstd::prelude::*;

use crate::operand::Opcode;
use crate::operand::Operand;
use crate::operand::spec_width;

verus! {

/// One decoded instruction: an operation paired with its addressing mode.
/// Its byte length is always the operand's payload width plus the opcode
/// byte itself.
#[derive(Debug, Copy, Clone, PartialEq, Eq)]
pub struct Instruction {
    pub opcode: Opcode,
    pub operand: Operand,
}

/// Total length in bytes of an instruction: one opcode byte plus the
/// operand's payload width.
pub open spec fn spec_len(inst: Instruction) -> u16 {
    (spec_width(inst.operand) + 1) as u16
}

impl Default for Instruction {
    /// The placeholder state before a decode attempt completes: the invalid
    /// operation paired with the implied operand.
    fn default() -> (r: Self)
        ensures
            r.opcode == Opcode::Invalid(0xff),
            r.operand == Operand::Implied,
    {
        Instruction { opcode: Opcode::Invalid(0xff), operand: Operand::Implied }
    }
}

impl Instruction {
    /// Length in bytes of the shortest possible 6502 instruction.
    pub fn min_size() -> (r: u16)
        ensures
            r == 1,
    {
        1
    }

    /// Length in bytes of this instruction. Each opcode is 1 byte; the rest
    /// of the instruction's size is inherent in the operand.
    pub fn len(&self) -> (r: u16)
        ensures
            r == spec_len(*self),
    {
        self.operand.width() + 1
    }

    /// Whether this instruction is architecturally well defined. Every
    /// instruction this decoder produces comes from the documented opcode
    /// table, so all are reported well defined.
    pub fn well_defined(&self) -> (r: bool)
        ensures
            r,
    {
        true
    }
}

} // verus!

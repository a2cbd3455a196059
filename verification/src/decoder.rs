//! The opcode classification table and the decode procedure.

use vstd::prelude::*;

use crate::error::DecodeError;
use crate::inst::Instruction;
use crate::inst::spec_len;
use crate::operand::Opcode;
use crate::operand::Operand;
use crate::operand::le_word;
use crate::operand::lemma_with_payload_width;
use crate::operand::spec_width;
use crate::operand::spec_with_payload;
use crate::operand::word_payload;
use crate::reader::ByteReader;

verus! {

/// The 6502 instruction decoder. It carries no state: the classification
/// table is immutable data, safely shared by any number of decode calls.
///
/// The classification step is public on its own so that other tooling, such
/// as a cycle-accurate execution engine, can reuse it without committing to
/// full operand-byte consumption.
#[derive(Debug)]
pub struct InstDecoder;

impl Default for InstDecoder {
    fn default() -> (r: Self)
        ensures
            r == (InstDecoder {}),
    {
        InstDecoder {}
    }
}

/// The opcode classification table: the partial map from each of the 256
/// possible opcode bytes to its (operation, addressing mode) pair. The
/// declared entries are exactly the documented 6502 instruction set;
/// undocumented opcodes map to `None`. The operand carried by an entry is a
/// placeholder with a zero payload: it fixes the addressing-mode tag, and
/// with it the payload width, before any payload bytes are read.
pub open spec fn classify_spec(opcode: u8) -> Option<(Opcode, Operand)> {
    match opcode {
        0x00 => Some((Opcode::BRK, Operand::Implied)),
        0x01 => Some((Opcode::ORA, Operand::XIndexedIndirect(0))),
        0x05 => Some((Opcode::ORA, Operand::ZeroPage(0))),
        0x06 => Some((Opcode::ASL, Operand::ZeroPage(0))),
        0x08 => Some((Opcode::PHP, Operand::Implied)),
        0x09 => Some((Opcode::ORA, Operand::Immediate(0))),
        0x0a => Some((Opcode::ASL, Operand::Accumulator)),
        0x0d => Some((Opcode::ORA, Operand::Absolute(0))),
        0x0e => Some((Opcode::ASL, Operand::Absolute(0))),

        0x10 => Some((Opcode::BPL, Operand::Relative(0))),
        0x11 => Some((Opcode::ORA, Operand::IndirectYIndexed(0))),
        0x15 => Some((Opcode::ORA, Operand::ZeroPageX(0))),
        0x16 => Some((Opcode::ASL, Operand::ZeroPageX(0))),
        0x18 => Some((Opcode::CLC, Operand::Implied)),
        0x19 => Some((Opcode::ORA, Operand::AbsoluteY(0))),
        0x1d => Some((Opcode::ORA, Operand::AbsoluteX(0))),
        0x1e => Some((Opcode::ASL, Operand::AbsoluteX(0))),

        0x20 => Some((Opcode::JSR, Operand::Absolute(0))),
        0x21 => Some((Opcode::AND, Operand::XIndexedIndirect(0))),
        0x24 => Some((Opcode::BIT, Operand::ZeroPage(0))),
        0x25 => Some((Opcode::AND, Operand::ZeroPage(0))),
        0x26 => Some((Opcode::ROL, Operand::ZeroPage(0))),
        0x28 => Some((Opcode::PLP, Operand::Implied)),
        0x29 => Some((Opcode::AND, Operand::Immediate(0))),
        0x2a => Some((Opcode::ROL, Operand::Accumulator)),
        0x2c => Some((Opcode::BIT, Operand::Absolute(0))),
        0x2d => Some((Opcode::AND, Operand::Absolute(0))),
        0x2e => Some((Opcode::ROL, Operand::Absolute(0))),

        0x30 => Some((Opcode::BMI, Operand::Relative(0))),
        0x31 => Some((Opcode::AND, Operand::IndirectYIndexed(0))),
        0x35 => Some((Opcode::AND, Operand::ZeroPageX(0))),
        0x36 => Some((Opcode::ROL, Operand::ZeroPageX(0))),
        0x38 => Some((Opcode::SEC, Operand::Implied)),
        0x39 => Some((Opcode::AND, Operand::AbsoluteY(0))),
        0x3d => Some((Opcode::AND, Operand::AbsoluteX(0))),
        0x3e => Some((Opcode::ROL, Operand::AbsoluteX(0))),

        0x40 => Some((Opcode::RTI, Operand::Implied)),
        0x41 => Some((Opcode::EOR, Operand::XIndexedIndirect(0))),
        0x45 => Some((Opcode::EOR, Operand::ZeroPage(0))),
        0x46 => Some((Opcode::LSR, Operand::ZeroPage(0))),
        0x48 => Some((Opcode::PHA, Operand::Implied)),
        0x49 => Some((Opcode::EOR, Operand::Immediate(0))),
        0x4a => Some((Opcode::LSR, Operand::Accumulator)),
        0x4c => Some((Opcode::JMP, Operand::Absolute(0))),
        0x4d => Some((Opcode::EOR, Operand::Absolute(0))),
        0x4e => Some((Opcode::LSR, Operand::Absolute(0))),

        0x50 => Some((Opcode::BVC, Operand::Relative(0))),
        0x51 => Some((Opcode::EOR, Operand::IndirectYIndexed(0))),
        0x55 => Some((Opcode::EOR, Operand::ZeroPageX(0))),
        0x56 => Some((Opcode::LSR, Operand::ZeroPageX(0))),
        0x58 => Some((Opcode::CLI, Operand::Implied)),
        0x59 => Some((Opcode::EOR, Operand::AbsoluteY(0))),
        0x5d => Some((Opcode::EOR, Operand::AbsoluteX(0))),
        0x5e => Some((Opcode::LSR, Operand::AbsoluteX(0))),

        0x60 => Some((Opcode::RTS, Operand::Implied)),
        0x61 => Some((Opcode::ADC, Operand::XIndexedIndirect(0))),
        0x65 => Some((Opcode::ADC, Operand::ZeroPage(0))),
        0x66 => Some((Opcode::ROR, Operand::ZeroPage(0))),
        0x68 => Some((Opcode::PLA, Operand::Implied)),
        0x69 => Some((Opcode::ADC, Operand::Immediate(0))),
        0x6a => Some((Opcode::ROR, Operand::Accumulator)),
        0x6c => Some((Opcode::JMP, Operand::Indirect(0))),
        0x6d => Some((Opcode::ADC, Operand::Absolute(0))),
        0x6e => Some((Opcode::ROR, Operand::Absolute(0))),

        0x70 => Some((Opcode::BVS, Operand::Relative(0))),
        0x71 => Some((Opcode::ADC, Operand::IndirectYIndexed(0))),
        0x75 => Some((Opcode::ADC, Operand::ZeroPageX(0))),
        0x76 => Some((Opcode::ROR, Operand::ZeroPageX(0))),
        0x78 => Some((Opcode::SEI, Operand::Implied)),
        0x79 => Some((Opcode::ADC, Operand::AbsoluteY(0))),
        0x7d => Some((Opcode::ADC, Operand::AbsoluteX(0))),
        0x7e => Some((Opcode::ROR, Operand::AbsoluteX(0))),

        // 0x80 is unassigned
        0x81 => Some((Opcode::STA, Operand::XIndexedIndirect(0))),
        0x84 => Some((Opcode::STY, Operand::ZeroPage(0))),
        0x85 => Some((Opcode::STA, Operand::ZeroPage(0))),
        0x86 => Some((Opcode::STX, Operand::ZeroPage(0))),
        0x88 => Some((Opcode::DEY, Operand::Implied)),
        0x8a => Some((Opcode::TXA, Operand::Implied)),
        0x8c => Some((Opcode::STY, Operand::Absolute(0))),
        0x8d => Some((Opcode::STA, Operand::Absolute(0))),
        0x8e => Some((Opcode::STX, Operand::Absolute(0))),

        0x90 => Some((Opcode::BCC, Operand::Relative(0))),
        0x91 => Some((Opcode::STA, Operand::IndirectYIndexed(0))),
        0x94 => Some((Opcode::STY, Operand::ZeroPageX(0))),
        0x95 => Some((Opcode::STA, Operand::ZeroPageX(0))),
        0x96 => Some((Opcode::STX, Operand::ZeroPageY(0))),
        0x98 => Some((Opcode::TYA, Operand::Implied)),
        0x99 => Some((Opcode::STA, Operand::AbsoluteY(0))),
        0x9a => Some((Opcode::TXS, Operand::Implied)),
        0x9d => Some((Opcode::STA, Operand::AbsoluteX(0))),

        0xa0 => Some((Opcode::LDY, Operand::Immediate(0))),
        0xa1 => Some((Opcode::LDA, Operand::XIndexedIndirect(0))),
        0xa2 => Some((Opcode::LDX, Operand::Immediate(0))),
        0xa4 => Some((Opcode::LDY, Operand::ZeroPage(0))),
        0xa5 => Some((Opcode::LDA, Operand::ZeroPage(0))),
        0xa6 => Some((Opcode::LDX, Operand::ZeroPage(0))),
        0xa8 => Some((Opcode::TAY, Operand::Implied)),
        0xa9 => Some((Opcode::LDA, Operand::Immediate(0))),
        0xaa => Some((Opcode::TAX, Operand::Implied)),
        0xac => Some((Opcode::LDY, Operand::Absolute(0))),
        0xad => Some((Opcode::LDA, Operand::Absolute(0))),
        0xae => Some((Opcode::LDX, Operand::Absolute(0))),

        0xb0 => Some((Opcode::BCS, Operand::Relative(0))),
        0xb1 => Some((Opcode::LDA, Operand::IndirectYIndexed(0))),
        0xb4 => Some((Opcode::LDY, Operand::ZeroPageX(0))),
        0xb5 => Some((Opcode::LDA, Operand::ZeroPageX(0))),
        0xb6 => Some((Opcode::LDX, Operand::ZeroPageY(0))),
        0xb8 => Some((Opcode::CLV, Operand::Implied)),
        0xb9 => Some((Opcode::LDA, Operand::AbsoluteY(0))),
        0xba => Some((Opcode::TSX, Operand::Implied)),
        0xbc => Some((Opcode::LDY, Operand::AbsoluteX(0))),
        0xbd => Some((Opcode::LDA, Operand::AbsoluteX(0))),
        0xbe => Some((Opcode::LDX, Operand::AbsoluteY(0))),

        0xc0 => Some((Opcode::CPY, Operand::Immediate(0))),
        0xc1 => Some((Opcode::CMP, Operand::XIndexedIndirect(0))),
        0xc4 => Some((Opcode::CPY, Operand::ZeroPage(0))),
        0xc5 => Some((Opcode::CMP, Operand::ZeroPage(0))),
        0xc6 => Some((Opcode::DEC, Operand::ZeroPage(0))),
        0xc8 => Some((Opcode::INY, Operand::Implied)),
        0xc9 => Some((Opcode::CMP, Operand::Immediate(0))),
        0xca => Some((Opcode::DEX, Operand::Implied)),
        0xcc => Some((Opcode::CPY, Operand::Absolute(0))),
        0xcd => Some((Opcode::CMP, Operand::Absolute(0))),
        0xce => Some((Opcode::DEC, Operand::Absolute(0))),

        0xd0 => Some((Opcode::BNE, Operand::Relative(0))),
        0xd1 => Some((Opcode::CMP, Operand::IndirectYIndexed(0))),
        0xd5 => Some((Opcode::CMP, Operand::ZeroPageX(0))),
        0xd6 => Some((Opcode::DEC, Operand::ZeroPageX(0))),
        0xd8 => Some((Opcode::CLD, Operand::Implied)),
        0xd9 => Some((Opcode::CMP, Operand::AbsoluteY(0))),
        0xdd => Some((Opcode::CMP, Operand::AbsoluteX(0))),
        0xde => Some((Opcode::DEC, Operand::AbsoluteX(0))),

        0xe0 => Some((Opcode::CPX, Operand::Immediate(0))),
        0xe1 => Some((Opcode::SBC, Operand::XIndexedIndirect(0))),
        0xe4 => Some((Opcode::CPX, Operand::ZeroPage(0))),
        0xe5 => Some((Opcode::SBC, Operand::ZeroPage(0))),
        0xe6 => Some((Opcode::INC, Operand::ZeroPage(0))),
        0xe8 => Some((Opcode::INX, Operand::Implied)),
        0xe9 => Some((Opcode::SBC, Operand::Immediate(0))),
        0xea => Some((Opcode::NOP, Operand::Implied)),
        0xec => Some((Opcode::CPX, Operand::Absolute(0))),
        0xed => Some((Opcode::SBC, Operand::Absolute(0))),
        0xee => Some((Opcode::INC, Operand::Absolute(0))),

        0xf0 => Some((Opcode::BEQ, Operand::Relative(0))),
        0xf1 => Some((Opcode::SBC, Operand::IndirectYIndexed(0))),
        0xf5 => Some((Opcode::SBC, Operand::ZeroPageX(0))),
        0xf6 => Some((Opcode::INC, Operand::ZeroPageX(0))),
        0xf8 => Some((Opcode::SED, Operand::Implied)),
        0xf9 => Some((Opcode::SBC, Operand::AbsoluteY(0))),
        0xfd => Some((Opcode::SBC, Operand::AbsoluteX(0))),
        0xfe => Some((Opcode::INC, Operand::AbsoluteX(0))),
        _ => None,
    }
}

impl InstDecoder {
    /// Classifies one opcode byte against the table, with no side effects:
    /// either the declared (operation, placeholder operand) pair, or
    /// `InvalidOpcode` for an undocumented opcode. The mapping is a pure
    /// function of the opcode byte alone.
    pub fn op_type(&self, opcode: u8) -> (r: Result<(Opcode, Operand), DecodeError>)
        ensures
            match classify_spec(opcode) {
                Some(p) => r == Ok::<(Opcode, Operand), DecodeError>(p),
                None => r == Err::<(Opcode, Operand), DecodeError>(DecodeError::InvalidOpcode),
            },
    {
        match opcode {
            0x00 => Ok((Opcode::BRK, Operand::Implied)),
            0x01 => Ok((Opcode::ORA, Operand::XIndexedIndirect(0))),
            0x05 => Ok((Opcode::ORA, Operand::ZeroPage(0))),
            0x06 => Ok((Opcode::ASL, Operand::ZeroPage(0))),
            0x08 => Ok((Opcode::PHP, Operand::Implied)),
            0x09 => Ok((Opcode::ORA, Operand::Immediate(0))),
            0x0a => Ok((Opcode::ASL, Operand::Accumulator)),
            0x0d => Ok((Opcode::ORA, Operand::Absolute(0))),
            0x0e => Ok((Opcode::ASL, Operand::Absolute(0))),

            0x10 => Ok((Opcode::BPL, Operand::Relative(0))),
            0x11 => Ok((Opcode::ORA, Operand::IndirectYIndexed(0))),
            0x15 => Ok((Opcode::ORA, Operand::ZeroPageX(0))),
            0x16 => Ok((Opcode::ASL, Operand::ZeroPageX(0))),
            0x18 => Ok((Opcode::CLC, Operand::Implied)),
            0x19 => Ok((Opcode::ORA, Operand::AbsoluteY(0))),
            0x1d => Ok((Opcode::ORA, Operand::AbsoluteX(0))),
            0x1e => Ok((Opcode::ASL, Operand::AbsoluteX(0))),

            0x20 => Ok((Opcode::JSR, Operand::Absolute(0))),
            0x21 => Ok((Opcode::AND, Operand::XIndexedIndirect(0))),
            0x24 => Ok((Opcode::BIT, Operand::ZeroPage(0))),
            0x25 => Ok((Opcode::AND, Operand::ZeroPage(0))),
            0x26 => Ok((Opcode::ROL, Operand::ZeroPage(0))),
            0x28 => Ok((Opcode::PLP, Operand::Implied)),
            0x29 => Ok((Opcode::AND, Operand::Immediate(0))),
            0x2a => Ok((Opcode::ROL, Operand::Accumulator)),
            0x2c => Ok((Opcode::BIT, Operand::Absolute(0))),
            0x2d => Ok((Opcode::AND, Operand::Absolute(0))),
            0x2e => Ok((Opcode::ROL, Operand::Absolute(0))),

            0x30 => Ok((Opcode::BMI, Operand::Relative(0))),
            0x31 => Ok((Opcode::AND, Operand::IndirectYIndexed(0))),
            0x35 => Ok((Opcode::AND, Operand::ZeroPageX(0))),
            0x36 => Ok((Opcode::ROL, Operand::ZeroPageX(0))),
            0x38 => Ok((Opcode::SEC, Operand::Implied)),
            0x39 => Ok((Opcode::AND, Operand::AbsoluteY(0))),
            0x3d => Ok((Opcode::AND, Operand::AbsoluteX(0))),
            0x3e => Ok((Opcode::ROL, Operand::AbsoluteX(0))),

            0x40 => Ok((Opcode::RTI, Operand::Implied)),
            0x41 => Ok((Opcode::EOR, Operand::XIndexedIndirect(0))),
            0x45 => Ok((Opcode::EOR, Operand::ZeroPage(0))),
            0x46 => Ok((Opcode::LSR, Operand::ZeroPage(0))),
            0x48 => Ok((Opcode::PHA, Operand::Implied)),
            0x49 => Ok((Opcode::EOR, Operand::Immediate(0))),
            0x4a => Ok((Opcode::LSR, Operand::Accumulator)),
            0x4c => Ok((Opcode::JMP, Operand::Absolute(0))),
            0x4d => Ok((Opcode::EOR, Operand::Absolute(0))),
            0x4e => Ok((Opcode::LSR, Operand::Absolute(0))),

            0x50 => Ok((Opcode::BVC, Operand::Relative(0))),
            0x51 => Ok((Opcode::EOR, Operand::IndirectYIndexed(0))),
            0x55 => Ok((Opcode::EOR, Operand::ZeroPageX(0))),
            0x56 => Ok((Opcode::LSR, Operand::ZeroPageX(0))),
            0x58 => Ok((Opcode::CLI, Operand::Implied)),
            0x59 => Ok((Opcode::EOR, Operand::AbsoluteY(0))),
            0x5d => Ok((Opcode::EOR, Operand::AbsoluteX(0))),
            0x5e => Ok((Opcode::LSR, Operand::AbsoluteX(0))),

            0x60 => Ok((Opcode::RTS, Operand::Implied)),
            0x61 => Ok((Opcode::ADC, Operand::XIndexedIndirect(0))),
            0x65 => Ok((Opcode::ADC, Operand::ZeroPage(0))),
            0x66 => Ok((Opcode::ROR, Operand::ZeroPage(0))),
            0x68 => Ok((Opcode::PLA, Operand::Implied)),
            0x69 => Ok((Opcode::ADC, Operand::Immediate(0))),
            0x6a => Ok((Opcode::ROR, Operand::Accumulator)),
            0x6c => Ok((Opcode::JMP, Operand::Indirect(0))),
            0x6d => Ok((Opcode::ADC, Operand::Absolute(0))),
            0x6e => Ok((Opcode::ROR, Operand::Absolute(0))),

            0x70 => Ok((Opcode::BVS, Operand::Relative(0))),
            0x71 => Ok((Opcode::ADC, Operand::IndirectYIndexed(0))),
            0x75 => Ok((Opcode::ADC, Operand::ZeroPageX(0))),
            0x76 => Ok((Opcode::ROR, Operand::ZeroPageX(0))),
            0x78 => Ok((Opcode::SEI, Operand::Implied)),
            0x79 => Ok((Opcode::ADC, Operand::AbsoluteY(0))),
            0x7d => Ok((Opcode::ADC, Operand::AbsoluteX(0))),
            0x7e => Ok((Opcode::ROR, Operand::AbsoluteX(0))),

            // 0x80 is unassigned
            0x81 => Ok((Opcode::STA, Operand::XIndexedIndirect(0))),
            0x84 => Ok((Opcode::STY, Operand::ZeroPage(0))),
            0x85 => Ok((Opcode::STA, Operand::ZeroPage(0))),
            0x86 => Ok((Opcode::STX, Operand::ZeroPage(0))),
            0x88 => Ok((Opcode::DEY, Operand::Implied)),
            0x8a => Ok((Opcode::TXA, Operand::Implied)),
            0x8c => Ok((Opcode::STY, Operand::Absolute(0))),
            0x8d => Ok((Opcode::STA, Operand::Absolute(0))),
            0x8e => Ok((Opcode::STX, Operand::Absolute(0))),

            0x90 => Ok((Opcode::BCC, Operand::Relative(0))),
            0x91 => Ok((Opcode::STA, Operand::IndirectYIndexed(0))),
            0x94 => Ok((Opcode::STY, Operand::ZeroPageX(0))),
            0x95 => Ok((Opcode::STA, Operand::ZeroPageX(0))),
            0x96 => Ok((Opcode::STX, Operand::ZeroPageY(0))),
            0x98 => Ok((Opcode::TYA, Operand::Implied)),
            0x99 => Ok((Opcode::STA, Operand::AbsoluteY(0))),
            0x9a => Ok((Opcode::TXS, Operand::Implied)),
            0x9d => Ok((Opcode::STA, Operand::AbsoluteX(0))),

            0xa0 => Ok((Opcode::LDY, Operand::Immediate(0))),
            0xa1 => Ok((Opcode::LDA, Operand::XIndexedIndirect(0))),
            0xa2 => Ok((Opcode::LDX, Operand::Immediate(0))),
            0xa4 => Ok((Opcode::LDY, Operand::ZeroPage(0))),
            0xa5 => Ok((Opcode::LDA, Operand::ZeroPage(0))),
            0xa6 => Ok((Opcode::LDX, Operand::ZeroPage(0))),
            0xa8 => Ok((Opcode::TAY, Operand::Implied)),
            0xa9 => Ok((Opcode::LDA, Operand::Immediate(0))),
            0xaa => Ok((Opcode::TAX, Operand::Implied)),
            0xac => Ok((Opcode::LDY, Operand::Absolute(0))),
            0xad => Ok((Opcode::LDA, Operand::Absolute(0))),
            0xae => Ok((Opcode::LDX, Operand::Absolute(0))),

            0xb0 => Ok((Opcode::BCS, Operand::Relative(0))),
            0xb1 => Ok((Opcode::LDA, Operand::IndirectYIndexed(0))),
            0xb4 => Ok((Opcode::LDY, Operand::ZeroPageX(0))),
            0xb5 => Ok((Opcode::LDA, Operand::ZeroPageX(0))),
            0xb6 => Ok((Opcode::LDX, Operand::ZeroPageY(0))),
            0xb8 => Ok((Opcode::CLV, Operand::Implied)),
            0xb9 => Ok((Opcode::LDA, Operand::AbsoluteY(0))),
            0xba => Ok((Opcode::TSX, Operand::Implied)),
            0xbc => Ok((Opcode::LDY, Operand::AbsoluteX(0))),
            0xbd => Ok((Opcode::LDA, Operand::AbsoluteX(0))),
            0xbe => Ok((Opcode::LDX, Operand::AbsoluteY(0))),

            0xc0 => Ok((Opcode::CPY, Operand::Immediate(0))),
            0xc1 => Ok((Opcode::CMP, Operand::XIndexedIndirect(0))),
            0xc4 => Ok((Opcode::CPY, Operand::ZeroPage(0))),
            0xc5 => Ok((Opcode::CMP, Operand::ZeroPage(0))),
            0xc6 => Ok((Opcode::DEC, Operand::ZeroPage(0))),
            0xc8 => Ok((Opcode::INY, Operand::Implied)),
            0xc9 => Ok((Opcode::CMP, Operand::Immediate(0))),
            0xca => Ok((Opcode::DEX, Operand::Implied)),
            0xcc => Ok((Opcode::CPY, Operand::Absolute(0))),
            0xcd => Ok((Opcode::CMP, Operand::Absolute(0))),
            0xce => Ok((Opcode::DEC, Operand::Absolute(0))),

            0xd0 => Ok((Opcode::BNE, Operand::Relative(0))),
            0xd1 => Ok((Opcode::CMP, Operand::IndirectYIndexed(0))),
            0xd5 => Ok((Opcode::CMP, Operand::ZeroPageX(0))),
            0xd6 => Ok((Opcode::DEC, Operand::ZeroPageX(0))),
            0xd8 => Ok((Opcode::CLD, Operand::Implied)),
            0xd9 => Ok((Opcode::CMP, Operand::AbsoluteY(0))),
            0xdd => Ok((Opcode::CMP, Operand::AbsoluteX(0))),
            0xde => Ok((Opcode::DEC, Operand::AbsoluteX(0))),

            0xe0 => Ok((Opcode::CPX, Operand::Immediate(0))),
            0xe1 => Ok((Opcode::SBC, Operand::XIndexedIndirect(0))),
            0xe4 => Ok((Opcode::CPX, Operand::ZeroPage(0))),
            0xe5 => Ok((Opcode::SBC, Operand::ZeroPage(0))),
            0xe6 => Ok((Opcode::INC, Operand::ZeroPage(0))),
            0xe8 => Ok((Opcode::INX, Operand::Implied)),
            0xe9 => Ok((Opcode::SBC, Operand::Immediate(0))),
            0xea => Ok((Opcode::NOP, Operand::Implied)),
            0xec => Ok((Opcode::CPX, Operand::Absolute(0))),
            0xed => Ok((Opcode::SBC, Operand::Absolute(0))),
            0xee => Ok((Opcode::INC, Operand::Absolute(0))),

            0xf0 => Ok((Opcode::BEQ, Operand::Relative(0))),
            0xf1 => Ok((Opcode::SBC, Operand::IndirectYIndexed(0))),
            0xf5 => Ok((Opcode::SBC, Operand::ZeroPageX(0))),
            0xf6 => Ok((Opcode::INC, Operand::ZeroPageX(0))),
            0xf8 => Ok((Opcode::SED, Operand::Implied)),
            0xf9 => Ok((Opcode::SBC, Operand::AbsoluteY(0))),
            0xfd => Ok((Opcode::SBC, Operand::AbsoluteX(0))),
            0xfe => Ok((Opcode::INC, Operand::AbsoluteX(0))),
            _ => Err(DecodeError::InvalidOpcode),
        }
    }

    /// Decodes one instruction from the cursor, writing into `inst`.
    ///
    /// On success `inst` holds the decoded instruction and exactly its
    /// length in bytes has been consumed. On `ExhaustedInput` the record is
    /// untouched and the cursor is exhausted. On `InvalidOpcode` the
    /// operation field carries the offending byte for diagnostics, the
    /// operand is left as it was, and only the opcode byte has been
    /// consumed.
    pub fn decode_into(&self, inst: &mut Instruction, words: &mut ByteReader) -> (r: Result<
        (),
        DecodeError,
    >)
        requires
            old(words).wf(),
        ensures
            final(words).wf(),
            match decode_spec(old(words).remaining()) {
                Ok(i) => {
                    &&& r == Ok::<(), DecodeError>(())
                    &&& *final(inst) == i
                    &&& final(words).remaining() == old(words).remaining().skip(spec_len(i) as int)
                },
                Err(e) => {
                    &&& r == Err::<(), DecodeError>(e)
                    &&& final(inst).operand == old(inst).operand
                    &&& (e == DecodeError::ExhaustedInput ==> *final(inst) == *old(inst)
                        && final(words).remaining().len() == 0)
                    &&& (e == DecodeError::InvalidOpcode ==> final(inst).opcode == Opcode::Invalid(
                        old(words).remaining()[0],
                    ) && final(words).remaining() == old(words).remaining().skip(1))
                },
            },
    {
        let ghost input = words.remaining();
        let opcode = match words.next() {
            Option::Some(b) => b,
            Option::None => {
                return Err(DecodeError::ExhaustedInput);
            },
        };
        let (op, shape) = match self.op_type(opcode) {
            Result::Ok(p) => p,
            Result::Err(e) => {
                inst.opcode = Opcode::Invalid(opcode);
                return Err(e);
            },
        };
        let mut b0: u8 = 0;
        let mut b1: u8 = 0;
        let w = shape.width();
        if w >= 1 {
            b0 = match words.next() {
                Option::Some(b) => b,
                Option::None => {
                    return Err(DecodeError::ExhaustedInput);
                },
            };
        }
        if w == 2 {
            b1 = match words.next() {
                Option::Some(b) => b,
                Option::None => {
                    return Err(DecodeError::ExhaustedInput);
                },
            };
        }
        proof {
            if w == 1 {
                assert(input.skip(1).skip(1) =~= input.skip(2));
            }
            if w == 2 {
                assert(input.skip(1).skip(1) =~= input.skip(2));
                assert(input.skip(2).skip(1) =~= input.skip(3));
            }
        }
        inst.opcode = op;
        inst.operand = shape.with_payload(b0, b1);
        Ok(())
    }

    /// Decodes one instruction from the cursor into a fresh record: the
    /// sole externally meaningful entry point for ordinary callers.
    pub fn decode(&self, words: &mut ByteReader) -> (r: Result<Instruction, DecodeError>)
        requires
            old(words).wf(),
        ensures
            final(words).wf(),
            match decode_spec(old(words).remaining()) {
                Ok(i) => r == Ok::<Instruction, DecodeError>(i) && final(words).remaining() == old(
                    words,
                ).remaining().skip(spec_len(i) as int),
                Err(e) => {
                    &&& r == Err::<Instruction, DecodeError>(e)
                    &&& (e == DecodeError::ExhaustedInput ==> final(words).remaining().len() == 0)
                    &&& (e == DecodeError::InvalidOpcode ==> final(words).remaining() == old(
                        words,
                    ).remaining().skip(1))
                },
            },
    {
        let mut inst = Instruction::default();
        match self.decode_into(&mut inst, words) {
            Result::Ok(()) => Ok(inst),
            Result::Err(e) => Err(e),
        }
    }
}

/// The outcome of one decode attempt on the byte sequence `input`. The
/// first byte is the opcode; its classification fixes the addressing mode,
/// whose width says how many further bytes are consumed; those bytes become
/// the operand's payload, two-byte payloads combining little-endian.
pub open spec fn decode_spec(input: Seq<u8>) -> Result<Instruction, DecodeError> {
    if input.len() == 0 {
        Err(DecodeError::ExhaustedInput)
    } else {
        match classify_spec(input[0]) {
            Option::None => Err(DecodeError::InvalidOpcode),
            Option::Some((op, shape)) => {
                if input.len() < 1 + spec_width(shape) {
                    Err(DecodeError::ExhaustedInput)
                } else {
                    let b0: u8 = if spec_width(shape) >= 1 {
                        input[1]
                    } else {
                        0
                    };
                    let b1: u8 = if spec_width(shape) >= 2 {
                        input[2]
                    } else {
                        0
                    };
                    Ok(Instruction { opcode: op, operand: spec_with_payload(shape, b0, b1) })
                }
            },
        }
    }
}

/// Every classified opcode pairs with an operand of payload width at most
/// two bytes, carried as a zero-valued placeholder: the addressing-mode tag
/// alone fixes the width, before any payload bytes are read.
#[verifier::rlimit(50)]
pub proof fn lemma_classify_placeholder(opcode: u8)
    ensures
        classify_spec(opcode) matches Some(p) ==> spec_width(p.1) <= 2 && p.1 == spec_with_payload(
            p.1,
            0,
            0,
        ),
{
    assert((0u16 | (0u16 << 8)) == 0u16) by (bit_vector);
    assert(le_word(0, 0) == 0);
}

/// Decoding depends on the input bytes alone: equal byte sequences decode
/// to equal outcomes.
pub proof fn lemma_decode_deterministic(a: Seq<u8>, b: Seq<u8>)
    requires
        a == b,
    ensures
        decode_spec(a) == decode_spec(b),
{
}

/// Round-trip width law: a successfully decoded instruction reports length
/// one plus its operand's payload width, that many bytes lie within the
/// input, and its operation and addressing-mode width are the ones the
/// opcode byte classifies to.
pub proof fn lemma_round_trip_width(input: Seq<u8>)
    ensures
        decode_spec(input) matches Ok(i) ==> spec_len(i) == 1 + spec_width(i.operand) && spec_len(
            i,
        ) <= input.len(),
        decode_spec(input) matches Ok(i) ==> (classify_spec(input[0]) matches Some(p) && i.opcode
            == p.0 && spec_width(i.operand) == spec_width(p.1)),
{
    if input.len() > 0 {
        match classify_spec(input[0]) {
            Option::Some(p) => {
                let b0: u8 = if spec_width(p.1) >= 1 && input.len() >= 2 {
                    input[1]
                } else {
                    0
                };
                let b1: u8 = if spec_width(p.1) >= 2 && input.len() >= 3 {
                    input[2]
                } else {
                    0
                };
                lemma_with_payload_width(p.1, b0, b1);
            },
            Option::None => {},
        }
    }
}

/// Little-endian law: for any opcode classified with a two-byte operand,
/// decoding `[opcode, lo, hi]` succeeds and yields an address payload equal
/// to `lo | (hi << 8)`.
pub proof fn lemma_little_endian(opcode: u8, lo: u8, hi: u8)
    requires
        classify_spec(opcode) matches Some(p) && spec_width(p.1) == 2,
    ensures
        decode_spec(seq![opcode, lo, hi]) matches Ok(i) && word_payload(i.operand) == Some(
            le_word(lo, hi),
        ),
{
}

/// Exhaustion law, first half: decoding an empty byte sequence fails with
/// `ExhaustedInput`.
pub proof fn lemma_exhausted_empty()
    ensures
        decode_spec(Seq::<u8>::empty()) == Err::<Instruction, DecodeError>(
            DecodeError::ExhaustedInput,
        ),
{
}

/// Exhaustion law, second half: a valid two-byte-operand opcode followed by
/// only one more byte fails with `ExhaustedInput`.
pub proof fn lemma_exhausted_truncated(opcode: u8, b0: u8)
    requires
        classify_spec(opcode) matches Some(p) && spec_width(p.1) == 2,
    ensures
        decode_spec(seq![opcode, b0]) == Err::<Instruction, DecodeError>(
            DecodeError::ExhaustedInput,
        ),
{
}

} // verus!


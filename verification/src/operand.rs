//! Operations and addressing modes of the 6502.

use vstd::prelude::*;

verus! {

/// The documented operations of the 6502, plus `Invalid`, which carries the
/// raw unrecognized opcode byte for diagnostics.
#[derive(Debug, Copy, Clone, PartialEq, Eq)]
pub enum Opcode {
    Invalid(u8),
    ADC,
    AND,
    ASL,
    BCC,
    BCS,
    BEQ,
    BIT,
    BMI,
    BNE,
    BPL,
    BRK,
    BVC,
    BVS,
    CLC,
    CLD,
    CLI,
    CLV,
    CMP,
    CPX,
    CPY,
    DEC,
    DEX,
    DEY,
    EOR,
    INC,
    INX,
    INY,
    JMP,
    JSR,
    LDA,
    LDX,
    LDY,
    LSR,
    NOP,
    ORA,
    PHA,
    PHP,
    PLA,
    PLP,
    ROL,
    ROR,
    RTI,
    RTS,
    SBC,
    SEC,
    SED,
    SEI,
    STA,
    STX,
    STY,
    TAX,
    TAY,
    TSX,
    TXA,
    TXS,
    TYA,
}

/// The addressing modes of the 6502. One-byte payloads are a zero-page
/// address, an immediate value, or a relative branch displacement; two-byte
/// payloads are a 16-bit address assembled little-endian.
#[derive(Debug, Copy, Clone, PartialEq, Eq)]
pub enum Operand {
    Accumulator,
    Absolute(u16),
    AbsoluteX(u16),
    AbsoluteY(u16),
    Immediate(u8),
    Implied,
    Indirect(u16),
    IndirectYIndexed(u8),
    XIndexedIndirect(u8),
    Relative(u8),
    ZeroPage(u8),
    ZeroPageX(u8),
    ZeroPageY(u8),
}

/// Payload width in bytes of an addressing mode: a pure function of the
/// variant tag alone, never of the payload value.
pub open spec fn spec_width(op: Operand) -> u16 {
    match op {
        Operand::Accumulator | Operand::Implied => 0,

        Operand::Immediate(_)
        | Operand::IndirectYIndexed(_)
        | Operand::XIndexedIndirect(_)
        | Operand::Relative(_)
        | Operand::ZeroPage(_)
        | Operand::ZeroPageX(_)
        | Operand::ZeroPageY(_) => 1,

        Operand::Absolute(_)
        | Operand::AbsoluteX(_)
        | Operand::AbsoluteY(_)
        | Operand::Indirect(_) => 2,
    }
}

/// The 16-bit value read little-endian from two bytes: the first byte read
/// is the low-order byte.
pub open spec fn le_word(lo: u8, hi: u8) -> u16 {
    (lo as u16) | ((hi as u16) << 8)
}

/// The operand that results from placing freshly read payload bytes into an
/// addressing mode: the tag of `shape` is kept, only the payload changes.
/// One-byte modes take `b0`; two-byte modes combine `b0` (low) and `b1`
/// (high) little-endian; zero-byte modes ignore both.
pub open spec fn spec_with_payload(shape: Operand, b0: u8, b1: u8) -> Operand {
    match shape {
        Operand::Accumulator => Operand::Accumulator,
        Operand::Implied => Operand::Implied,

        Operand::Immediate(_) => Operand::Immediate(b0),
        Operand::IndirectYIndexed(_) => Operand::IndirectYIndexed(b0),
        Operand::XIndexedIndirect(_) => Operand::XIndexedIndirect(b0),
        Operand::Relative(_) => Operand::Relative(b0),
        Operand::ZeroPage(_) => Operand::ZeroPage(b0),
        Operand::ZeroPageX(_) => Operand::ZeroPageX(b0),
        Operand::ZeroPageY(_) => Operand::ZeroPageY(b0),

        Operand::Absolute(_) => Operand::Absolute(le_word(b0, b1)),
        Operand::AbsoluteX(_) => Operand::AbsoluteX(le_word(b0, b1)),
        Operand::AbsoluteY(_) => Operand::AbsoluteY(le_word(b0, b1)),
        Operand::Indirect(_) => Operand::Indirect(le_word(b0, b1)),
    }
}

/// The 16-bit address payload of a two-byte addressing mode, if the operand
/// has one.
pub open spec fn word_payload(op: Operand) -> Option<u16> {
    match op {
        Operand::Absolute(w) => Some(w),
        Operand::AbsoluteX(w) => Some(w),
        Operand::AbsoluteY(w) => Some(w),
        Operand::Indirect(w) => Some(w),
        _ => None,
    }
}

impl Operand {
    /// Number of payload bytes this addressing mode occupies beyond the
    /// opcode byte itself: 0, 1 or 2, known before the payload is.
    pub fn width(&self) -> (w: u16)
        ensures
            w == spec_width(*self),
    {
        match self {
            Operand::Accumulator | Operand::Implied => 0,

            Operand::Immediate(_)
            | Operand::IndirectYIndexed(_)
            | Operand::XIndexedIndirect(_)
            | Operand::Relative(_)
            | Operand::ZeroPage(_)
            | Operand::ZeroPageX(_)
            | Operand::ZeroPageY(_) => 1,

            Operand::Absolute(_)
            | Operand::AbsoluteX(_)
            | Operand::AbsoluteY(_)
            | Operand::Indirect(_) => 2,
        }
    }

    /// Builds the operand with the given payload bytes placed according to
    /// this operand's tag, which is kept unchanged.
    pub fn with_payload(self, b0: u8, b1: u8) -> (r: Operand)
        ensures
            r == spec_with_payload(self, b0, b1),
    {
        match self {
            Operand::Accumulator => Operand::Accumulator,
            Operand::Implied => Operand::Implied,

            Operand::Immediate(_) => Operand::Immediate(b0),
            Operand::IndirectYIndexed(_) => Operand::IndirectYIndexed(b0),
            Operand::XIndexedIndirect(_) => Operand::XIndexedIndirect(b0),
            Operand::Relative(_) => Operand::Relative(b0),
            Operand::ZeroPage(_) => Operand::ZeroPage(b0),
            Operand::ZeroPageX(_) => Operand::ZeroPageX(b0),
            Operand::ZeroPageY(_) => Operand::ZeroPageY(b0),

            Operand::Absolute(_) => Operand::Absolute((b0 as u16) | ((b1 as u16) << 8)),
            Operand::AbsoluteX(_) => Operand::AbsoluteX((b0 as u16) | ((b1 as u16) << 8)),
            Operand::AbsoluteY(_) => Operand::AbsoluteY((b0 as u16) | ((b1 as u16) << 8)),
            Operand::Indirect(_) => Operand::Indirect((b0 as u16) | ((b1 as u16) << 8)),
        }
    }
}

/// Placing a payload never changes an operand's tag, so its payload width is
/// preserved.
pub proof fn lemma_with_payload_width(shape: Operand, b0: u8, b1: u8)
    ensures
        spec_width(spec_with_payload(shape, b0, b1)) == spec_width(shape),
{
}

} // verus!

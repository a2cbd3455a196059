use n6502::ByteReader;
use n6502::DecodeError;
use n6502::InstDecoder;
use n6502::Instruction;
use n6502::Opcode;
use n6502::Operand;

fn decode_bytes(bytes: Vec<u8>) -> Result<Instruction, DecodeError> {
    let decoder = InstDecoder::default();
    let mut words = ByteReader::new(bytes);
    decoder.decode(&mut words)
}

#[test]
fn nop_implied() {
    let inst = decode_bytes(vec![0xea]).unwrap();
    assert_eq!(inst.opcode, Opcode::NOP);
    assert_eq!(inst.operand, Operand::Implied);
    assert_eq!(inst.len(), 1);
}

#[test]
fn lda_immediate() {
    let inst = decode_bytes(vec![0xa9, 0x42]).unwrap();
    assert_eq!(inst.opcode, Opcode::LDA);
    assert_eq!(inst.operand, Operand::Immediate(0x42));
    assert_eq!(inst.len(), 2);
}

#[test]
fn jmp_absolute_little_endian() {
    let inst = decode_bytes(vec![0x4c, 0x00, 0x80]).unwrap();
    assert_eq!(inst.opcode, Opcode::JMP);
    assert_eq!(inst.operand, Operand::Absolute(0x8000));
    assert_eq!(inst.len(), 3);
}

#[test]
fn jmp_indirect_little_endian() {
    let inst = decode_bytes(vec![0x6c, 0x34, 0x12]).unwrap();
    assert_eq!(inst.opcode, Opcode::JMP);
    assert_eq!(inst.operand, Operand::Indirect(0x1234));
    assert_eq!(inst.len(), 3);
}

#[test]
fn bcc_relative() {
    let inst = decode_bytes(vec![0x90, 0xfe]).unwrap();
    assert_eq!(inst.opcode, Opcode::BCC);
    assert_eq!(inst.operand, Operand::Relative(0xfe));
    assert_eq!(inst.len(), 2);
}

#[test]
fn invalid_opcode_reports_raw_byte() {
    let decoder = InstDecoder::default();
    let mut words = ByteReader::new(vec![0xff]);
    let mut inst = Instruction::default();
    inst.operand = Operand::ZeroPage(0x10);
    let r = decoder.decode_into(&mut inst, &mut words);
    assert_eq!(r, Err(DecodeError::InvalidOpcode));
    assert_eq!(inst.opcode, Opcode::Invalid(0xff));
    // the operand is whatever it was before the call
    assert_eq!(inst.operand, Operand::ZeroPage(0x10));
}

#[test]
fn empty_input_is_exhausted() {
    assert_eq!(decode_bytes(vec![]), Err(DecodeError::ExhaustedInput));
}

#[test]
fn missing_immediate_byte_is_exhausted() {
    assert_eq!(decode_bytes(vec![0xa9]), Err(DecodeError::ExhaustedInput));
}

#[test]
fn truncated_two_byte_operand_is_exhausted() {
    assert_eq!(decode_bytes(vec![0x4c, 0x00]), Err(DecodeError::ExhaustedInput));
}

#[test]
fn exhaustion_leaves_record_untouched() {
    let decoder = InstDecoder::default();
    let mut words = ByteReader::new(vec![0x4c, 0x00]);
    let mut inst = Instruction::default();
    let r = decoder.decode_into(&mut inst, &mut words);
    assert_eq!(r, Err(DecodeError::ExhaustedInput));
    assert_eq!(inst, Instruction::default());
}

#[test]
fn decode_is_deterministic() {
    let a = decode_bytes(vec![0xbd, 0xcd, 0xab]);
    let b = decode_bytes(vec![0xbd, 0xcd, 0xab]);
    assert_eq!(a, b);
    let c = decode_bytes(vec![0x02]);
    let d = decode_bytes(vec![0x02]);
    assert_eq!(c, d);
}

#[test]
fn classify_widths_cover_table() {
    let decoder = InstDecoder::default();
    let mut declared: usize = 0;
    for opcode in 0..=0xffu8 {
        match decoder.op_type(opcode) {
            Ok((_, operand)) => {
                declared += 1;
                assert!(operand.width() <= 2);
            }
            Err(e) => assert_eq!(e, DecodeError::InvalidOpcode),
        }
    }
    // the documented 6502 instruction set declares exactly 151 opcodes
    assert_eq!(declared, 151);
}

#[test]
fn classify_placeholder_payload_is_zero() {
    let decoder = InstDecoder::default();
    let (op, operand) = decoder.op_type(0x4c).unwrap();
    assert_eq!(op, Opcode::JMP);
    assert_eq!(operand, Operand::Absolute(0));
    let (op, operand) = decoder.op_type(0xa9).unwrap();
    assert_eq!(op, Opcode::LDA);
    assert_eq!(operand, Operand::Immediate(0));
}

#[test]
fn classify_rejects_reserved_opcodes() {
    let decoder = InstDecoder::default();
    for opcode in [0x02u8, 0x80, 0xfc, 0xff] {
        assert_eq!(decoder.op_type(opcode), Err(DecodeError::InvalidOpcode));
    }
}

#[test]
fn every_decoded_length_matches_consumed_bytes() {
    // decode at every offset of a little program and check the reported
    // length against the bytes the cursor actually gave up
    let program: Vec<u8> = vec![0xa9, 0x01, 0x8d, 0x00, 0x02, 0xea, 0x4c, 0x00, 0x80];
    let decoder = InstDecoder::default();
    let mut offset: usize = 0;
    let mut seen: Vec<Opcode> = Vec::new();
    while offset < program.len() {
        let rest: Vec<u8> = program[offset..].to_vec();
        let inst = decode_bytes(rest).unwrap();
        assert_eq!(inst.len(), 1 + inst.operand.width());
        offset += inst.len() as usize;
        seen.push(inst.opcode);
    }
    assert_eq!(offset, program.len());
    assert_eq!(seen, vec![Opcode::LDA, Opcode::STA, Opcode::NOP, Opcode::JMP]);
}

#[test]
fn operand_widths_per_variant() {
    assert_eq!(Operand::Implied.width(), 0);
    assert_eq!(Operand::Accumulator.width(), 0);
    assert_eq!(Operand::Immediate(1).width(), 1);
    assert_eq!(Operand::ZeroPage(1).width(), 1);
    assert_eq!(Operand::ZeroPageX(1).width(), 1);
    assert_eq!(Operand::ZeroPageY(1).width(), 1);
    assert_eq!(Operand::Relative(1).width(), 1);
    assert_eq!(Operand::IndirectYIndexed(1).width(), 1);
    assert_eq!(Operand::XIndexedIndirect(1).width(), 1);
    assert_eq!(Operand::Absolute(1).width(), 2);
    assert_eq!(Operand::AbsoluteX(1).width(), 2);
    assert_eq!(Operand::AbsoluteY(1).width(), 2);
    assert_eq!(Operand::Indirect(1).width(), 2);
}

#[test]
fn with_payload_keeps_the_tag() {
    assert_eq!(Operand::Immediate(0).with_payload(0x42, 0x99), Operand::Immediate(0x42));
    assert_eq!(Operand::Absolute(0).with_payload(0x00, 0x80), Operand::Absolute(0x8000));
    assert_eq!(Operand::Implied.with_payload(0x42, 0x99), Operand::Implied);
}

#[test]
fn default_instruction_is_invalid_implied() {
    let inst = Instruction::default();
    assert_eq!(inst.opcode, Opcode::Invalid(0xff));
    assert_eq!(inst.operand, Operand::Implied);
    assert!(inst.well_defined());
    assert_eq!(Instruction::min_size(), 1);
}

#[test]
fn error_predicates() {
    assert!(DecodeError::ExhaustedInput.data_exhausted());
    assert!(!DecodeError::ExhaustedInput.bad_opcode());
    assert!(!DecodeError::ExhaustedInput.bad_operand());
    assert!(DecodeError::InvalidOpcode.bad_opcode());
    assert!(!DecodeError::InvalidOpcode.data_exhausted());
    assert!(DecodeError::InvalidOperand.bad_operand());
    assert!(!DecodeError::InvalidOperand.bad_opcode());
}

#[test]
fn error_descriptions() {
    assert_eq!(DecodeError::ExhaustedInput.description(), "exhausted input");
    assert_eq!(DecodeError::InvalidOpcode.description(), "invalid opcode");
    assert_eq!(DecodeError::InvalidOperand.description(), "invalid operand");
}

#[test]
fn reader_is_forward_only() {
    let mut words = ByteReader::new(vec![0x01, 0x02]);
    assert_eq!(words.next(), Some(0x01));
    assert_eq!(words.next(), Some(0x02));
    assert_eq!(words.next(), None);
    assert_eq!(words.next(), None);
}

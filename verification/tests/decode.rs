//! Decoding scenarios: the opcode table, operand consumption, totality and
//! the malformed-stream condition.

use emu6502::decoder::decode_instr;
use emu6502::exec::InstructionPair;
use emu6502::instructions::{AddressingMode, Instruction};
use emu6502::Fault;

#[test]
fn decode_lda_immediate() {
    let program: Vec<u8> = vec![0xA9, 0x42];
    let (unit, next) = decode_instr(&program, 0).unwrap();
    assert_eq!(
        unit,
        InstructionPair::new(Instruction::LDA, AddressingMode::Immediate(0x42))
    );
    assert_eq!(next, 2);
}

#[test]
fn decode_jmp_absolute() {
    let program: Vec<u8> = vec![0x4C, 0x00, 0x80];
    let (unit, next) = decode_instr(&program, 0).unwrap();
    assert_eq!(
        unit,
        InstructionPair::new(Instruction::JMP, AddressingMode::Absolute(0x8000))
    );
    assert_eq!(next, 3);
}

#[test]
fn decode_operand_is_little_endian() {
    let program: Vec<u8> = vec![0x8D, 0x34, 0x12];
    let (unit, _) = decode_instr(&program, 0).unwrap();
    assert_eq!(
        unit,
        InstructionPair::new(Instruction::STA, AddressingMode::Absolute(0x1234))
    );
}

#[test]
fn decode_relative_is_signed() {
    let program: Vec<u8> = vec![0xD0, 0xFB];
    let (unit, next) = decode_instr(&program, 0).unwrap();
    assert_eq!(
        unit,
        InstructionPair::new(Instruction::BNE, AddressingMode::Relative(-5))
    );
    assert_eq!(next, 2);
}

#[test]
fn decode_indirect_jump() {
    let program: Vec<u8> = vec![0x6C, 0xFF, 0x30];
    let (unit, _) = decode_instr(&program, 0).unwrap();
    assert_eq!(
        unit,
        InstructionPair::new(Instruction::JMP, AddressingMode::Indirect(0x30FF))
    );
}

#[test]
fn decode_unofficial_opcodes() {
    let program: Vec<u8> = vec![0xA7, 0x10];
    let (unit, _) = decode_instr(&program, 0).unwrap();
    assert_eq!(
        unit,
        InstructionPair::new(Instruction::LAX, AddressingMode::ZeroPage(0x10))
    );

    let program: Vec<u8> = vec![0xCB, 0x05];
    let (unit, _) = decode_instr(&program, 0).unwrap();
    assert_eq!(
        unit,
        InstructionPair::new(Instruction::AXS, AddressingMode::Immediate(0x05))
    );

    let program: Vec<u8> = vec![0xC7, 0x20];
    let (unit, _) = decode_instr(&program, 0).unwrap();
    assert_eq!(
        unit,
        InstructionPair::new(Instruction::DCP, AddressingMode::ZeroPage(0x20))
    );
}

#[test]
fn decode_is_total_over_all_opcodes() {
    for op in 0..=255u8 {
        let program: Vec<u8> = vec![op, 0x00, 0x00];
        let (_, next) = decode_instr(&program, 0).unwrap();
        assert!(next >= 1 && next <= 3, "opcode {:#04x} consumed {} bytes", op, next);
    }
}

#[test]
fn decode_consumes_exactly_the_operand() {
    // One instruction of each length, decoded in sequence.
    let program: Vec<u8> = vec![0xEA, 0xA2, 0x07, 0xAD, 0x00, 0x10];
    let (unit, next) = decode_instr(&program, 0).unwrap();
    assert_eq!(
        unit,
        InstructionPair::new(Instruction::NOP, AddressingMode::Implicit)
    );
    assert_eq!(next, 1);
    let (unit, next) = decode_instr(&program, next).unwrap();
    assert_eq!(
        unit,
        InstructionPair::new(Instruction::LDX, AddressingMode::Immediate(0x07))
    );
    assert_eq!(next, 3);
    let (unit, next) = decode_instr(&program, next).unwrap();
    assert_eq!(
        unit,
        InstructionPair::new(Instruction::LDA, AddressingMode::Absolute(0x1000))
    );
    assert_eq!(next, 6);
}

#[test]
fn decode_truncated_operand_is_malformed() {
    let program: Vec<u8> = vec![0xA9];
    assert_eq!(decode_instr(&program, 0), Err(Fault::MalformedStream));

    let program: Vec<u8> = vec![0x4C, 0x00];
    assert_eq!(decode_instr(&program, 0), Err(Fault::MalformedStream));
}

#[test]
fn decode_past_the_end_is_malformed() {
    let program: Vec<u8> = vec![];
    assert_eq!(decode_instr(&program, 0), Err(Fault::MalformedStream));

    let program: Vec<u8> = vec![0xEA];
    assert_eq!(decode_instr(&program, 1), Err(Fault::MalformedStream));
}

//! The decoder: a pure, stateless mapping from the next bytes of a program
//! stream to one structured instruction unit.
//!
//! All 256 opcode values decode, the documented unofficial ones included;
//! decoding consumes exactly as many operand bytes as the addressing mode
//! requires, and fails only with `MalformedStream`, when the stream ends in
//! the middle of an operand.  Decode and execute stay independent: an opcode
//! the executor does not implement still decodes to a structured unit.

use vstd::prelude::*;
use crate::exec::InstructionPair;
use crate::instructions::{operand_bytes, AddressingMode, Instruction};
use crate::model::sbyte;
use crate::utils::{to_signed8, word};
use crate::Fault;

verus! {

/// A byte of the stream, or zero past its end.  Decode results of short
/// instructions do not depend on the bytes past their operand, so the zero
/// stands in harmlessly.
pub open spec fn byte_or_zero(s: Seq<u8>, i: int) -> u8 {
    if 0 <= i < s.len() {
        s[i]
    } else {
        0
    }
}

/// The full opcode table: the instruction unit that opcode `op` encodes,
/// with `b1` and `b2` the operand bytes that follow it (little-endian for
/// the two-byte forms; ignored where the mode carries fewer).
pub open spec fn spec_decode(op: u8, b1: u8, b2: u8) -> InstructionPair {
    match op {
        0x00 => InstructionPair { instruction: Instruction::BRK, addr_mode: AddressingMode::Implicit },
        0x01 => InstructionPair { instruction: Instruction::ORA, addr_mode: AddressingMode::IndexedIndirect(b1) },
        0x02 => InstructionPair { instruction: Instruction::NOP, addr_mode: AddressingMode::Implicit },
        0x03 => InstructionPair { instruction: Instruction::SLO, addr_mode: AddressingMode::IndexedIndirect(b1) },
        0x04 => InstructionPair { instruction: Instruction::NOP, addr_mode: AddressingMode::ZeroPage(b1) },
        0x05 => InstructionPair { instruction: Instruction::ORA, addr_mode: AddressingMode::ZeroPage(b1) },
        0x06 => InstructionPair { instruction: Instruction::ASL, addr_mode: AddressingMode::ZeroPage(b1) },
        0x07 => InstructionPair { instruction: Instruction::SLO, addr_mode: AddressingMode::ZeroPage(b1) },
        0x08 => InstructionPair { instruction: Instruction::PHP, addr_mode: AddressingMode::Implicit },
        0x09 => InstructionPair { instruction: Instruction::ORA, addr_mode: AddressingMode::Immediate(b1) },
        0x0A => InstructionPair { instruction: Instruction::ASL, addr_mode: AddressingMode::Implicit },
        0x0B => InstructionPair { instruction: Instruction::ANC, addr_mode: AddressingMode::Immediate(b1) },
        0x0C => InstructionPair { instruction: Instruction::NOP, addr_mode: AddressingMode::Absolute((b1 + 0x100 * b2) as u16) },
        0x0D => InstructionPair { instruction: Instruction::ORA, addr_mode: AddressingMode::Absolute((b1 + 0x100 * b2) as u16) },
        0x0E => InstructionPair { instruction: Instruction::ASL, addr_mode: AddressingMode::Absolute((b1 + 0x100 * b2) as u16) },
        0x0F => InstructionPair { instruction: Instruction::SLO, addr_mode: AddressingMode::Absolute((b1 + 0x100 * b2) as u16) },
        0x10 => InstructionPair { instruction: Instruction::BPL, addr_mode: AddressingMode::Relative(sbyte(b1)) },
        0x11 => InstructionPair { instruction: Instruction::ORA, addr_mode: AddressingMode::IndirectIndexed(b1) },
        0x12 => InstructionPair { instruction: Instruction::NOP, addr_mode: AddressingMode::Implicit },
        0x13 => InstructionPair { instruction: Instruction::SLO, addr_mode: AddressingMode::IndirectIndexed(b1) },
        0x14 => InstructionPair { instruction: Instruction::NOP, addr_mode: AddressingMode::ZeroPageIndexedX(b1) },
        0x15 => InstructionPair { instruction: Instruction::ORA, addr_mode: AddressingMode::ZeroPageIndexedX(b1) },
        0x16 => InstructionPair { instruction: Instruction::ASL, addr_mode: AddressingMode::ZeroPageIndexedX(b1) },
        0x17 => InstructionPair { instruction: Instruction::SLO, addr_mode: AddressingMode::ZeroPageIndexedX(b1) },
        0x18 => InstructionPair { instruction: Instruction::CLC, addr_mode: AddressingMode::Implicit },
        0x19 => InstructionPair { instruction: Instruction::ORA, addr_mode: AddressingMode::AbsoluteIndexedY((b1 + 0x100 * b2) as u16) },
        0x1A => InstructionPair { instruction: Instruction::NOP, addr_mode: AddressingMode::Implicit },
        0x1B => InstructionPair { instruction: Instruction::SLO, addr_mode: AddressingMode::AbsoluteIndexedY((b1 + 0x100 * b2) as u16) },
        0x1C => InstructionPair { instruction: Instruction::NOP, addr_mode: AddressingMode::AbsoluteIndexedX((b1 + 0x100 * b2) as u16) },
        0x1D => InstructionPair { instruction: Instruction::ORA, addr_mode: AddressingMode::AbsoluteIndexedX((b1 + 0x100 * b2) as u16) },
        0x1E => InstructionPair { instruction: Instruction::ASL, addr_mode: AddressingMode::AbsoluteIndexedX((b1 + 0x100 * b2) as u16) },
        0x1F => InstructionPair { instruction: Instruction::SLO, addr_mode: AddressingMode::AbsoluteIndexedX((b1 + 0x100 * b2) as u16) },
        0x20 => InstructionPair { instruction: Instruction::JSR, addr_mode: AddressingMode::Absolute((b1 + 0x100 * b2) as u16) },
        0x21 => InstructionPair { instruction: Instruction::AND, addr_mode: AddressingMode::IndexedIndirect(b1) },
        0x22 => InstructionPair { instruction: Instruction::NOP, addr_mode: AddressingMode::Implicit },
        0x23 => InstructionPair { instruction: Instruction::RLA, addr_mode: AddressingMode::IndexedIndirect(b1) },
        0x24 => InstructionPair { instruction: Instruction::BIT, addr_mode: AddressingMode::ZeroPage(b1) },
        0x25 => InstructionPair { instruction: Instruction::AND, addr_mode: AddressingMode::ZeroPage(b1) },
        0x26 => InstructionPair { instruction: Instruction::ROL, addr_mode: AddressingMode::ZeroPage(b1) },
        0x27 => InstructionPair { instruction: Instruction::RLA, addr_mode: AddressingMode::ZeroPage(b1) },
        0x28 => InstructionPair { instruction: Instruction::PLP, addr_mode: AddressingMode::Implicit },
        0x29 => InstructionPair { instruction: Instruction::AND, addr_mode: AddressingMode::Immediate(b1) },
        0x2A => InstructionPair { instruction: Instruction::ROL, addr_mode: AddressingMode::Implicit },
        0x2B => InstructionPair { instruction: Instruction::ANC, addr_mode: AddressingMode::Immediate(b1) },
        0x2C => InstructionPair { instruction: Instruction::BIT, addr_mode: AddressingMode::Absolute((b1 + 0x100 * b2) as u16) },
        0x2D => InstructionPair { instruction: Instruction::AND, addr_mode: AddressingMode::Absolute((b1 + 0x100 * b2) as u16) },
        0x2E => InstructionPair { instruction: Instruction::ROL, addr_mode: AddressingMode::Absolute((b1 + 0x100 * b2) as u16) },
        0x2F => InstructionPair { instruction: Instruction::RLA, addr_mode: AddressingMode::Absolute((b1 + 0x100 * b2) as u16) },
        0x30 => InstructionPair { instruction: Instruction::BMI, addr_mode: AddressingMode::Relative(sbyte(b1)) },
        0x31 => InstructionPair { instruction: Instruction::AND, addr_mode: AddressingMode::IndirectIndexed(b1) },
        0x32 => InstructionPair { instruction: Instruction::NOP, addr_mode: AddressingMode::Implicit },
        0x33 => InstructionPair { instruction: Instruction::RLA, addr_mode: AddressingMode::IndirectIndexed(b1) },
        0x34 => InstructionPair { instruction: Instruction::NOP, addr_mode: AddressingMode::ZeroPageIndexedX(b1) },
        0x35 => InstructionPair { instruction: Instruction::AND, addr_mode: AddressingMode::ZeroPageIndexedX(b1) },
        0x36 => InstructionPair { instruction: Instruction::ROL, addr_mode: AddressingMode::ZeroPageIndexedX(b1) },
        0x37 => InstructionPair { instruction: Instruction::RLA, addr_mode: AddressingMode::ZeroPageIndexedX(b1) },
        0x38 => InstructionPair { instruction: Instruction::SEC, addr_mode: AddressingMode::Implicit },
        0x39 => InstructionPair { instruction: Instruction::AND, addr_mode: AddressingMode::AbsoluteIndexedY((b1 + 0x100 * b2) as u16) },
        0x3A => InstructionPair { instruction: Instruction::NOP, addr_mode: AddressingMode::Implicit },
        0x3B => InstructionPair { instruction: Instruction::RLA, addr_mode: AddressingMode::AbsoluteIndexedY((b1 + 0x100 * b2) as u16) },
        0x3C => InstructionPair { instruction: Instruction::NOP, addr_mode: AddressingMode::AbsoluteIndexedX((b1 + 0x100 * b2) as u16) },
        0x3D => InstructionPair { instruction: Instruction::AND, addr_mode: AddressingMode::AbsoluteIndexedX((b1 + 0x100 * b2) as u16) },
        0x3E => InstructionPair { instruction: Instruction::ROL, addr_mode: AddressingMode::AbsoluteIndexedX((b1 + 0x100 * b2) as u16) },
        0x3F => InstructionPair { instruction: Instruction::RLA, addr_mode: AddressingMode::AbsoluteIndexedX((b1 + 0x100 * b2) as u16) },
        0x40 => InstructionPair { instruction: Instruction::RTI, addr_mode: AddressingMode::Implicit },
        0x41 => InstructionPair { instruction: Instruction::EOR, addr_mode: AddressingMode::IndexedIndirect(b1) },
        0x42 => InstructionPair { instruction: Instruction::NOP, addr_mode: AddressingMode::Implicit },
        0x43 => InstructionPair { instruction: Instruction::SRE, addr_mode: AddressingMode::IndexedIndirect(b1) },
        0x44 => InstructionPair { instruction: Instruction::NOP, addr_mode: AddressingMode::ZeroPage(b1) },
        0x45 => InstructionPair { instruction: Instruction::EOR, addr_mode: AddressingMode::ZeroPage(b1) },
        0x46 => InstructionPair { instruction: Instruction::LSR, addr_mode: AddressingMode::ZeroPage(b1) },
        0x47 => InstructionPair { instruction: Instruction::SRE, addr_mode: AddressingMode::ZeroPage(b1) },
        0x48 => InstructionPair { instruction: Instruction::PHA, addr_mode: AddressingMode::Implicit },
        0x49 => InstructionPair { instruction: Instruction::EOR, addr_mode: AddressingMode::Immediate(b1) },
        0x4A => InstructionPair { instruction: Instruction::LSR, addr_mode: AddressingMode::Implicit },
        0x4B => InstructionPair { instruction: Instruction::ALR, addr_mode: AddressingMode::Immediate(b1) },
        0x4C => InstructionPair { instruction: Instruction::JMP, addr_mode: AddressingMode::Absolute((b1 + 0x100 * b2) as u16) },
        0x4D => InstructionPair { instruction: Instruction::EOR, addr_mode: AddressingMode::Absolute((b1 + 0x100 * b2) as u16) },
        0x4E => InstructionPair { instruction: Instruction::LSR, addr_mode: AddressingMode::Absolute((b1 + 0x100 * b2) as u16) },
        0x4F => InstructionPair { instruction: Instruction::SRE, addr_mode: AddressingMode::Absolute((b1 + 0x100 * b2) as u16) },
        0x50 => InstructionPair { instruction: Instruction::BVC, addr_mode: AddressingMode::Relative(sbyte(b1)) },
        0x51 => InstructionPair { instruction: Instruction::EOR, addr_mode: AddressingMode::IndirectIndexed(b1) },
        0x52 => InstructionPair { instruction: Instruction::NOP, addr_mode: AddressingMode::Implicit },
        0x53 => InstructionPair { instruction: Instruction::SRE, addr_mode: AddressingMode::IndirectIndexed(b1) },
        0x54 => InstructionPair { instruction: Instruction::NOP, addr_mode: AddressingMode::ZeroPageIndexedX(b1) },
        0x55 => InstructionPair { instruction: Instruction::EOR, addr_mode: AddressingMode::ZeroPageIndexedX(b1) },
        0x56 => InstructionPair { instruction: Instruction::LSR, addr_mode: AddressingMode::ZeroPageIndexedX(b1) },
        0x57 => InstructionPair { instruction: Instruction::SRE, addr_mode: AddressingMode::ZeroPageIndexedX(b1) },
        0x58 => InstructionPair { instruction: Instruction::CLI, addr_mode: AddressingMode::Implicit },
        0x59 => InstructionPair { instruction: Instruction::EOR, addr_mode: AddressingMode::AbsoluteIndexedY((b1 + 0x100 * b2) as u16) },
        0x5A => InstructionPair { instruction: Instruction::NOP, addr_mode: AddressingMode::Implicit },
        0x5B => InstructionPair { instruction: Instruction::SRE, addr_mode: AddressingMode::AbsoluteIndexedY((b1 + 0x100 * b2) as u16) },
        0x5C => InstructionPair { instruction: Instruction::NOP, addr_mode: AddressingMode::AbsoluteIndexedX((b1 + 0x100 * b2) as u16) },
        0x5D => InstructionPair { instruction: Instruction::EOR, addr_mode: AddressingMode::AbsoluteIndexedX((b1 + 0x100 * b2) as u16) },
        0x5E => InstructionPair { instruction: Instruction::LSR, addr_mode: AddressingMode::AbsoluteIndexedX((b1 + 0x100 * b2) as u16) },
        0x5F => InstructionPair { instruction: Instruction::SRE, addr_mode: AddressingMode::AbsoluteIndexedX((b1 + 0x100 * b2) as u16) },
        0x60 => InstructionPair { instruction: Instruction::RTS, addr_mode: AddressingMode::Implicit },
        0x61 => InstructionPair { instruction: Instruction::ADC, addr_mode: AddressingMode::IndexedIndirect(b1) },
        0x62 => InstructionPair { instruction: Instruction::NOP, addr_mode: AddressingMode::Implicit },
        0x63 => InstructionPair { instruction: Instruction::RRA, addr_mode: AddressingMode::IndexedIndirect(b1) },
        0x64 => InstructionPair { instruction: Instruction::NOP, addr_mode: AddressingMode::ZeroPage(b1) },
        0x65 => InstructionPair { instruction: Instruction::ADC, addr_mode: AddressingMode::ZeroPage(b1) },
        0x66 => InstructionPair { instruction: Instruction::ROR, addr_mode: AddressingMode::ZeroPage(b1) },
        0x67 => InstructionPair { instruction: Instruction::RRA, addr_mode: AddressingMode::ZeroPage(b1) },
        0x68 => InstructionPair { instruction: Instruction::PLA, addr_mode: AddressingMode::Implicit },
        0x69 => InstructionPair { instruction: Instruction::ADC, addr_mode: AddressingMode::Immediate(b1) },
        0x6A => InstructionPair { instruction: Instruction::ROR, addr_mode: AddressingMode::Implicit },
        0x6B => InstructionPair { instruction: Instruction::ARR, addr_mode: AddressingMode::Immediate(b1) },
        0x6C => InstructionPair { instruction: Instruction::JMP, addr_mode: AddressingMode::Indirect((b1 + 0x100 * b2) as u16) },
        0x6D => InstructionPair { instruction: Instruction::ADC, addr_mode: AddressingMode::Absolute((b1 + 0x100 * b2) as u16) },
        0x6E => InstructionPair { instruction: Instruction::ROR, addr_mode: AddressingMode::Absolute((b1 + 0x100 * b2) as u16) },
        0x6F => InstructionPair { instruction: Instruction::RRA, addr_mode: AddressingMode::Absolute((b1 + 0x100 * b2) as u16) },
        0x70 => InstructionPair { instruction: Instruction::BVS, addr_mode: AddressingMode::Relative(sbyte(b1)) },
        0x71 => InstructionPair { instruction: Instruction::ADC, addr_mode: AddressingMode::IndirectIndexed(b1) },
        0x72 => InstructionPair { instruction: Instruction::NOP, addr_mode: AddressingMode::Implicit },
        0x73 => InstructionPair { instruction: Instruction::RRA, addr_mode: AddressingMode::IndirectIndexed(b1) },
        0x74 => InstructionPair { instruction: Instruction::NOP, addr_mode: AddressingMode::ZeroPageIndexedX(b1) },
        0x75 => InstructionPair { instruction: Instruction::ADC, addr_mode: AddressingMode::ZeroPageIndexedX(b1) },
        0x76 => InstructionPair { instruction: Instruction::ROR, addr_mode: AddressingMode::ZeroPageIndexedX(b1) },
        0x77 => InstructionPair { instruction: Instruction::RRA, addr_mode: AddressingMode::ZeroPageIndexedX(b1) },
        0x78 => InstructionPair { instruction: Instruction::SEI, addr_mode: AddressingMode::Implicit },
        0x79 => InstructionPair { instruction: Instruction::ADC, addr_mode: AddressingMode::AbsoluteIndexedY((b1 + 0x100 * b2) as u16) },
        0x7A => InstructionPair { instruction: Instruction::NOP, addr_mode: AddressingMode::Implicit },
        0x7B => InstructionPair { instruction: Instruction::RRA, addr_mode: AddressingMode::AbsoluteIndexedY((b1 + 0x100 * b2) as u16) },
        0x7C => InstructionPair { instruction: Instruction::NOP, addr_mode: AddressingMode::AbsoluteIndexedX((b1 + 0x100 * b2) as u16) },
        0x7D => InstructionPair { instruction: Instruction::ADC, addr_mode: AddressingMode::AbsoluteIndexedX((b1 + 0x100 * b2) as u16) },
        0x7E => InstructionPair { instruction: Instruction::ROR, addr_mode: AddressingMode::AbsoluteIndexedX((b1 + 0x100 * b2) as u16) },
        0x7F => InstructionPair { instruction: Instruction::RRA, addr_mode: AddressingMode::AbsoluteIndexedX((b1 + 0x100 * b2) as u16) },
        0x80 => InstructionPair { instruction: Instruction::NOP, addr_mode: AddressingMode::Immediate(b1) },
        0x81 => InstructionPair { instruction: Instruction::STA, addr_mode: AddressingMode::IndexedIndirect(b1) },
        0x82 => InstructionPair { instruction: Instruction::NOP, addr_mode: AddressingMode::Immediate(b1) },
        0x83 => InstructionPair { instruction: Instruction::SAX, addr_mode: AddressingMode::IndexedIndirect(b1) },
        0x84 => InstructionPair { instruction: Instruction::STY, addr_mode: AddressingMode::ZeroPage(b1) },
        0x85 => InstructionPair { instruction: Instruction::STA, addr_mode: AddressingMode::ZeroPage(b1) },
        0x86 => InstructionPair { instruction: Instruction::STX, addr_mode: AddressingMode::ZeroPage(b1) },
        0x87 => InstructionPair { instruction: Instruction::SAX, addr_mode: AddressingMode::ZeroPage(b1) },
        0x88 => InstructionPair { instruction: Instruction::DEY, addr_mode: AddressingMode::Implicit },
        0x89 => InstructionPair { instruction: Instruction::NOP, addr_mode: AddressingMode::Immediate(b1) },
        0x8A => InstructionPair { instruction: Instruction::TXA, addr_mode: AddressingMode::Implicit },
        0x8B => InstructionPair { instruction: Instruction::XAA, addr_mode: AddressingMode::Immediate(b1) },
        0x8C => InstructionPair { instruction: Instruction::STY, addr_mode: AddressingMode::Absolute((b1 + 0x100 * b2) as u16) },
        0x8D => InstructionPair { instruction: Instruction::STA, addr_mode: AddressingMode::Absolute((b1 + 0x100 * b2) as u16) },
        0x8E => InstructionPair { instruction: Instruction::STX, addr_mode: AddressingMode::Absolute((b1 + 0x100 * b2) as u16) },
        0x8F => InstructionPair { instruction: Instruction::SAX, addr_mode: AddressingMode::Absolute((b1 + 0x100 * b2) as u16) },
        0x90 => InstructionPair { instruction: Instruction::BCC, addr_mode: AddressingMode::Relative(sbyte(b1)) },
        0x91 => InstructionPair { instruction: Instruction::STA, addr_mode: AddressingMode::IndirectIndexed(b1) },
        0x92 => InstructionPair { instruction: Instruction::NOP, addr_mode: AddressingMode::Implicit },
        0x93 => InstructionPair { instruction: Instruction::AHX, addr_mode: AddressingMode::IndirectIndexed(b1) },
        0x94 => InstructionPair { instruction: Instruction::STY, addr_mode: AddressingMode::ZeroPageIndexedX(b1) },
        0x95 => InstructionPair { instruction: Instruction::STA, addr_mode: AddressingMode::ZeroPageIndexedX(b1) },
        0x96 => InstructionPair { instruction: Instruction::STX, addr_mode: AddressingMode::ZeroPageIndexedY(b1) },
        0x97 => InstructionPair { instruction: Instruction::SAX, addr_mode: AddressingMode::ZeroPageIndexedY(b1) },
        0x98 => InstructionPair { instruction: Instruction::TYA, addr_mode: AddressingMode::Implicit },
        0x99 => InstructionPair { instruction: Instruction::STA, addr_mode: AddressingMode::AbsoluteIndexedY((b1 + 0x100 * b2) as u16) },
        0x9A => InstructionPair { instruction: Instruction::TXS, addr_mode: AddressingMode::Implicit },
        0x9B => InstructionPair { instruction: Instruction::TAS, addr_mode: AddressingMode::AbsoluteIndexedY((b1 + 0x100 * b2) as u16) },
        0x9C => InstructionPair { instruction: Instruction::SHY, addr_mode: AddressingMode::AbsoluteIndexedX((b1 + 0x100 * b2) as u16) },
        0x9D => InstructionPair { instruction: Instruction::STA, addr_mode: AddressingMode::AbsoluteIndexedX((b1 + 0x100 * b2) as u16) },
        0x9E => InstructionPair { instruction: Instruction::SHX, addr_mode: AddressingMode::AbsoluteIndexedY((b1 + 0x100 * b2) as u16) },
        0x9F => InstructionPair { instruction: Instruction::AHX, addr_mode: AddressingMode::AbsoluteIndexedY((b1 + 0x100 * b2) as u16) },
        0xA0 => InstructionPair { instruction: Instruction::LDY, addr_mode: AddressingMode::Immediate(b1) },
        0xA1 => InstructionPair { instruction: Instruction::LDA, addr_mode: AddressingMode::IndexedIndirect(b1) },
        0xA2 => InstructionPair { instruction: Instruction::LDX, addr_mode: AddressingMode::Immediate(b1) },
        0xA3 => InstructionPair { instruction: Instruction::LAX, addr_mode: AddressingMode::IndexedIndirect(b1) },
        0xA4 => InstructionPair { instruction: Instruction::LDY, addr_mode: AddressingMode::ZeroPage(b1) },
        0xA5 => InstructionPair { instruction: Instruction::LDA, addr_mode: AddressingMode::ZeroPage(b1) },
        0xA6 => InstructionPair { instruction: Instruction::LDX, addr_mode: AddressingMode::ZeroPage(b1) },
        0xA7 => InstructionPair { instruction: Instruction::LAX, addr_mode: AddressingMode::ZeroPage(b1) },
        0xA8 => InstructionPair { instruction: Instruction::TAY, addr_mode: AddressingMode::Implicit },
        0xA9 => InstructionPair { instruction: Instruction::LDA, addr_mode: AddressingMode::Immediate(b1) },
        0xAA => InstructionPair { instruction: Instruction::TAX, addr_mode: AddressingMode::Implicit },
        0xAB => InstructionPair { instruction: Instruction::LAX, addr_mode: AddressingMode::Immediate(b1) },
        0xAC => InstructionPair { instruction: Instruction::LDY, addr_mode: AddressingMode::Absolute((b1 + 0x100 * b2) as u16) },
        0xAD => InstructionPair { instruction: Instruction::LDA, addr_mode: AddressingMode::Absolute((b1 + 0x100 * b2) as u16) },
        0xAE => InstructionPair { instruction: Instruction::LDX, addr_mode: AddressingMode::Absolute((b1 + 0x100 * b2) as u16) },
        0xAF => InstructionPair { instruction: Instruction::LAX, addr_mode: AddressingMode::Absolute((b1 + 0x100 * b2) as u16) },
        0xB0 => InstructionPair { instruction: Instruction::BCS, addr_mode: AddressingMode::Relative(sbyte(b1)) },
        0xB1 => InstructionPair { instruction: Instruction::LDA, addr_mode: AddressingMode::IndirectIndexed(b1) },
        0xB2 => InstructionPair { instruction: Instruction::NOP, addr_mode: AddressingMode::Implicit },
        0xB3 => InstructionPair { instruction: Instruction::LAX, addr_mode: AddressingMode::IndirectIndexed(b1) },
        0xB4 => InstructionPair { instruction: Instruction::LDY, addr_mode: AddressingMode::ZeroPageIndexedX(b1) },
        0xB5 => InstructionPair { instruction: Instruction::LDA, addr_mode: AddressingMode::ZeroPageIndexedX(b1) },
        0xB6 => InstructionPair { instruction: Instruction::LDX, addr_mode: AddressingMode::ZeroPageIndexedY(b1) },
        0xB7 => InstructionPair { instruction: Instruction::LAX, addr_mode: AddressingMode::ZeroPageIndexedY(b1) },
        0xB8 => InstructionPair { instruction: Instruction::CLV, addr_mode: AddressingMode::Implicit },
        0xB9 => InstructionPair { instruction: Instruction::LDA, addr_mode: AddressingMode::AbsoluteIndexedY((b1 + 0x100 * b2) as u16) },
        0xBA => InstructionPair { instruction: Instruction::TSX, addr_mode: AddressingMode::Implicit },
        0xBB => InstructionPair { instruction: Instruction::LAS, addr_mode: AddressingMode::AbsoluteIndexedY((b1 + 0x100 * b2) as u16) },
        0xBC => InstructionPair { instruction: Instruction::LDY, addr_mode: AddressingMode::AbsoluteIndexedX((b1 + 0x100 * b2) as u16) },
        0xBD => InstructionPair { instruction: Instruction::LDA, addr_mode: AddressingMode::AbsoluteIndexedX((b1 + 0x100 * b2) as u16) },
        0xBE => InstructionPair { instruction: Instruction::LDX, addr_mode: AddressingMode::AbsoluteIndexedY((b1 + 0x100 * b2) as u16) },
        0xBF => InstructionPair { instruction: Instruction::LAX, addr_mode: AddressingMode::AbsoluteIndexedY((b1 + 0x100 * b2) as u16) },
        0xC0 => InstructionPair { instruction: Instruction::CPY, addr_mode: AddressingMode::Immediate(b1) },
        0xC1 => InstructionPair { instruction: Instruction::CMP, addr_mode: AddressingMode::IndexedIndirect(b1) },
        0xC2 => InstructionPair { instruction: Instruction::NOP, addr_mode: AddressingMode::Immediate(b1) },
        0xC3 => InstructionPair { instruction: Instruction::DCP, addr_mode: AddressingMode::IndexedIndirect(b1) },
        0xC4 => InstructionPair { instruction: Instruction::CPY, addr_mode: AddressingMode::ZeroPage(b1) },
        0xC5 => InstructionPair { instruction: Instruction::CMP, addr_mode: AddressingMode::ZeroPage(b1) },
        0xC6 => InstructionPair { instruction: Instruction::DEC, addr_mode: AddressingMode::ZeroPage(b1) },
        0xC7 => InstructionPair { instruction: Instruction::DCP, addr_mode: AddressingMode::ZeroPage(b1) },
        0xC8 => InstructionPair { instruction: Instruction::INY, addr_mode: AddressingMode::Implicit },
        0xC9 => InstructionPair { instruction: Instruction::CMP, addr_mode: AddressingMode::Immediate(b1) },
        0xCA => InstructionPair { instruction: Instruction::DEX, addr_mode: AddressingMode::Implicit },
        0xCB => InstructionPair { instruction: Instruction::AXS, addr_mode: AddressingMode::Immediate(b1) },
        0xCC => InstructionPair { instruction: Instruction::CPY, addr_mode: AddressingMode::Absolute((b1 + 0x100 * b2) as u16) },
        0xCD => InstructionPair { instruction: Instruction::CMP, addr_mode: AddressingMode::Absolute((b1 + 0x100 * b2) as u16) },
        0xCE => InstructionPair { instruction: Instruction::DEC, addr_mode: AddressingMode::Absolute((b1 + 0x100 * b2) as u16) },
        0xCF => InstructionPair { instruction: Instruction::DCP, addr_mode: AddressingMode::Absolute((b1 + 0x100 * b2) as u16) },
        0xD0 => InstructionPair { instruction: Instruction::BNE, addr_mode: AddressingMode::Relative(sbyte(b1)) },
        0xD1 => InstructionPair { instruction: Instruction::CMP, addr_mode: AddressingMode::IndirectIndexed(b1) },
        0xD2 => InstructionPair { instruction: Instruction::NOP, addr_mode: AddressingMode::Implicit },
        0xD3 => InstructionPair { instruction: Instruction::DCP, addr_mode: AddressingMode::IndirectIndexed(b1) },
        0xD4 => InstructionPair { instruction: Instruction::NOP, addr_mode: AddressingMode::ZeroPageIndexedX(b1) },
        0xD5 => InstructionPair { instruction: Instruction::CMP, addr_mode: AddressingMode::ZeroPageIndexedX(b1) },
        0xD6 => InstructionPair { instruction: Instruction::DEC, addr_mode: AddressingMode::ZeroPageIndexedX(b1) },
        0xD7 => InstructionPair { instruction: Instruction::DCP, addr_mode: AddressingMode::ZeroPageIndexedX(b1) },
        0xD8 => InstructionPair { instruction: Instruction::CLD, addr_mode: AddressingMode::Implicit },
        0xD9 => InstructionPair { instruction: Instruction::CMP, addr_mode: AddressingMode::AbsoluteIndexedY((b1 + 0x100 * b2) as u16) },
        0xDA => InstructionPair { instruction: Instruction::NOP, addr_mode: AddressingMode::Implicit },
        0xDB => InstructionPair { instruction: Instruction::DCP, addr_mode: AddressingMode::AbsoluteIndexedY((b1 + 0x100 * b2) as u16) },
        0xDC => InstructionPair { instruction: Instruction::NOP, addr_mode: AddressingMode::AbsoluteIndexedX((b1 + 0x100 * b2) as u16) },
        0xDD => InstructionPair { instruction: Instruction::CMP, addr_mode: AddressingMode::AbsoluteIndexedX((b1 + 0x100 * b2) as u16) },
        0xDE => InstructionPair { instruction: Instruction::DEC, addr_mode: AddressingMode::AbsoluteIndexedX((b1 + 0x100 * b2) as u16) },
        0xDF => InstructionPair { instruction: Instruction::DCP, addr_mode: AddressingMode::AbsoluteIndexedX((b1 + 0x100 * b2) as u16) },
        0xE0 => InstructionPair { instruction: Instruction::CPX, addr_mode: AddressingMode::Immediate(b1) },
        0xE1 => InstructionPair { instruction: Instruction::SBC, addr_mode: AddressingMode::IndexedIndirect(b1) },
        0xE2 => InstructionPair { instruction: Instruction::NOP, addr_mode: AddressingMode::Immediate(b1) },
        0xE3 => InstructionPair { instruction: Instruction::ISC, addr_mode: AddressingMode::IndexedIndirect(b1) },
        0xE4 => InstructionPair { instruction: Instruction::CPX, addr_mode: AddressingMode::ZeroPage(b1) },
        0xE5 => InstructionPair { instruction: Instruction::SBC, addr_mode: AddressingMode::ZeroPage(b1) },
        0xE6 => InstructionPair { instruction: Instruction::INC, addr_mode: AddressingMode::ZeroPage(b1) },
        0xE7 => InstructionPair { instruction: Instruction::ISC, addr_mode: AddressingMode::ZeroPage(b1) },
        0xE8 => InstructionPair { instruction: Instruction::INX, addr_mode: AddressingMode::Implicit },
        0xE9 => InstructionPair { instruction: Instruction::SBC, addr_mode: AddressingMode::Immediate(b1) },
        0xEA => InstructionPair { instruction: Instruction::NOP, addr_mode: AddressingMode::Implicit },
        0xEB => InstructionPair { instruction: Instruction::SBC, addr_mode: AddressingMode::Immediate(b1) },
        0xEC => InstructionPair { instruction: Instruction::CPX, addr_mode: AddressingMode::Absolute((b1 + 0x100 * b2) as u16) },
        0xED => InstructionPair { instruction: Instruction::SBC, addr_mode: AddressingMode::Absolute((b1 + 0x100 * b2) as u16) },
        0xEE => InstructionPair { instruction: Instruction::INC, addr_mode: AddressingMode::Absolute((b1 + 0x100 * b2) as u16) },
        0xEF => InstructionPair { instruction: Instruction::ISC, addr_mode: AddressingMode::Absolute((b1 + 0x100 * b2) as u16) },
        0xF0 => InstructionPair { instruction: Instruction::BEQ, addr_mode: AddressingMode::Relative(sbyte(b1)) },
        0xF1 => InstructionPair { instruction: Instruction::SBC, addr_mode: AddressingMode::IndirectIndexed(b1) },
        0xF2 => InstructionPair { instruction: Instruction::NOP, addr_mode: AddressingMode::Implicit },
        0xF3 => InstructionPair { instruction: Instruction::ISC, addr_mode: AddressingMode::IndirectIndexed(b1) },
        0xF4 => InstructionPair { instruction: Instruction::NOP, addr_mode: AddressingMode::ZeroPageIndexedX(b1) },
        0xF5 => InstructionPair { instruction: Instruction::SBC, addr_mode: AddressingMode::ZeroPageIndexedX(b1) },
        0xF6 => InstructionPair { instruction: Instruction::INC, addr_mode: AddressingMode::ZeroPageIndexedX(b1) },
        0xF7 => InstructionPair { instruction: Instruction::ISC, addr_mode: AddressingMode::ZeroPageIndexedX(b1) },
        0xF8 => InstructionPair { instruction: Instruction::SED, addr_mode: AddressingMode::Implicit },
        0xF9 => InstructionPair { instruction: Instruction::SBC, addr_mode: AddressingMode::AbsoluteIndexedY((b1 + 0x100 * b2) as u16) },
        0xFA => InstructionPair { instruction: Instruction::NOP, addr_mode: AddressingMode::Implicit },
        0xFB => InstructionPair { instruction: Instruction::ISC, addr_mode: AddressingMode::AbsoluteIndexedY((b1 + 0x100 * b2) as u16) },
        0xFC => InstructionPair { instruction: Instruction::NOP, addr_mode: AddressingMode::AbsoluteIndexedX((b1 + 0x100 * b2) as u16) },
        0xFD => InstructionPair { instruction: Instruction::SBC, addr_mode: AddressingMode::AbsoluteIndexedX((b1 + 0x100 * b2) as u16) },
        0xFE => InstructionPair { instruction: Instruction::INC, addr_mode: AddressingMode::AbsoluteIndexedX((b1 + 0x100 * b2) as u16) },
        0xFF => InstructionPair { instruction: Instruction::ISC, addr_mode: AddressingMode::AbsoluteIndexedX((b1 + 0x100 * b2) as u16) },    }
}

/// The encoded length that an opcode asks of the stream: the opcode byte
/// plus its operand bytes.
pub open spec fn opcode_len(op: u8) -> int {
    1 + operand_bytes(spec_decode(op, 0, 0).addr_mode)
}

/// One byte of the stream, or the malformed-stream fault past its end.
fn byte_at(program: &Vec<u8>, i: usize) -> (r: Result<u8, Fault>)
    ensures
        program@.len() <= usize::MAX,
        i < program@.len() ==> r == Ok::<u8, Fault>(program@[i as int]),
        i >= program@.len() ==> r == Err::<u8, Fault>(Fault::MalformedStream),
{
    if i < program.len() {
        Ok(program[i])
    } else {
        Err(Fault::MalformedStream)
    }
}

/// Decodes the opcodes 0x00 through 0x1F.
#[verifier::spinoff_prover]
#[verifier::rlimit(100)]
fn decode_block_0(program: &Vec<u8>, pos: usize, op: u8) -> (r: Result<
    (InstructionPair, usize),
    Fault,
>)
    requires
        pos < program@.len(),
        program@.len() <= usize::MAX,
        program@[pos as int] == op,
        0x00 <= op < 0x20,
    ensures
        (match r {
            Ok(p) => {
                &&& pos + opcode_len(program@[pos as int]) <= program@.len()
                &&& p.1 == pos + opcode_len(program@[pos as int])
                &&& p.0 == spec_decode(
                    program@[pos as int],
                    byte_or_zero(program@, pos + 1),
                    byte_or_zero(program@, pos + 2),
                )
            },
            Err(e) => {
                &&& e == Fault::MalformedStream
                &&& pos + opcode_len(program@[pos as int]) > program@.len()
            },
        }),
{
    match op {
        0x00 => Ok((InstructionPair::new(Instruction::BRK, AddressingMode::Implicit), pos + 1)),
        0x01 => {
            let b1: u8 = byte_at(program, pos + 1)?;
            Ok((InstructionPair::new(Instruction::ORA, AddressingMode::IndexedIndirect(b1)), pos + 2))
        },
        0x02 => Ok((InstructionPair::new(Instruction::NOP, AddressingMode::Implicit), pos + 1)),
        0x03 => {
            let b1: u8 = byte_at(program, pos + 1)?;
            Ok((InstructionPair::new(Instruction::SLO, AddressingMode::IndexedIndirect(b1)), pos + 2))
        },
        0x04 => {
            let b1: u8 = byte_at(program, pos + 1)?;
            Ok((InstructionPair::new(Instruction::NOP, AddressingMode::ZeroPage(b1)), pos + 2))
        },
        0x05 => {
            let b1: u8 = byte_at(program, pos + 1)?;
            Ok((InstructionPair::new(Instruction::ORA, AddressingMode::ZeroPage(b1)), pos + 2))
        },
        0x06 => {
            let b1: u8 = byte_at(program, pos + 1)?;
            Ok((InstructionPair::new(Instruction::ASL, AddressingMode::ZeroPage(b1)), pos + 2))
        },
        0x07 => {
            let b1: u8 = byte_at(program, pos + 1)?;
            Ok((InstructionPair::new(Instruction::SLO, AddressingMode::ZeroPage(b1)), pos + 2))
        },
        0x08 => Ok((InstructionPair::new(Instruction::PHP, AddressingMode::Implicit), pos + 1)),
        0x09 => {
            let b1: u8 = byte_at(program, pos + 1)?;
            Ok((InstructionPair::new(Instruction::ORA, AddressingMode::Immediate(b1)), pos + 2))
        },
        0x0A => Ok((InstructionPair::new(Instruction::ASL, AddressingMode::Implicit), pos + 1)),
        0x0B => {
            let b1: u8 = byte_at(program, pos + 1)?;
            Ok((InstructionPair::new(Instruction::ANC, AddressingMode::Immediate(b1)), pos + 2))
        },
        0x0C => {
            let b1: u8 = byte_at(program, pos + 1)?;
            let b2: u8 = byte_at(program, pos + 2)?;
            Ok((InstructionPair::new(Instruction::NOP, AddressingMode::Absolute(word(b1, b2))), pos + 3))
        },
        0x0D => {
            let b1: u8 = byte_at(program, pos + 1)?;
            let b2: u8 = byte_at(program, pos + 2)?;
            Ok((InstructionPair::new(Instruction::ORA, AddressingMode::Absolute(word(b1, b2))), pos + 3))
        },
        0x0E => {
            let b1: u8 = byte_at(program, pos + 1)?;
            let b2: u8 = byte_at(program, pos + 2)?;
            Ok((InstructionPair::new(Instruction::ASL, AddressingMode::Absolute(word(b1, b2))), pos + 3))
        },
        0x0F => {
            let b1: u8 = byte_at(program, pos + 1)?;
            let b2: u8 = byte_at(program, pos + 2)?;
            Ok((InstructionPair::new(Instruction::SLO, AddressingMode::Absolute(word(b1, b2))), pos + 3))
        },
        0x10 => {
            let b1: u8 = byte_at(program, pos + 1)?;
            Ok((InstructionPair::new(Instruction::BPL, AddressingMode::Relative(to_signed8(b1))), pos + 2))
        },
        0x11 => {
            let b1: u8 = byte_at(program, pos + 1)?;
            Ok((InstructionPair::new(Instruction::ORA, AddressingMode::IndirectIndexed(b1)), pos + 2))
        },
        0x12 => Ok((InstructionPair::new(Instruction::NOP, AddressingMode::Implicit), pos + 1)),
        0x13 => {
            let b1: u8 = byte_at(program, pos + 1)?;
            Ok((InstructionPair::new(Instruction::SLO, AddressingMode::IndirectIndexed(b1)), pos + 2))
        },
        0x14 => {
            let b1: u8 = byte_at(program, pos + 1)?;
            Ok((InstructionPair::new(Instruction::NOP, AddressingMode::ZeroPageIndexedX(b1)), pos + 2))
        },
        0x15 => {
            let b1: u8 = byte_at(program, pos + 1)?;
            Ok((InstructionPair::new(Instruction::ORA, AddressingMode::ZeroPageIndexedX(b1)), pos + 2))
        },
        0x16 => {
            let b1: u8 = byte_at(program, pos + 1)?;
            Ok((InstructionPair::new(Instruction::ASL, AddressingMode::ZeroPageIndexedX(b1)), pos + 2))
        },
        0x17 => {
            let b1: u8 = byte_at(program, pos + 1)?;
            Ok((InstructionPair::new(Instruction::SLO, AddressingMode::ZeroPageIndexedX(b1)), pos + 2))
        },
        0x18 => Ok((InstructionPair::new(Instruction::CLC, AddressingMode::Implicit), pos + 1)),
        0x19 => {
            let b1: u8 = byte_at(program, pos + 1)?;
            let b2: u8 = byte_at(program, pos + 2)?;
            Ok((InstructionPair::new(Instruction::ORA, AddressingMode::AbsoluteIndexedY(word(b1, b2))), pos + 3))
        },
        0x1A => Ok((InstructionPair::new(Instruction::NOP, AddressingMode::Implicit), pos + 1)),
        0x1B => {
            let b1: u8 = byte_at(program, pos + 1)?;
            let b2: u8 = byte_at(program, pos + 2)?;
            Ok((InstructionPair::new(Instruction::SLO, AddressingMode::AbsoluteIndexedY(word(b1, b2))), pos + 3))
        },
        0x1C => {
            let b1: u8 = byte_at(program, pos + 1)?;
            let b2: u8 = byte_at(program, pos + 2)?;
            Ok((InstructionPair::new(Instruction::NOP, AddressingMode::AbsoluteIndexedX(word(b1, b2))), pos + 3))
        },
        0x1D => {
            let b1: u8 = byte_at(program, pos + 1)?;
            let b2: u8 = byte_at(program, pos + 2)?;
            Ok((InstructionPair::new(Instruction::ORA, AddressingMode::AbsoluteIndexedX(word(b1, b2))), pos + 3))
        },
        0x1E => {
            let b1: u8 = byte_at(program, pos + 1)?;
            let b2: u8 = byte_at(program, pos + 2)?;
            Ok((InstructionPair::new(Instruction::ASL, AddressingMode::AbsoluteIndexedX(word(b1, b2))), pos + 3))
        },
        0x1F => {
            let b1: u8 = byte_at(program, pos + 1)?;
            let b2: u8 = byte_at(program, pos + 2)?;
            Ok((InstructionPair::new(Instruction::SLO, AddressingMode::AbsoluteIndexedX(word(b1, b2))), pos + 3))
        },
        _ => {
            proof {
                assert(false);
            }
            Err(Fault::MalformedStream)
        },
    }
}

/// Decodes the opcodes 0x20 through 0x3F.
#[verifier::spinoff_prover]
#[verifier::rlimit(100)]
fn decode_block_1(program: &Vec<u8>, pos: usize, op: u8) -> (r: Result<
    (InstructionPair, usize),
    Fault,
>)
    requires
        pos < program@.len(),
        program@.len() <= usize::MAX,
        program@[pos as int] == op,
        0x20 <= op < 0x40,
    ensures
        (match r {
            Ok(p) => {
                &&& pos + opcode_len(program@[pos as int]) <= program@.len()
                &&& p.1 == pos + opcode_len(program@[pos as int])
                &&& p.0 == spec_decode(
                    program@[pos as int],
                    byte_or_zero(program@, pos + 1),
                    byte_or_zero(program@, pos + 2),
                )
            },
            Err(e) => {
                &&& e == Fault::MalformedStream
                &&& pos + opcode_len(program@[pos as int]) > program@.len()
            },
        }),
{
    match op {
        0x20 => {
            let b1: u8 = byte_at(program, pos + 1)?;
            let b2: u8 = byte_at(program, pos + 2)?;
            Ok((InstructionPair::new(Instruction::JSR, AddressingMode::Absolute(word(b1, b2))), pos + 3))
        },
        0x21 => {
            let b1: u8 = byte_at(program, pos + 1)?;
            Ok((InstructionPair::new(Instruction::AND, AddressingMode::IndexedIndirect(b1)), pos + 2))
        },
        0x22 => Ok((InstructionPair::new(Instruction::NOP, AddressingMode::Implicit), pos + 1)),
        0x23 => {
            let b1: u8 = byte_at(program, pos + 1)?;
            Ok((InstructionPair::new(Instruction::RLA, AddressingMode::IndexedIndirect(b1)), pos + 2))
        },
        0x24 => {
            let b1: u8 = byte_at(program, pos + 1)?;
            Ok((InstructionPair::new(Instruction::BIT, AddressingMode::ZeroPage(b1)), pos + 2))
        },
        0x25 => {
            let b1: u8 = byte_at(program, pos + 1)?;
            Ok((InstructionPair::new(Instruction::AND, AddressingMode::ZeroPage(b1)), pos + 2))
        },
        0x26 => {
            let b1: u8 = byte_at(program, pos + 1)?;
            Ok((InstructionPair::new(Instruction::ROL, AddressingMode::ZeroPage(b1)), pos + 2))
        },
        0x27 => {
            let b1: u8 = byte_at(program, pos + 1)?;
            Ok((InstructionPair::new(Instruction::RLA, AddressingMode::ZeroPage(b1)), pos + 2))
        },
        0x28 => Ok((InstructionPair::new(Instruction::PLP, AddressingMode::Implicit), pos + 1)),
        0x29 => {
            let b1: u8 = byte_at(program, pos + 1)?;
            Ok((InstructionPair::new(Instruction::AND, AddressingMode::Immediate(b1)), pos + 2))
        },
        0x2A => Ok((InstructionPair::new(Instruction::ROL, AddressingMode::Implicit), pos + 1)),
        0x2B => {
            let b1: u8 = byte_at(program, pos + 1)?;
            Ok((InstructionPair::new(Instruction::ANC, AddressingMode::Immediate(b1)), pos + 2))
        },
        0x2C => {
            let b1: u8 = byte_at(program, pos + 1)?;
            let b2: u8 = byte_at(program, pos + 2)?;
            Ok((InstructionPair::new(Instruction::BIT, AddressingMode::Absolute(word(b1, b2))), pos + 3))
        },
        0x2D => {
            let b1: u8 = byte_at(program, pos + 1)?;
            let b2: u8 = byte_at(program, pos + 2)?;
            Ok((InstructionPair::new(Instruction::AND, AddressingMode::Absolute(word(b1, b2))), pos + 3))
        },
        0x2E => {
            let b1: u8 = byte_at(program, pos + 1)?;
            let b2: u8 = byte_at(program, pos + 2)?;
            Ok((InstructionPair::new(Instruction::ROL, AddressingMode::Absolute(word(b1, b2))), pos + 3))
        },
        0x2F => {
            let b1: u8 = byte_at(program, pos + 1)?;
            let b2: u8 = byte_at(program, pos + 2)?;
            Ok((InstructionPair::new(Instruction::RLA, AddressingMode::Absolute(word(b1, b2))), pos + 3))
        },
        0x30 => {
            let b1: u8 = byte_at(program, pos + 1)?;
            Ok((InstructionPair::new(Instruction::BMI, AddressingMode::Relative(to_signed8(b1))), pos + 2))
        },
        0x31 => {
            let b1: u8 = byte_at(program, pos + 1)?;
            Ok((InstructionPair::new(Instruction::AND, AddressingMode::IndirectIndexed(b1)), pos + 2))
        },
        0x32 => Ok((InstructionPair::new(Instruction::NOP, AddressingMode::Implicit), pos + 1)),
        0x33 => {
            let b1: u8 = byte_at(program, pos + 1)?;
            Ok((InstructionPair::new(Instruction::RLA, AddressingMode::IndirectIndexed(b1)), pos + 2))
        },
        0x34 => {
            let b1: u8 = byte_at(program, pos + 1)?;
            Ok((InstructionPair::new(Instruction::NOP, AddressingMode::ZeroPageIndexedX(b1)), pos + 2))
        },
        0x35 => {
            let b1: u8 = byte_at(program, pos + 1)?;
            Ok((InstructionPair::new(Instruction::AND, AddressingMode::ZeroPageIndexedX(b1)), pos + 2))
        },
        0x36 => {
            let b1: u8 = byte_at(program, pos + 1)?;
            Ok((InstructionPair::new(Instruction::ROL, AddressingMode::ZeroPageIndexedX(b1)), pos + 2))
        },
        0x37 => {
            let b1: u8 = byte_at(program, pos + 1)?;
            Ok((InstructionPair::new(Instruction::RLA, AddressingMode::ZeroPageIndexedX(b1)), pos + 2))
        },
        0x38 => Ok((InstructionPair::new(Instruction::SEC, AddressingMode::Implicit), pos + 1)),
        0x39 => {
            let b1: u8 = byte_at(program, pos + 1)?;
            let b2: u8 = byte_at(program, pos + 2)?;
            Ok((InstructionPair::new(Instruction::AND, AddressingMode::AbsoluteIndexedY(word(b1, b2))), pos + 3))
        },
        0x3A => Ok((InstructionPair::new(Instruction::NOP, AddressingMode::Implicit), pos + 1)),
        0x3B => {
            let b1: u8 = byte_at(program, pos + 1)?;
            let b2: u8 = byte_at(program, pos + 2)?;
            Ok((InstructionPair::new(Instruction::RLA, AddressingMode::AbsoluteIndexedY(word(b1, b2))), pos + 3))
        },
        0x3C => {
            let b1: u8 = byte_at(program, pos + 1)?;
            let b2: u8 = byte_at(program, pos + 2)?;
            Ok((InstructionPair::new(Instruction::NOP, AddressingMode::AbsoluteIndexedX(word(b1, b2))), pos + 3))
        },
        0x3D => {
            let b1: u8 = byte_at(program, pos + 1)?;
            let b2: u8 = byte_at(program, pos + 2)?;
            Ok((InstructionPair::new(Instruction::AND, AddressingMode::AbsoluteIndexedX(word(b1, b2))), pos + 3))
        },
        0x3E => {
            let b1: u8 = byte_at(program, pos + 1)?;
            let b2: u8 = byte_at(program, pos + 2)?;
            Ok((InstructionPair::new(Instruction::ROL, AddressingMode::AbsoluteIndexedX(word(b1, b2))), pos + 3))
        },
        0x3F => {
            let b1: u8 = byte_at(program, pos + 1)?;
            let b2: u8 = byte_at(program, pos + 2)?;
            Ok((InstructionPair::new(Instruction::RLA, AddressingMode::AbsoluteIndexedX(word(b1, b2))), pos + 3))
        },
        _ => {
            proof {
                assert(false);
            }
            Err(Fault::MalformedStream)
        },
    }
}

/// Decodes the opcodes 0x40 through 0x5F.
#[verifier::spinoff_prover]
#[verifier::rlimit(100)]
fn decode_block_2(program: &Vec<u8>, pos: usize, op: u8) -> (r: Result<
    (InstructionPair, usize),
    Fault,
>)
    requires
        pos < program@.len(),
        program@.len() <= usize::MAX,
        program@[pos as int] == op,
        0x40 <= op < 0x60,
    ensures
        (match r {
            Ok(p) => {
                &&& pos + opcode_len(program@[pos as int]) <= program@.len()
                &&& p.1 == pos + opcode_len(program@[pos as int])
                &&& p.0 == spec_decode(
                    program@[pos as int],
                    byte_or_zero(program@, pos + 1),
                    byte_or_zero(program@, pos + 2),
                )
            },
            Err(e) => {
                &&& e == Fault::MalformedStream
                &&& pos + opcode_len(program@[pos as int]) > program@.len()
            },
        }),
{
    match op {
        0x40 => Ok((InstructionPair::new(Instruction::RTI, AddressingMode::Implicit), pos + 1)),
        0x41 => {
            let b1: u8 = byte_at(program, pos + 1)?;
            Ok((InstructionPair::new(Instruction::EOR, AddressingMode::IndexedIndirect(b1)), pos + 2))
        },
        0x42 => Ok((InstructionPair::new(Instruction::NOP, AddressingMode::Implicit), pos + 1)),
        0x43 => {
            let b1: u8 = byte_at(program, pos + 1)?;
            Ok((InstructionPair::new(Instruction::SRE, AddressingMode::IndexedIndirect(b1)), pos + 2))
        },
        0x44 => {
            let b1: u8 = byte_at(program, pos + 1)?;
            Ok((InstructionPair::new(Instruction::NOP, AddressingMode::ZeroPage(b1)), pos + 2))
        },
        0x45 => {
            let b1: u8 = byte_at(program, pos + 1)?;
            Ok((InstructionPair::new(Instruction::EOR, AddressingMode::ZeroPage(b1)), pos + 2))
        },
        0x46 => {
            let b1: u8 = byte_at(program, pos + 1)?;
            Ok((InstructionPair::new(Instruction::LSR, AddressingMode::ZeroPage(b1)), pos + 2))
        },
        0x47 => {
            let b1: u8 = byte_at(program, pos + 1)?;
            Ok((InstructionPair::new(Instruction::SRE, AddressingMode::ZeroPage(b1)), pos + 2))
        },
        0x48 => Ok((InstructionPair::new(Instruction::PHA, AddressingMode::Implicit), pos + 1)),
        0x49 => {
            let b1: u8 = byte_at(program, pos + 1)?;
            Ok((InstructionPair::new(Instruction::EOR, AddressingMode::Immediate(b1)), pos + 2))
        },
        0x4A => Ok((InstructionPair::new(Instruction::LSR, AddressingMode::Implicit), pos + 1)),
        0x4B => {
            let b1: u8 = byte_at(program, pos + 1)?;
            Ok((InstructionPair::new(Instruction::ALR, AddressingMode::Immediate(b1)), pos + 2))
        },
        0x4C => {
            let b1: u8 = byte_at(program, pos + 1)?;
            let b2: u8 = byte_at(program, pos + 2)?;
            Ok((InstructionPair::new(Instruction::JMP, AddressingMode::Absolute(word(b1, b2))), pos + 3))
        },
        0x4D => {
            let b1: u8 = byte_at(program, pos + 1)?;
            let b2: u8 = byte_at(program, pos + 2)?;
            Ok((InstructionPair::new(Instruction::EOR, AddressingMode::Absolute(word(b1, b2))), pos + 3))
        },
        0x4E => {
            let b1: u8 = byte_at(program, pos + 1)?;
            let b2: u8 = byte_at(program, pos + 2)?;
            Ok((InstructionPair::new(Instruction::LSR, AddressingMode::Absolute(word(b1, b2))), pos + 3))
        },
        0x4F => {
            let b1: u8 = byte_at(program, pos + 1)?;
            let b2: u8 = byte_at(program, pos + 2)?;
            Ok((InstructionPair::new(Instruction::SRE, AddressingMode::Absolute(word(b1, b2))), pos + 3))
        },
        0x50 => {
            let b1: u8 = byte_at(program, pos + 1)?;
            Ok((InstructionPair::new(Instruction::BVC, AddressingMode::Relative(to_signed8(b1))), pos + 2))
        },
        0x51 => {
            let b1: u8 = byte_at(program, pos + 1)?;
            Ok((InstructionPair::new(Instruction::EOR, AddressingMode::IndirectIndexed(b1)), pos + 2))
        },
        0x52 => Ok((InstructionPair::new(Instruction::NOP, AddressingMode::Implicit), pos + 1)),
        0x53 => {
            let b1: u8 = byte_at(program, pos + 1)?;
            Ok((InstructionPair::new(Instruction::SRE, AddressingMode::IndirectIndexed(b1)), pos + 2))
        },
        0x54 => {
            let b1: u8 = byte_at(program, pos + 1)?;
            Ok((InstructionPair::new(Instruction::NOP, AddressingMode::ZeroPageIndexedX(b1)), pos + 2))
        },
        0x55 => {
            let b1: u8 = byte_at(program, pos + 1)?;
            Ok((InstructionPair::new(Instruction::EOR, AddressingMode::ZeroPageIndexedX(b1)), pos + 2))
        },
        0x56 => {
            let b1: u8 = byte_at(program, pos + 1)?;
            Ok((InstructionPair::new(Instruction::LSR, AddressingMode::ZeroPageIndexedX(b1)), pos + 2))
        },
        0x57 => {
            let b1: u8 = byte_at(program, pos + 1)?;
            Ok((InstructionPair::new(Instruction::SRE, AddressingMode::ZeroPageIndexedX(b1)), pos + 2))
        },
        0x58 => Ok((InstructionPair::new(Instruction::CLI, AddressingMode::Implicit), pos + 1)),
        0x59 => {
            let b1: u8 = byte_at(program, pos + 1)?;
            let b2: u8 = byte_at(program, pos + 2)?;
            Ok((InstructionPair::new(Instruction::EOR, AddressingMode::AbsoluteIndexedY(word(b1, b2))), pos + 3))
        },
        0x5A => Ok((InstructionPair::new(Instruction::NOP, AddressingMode::Implicit), pos + 1)),
        0x5B => {
            let b1: u8 = byte_at(program, pos + 1)?;
            let b2: u8 = byte_at(program, pos + 2)?;
            Ok((InstructionPair::new(Instruction::SRE, AddressingMode::AbsoluteIndexedY(word(b1, b2))), pos + 3))
        },
        0x5C => {
            let b1: u8 = byte_at(program, pos + 1)?;
            let b2: u8 = byte_at(program, pos + 2)?;
            Ok((InstructionPair::new(Instruction::NOP, AddressingMode::AbsoluteIndexedX(word(b1, b2))), pos + 3))
        },
        0x5D => {
            let b1: u8 = byte_at(program, pos + 1)?;
            let b2: u8 = byte_at(program, pos + 2)?;
            Ok((InstructionPair::new(Instruction::EOR, AddressingMode::AbsoluteIndexedX(word(b1, b2))), pos + 3))
        },
        0x5E => {
            let b1: u8 = byte_at(program, pos + 1)?;
            let b2: u8 = byte_at(program, pos + 2)?;
            Ok((InstructionPair::new(Instruction::LSR, AddressingMode::AbsoluteIndexedX(word(b1, b2))), pos + 3))
        },
        0x5F => {
            let b1: u8 = byte_at(program, pos + 1)?;
            let b2: u8 = byte_at(program, pos + 2)?;
            Ok((InstructionPair::new(Instruction::SRE, AddressingMode::AbsoluteIndexedX(word(b1, b2))), pos + 3))
        },
        _ => {
            proof {
                assert(false);
            }
            Err(Fault::MalformedStream)
        },
    }
}

/// Decodes the opcodes 0x60 through 0x7F.
#[verifier::spinoff_prover]
#[verifier::rlimit(100)]
fn decode_block_3(program: &Vec<u8>, pos: usize, op: u8) -> (r: Result<
    (InstructionPair, usize),
    Fault,
>)
    requires
        pos < program@.len(),
        program@.len() <= usize::MAX,
        program@[pos as int] == op,
        0x60 <= op < 0x80,
    ensures
        (match r {
            Ok(p) => {
                &&& pos + opcode_len(program@[pos as int]) <= program@.len()
                &&& p.1 == pos + opcode_len(program@[pos as int])
                &&& p.0 == spec_decode(
                    program@[pos as int],
                    byte_or_zero(program@, pos + 1),
                    byte_or_zero(program@, pos + 2),
                )
            },
            Err(e) => {
                &&& e == Fault::MalformedStream
                &&& pos + opcode_len(program@[pos as int]) > program@.len()
            },
        }),
{
    match op {
        0x60 => Ok((InstructionPair::new(Instruction::RTS, AddressingMode::Implicit), pos + 1)),
        0x61 => {
            let b1: u8 = byte_at(program, pos + 1)?;
            Ok((InstructionPair::new(Instruction::ADC, AddressingMode::IndexedIndirect(b1)), pos + 2))
        },
        0x62 => Ok((InstructionPair::new(Instruction::NOP, AddressingMode::Implicit), pos + 1)),
        0x63 => {
            let b1: u8 = byte_at(program, pos + 1)?;
            Ok((InstructionPair::new(Instruction::RRA, AddressingMode::IndexedIndirect(b1)), pos + 2))
        },
        0x64 => {
            let b1: u8 = byte_at(program, pos + 1)?;
            Ok((InstructionPair::new(Instruction::NOP, AddressingMode::ZeroPage(b1)), pos + 2))
        },
        0x65 => {
            let b1: u8 = byte_at(program, pos + 1)?;
            Ok((InstructionPair::new(Instruction::ADC, AddressingMode::ZeroPage(b1)), pos + 2))
        },
        0x66 => {
            let b1: u8 = byte_at(program, pos + 1)?;
            Ok((InstructionPair::new(Instruction::ROR, AddressingMode::ZeroPage(b1)), pos + 2))
        },
        0x67 => {
            let b1: u8 = byte_at(program, pos + 1)?;
            Ok((InstructionPair::new(Instruction::RRA, AddressingMode::ZeroPage(b1)), pos + 2))
        },
        0x68 => Ok((InstructionPair::new(Instruction::PLA, AddressingMode::Implicit), pos + 1)),
        0x69 => {
            let b1: u8 = byte_at(program, pos + 1)?;
            Ok((InstructionPair::new(Instruction::ADC, AddressingMode::Immediate(b1)), pos + 2))
        },
        0x6A => Ok((InstructionPair::new(Instruction::ROR, AddressingMode::Implicit), pos + 1)),
        0x6B => {
            let b1: u8 = byte_at(program, pos + 1)?;
            Ok((InstructionPair::new(Instruction::ARR, AddressingMode::Immediate(b1)), pos + 2))
        },
        0x6C => {
            let b1: u8 = byte_at(program, pos + 1)?;
            let b2: u8 = byte_at(program, pos + 2)?;
            Ok((InstructionPair::new(Instruction::JMP, AddressingMode::Indirect(word(b1, b2))), pos + 3))
        },
        0x6D => {
            let b1: u8 = byte_at(program, pos + 1)?;
            let b2: u8 = byte_at(program, pos + 2)?;
            Ok((InstructionPair::new(Instruction::ADC, AddressingMode::Absolute(word(b1, b2))), pos + 3))
        },
        0x6E => {
            let b1: u8 = byte_at(program, pos + 1)?;
            let b2: u8 = byte_at(program, pos + 2)?;
            Ok((InstructionPair::new(Instruction::ROR, AddressingMode::Absolute(word(b1, b2))), pos + 3))
        },
        0x6F => {
            let b1: u8 = byte_at(program, pos + 1)?;
            let b2: u8 = byte_at(program, pos + 2)?;
            Ok((InstructionPair::new(Instruction::RRA, AddressingMode::Absolute(word(b1, b2))), pos + 3))
        },
        0x70 => {
            let b1: u8 = byte_at(program, pos + 1)?;
            Ok((InstructionPair::new(Instruction::BVS, AddressingMode::Relative(to_signed8(b1))), pos + 2))
        },
        0x71 => {
            let b1: u8 = byte_at(program, pos + 1)?;
            Ok((InstructionPair::new(Instruction::ADC, AddressingMode::IndirectIndexed(b1)), pos + 2))
        },
        0x72 => Ok((InstructionPair::new(Instruction::NOP, AddressingMode::Implicit), pos + 1)),
        0x73 => {
            let b1: u8 = byte_at(program, pos + 1)?;
            Ok((InstructionPair::new(Instruction::RRA, AddressingMode::IndirectIndexed(b1)), pos + 2))
        },
        0x74 => {
            let b1: u8 = byte_at(program, pos + 1)?;
            Ok((InstructionPair::new(Instruction::NOP, AddressingMode::ZeroPageIndexedX(b1)), pos + 2))
        },
        0x75 => {
            let b1: u8 = byte_at(program, pos + 1)?;
            Ok((InstructionPair::new(Instruction::ADC, AddressingMode::ZeroPageIndexedX(b1)), pos + 2))
        },
        0x76 => {
            let b1: u8 = byte_at(program, pos + 1)?;
            Ok((InstructionPair::new(Instruction::ROR, AddressingMode::ZeroPageIndexedX(b1)), pos + 2))
        },
        0x77 => {
            let b1: u8 = byte_at(program, pos + 1)?;
            Ok((InstructionPair::new(Instruction::RRA, AddressingMode::ZeroPageIndexedX(b1)), pos + 2))
        },
        0x78 => Ok((InstructionPair::new(Instruction::SEI, AddressingMode::Implicit), pos + 1)),
        0x79 => {
            let b1: u8 = byte_at(program, pos + 1)?;
            let b2: u8 = byte_at(program, pos + 2)?;
            Ok((InstructionPair::new(Instruction::ADC, AddressingMode::AbsoluteIndexedY(word(b1, b2))), pos + 3))
        },
        0x7A => Ok((InstructionPair::new(Instruction::NOP, AddressingMode::Implicit), pos + 1)),
        0x7B => {
            let b1: u8 = byte_at(program, pos + 1)?;
            let b2: u8 = byte_at(program, pos + 2)?;
            Ok((InstructionPair::new(Instruction::RRA, AddressingMode::AbsoluteIndexedY(word(b1, b2))), pos + 3))
        },
        0x7C => {
            let b1: u8 = byte_at(program, pos + 1)?;
            let b2: u8 = byte_at(program, pos + 2)?;
            Ok((InstructionPair::new(Instruction::NOP, AddressingMode::AbsoluteIndexedX(word(b1, b2))), pos + 3))
        },
        0x7D => {
            let b1: u8 = byte_at(program, pos + 1)?;
            let b2: u8 = byte_at(program, pos + 2)?;
            Ok((InstructionPair::new(Instruction::ADC, AddressingMode::AbsoluteIndexedX(word(b1, b2))), pos + 3))
        },
        0x7E => {
            let b1: u8 = byte_at(program, pos + 1)?;
            let b2: u8 = byte_at(program, pos + 2)?;
            Ok((InstructionPair::new(Instruction::ROR, AddressingMode::AbsoluteIndexedX(word(b1, b2))), pos + 3))
        },
        0x7F => {
            let b1: u8 = byte_at(program, pos + 1)?;
            let b2: u8 = byte_at(program, pos + 2)?;
            Ok((InstructionPair::new(Instruction::RRA, AddressingMode::AbsoluteIndexedX(word(b1, b2))), pos + 3))
        },
        _ => {
            proof {
                assert(false);
            }
            Err(Fault::MalformedStream)
        },
    }
}

/// Decodes the opcodes 0x80 through 0x9F.
#[verifier::spinoff_prover]
#[verifier::rlimit(100)]
fn decode_block_4(program: &Vec<u8>, pos: usize, op: u8) -> (r: Result<
    (InstructionPair, usize),
    Fault,
>)
    requires
        pos < program@.len(),
        program@.len() <= usize::MAX,
        program@[pos as int] == op,
        0x80 <= op < 0xA0,
    ensures
        (match r {
            Ok(p) => {
                &&& pos + opcode_len(program@[pos as int]) <= program@.len()
                &&& p.1 == pos + opcode_len(program@[pos as int])
                &&& p.0 == spec_decode(
                    program@[pos as int],
                    byte_or_zero(program@, pos + 1),
                    byte_or_zero(program@, pos + 2),
                )
            },
            Err(e) => {
                &&& e == Fault::MalformedStream
                &&& pos + opcode_len(program@[pos as int]) > program@.len()
            },
        }),
{
    match op {
        0x80 => {
            let b1: u8 = byte_at(program, pos + 1)?;
            Ok((InstructionPair::new(Instruction::NOP, AddressingMode::Immediate(b1)), pos + 2))
        },
        0x81 => {
            let b1: u8 = byte_at(program, pos + 1)?;
            Ok((InstructionPair::new(Instruction::STA, AddressingMode::IndexedIndirect(b1)), pos + 2))
        },
        0x82 => {
            let b1: u8 = byte_at(program, pos + 1)?;
            Ok((InstructionPair::new(Instruction::NOP, AddressingMode::Immediate(b1)), pos + 2))
        },
        0x83 => {
            let b1: u8 = byte_at(program, pos + 1)?;
            Ok((InstructionPair::new(Instruction::SAX, AddressingMode::IndexedIndirect(b1)), pos + 2))
        },
        0x84 => {
            let b1: u8 = byte_at(program, pos + 1)?;
            Ok((InstructionPair::new(Instruction::STY, AddressingMode::ZeroPage(b1)), pos + 2))
        },
        0x85 => {
            let b1: u8 = byte_at(program, pos + 1)?;
            Ok((InstructionPair::new(Instruction::STA, AddressingMode::ZeroPage(b1)), pos + 2))
        },
        0x86 => {
            let b1: u8 = byte_at(program, pos + 1)?;
            Ok((InstructionPair::new(Instruction::STX, AddressingMode::ZeroPage(b1)), pos + 2))
        },
        0x87 => {
            let b1: u8 = byte_at(program, pos + 1)?;
            Ok((InstructionPair::new(Instruction::SAX, AddressingMode::ZeroPage(b1)), pos + 2))
        },
        0x88 => Ok((InstructionPair::new(Instruction::DEY, AddressingMode::Implicit), pos + 1)),
        0x89 => {
            let b1: u8 = byte_at(program, pos + 1)?;
            Ok((InstructionPair::new(Instruction::NOP, AddressingMode::Immediate(b1)), pos + 2))
        },
        0x8A => Ok((InstructionPair::new(Instruction::TXA, AddressingMode::Implicit), pos + 1)),
        0x8B => {
            let b1: u8 = byte_at(program, pos + 1)?;
            Ok((InstructionPair::new(Instruction::XAA, AddressingMode::Immediate(b1)), pos + 2))
        },
        0x8C => {
            let b1: u8 = byte_at(program, pos + 1)?;
            let b2: u8 = byte_at(program, pos + 2)?;
            Ok((InstructionPair::new(Instruction::STY, AddressingMode::Absolute(word(b1, b2))), pos + 3))
        },
        0x8D => {
            let b1: u8 = byte_at(program, pos + 1)?;
            let b2: u8 = byte_at(program, pos + 2)?;
            Ok((InstructionPair::new(Instruction::STA, AddressingMode::Absolute(word(b1, b2))), pos + 3))
        },
        0x8E => {
            let b1: u8 = byte_at(program, pos + 1)?;
            let b2: u8 = byte_at(program, pos + 2)?;
            Ok((InstructionPair::new(Instruction::STX, AddressingMode::Absolute(word(b1, b2))), pos + 3))
        },
        0x8F => {
            let b1: u8 = byte_at(program, pos + 1)?;
            let b2: u8 = byte_at(program, pos + 2)?;
            Ok((InstructionPair::new(Instruction::SAX, AddressingMode::Absolute(word(b1, b2))), pos + 3))
        },
        0x90 => {
            let b1: u8 = byte_at(program, pos + 1)?;
            Ok((InstructionPair::new(Instruction::BCC, AddressingMode::Relative(to_signed8(b1))), pos + 2))
        },
        0x91 => {
            let b1: u8 = byte_at(program, pos + 1)?;
            Ok((InstructionPair::new(Instruction::STA, AddressingMode::IndirectIndexed(b1)), pos + 2))
        },
        0x92 => Ok((InstructionPair::new(Instruction::NOP, AddressingMode::Implicit), pos + 1)),
        0x93 => {
            let b1: u8 = byte_at(program, pos + 1)?;
            Ok((InstructionPair::new(Instruction::AHX, AddressingMode::IndirectIndexed(b1)), pos + 2))
        },
        0x94 => {
            let b1: u8 = byte_at(program, pos + 1)?;
            Ok((InstructionPair::new(Instruction::STY, AddressingMode::ZeroPageIndexedX(b1)), pos + 2))
        },
        0x95 => {
            let b1: u8 = byte_at(program, pos + 1)?;
            Ok((InstructionPair::new(Instruction::STA, AddressingMode::ZeroPageIndexedX(b1)), pos + 2))
        },
        0x96 => {
            let b1: u8 = byte_at(program, pos + 1)?;
            Ok((InstructionPair::new(Instruction::STX, AddressingMode::ZeroPageIndexedY(b1)), pos + 2))
        },
        0x97 => {
            let b1: u8 = byte_at(program, pos + 1)?;
            Ok((InstructionPair::new(Instruction::SAX, AddressingMode::ZeroPageIndexedY(b1)), pos + 2))
        },
        0x98 => Ok((InstructionPair::new(Instruction::TYA, AddressingMode::Implicit), pos + 1)),
        0x99 => {
            let b1: u8 = byte_at(program, pos + 1)?;
            let b2: u8 = byte_at(program, pos + 2)?;
            Ok((InstructionPair::new(Instruction::STA, AddressingMode::AbsoluteIndexedY(word(b1, b2))), pos + 3))
        },
        0x9A => Ok((InstructionPair::new(Instruction::TXS, AddressingMode::Implicit), pos + 1)),
        0x9B => {
            let b1: u8 = byte_at(program, pos + 1)?;
            let b2: u8 = byte_at(program, pos + 2)?;
            Ok((InstructionPair::new(Instruction::TAS, AddressingMode::AbsoluteIndexedY(word(b1, b2))), pos + 3))
        },
        0x9C => {
            let b1: u8 = byte_at(program, pos + 1)?;
            let b2: u8 = byte_at(program, pos + 2)?;
            Ok((InstructionPair::new(Instruction::SHY, AddressingMode::AbsoluteIndexedX(word(b1, b2))), pos + 3))
        },
        0x9D => {
            let b1: u8 = byte_at(program, pos + 1)?;
            let b2: u8 = byte_at(program, pos + 2)?;
            Ok((InstructionPair::new(Instruction::STA, AddressingMode::AbsoluteIndexedX(word(b1, b2))), pos + 3))
        },
        0x9E => {
            let b1: u8 = byte_at(program, pos + 1)?;
            let b2: u8 = byte_at(program, pos + 2)?;
            Ok((InstructionPair::new(Instruction::SHX, AddressingMode::AbsoluteIndexedY(word(b1, b2))), pos + 3))
        },
        0x9F => {
            let b1: u8 = byte_at(program, pos + 1)?;
            let b2: u8 = byte_at(program, pos + 2)?;
            Ok((InstructionPair::new(Instruction::AHX, AddressingMode::AbsoluteIndexedY(word(b1, b2))), pos + 3))
        },
        _ => {
            proof {
                assert(false);
            }
            Err(Fault::MalformedStream)
        },
    }
}

/// Decodes the opcodes 0xA0 through 0xBF.
#[verifier::spinoff_prover]
#[verifier::rlimit(100)]
fn decode_block_5(program: &Vec<u8>, pos: usize, op: u8) -> (r: Result<
    (InstructionPair, usize),
    Fault,
>)
    requires
        pos < program@.len(),
        program@.len() <= usize::MAX,
        program@[pos as int] == op,
        0xA0 <= op < 0xC0,
    ensures
        (match r {
            Ok(p) => {
                &&& pos + opcode_len(program@[pos as int]) <= program@.len()
                &&& p.1 == pos + opcode_len(program@[pos as int])
                &&& p.0 == spec_decode(
                    program@[pos as int],
                    byte_or_zero(program@, pos + 1),
                    byte_or_zero(program@, pos + 2),
                )
            },
            Err(e) => {
                &&& e == Fault::MalformedStream
                &&& pos + opcode_len(program@[pos as int]) > program@.len()
            },
        }),
{
    match op {
        0xA0 => {
            let b1: u8 = byte_at(program, pos + 1)?;
            Ok((InstructionPair::new(Instruction::LDY, AddressingMode::Immediate(b1)), pos + 2))
        },
        0xA1 => {
            let b1: u8 = byte_at(program, pos + 1)?;
            Ok((InstructionPair::new(Instruction::LDA, AddressingMode::IndexedIndirect(b1)), pos + 2))
        },
        0xA2 => {
            let b1: u8 = byte_at(program, pos + 1)?;
            Ok((InstructionPair::new(Instruction::LDX, AddressingMode::Immediate(b1)), pos + 2))
        },
        0xA3 => {
            let b1: u8 = byte_at(program, pos + 1)?;
            Ok((InstructionPair::new(Instruction::LAX, AddressingMode::IndexedIndirect(b1)), pos + 2))
        },
        0xA4 => {
            let b1: u8 = byte_at(program, pos + 1)?;
            Ok((InstructionPair::new(Instruction::LDY, AddressingMode::ZeroPage(b1)), pos + 2))
        },
        0xA5 => {
            let b1: u8 = byte_at(program, pos + 1)?;
            Ok((InstructionPair::new(Instruction::LDA, AddressingMode::ZeroPage(b1)), pos + 2))
        },
        0xA6 => {
            let b1: u8 = byte_at(program, pos + 1)?;
            Ok((InstructionPair::new(Instruction::LDX, AddressingMode::ZeroPage(b1)), pos + 2))
        },
        0xA7 => {
            let b1: u8 = byte_at(program, pos + 1)?;
            Ok((InstructionPair::new(Instruction::LAX, AddressingMode::ZeroPage(b1)), pos + 2))
        },
        0xA8 => Ok((InstructionPair::new(Instruction::TAY, AddressingMode::Implicit), pos + 1)),
        0xA9 => {
            let b1: u8 = byte_at(program, pos + 1)?;
            Ok((InstructionPair::new(Instruction::LDA, AddressingMode::Immediate(b1)), pos + 2))
        },
        0xAA => Ok((InstructionPair::new(Instruction::TAX, AddressingMode::Implicit), pos + 1)),
        0xAB => {
            let b1: u8 = byte_at(program, pos + 1)?;
            Ok((InstructionPair::new(Instruction::LAX, AddressingMode::Immediate(b1)), pos + 2))
        },
        0xAC => {
            let b1: u8 = byte_at(program, pos + 1)?;
            let b2: u8 = byte_at(program, pos + 2)?;
            Ok((InstructionPair::new(Instruction::LDY, AddressingMode::Absolute(word(b1, b2))), pos + 3))
        },
        0xAD => {
            let b1: u8 = byte_at(program, pos + 1)?;
            let b2: u8 = byte_at(program, pos + 2)?;
            Ok((InstructionPair::new(Instruction::LDA, AddressingMode::Absolute(word(b1, b2))), pos + 3))
        },
        0xAE => {
            let b1: u8 = byte_at(program, pos + 1)?;
            let b2: u8 = byte_at(program, pos + 2)?;
            Ok((InstructionPair::new(Instruction::LDX, AddressingMode::Absolute(word(b1, b2))), pos + 3))
        },
        0xAF => {
            let b1: u8 = byte_at(program, pos + 1)?;
            let b2: u8 = byte_at(program, pos + 2)?;
            Ok((InstructionPair::new(Instruction::LAX, AddressingMode::Absolute(word(b1, b2))), pos + 3))
        },
        0xB0 => {
            let b1: u8 = byte_at(program, pos + 1)?;
            Ok((InstructionPair::new(Instruction::BCS, AddressingMode::Relative(to_signed8(b1))), pos + 2))
        },
        0xB1 => {
            let b1: u8 = byte_at(program, pos + 1)?;
            Ok((InstructionPair::new(Instruction::LDA, AddressingMode::IndirectIndexed(b1)), pos + 2))
        },
        0xB2 => Ok((InstructionPair::new(Instruction::NOP, AddressingMode::Implicit), pos + 1)),
        0xB3 => {
            let b1: u8 = byte_at(program, pos + 1)?;
            Ok((InstructionPair::new(Instruction::LAX, AddressingMode::IndirectIndexed(b1)), pos + 2))
        },
        0xB4 => {
            let b1: u8 = byte_at(program, pos + 1)?;
            Ok((InstructionPair::new(Instruction::LDY, AddressingMode::ZeroPageIndexedX(b1)), pos + 2))
        },
        0xB5 => {
            let b1: u8 = byte_at(program, pos + 1)?;
            Ok((InstructionPair::new(Instruction::LDA, AddressingMode::ZeroPageIndexedX(b1)), pos + 2))
        },
        0xB6 => {
            let b1: u8 = byte_at(program, pos + 1)?;
            Ok((InstructionPair::new(Instruction::LDX, AddressingMode::ZeroPageIndexedY(b1)), pos + 2))
        },
        0xB7 => {
            let b1: u8 = byte_at(program, pos + 1)?;
            Ok((InstructionPair::new(Instruction::LAX, AddressingMode::ZeroPageIndexedY(b1)), pos + 2))
        },
        0xB8 => Ok((InstructionPair::new(Instruction::CLV, AddressingMode::Implicit), pos + 1)),
        0xB9 => {
            let b1: u8 = byte_at(program, pos + 1)?;
            let b2: u8 = byte_at(program, pos + 2)?;
            Ok((InstructionPair::new(Instruction::LDA, AddressingMode::AbsoluteIndexedY(word(b1, b2))), pos + 3))
        },
        0xBA => Ok((InstructionPair::new(Instruction::TSX, AddressingMode::Implicit), pos + 1)),
        0xBB => {
            let b1: u8 = byte_at(program, pos + 1)?;
            let b2: u8 = byte_at(program, pos + 2)?;
            Ok((InstructionPair::new(Instruction::LAS, AddressingMode::AbsoluteIndexedY(word(b1, b2))), pos + 3))
        },
        0xBC => {
            let b1: u8 = byte_at(program, pos + 1)?;
            let b2: u8 = byte_at(program, pos + 2)?;
            Ok((InstructionPair::new(Instruction::LDY, AddressingMode::AbsoluteIndexedX(word(b1, b2))), pos + 3))
        },
        0xBD => {
            let b1: u8 = byte_at(program, pos + 1)?;
            let b2: u8 = byte_at(program, pos + 2)?;
            Ok((InstructionPair::new(Instruction::LDA, AddressingMode::AbsoluteIndexedX(word(b1, b2))), pos + 3))
        },
        0xBE => {
            let b1: u8 = byte_at(program, pos + 1)?;
            let b2: u8 = byte_at(program, pos + 2)?;
            Ok((InstructionPair::new(Instruction::LDX, AddressingMode::AbsoluteIndexedY(word(b1, b2))), pos + 3))
        },
        0xBF => {
            let b1: u8 = byte_at(program, pos + 1)?;
            let b2: u8 = byte_at(program, pos + 2)?;
            Ok((InstructionPair::new(Instruction::LAX, AddressingMode::AbsoluteIndexedY(word(b1, b2))), pos + 3))
        },
        _ => {
            proof {
                assert(false);
            }
            Err(Fault::MalformedStream)
        },
    }
}

/// Decodes the opcodes 0xC0 through 0xDF.
#[verifier::spinoff_prover]
#[verifier::rlimit(100)]
fn decode_block_6(program: &Vec<u8>, pos: usize, op: u8) -> (r: Result<
    (InstructionPair, usize),
    Fault,
>)
    requires
        pos < program@.len(),
        program@.len() <= usize::MAX,
        program@[pos as int] == op,
        0xC0 <= op < 0xE0,
    ensures
        (match r {
            Ok(p) => {
                &&& pos + opcode_len(program@[pos as int]) <= program@.len()
                &&& p.1 == pos + opcode_len(program@[pos as int])
                &&& p.0 == spec_decode(
                    program@[pos as int],
                    byte_or_zero(program@, pos + 1),
                    byte_or_zero(program@, pos + 2),
                )
            },
            Err(e) => {
                &&& e == Fault::MalformedStream
                &&& pos + opcode_len(program@[pos as int]) > program@.len()
            },
        }),
{
    match op {
        0xC0 => {
            let b1: u8 = byte_at(program, pos + 1)?;
            Ok((InstructionPair::new(Instruction::CPY, AddressingMode::Immediate(b1)), pos + 2))
        },
        0xC1 => {
            let b1: u8 = byte_at(program, pos + 1)?;
            Ok((InstructionPair::new(Instruction::CMP, AddressingMode::IndexedIndirect(b1)), pos + 2))
        },
        0xC2 => {
            let b1: u8 = byte_at(program, pos + 1)?;
            Ok((InstructionPair::new(Instruction::NOP, AddressingMode::Immediate(b1)), pos + 2))
        },
        0xC3 => {
            let b1: u8 = byte_at(program, pos + 1)?;
            Ok((InstructionPair::new(Instruction::DCP, AddressingMode::IndexedIndirect(b1)), pos + 2))
        },
        0xC4 => {
            let b1: u8 = byte_at(program, pos + 1)?;
            Ok((InstructionPair::new(Instruction::CPY, AddressingMode::ZeroPage(b1)), pos + 2))
        },
        0xC5 => {
            let b1: u8 = byte_at(program, pos + 1)?;
            Ok((InstructionPair::new(Instruction::CMP, AddressingMode::ZeroPage(b1)), pos + 2))
        },
        0xC6 => {
            let b1: u8 = byte_at(program, pos + 1)?;
            Ok((InstructionPair::new(Instruction::DEC, AddressingMode::ZeroPage(b1)), pos + 2))
        },
        0xC7 => {
            let b1: u8 = byte_at(program, pos + 1)?;
            Ok((InstructionPair::new(Instruction::DCP, AddressingMode::ZeroPage(b1)), pos + 2))
        },
        0xC8 => Ok((InstructionPair::new(Instruction::INY, AddressingMode::Implicit), pos + 1)),
        0xC9 => {
            let b1: u8 = byte_at(program, pos + 1)?;
            Ok((InstructionPair::new(Instruction::CMP, AddressingMode::Immediate(b1)), pos + 2))
        },
        0xCA => Ok((InstructionPair::new(Instruction::DEX, AddressingMode::Implicit), pos + 1)),
        0xCB => {
            let b1: u8 = byte_at(program, pos + 1)?;
            Ok((InstructionPair::new(Instruction::AXS, AddressingMode::Immediate(b1)), pos + 2))
        },
        0xCC => {
            let b1: u8 = byte_at(program, pos + 1)?;
            let b2: u8 = byte_at(program, pos + 2)?;
            Ok((InstructionPair::new(Instruction::CPY, AddressingMode::Absolute(word(b1, b2))), pos + 3))
        },
        0xCD => {
            let b1: u8 = byte_at(program, pos + 1)?;
            let b2: u8 = byte_at(program, pos + 2)?;
            Ok((InstructionPair::new(Instruction::CMP, AddressingMode::Absolute(word(b1, b2))), pos + 3))
        },
        0xCE => {
            let b1: u8 = byte_at(program, pos + 1)?;
            let b2: u8 = byte_at(program, pos + 2)?;
            Ok((InstructionPair::new(Instruction::DEC, AddressingMode::Absolute(word(b1, b2))), pos + 3))
        },
        0xCF => {
            let b1: u8 = byte_at(program, pos + 1)?;
            let b2: u8 = byte_at(program, pos + 2)?;
            Ok((InstructionPair::new(Instruction::DCP, AddressingMode::Absolute(word(b1, b2))), pos + 3))
        },
        0xD0 => {
            let b1: u8 = byte_at(program, pos + 1)?;
            Ok((InstructionPair::new(Instruction::BNE, AddressingMode::Relative(to_signed8(b1))), pos + 2))
        },
        0xD1 => {
            let b1: u8 = byte_at(program, pos + 1)?;
            Ok((InstructionPair::new(Instruction::CMP, AddressingMode::IndirectIndexed(b1)), pos + 2))
        },
        0xD2 => Ok((InstructionPair::new(Instruction::NOP, AddressingMode::Implicit), pos + 1)),
        0xD3 => {
            let b1: u8 = byte_at(program, pos + 1)?;
            Ok((InstructionPair::new(Instruction::DCP, AddressingMode::IndirectIndexed(b1)), pos + 2))
        },
        0xD4 => {
            let b1: u8 = byte_at(program, pos + 1)?;
            Ok((InstructionPair::new(Instruction::NOP, AddressingMode::ZeroPageIndexedX(b1)), pos + 2))
        },
        0xD5 => {
            let b1: u8 = byte_at(program, pos + 1)?;
            Ok((InstructionPair::new(Instruction::CMP, AddressingMode::ZeroPageIndexedX(b1)), pos + 2))
        },
        0xD6 => {
            let b1: u8 = byte_at(program, pos + 1)?;
            Ok((InstructionPair::new(Instruction::DEC, AddressingMode::ZeroPageIndexedX(b1)), pos + 2))
        },
        0xD7 => {
            let b1: u8 = byte_at(program, pos + 1)?;
            Ok((InstructionPair::new(Instruction::DCP, AddressingMode::ZeroPageIndexedX(b1)), pos + 2))
        },
        0xD8 => Ok((InstructionPair::new(Instruction::CLD, AddressingMode::Implicit), pos + 1)),
        0xD9 => {
            let b1: u8 = byte_at(program, pos + 1)?;
            let b2: u8 = byte_at(program, pos + 2)?;
            Ok((InstructionPair::new(Instruction::CMP, AddressingMode::AbsoluteIndexedY(word(b1, b2))), pos + 3))
        },
        0xDA => Ok((InstructionPair::new(Instruction::NOP, AddressingMode::Implicit), pos + 1)),
        0xDB => {
            let b1: u8 = byte_at(program, pos + 1)?;
            let b2: u8 = byte_at(program, pos + 2)?;
            Ok((InstructionPair::new(Instruction::DCP, AddressingMode::AbsoluteIndexedY(word(b1, b2))), pos + 3))
        },
        0xDC => {
            let b1: u8 = byte_at(program, pos + 1)?;
            let b2: u8 = byte_at(program, pos + 2)?;
            Ok((InstructionPair::new(Instruction::NOP, AddressingMode::AbsoluteIndexedX(word(b1, b2))), pos + 3))
        },
        0xDD => {
            let b1: u8 = byte_at(program, pos + 1)?;
            let b2: u8 = byte_at(program, pos + 2)?;
            Ok((InstructionPair::new(Instruction::CMP, AddressingMode::AbsoluteIndexedX(word(b1, b2))), pos + 3))
        },
        0xDE => {
            let b1: u8 = byte_at(program, pos + 1)?;
            let b2: u8 = byte_at(program, pos + 2)?;
            Ok((InstructionPair::new(Instruction::DEC, AddressingMode::AbsoluteIndexedX(word(b1, b2))), pos + 3))
        },
        0xDF => {
            let b1: u8 = byte_at(program, pos + 1)?;
            let b2: u8 = byte_at(program, pos + 2)?;
            Ok((InstructionPair::new(Instruction::DCP, AddressingMode::AbsoluteIndexedX(word(b1, b2))), pos + 3))
        },
        _ => {
            proof {
                assert(false);
            }
            Err(Fault::MalformedStream)
        },
    }
}

/// Decodes the opcodes 0xE0 through 0xFF.
#[verifier::spinoff_prover]
#[verifier::rlimit(100)]
fn decode_block_7(program: &Vec<u8>, pos: usize, op: u8) -> (r: Result<
    (InstructionPair, usize),
    Fault,
>)
    requires
        pos < program@.len(),
        program@.len() <= usize::MAX,
        program@[pos as int] == op,
        0xE0 <= op < 0x100,
    ensures
        (match r {
            Ok(p) => {
                &&& pos + opcode_len(program@[pos as int]) <= program@.len()
                &&& p.1 == pos + opcode_len(program@[pos as int])
                &&& p.0 == spec_decode(
                    program@[pos as int],
                    byte_or_zero(program@, pos + 1),
                    byte_or_zero(program@, pos + 2),
                )
            },
            Err(e) => {
                &&& e == Fault::MalformedStream
                &&& pos + opcode_len(program@[pos as int]) > program@.len()
            },
        }),
{
    match op {
        0xE0 => {
            let b1: u8 = byte_at(program, pos + 1)?;
            Ok((InstructionPair::new(Instruction::CPX, AddressingMode::Immediate(b1)), pos + 2))
        },
        0xE1 => {
            let b1: u8 = byte_at(program, pos + 1)?;
            Ok((InstructionPair::new(Instruction::SBC, AddressingMode::IndexedIndirect(b1)), pos + 2))
        },
        0xE2 => {
            let b1: u8 = byte_at(program, pos + 1)?;
            Ok((InstructionPair::new(Instruction::NOP, AddressingMode::Immediate(b1)), pos + 2))
        },
        0xE3 => {
            let b1: u8 = byte_at(program, pos + 1)?;
            Ok((InstructionPair::new(Instruction::ISC, AddressingMode::IndexedIndirect(b1)), pos + 2))
        },
        0xE4 => {
            let b1: u8 = byte_at(program, pos + 1)?;
            Ok((InstructionPair::new(Instruction::CPX, AddressingMode::ZeroPage(b1)), pos + 2))
        },
        0xE5 => {
            let b1: u8 = byte_at(program, pos + 1)?;
            Ok((InstructionPair::new(Instruction::SBC, AddressingMode::ZeroPage(b1)), pos + 2))
        },
        0xE6 => {
            let b1: u8 = byte_at(program, pos + 1)?;
            Ok((InstructionPair::new(Instruction::INC, AddressingMode::ZeroPage(b1)), pos + 2))
        },
        0xE7 => {
            let b1: u8 = byte_at(program, pos + 1)?;
            Ok((InstructionPair::new(Instruction::ISC, AddressingMode::ZeroPage(b1)), pos + 2))
        },
        0xE8 => Ok((InstructionPair::new(Instruction::INX, AddressingMode::Implicit), pos + 1)),
        0xE9 => {
            let b1: u8 = byte_at(program, pos + 1)?;
            Ok((InstructionPair::new(Instruction::SBC, AddressingMode::Immediate(b1)), pos + 2))
        },
        0xEA => Ok((InstructionPair::new(Instruction::NOP, AddressingMode::Implicit), pos + 1)),
        0xEB => {
            let b1: u8 = byte_at(program, pos + 1)?;
            Ok((InstructionPair::new(Instruction::SBC, AddressingMode::Immediate(b1)), pos + 2))
        },
        0xEC => {
            let b1: u8 = byte_at(program, pos + 1)?;
            let b2: u8 = byte_at(program, pos + 2)?;
            Ok((InstructionPair::new(Instruction::CPX, AddressingMode::Absolute(word(b1, b2))), pos + 3))
        },
        0xED => {
            let b1: u8 = byte_at(program, pos + 1)?;
            let b2: u8 = byte_at(program, pos + 2)?;
            Ok((InstructionPair::new(Instruction::SBC, AddressingMode::Absolute(word(b1, b2))), pos + 3))
        },
        0xEE => {
            let b1: u8 = byte_at(program, pos + 1)?;
            let b2: u8 = byte_at(program, pos + 2)?;
            Ok((InstructionPair::new(Instruction::INC, AddressingMode::Absolute(word(b1, b2))), pos + 3))
        },
        0xEF => {
            let b1: u8 = byte_at(program, pos + 1)?;
            let b2: u8 = byte_at(program, pos + 2)?;
            Ok((InstructionPair::new(Instruction::ISC, AddressingMode::Absolute(word(b1, b2))), pos + 3))
        },
        0xF0 => {
            let b1: u8 = byte_at(program, pos + 1)?;
            Ok((InstructionPair::new(Instruction::BEQ, AddressingMode::Relative(to_signed8(b1))), pos + 2))
        },
        0xF1 => {
            let b1: u8 = byte_at(program, pos + 1)?;
            Ok((InstructionPair::new(Instruction::SBC, AddressingMode::IndirectIndexed(b1)), pos + 2))
        },
        0xF2 => Ok((InstructionPair::new(Instruction::NOP, AddressingMode::Implicit), pos + 1)),
        0xF3 => {
            let b1: u8 = byte_at(program, pos + 1)?;
            Ok((InstructionPair::new(Instruction::ISC, AddressingMode::IndirectIndexed(b1)), pos + 2))
        },
        0xF4 => {
            let b1: u8 = byte_at(program, pos + 1)?;
            Ok((InstructionPair::new(Instruction::NOP, AddressingMode::ZeroPageIndexedX(b1)), pos + 2))
        },
        0xF5 => {
            let b1: u8 = byte_at(program, pos + 1)?;
            Ok((InstructionPair::new(Instruction::SBC, AddressingMode::ZeroPageIndexedX(b1)), pos + 2))
        },
        0xF6 => {
            let b1: u8 = byte_at(program, pos + 1)?;
            Ok((InstructionPair::new(Instruction::INC, AddressingMode::ZeroPageIndexedX(b1)), pos + 2))
        },
        0xF7 => {
            let b1: u8 = byte_at(program, pos + 1)?;
            Ok((InstructionPair::new(Instruction::ISC, AddressingMode::ZeroPageIndexedX(b1)), pos + 2))
        },
        0xF8 => Ok((InstructionPair::new(Instruction::SED, AddressingMode::Implicit), pos + 1)),
        0xF9 => {
            let b1: u8 = byte_at(program, pos + 1)?;
            let b2: u8 = byte_at(program, pos + 2)?;
            Ok((InstructionPair::new(Instruction::SBC, AddressingMode::AbsoluteIndexedY(word(b1, b2))), pos + 3))
        },
        0xFA => Ok((InstructionPair::new(Instruction::NOP, AddressingMode::Implicit), pos + 1)),
        0xFB => {
            let b1: u8 = byte_at(program, pos + 1)?;
            let b2: u8 = byte_at(program, pos + 2)?;
            Ok((InstructionPair::new(Instruction::ISC, AddressingMode::AbsoluteIndexedY(word(b1, b2))), pos + 3))
        },
        0xFC => {
            let b1: u8 = byte_at(program, pos + 1)?;
            let b2: u8 = byte_at(program, pos + 2)?;
            Ok((InstructionPair::new(Instruction::NOP, AddressingMode::AbsoluteIndexedX(word(b1, b2))), pos + 3))
        },
        0xFD => {
            let b1: u8 = byte_at(program, pos + 1)?;
            let b2: u8 = byte_at(program, pos + 2)?;
            Ok((InstructionPair::new(Instruction::SBC, AddressingMode::AbsoluteIndexedX(word(b1, b2))), pos + 3))
        },
        0xFE => {
            let b1: u8 = byte_at(program, pos + 1)?;
            let b2: u8 = byte_at(program, pos + 2)?;
            Ok((InstructionPair::new(Instruction::INC, AddressingMode::AbsoluteIndexedX(word(b1, b2))), pos + 3))
        },
        0xFF => {
            let b1: u8 = byte_at(program, pos + 1)?;
            let b2: u8 = byte_at(program, pos + 2)?;
            Ok((InstructionPair::new(Instruction::ISC, AddressingMode::AbsoluteIndexedX(word(b1, b2))), pos + 3))
        },
        _ => {
            proof {
                assert(false);
            }
            Err(Fault::MalformedStream)
        },
    }
}

/// Decodes one instruction at `pos` in the program stream, returning the
/// unit and the position just past it.  Succeeds exactly when the stream
/// holds the opcode and all of its operand bytes; a truncated instruction
/// is a malformed stream.
pub fn decode_instr(program: &Vec<u8>, pos: usize) -> (r: Result<(InstructionPair, usize), Fault>)
    ensures
        (match r {
            Ok(p) => {
                &&& pos < program@.len()
                &&& pos + opcode_len(program@[pos as int]) <= program@.len()
                &&& p.1 == pos + opcode_len(program@[pos as int])
                &&& p.0 == spec_decode(
                    program@[pos as int],
                    byte_or_zero(program@, pos + 1),
                    byte_or_zero(program@, pos + 2),
                )
            },
            Err(e) => {
                &&& e == Fault::MalformedStream
                &&& (pos >= program@.len() || pos + opcode_len(program@[pos as int])
                    > program@.len())
            },
        }),
{
    let op: u8 = byte_at(program, pos)?;
    if op < 0x20 {
        decode_block_0(program, pos, op)
    } else if op < 0x40 {
        decode_block_1(program, pos, op)
    } else if op < 0x60 {
        decode_block_2(program, pos, op)
    } else if op < 0x80 {
        decode_block_3(program, pos, op)
    } else if op < 0xA0 {
        decode_block_4(program, pos, op)
    } else if op < 0xC0 {
        decode_block_5(program, pos, op)
    } else if op < 0xE0 {
        decode_block_6(program, pos, op)
    } else {
        decode_block_7(program, pos, op)
    }
}

} // verus!

//! The structured instruction set: mnemonics and addressing modes.

use vstd::prelude::*;

verus! {

/// The operand-location scheme of an instruction, carrying the operand
/// bytes already fetched from the byte stream.  Instructions acting on the
/// accumulator are treated as addressed implicitly.
#[derive(Clone, Copy, Debug, PartialEq, Eq, Structural)]
pub enum AddressingMode {
    /// No operand.
    Implicit,
    /// A literal byte.
    Immediate(u8),
    /// A one-byte address into the zero page.
    ZeroPage(u8),
    /// A full 16-bit address.
    Absolute(u16),
    /// A signed branch offset.
    Relative(i8),
    /// A 16-bit address holding the real jump target.
    Indirect(u16),
    /// Zero-page base, pre-indexed by X and wrapped to the zero page.
    ZeroPageIndexedX(u8),
    /// Zero-page base, pre-indexed by Y and wrapped to the zero page.
    ZeroPageIndexedY(u8),
    /// Absolute base, indexed by X in 16-bit arithmetic.
    AbsoluteIndexedX(u16),
    /// Absolute base, indexed by Y in 16-bit arithmetic.
    AbsoluteIndexedY(u16),
    /// A zero-page pointer at base + X (wrapped), then dereferenced.
    IndexedIndirect(u8),
    /// A zero-page pointer at base, dereferenced, then indexed by Y.
    IndirectIndexed(u8),
}

/// How many operand bytes the addressing mode consumes from the stream.
pub open spec fn operand_bytes(mode: AddressingMode) -> int {
    match mode {
        AddressingMode::Implicit => 0,
        AddressingMode::Immediate(_) => 1,
        AddressingMode::ZeroPage(_) => 1,
        AddressingMode::Absolute(_) => 2,
        AddressingMode::Relative(_) => 1,
        AddressingMode::Indirect(_) => 2,
        AddressingMode::ZeroPageIndexedX(_) => 1,
        AddressingMode::ZeroPageIndexedY(_) => 1,
        AddressingMode::AbsoluteIndexedX(_) => 2,
        AddressingMode::AbsoluteIndexedY(_) => 2,
        AddressingMode::IndexedIndirect(_) => 1,
        AddressingMode::IndirectIndexed(_) => 1,
    }
}

/// The encoded length of an instruction: the opcode byte plus its operand.
pub open spec fn instr_len(mode: AddressingMode) -> u16 {
    (1 + operand_bytes(mode)) as u16
}

/// The instruction mnemonics: the legal 6502 set followed by the documented
/// unofficial opcodes.
#[derive(Clone, Copy, Debug, PartialEq, Eq, Structural)]
pub enum Instruction {
    /// Load accumulator.
    LDA,
    /// Load X register.
    LDX,
    /// Load Y register.
    LDY,
    /// Store accumulator.
    STA,
    /// Store X register.
    STX,
    /// Store Y register.
    STY,
    /// Transfer accumulator to X.
    TAX,
    /// Transfer accumulator to Y.
    TAY,
    /// Transfer X to accumulator.
    TXA,
    /// Transfer Y to accumulator.
    TYA,
    /// Transfer stack pointer to X.
    TSX,
    /// Transfer X to stack pointer.
    TXS,
    /// Push accumulator on stack.
    PHA,
    /// Push processor status on stack.
    PHP,
    /// Pull accumulator from stack.
    PLA,
    /// Pull processor status from stack.
    PLP,
    /// Logical AND.
    AND,
    /// Exclusive OR.
    EOR,
    /// Logical inclusive OR.
    ORA,
    /// Bit test.
    BIT,
    /// Add with carry.
    ADC,
    /// Subtract with carry.
    SBC,
    /// Compare accumulator.
    CMP,
    /// Compare X register.
    CPX,
    /// Compare Y register.
    CPY,
    /// Increment a memory location.
    INC,
    /// Increment the X register.
    INX,
    /// Increment the Y register.
    INY,
    /// Decrement a memory location.
    DEC,
    /// Decrement the X register.
    DEX,
    /// Decrement the Y register.
    DEY,
    /// Arithmetic shift left.
    ASL,
    /// Logical shift right.
    LSR,
    /// Rotate left.
    ROL,
    /// Rotate right.
    ROR,
    /// Jump to another location.
    JMP,
    /// Jump to a subroutine.
    JSR,
    /// Return from subroutine.
    RTS,
    /// Branch if carry flag clear.
    BCC,
    /// Branch if carry flag set.
    BCS,
    /// Branch if zero flag set.
    BEQ,
    /// Branch if negative flag set.
    BMI,
    /// Branch if zero flag clear.
    BNE,
    /// Branch if negative flag clear.
    BPL,
    /// Branch if overflow flag clear.
    BVC,
    /// Branch if overflow flag set.
    BVS,
    /// Clear carry flag.
    CLC,
    /// Clear decimal mode flag.
    CLD,
    /// Clear interrupt disable flag.
    CLI,
    /// Clear overflow flag.
    CLV,
    /// Set carry flag.
    SEC,
    /// Set decimal mode flag.
    SED,
    /// Set interrupt disable flag.
    SEI,
    /// Force an interrupt.
    BRK,
    /// No operation.
    NOP,
    /// Return from interrupt.
    RTI,
    /// Unofficial: store Y AND the high address byte plus one.
    SHY,
    /// Unofficial: AND immediate fused with a logical shift right.
    ALR,
    /// Unofficial: AND immediate copying the sign into carry.
    ANC,
    /// Unofficial: AND immediate fused with a rotate right.
    ARR,
    /// Unofficial: X takes (accumulator AND X) minus the operand.
    AXS,
    /// Unofficial: load accumulator and X together.
    LAX,
    /// Unofficial: store accumulator AND X.
    SAX,
    /// Unofficial: decrement memory fused with a compare.
    DCP,
    /// Unofficial: increment memory fused with a subtract.
    ISC,
    /// Unofficial: rotate left fused with AND.
    RLA,
    /// Unofficial: rotate right fused with an add.
    RRA,
    /// Unofficial: shift left fused with OR.
    SLO,
    /// Unofficial: shift right fused with exclusive OR.
    SRE,
    /// Unofficial: store X AND the high address byte plus one.
    SHX,
    /// Unofficial, unstable: accumulator from X AND immediate.
    XAA,
    /// Unofficial, unstable: store accumulator AND X AND an address byte.
    AHX,
    /// Unofficial, unstable: stack pointer from accumulator AND X.
    TAS,
    /// Unofficial, unstable: load from memory AND the stack pointer.
    LAS,
}

} // verus!

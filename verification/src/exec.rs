//! The executor: one call performs one instruction's entire register,
//! memory and flag effect atomically and charges its full cycle cost.
//!
//! `spec_step` is the functional model of that operation; `exec` is proved
//! against it.  On a fault nothing is mutated: the processor state after a
//! failing call equals the state before it.

use vstd::prelude::*;
use crate::cpu::{StatusFlags, CPU};
use crate::instructions::{instr_len, AddressingMode, Instruction};
use crate::memory::{in_ram, ram_read};
use crate::model::{
    abs_indexed_addr, add_cycles, asl_result, bit0, bit7, indirect_target, lsr_result, page_of,
    rol_result, ror_result, spec_alr, spec_anc, spec_axs, spec_bit_test, spec_branch,
    spec_incr_pc, spec_jmp, spec_jsr, spec_lax, spec_lda, spec_ldx, spec_ldy,
    spec_rts, spec_sax, spec_set_flags, spec_shift_acc, spec_shift_mem, spec_sta, spec_stx,
    spec_sty, spec_tax, spec_tay, spec_tsx, spec_txa, spec_txs, spec_tya, wrap16, wrap8,
    zp_index, zp_ptr, CpuModel,
};
use crate::model::{
    spec_adc, spec_and, spec_cmp, spec_cpx, spec_cpy, spec_dcp, spec_dec, spec_dex, spec_dey,
    spec_eor, spec_inc, spec_inx, spec_iny, spec_isc, spec_ora, spec_pha, spec_php, spec_pla,
    spec_plp, spec_rla, spec_rra, spec_sbc, spec_slo, spec_sre,
};
use crate::utils::{word, wrapping_add16, wrapping_add8};
use crate::Fault;

verus! {

/// The instruction unit: the pairing of a mnemonic and its addressing mode,
/// produced once by the decoder and never mutated.
#[derive(Clone, Copy, Debug, PartialEq, Eq, Structural)]
pub struct InstructionPair {
    pub instruction: Instruction,
    pub addr_mode: AddressingMode,
}

// ---------------------------------------------------------------------------
// Operand resolution: the address resolver as specification and as code
// ---------------------------------------------------------------------------

/// The operand value and cycle cost of a read-class instruction for each
/// operand-bearing addressing mode: immediate 2; zero page 3; indexed zero
/// page 4; absolute 4, plus one when indexing crosses a page; indexed
/// indirect 6; indirect indexed 5, plus one when adding Y crosses a page.
/// A read outside the implemented bus region is a memory fault; a mode that
/// carries no readable operand marks the pairing unsupported.
pub open spec fn spec_read(m: CpuModel, mode: AddressingMode) -> Result<(u8, usize), Fault> {
    match mode {
        AddressingMode::Immediate(v) => Ok((v, 2)),
        AddressingMode::ZeroPage(d) => Ok((ram_read(m.mem, d as u16), 3)),
        AddressingMode::ZeroPageIndexedX(d) => Ok(
            (ram_read(m.mem, zp_index(d, m.regs.index_x)), 4),
        ),
        AddressingMode::ZeroPageIndexedY(d) => Ok(
            (ram_read(m.mem, zp_index(d, m.regs.index_y)), 4),
        ),
        AddressingMode::Absolute(a) => if in_ram(a) {
            Ok((ram_read(m.mem, a), 4))
        } else {
            Err(Fault::MemoryFault)
        },
        AddressingMode::AbsoluteIndexedX(a) => {
            let e = abs_indexed_addr(a, m.regs.index_x);
            if in_ram(e) {
                Ok((ram_read(m.mem, e), if page_of(e) != page_of(a) { 5 } else { 4 }))
            } else {
                Err(Fault::MemoryFault)
            }
        },
        AddressingMode::AbsoluteIndexedY(a) => {
            let e = abs_indexed_addr(a, m.regs.index_y);
            if in_ram(e) {
                Ok((ram_read(m.mem, e), if page_of(e) != page_of(a) { 5 } else { 4 }))
            } else {
                Err(Fault::MemoryFault)
            }
        },
        AddressingMode::IndexedIndirect(d) => {
            let e = zp_ptr(m.mem, wrap8(d + m.regs.index_x));
            if in_ram(e) {
                Ok((ram_read(m.mem, e), 6))
            } else {
                Err(Fault::MemoryFault)
            }
        },
        AddressingMode::IndirectIndexed(d) => {
            let b = zp_ptr(m.mem, d);
            let e = wrap16(b + m.regs.index_y);
            if in_ram(e) {
                Ok((ram_read(m.mem, e), if page_of(e) != page_of(b) { 6 } else { 5 }))
            } else {
                Err(Fault::MemoryFault)
            }
        },
        _ => Err(Fault::UnsupportedOpcode),
    }
}

/// The effective address and cycle cost of a store-class instruction.
/// Stores always charge their fixed worst-case cost: indexing never adds a
/// page-cross penalty here, unlike the read table.
pub open spec fn spec_store_addr(m: CpuModel, mode: AddressingMode) -> Result<
    (u16, usize),
    Fault,
> {
    match mode {
        AddressingMode::ZeroPage(d) => Ok((d as u16, 3)),
        AddressingMode::ZeroPageIndexedX(d) => Ok((zp_index(d, m.regs.index_x), 4)),
        AddressingMode::ZeroPageIndexedY(d) => Ok((zp_index(d, m.regs.index_y), 4)),
        AddressingMode::Absolute(a) => if in_ram(a) {
            Ok((a, 4))
        } else {
            Err(Fault::MemoryFault)
        },
        AddressingMode::AbsoluteIndexedX(a) => {
            let e = abs_indexed_addr(a, m.regs.index_x);
            if in_ram(e) {
                Ok((e, 5))
            } else {
                Err(Fault::MemoryFault)
            }
        },
        AddressingMode::AbsoluteIndexedY(a) => {
            let e = abs_indexed_addr(a, m.regs.index_y);
            if in_ram(e) {
                Ok((e, 5))
            } else {
                Err(Fault::MemoryFault)
            }
        },
        AddressingMode::IndexedIndirect(d) => {
            let e = zp_ptr(m.mem, wrap8(d + m.regs.index_x));
            if in_ram(e) {
                Ok((e, 6))
            } else {
                Err(Fault::MemoryFault)
            }
        },
        AddressingMode::IndirectIndexed(d) => {
            let e = wrap16(zp_ptr(m.mem, d) + m.regs.index_y);
            if in_ram(e) {
                Ok((e, 6))
            } else {
                Err(Fault::MemoryFault)
            }
        },
        _ => Err(Fault::UnsupportedOpcode),
    }
}

/// The effective address and cycle cost of a read-modify-write instruction.
/// These charge fixed costs: zero page 5, indexed zero page 6, absolute 6,
/// absolute indexed 7, and the fused indirect forms 8.
pub open spec fn spec_rmw_addr(m: CpuModel, mode: AddressingMode) -> Result<
    (u16, usize),
    Fault,
> {
    match mode {
        AddressingMode::ZeroPage(d) => Ok((d as u16, 5)),
        AddressingMode::ZeroPageIndexedX(d) => Ok((zp_index(d, m.regs.index_x), 6)),
        AddressingMode::Absolute(a) => if in_ram(a) {
            Ok((a, 6))
        } else {
            Err(Fault::MemoryFault)
        },
        AddressingMode::AbsoluteIndexedX(a) => {
            let e = abs_indexed_addr(a, m.regs.index_x);
            if in_ram(e) {
                Ok((e, 7))
            } else {
                Err(Fault::MemoryFault)
            }
        },
        AddressingMode::AbsoluteIndexedY(a) => {
            let e = abs_indexed_addr(a, m.regs.index_y);
            if in_ram(e) {
                Ok((e, 7))
            } else {
                Err(Fault::MemoryFault)
            }
        },
        AddressingMode::IndexedIndirect(d) => {
            let e = zp_ptr(m.mem, wrap8(d + m.regs.index_x));
            if in_ram(e) {
                Ok((e, 8))
            } else {
                Err(Fault::MemoryFault)
            }
        },
        AddressingMode::IndirectIndexed(d) => {
            let e = wrap16(zp_ptr(m.mem, d) + m.regs.index_y);
            if in_ram(e) {
                Ok((e, 8))
            } else {
                Err(Fault::MemoryFault)
            }
        },
        _ => Err(Fault::UnsupportedOpcode),
    }
}

/// Absolute indexing with the page-cross cycle rule for 4-cycle reads: the
/// effective address in 16-bit arithmetic, and 5 cycles when the high byte
/// changed, else 4.  Store-class callers use the address and charge their
/// own fixed cost instead.
pub fn absolute_indexed(value: u16, index: u8) -> (r: (u16, usize))
    ensures
        r.0 == abs_indexed_addr(value, index),
        r.1 == (if page_of(abs_indexed_addr(value, index)) != page_of(value) {
            5usize
        } else {
            4usize
        }),
{
    let addr: u16 = wrapping_add16(value, index as u16);
    let cycles: usize = if addr / 0x100 != value / 0x100 {
        5
    } else {
        4
    };
    (addr, cycles)
}

/// Indexed indirect resolution: the zero-page pointer at operand + X
/// (wrapped within the zero page), dereferenced little-endian.
pub fn indexedindirect(cpu: &CPU, value: u8) -> (r: u16)
    ensures
        r == zp_ptr(cpu@.mem, wrap8(value + cpu.registers.index_x)),
{
    let p: u8 = wrapping_add8(value, cpu.registers.index_x);
    let lo: u8 = cpu.memory.read_ram(p as u16);
    let p1: u8 = wrapping_add8(p, 1);
    let hi: u8 = cpu.memory.read_ram(p1 as u16);
    word(lo, hi)
}

/// Indirect indexed resolution: the zero-page pointer at the operand, plus
/// Y in 16-bit arithmetic; 6 cycles when the addition crosses a page, else
/// 5.  The store form ignores the cycles and always charges 6.
pub fn indirectindexed(cpu: &CPU, value: u8) -> (r: (u16, usize))
    ensures
        ({
            let b = zp_ptr(cpu@.mem, value);
            let e = wrap16(b + cpu.registers.index_y);
            r.0 == e && r.1 == (if page_of(e) != page_of(b) {
                6usize
            } else {
                5usize
            })
        }),
{
    let lo: u8 = cpu.memory.read_ram(value as u16);
    let p1: u8 = wrapping_add8(value, 1);
    let hi: u8 = cpu.memory.read_ram(p1 as u16);
    let base: u16 = word(lo, hi);
    let addr: u16 = wrapping_add16(base, cpu.registers.index_y as u16);
    let cycles: usize = if addr / 0x100 != base / 0x100 {
        6
    } else {
        5
    };
    (addr, cycles)
}

/// Resolves a read-class operand.
fn read_operand(cpu: &CPU, mode: &AddressingMode) -> (r: Result<(u8, usize), Fault>)
    ensures
        r == spec_read(cpu@, *mode),
        r matches Ok(p) ==> 2 <= p.1 <= 6,
{
    match *mode {
        AddressingMode::Immediate(v) => Ok((v, 2)),
        AddressingMode::ZeroPage(d) => Ok((cpu.memory.read_ram(d as u16), 3)),
        AddressingMode::ZeroPageIndexedX(d) => {
            let e: u8 = wrapping_add8(d, cpu.registers.index_x);
            Ok((cpu.memory.read_ram(e as u16), 4))
        },
        AddressingMode::ZeroPageIndexedY(d) => {
            let e: u8 = wrapping_add8(d, cpu.registers.index_y);
            Ok((cpu.memory.read_ram(e as u16), 4))
        },
        AddressingMode::Absolute(a) => {
            if a < 0x2000 {
                Ok((cpu.memory.read_ram(a), 4))
            } else {
                Err(Fault::MemoryFault)
            }
        },
        AddressingMode::AbsoluteIndexedX(a) => {
            let (e, c): (u16, usize) = absolute_indexed(a, cpu.registers.index_x);
            if e < 0x2000 {
                Ok((cpu.memory.read_ram(e), c))
            } else {
                Err(Fault::MemoryFault)
            }
        },
        AddressingMode::AbsoluteIndexedY(a) => {
            let (e, c): (u16, usize) = absolute_indexed(a, cpu.registers.index_y);
            if e < 0x2000 {
                Ok((cpu.memory.read_ram(e), c))
            } else {
                Err(Fault::MemoryFault)
            }
        },
        AddressingMode::IndexedIndirect(d) => {
            let e: u16 = indexedindirect(cpu, d);
            if e < 0x2000 {
                Ok((cpu.memory.read_ram(e), 6))
            } else {
                Err(Fault::MemoryFault)
            }
        },
        AddressingMode::IndirectIndexed(d) => {
            let (e, c): (u16, usize) = indirectindexed(cpu, d);
            if e < 0x2000 {
                Ok((cpu.memory.read_ram(e), c))
            } else {
                Err(Fault::MemoryFault)
            }
        },
        _ => Err(Fault::UnsupportedOpcode),
    }
}

/// Resolves a store-class target address.
fn store_target(cpu: &CPU, mode: &AddressingMode) -> (r: Result<(u16, usize), Fault>)
    ensures
        r == spec_store_addr(cpu@, *mode),
        r matches Ok(p) ==> in_ram(p.0) && 3 <= p.1 <= 6,
{
    match *mode {
        AddressingMode::ZeroPage(d) => Ok((d as u16, 3)),
        AddressingMode::ZeroPageIndexedX(d) => {
            let e: u8 = wrapping_add8(d, cpu.registers.index_x);
            Ok((e as u16, 4))
        },
        AddressingMode::ZeroPageIndexedY(d) => {
            let e: u8 = wrapping_add8(d, cpu.registers.index_y);
            Ok((e as u16, 4))
        },
        AddressingMode::Absolute(a) => {
            if a < 0x2000 {
                Ok((a, 4))
            } else {
                Err(Fault::MemoryFault)
            }
        },
        AddressingMode::AbsoluteIndexedX(a) => {
            let (e, _): (u16, usize) = absolute_indexed(a, cpu.registers.index_x);
            if e < 0x2000 {
                Ok((e, 5))
            } else {
                Err(Fault::MemoryFault)
            }
        },
        AddressingMode::AbsoluteIndexedY(a) => {
            let (e, _): (u16, usize) = absolute_indexed(a, cpu.registers.index_y);
            if e < 0x2000 {
                Ok((e, 5))
            } else {
                Err(Fault::MemoryFault)
            }
        },
        AddressingMode::IndexedIndirect(d) => {
            let e: u16 = indexedindirect(cpu, d);
            if e < 0x2000 {
                Ok((e, 6))
            } else {
                Err(Fault::MemoryFault)
            }
        },
        AddressingMode::IndirectIndexed(d) => {
            let (e, _): (u16, usize) = indirectindexed(cpu, d);
            if e < 0x2000 {
                Ok((e, 6))
            } else {
                Err(Fault::MemoryFault)
            }
        },
        _ => Err(Fault::UnsupportedOpcode),
    }
}

/// Resolves a read-modify-write target address.
fn rmw_target(cpu: &CPU, mode: &AddressingMode) -> (r: Result<(u16, usize), Fault>)
    ensures
        r == spec_rmw_addr(cpu@, *mode),
        r matches Ok(p) ==> in_ram(p.0) && 5 <= p.1 <= 8,
{
    match *mode {
        AddressingMode::ZeroPage(d) => Ok((d as u16, 5)),
        AddressingMode::ZeroPageIndexedX(d) => {
            let e: u8 = wrapping_add8(d, cpu.registers.index_x);
            Ok((e as u16, 6))
        },
        AddressingMode::Absolute(a) => {
            if a < 0x2000 {
                Ok((a, 6))
            } else {
                Err(Fault::MemoryFault)
            }
        },
        AddressingMode::AbsoluteIndexedX(a) => {
            let (e, _): (u16, usize) = absolute_indexed(a, cpu.registers.index_x);
            if e < 0x2000 {
                Ok((e, 7))
            } else {
                Err(Fault::MemoryFault)
            }
        },
        AddressingMode::AbsoluteIndexedY(a) => {
            let (e, _): (u16, usize) = absolute_indexed(a, cpu.registers.index_y);
            if e < 0x2000 {
                Ok((e, 7))
            } else {
                Err(Fault::MemoryFault)
            }
        },
        AddressingMode::IndexedIndirect(d) => {
            let e: u16 = indexedindirect(cpu, d);
            if e < 0x2000 {
                Ok((e, 8))
            } else {
                Err(Fault::MemoryFault)
            }
        },
        AddressingMode::IndirectIndexed(d) => {
            let (e, _): (u16, usize) = indirectindexed(cpu, d);
            if e < 0x2000 {
                Ok((e, 8))
            } else {
                Err(Fault::MemoryFault)
            }
        },
        _ => Err(Fault::UnsupportedOpcode),
    }
}

/// The encoded length of the instruction for the program-counter advance.
fn mode_len(mode: &AddressingMode) -> (n: u16)
    ensures
        n == instr_len(*mode),
{
    match *mode {
        AddressingMode::Implicit => 1,
        AddressingMode::Absolute(_) => 3,
        AddressingMode::Indirect(_) => 3,
        AddressingMode::AbsoluteIndexedX(_) => 3,
        AddressingMode::AbsoluteIndexedY(_) => 3,
        _ => 2,
    }
}

// ---------------------------------------------------------------------------
// The step model
// ---------------------------------------------------------------------------

/// One decode-and-executed instruction as a function on the machine model:
/// the program counter first advances past the encoded instruction, the
/// instruction's semantics then apply.  A faulting step leaves no effect.
pub open spec fn spec_step(unit: InstructionPair, m: CpuModel) -> Result<CpuModel, Fault> {
    let n = instr_len(unit.addr_mode);
    match unit.instruction {
        Instruction::LDA => match spec_read(m, unit.addr_mode) {
            Ok(p) => Ok(spec_lda(spec_incr_pc(m, n), p.0, p.1)),
            Err(e) => Err(e),
        },
        Instruction::LDX => match spec_read(m, unit.addr_mode) {
            Ok(p) => Ok(spec_ldx(spec_incr_pc(m, n), p.0, p.1)),
            Err(e) => Err(e),
        },
        Instruction::LDY => match spec_read(m, unit.addr_mode) {
            Ok(p) => Ok(spec_ldy(spec_incr_pc(m, n), p.0, p.1)),
            Err(e) => Err(e),
        },
        Instruction::LAX => match spec_read(m, unit.addr_mode) {
            Ok(p) => Ok(spec_lax(spec_incr_pc(m, n), p.0, p.1)),
            Err(e) => Err(e),
        },
        Instruction::STA => match spec_store_addr(m, unit.addr_mode) {
            Ok(p) => Ok(spec_sta(spec_incr_pc(m, n), p.0, p.1)),
            Err(e) => Err(e),
        },
        Instruction::STX => match spec_store_addr(m, unit.addr_mode) {
            Ok(p) => Ok(spec_stx(spec_incr_pc(m, n), p.0, p.1)),
            Err(e) => Err(e),
        },
        Instruction::STY => match spec_store_addr(m, unit.addr_mode) {
            Ok(p) => Ok(spec_sty(spec_incr_pc(m, n), p.0, p.1)),
            Err(e) => Err(e),
        },
        Instruction::SAX => match spec_store_addr(m, unit.addr_mode) {
            Ok(p) => Ok(spec_sax(spec_incr_pc(m, n), p.0, p.1)),
            Err(e) => Err(e),
        },
        Instruction::TAX => match unit.addr_mode {
            AddressingMode::Implicit => Ok(spec_tax(spec_incr_pc(m, 1))),
            _ => Err(Fault::UnsupportedOpcode),
        },
        Instruction::TAY => match unit.addr_mode {
            AddressingMode::Implicit => Ok(spec_tay(spec_incr_pc(m, 1))),
            _ => Err(Fault::UnsupportedOpcode),
        },
        Instruction::TXA => match unit.addr_mode {
            AddressingMode::Implicit => Ok(spec_txa(spec_incr_pc(m, 1))),
            _ => Err(Fault::UnsupportedOpcode),
        },
        Instruction::TYA => match unit.addr_mode {
            AddressingMode::Implicit => Ok(spec_tya(spec_incr_pc(m, 1))),
            _ => Err(Fault::UnsupportedOpcode),
        },
        Instruction::TSX => match unit.addr_mode {
            AddressingMode::Implicit => Ok(spec_tsx(spec_incr_pc(m, 1))),
            _ => Err(Fault::UnsupportedOpcode),
        },
        Instruction::TXS => match unit.addr_mode {
            AddressingMode::Implicit => Ok(spec_txs(spec_incr_pc(m, 1))),
            _ => Err(Fault::UnsupportedOpcode),
        },
        Instruction::PHA => match unit.addr_mode {
            AddressingMode::Implicit => Ok(spec_pha(spec_incr_pc(m, 1))),
            _ => Err(Fault::UnsupportedOpcode),
        },
        Instruction::PHP => match unit.addr_mode {
            AddressingMode::Implicit => Ok(spec_php(spec_incr_pc(m, 1))),
            _ => Err(Fault::UnsupportedOpcode),
        },
        Instruction::PLA => match unit.addr_mode {
            AddressingMode::Implicit => Ok(spec_pla(spec_incr_pc(m, 1))),
            _ => Err(Fault::UnsupportedOpcode),
        },
        Instruction::PLP => match unit.addr_mode {
            AddressingMode::Implicit => Ok(spec_plp(spec_incr_pc(m, 1))),
            _ => Err(Fault::UnsupportedOpcode),
        },
        Instruction::AND => match spec_read(m, unit.addr_mode) {
            Ok(p) => Ok(spec_and(spec_incr_pc(m, n), p.0, p.1)),
            Err(e) => Err(e),
        },
        Instruction::EOR => match spec_read(m, unit.addr_mode) {
            Ok(p) => Ok(spec_eor(spec_incr_pc(m, n), p.0, p.1)),
            Err(e) => Err(e),
        },
        Instruction::ORA => match spec_read(m, unit.addr_mode) {
            Ok(p) => Ok(spec_ora(spec_incr_pc(m, n), p.0, p.1)),
            Err(e) => Err(e),
        },
        Instruction::BIT => match spec_read(m, unit.addr_mode) {
            Ok(p) => Ok(spec_bit_test(spec_incr_pc(m, n), p.0, p.1)),
            Err(e) => Err(e),
        },
        Instruction::ADC => match spec_read(m, unit.addr_mode) {
            Ok(p) => Ok(spec_adc(spec_incr_pc(m, n), p.0, p.1)),
            Err(e) => Err(e),
        },
        Instruction::SBC => match spec_read(m, unit.addr_mode) {
            Ok(p) => Ok(spec_sbc(spec_incr_pc(m, n), p.0, p.1)),
            Err(e) => Err(e),
        },
        Instruction::CMP => match spec_read(m, unit.addr_mode) {
            Ok(p) => Ok(spec_cmp(spec_incr_pc(m, n), p.0, p.1)),
            Err(e) => Err(e),
        },
        Instruction::CPX => match spec_read(m, unit.addr_mode) {
            Ok(p) => Ok(spec_cpx(spec_incr_pc(m, n), p.0, p.1)),
            Err(e) => Err(e),
        },
        Instruction::CPY => match spec_read(m, unit.addr_mode) {
            Ok(p) => Ok(spec_cpy(spec_incr_pc(m, n), p.0, p.1)),
            Err(e) => Err(e),
        },
        Instruction::INC => match spec_rmw_addr(m, unit.addr_mode) {
            Ok(p) => Ok(spec_inc(spec_incr_pc(m, n), p.0, p.1)),
            Err(e) => Err(e),
        },
        Instruction::DEC => match spec_rmw_addr(m, unit.addr_mode) {
            Ok(p) => Ok(spec_dec(spec_incr_pc(m, n), p.0, p.1)),
            Err(e) => Err(e),
        },
        Instruction::INX => match unit.addr_mode {
            AddressingMode::Implicit => Ok(spec_inx(spec_incr_pc(m, 1))),
            _ => Err(Fault::UnsupportedOpcode),
        },
        Instruction::INY => match unit.addr_mode {
            AddressingMode::Implicit => Ok(spec_iny(spec_incr_pc(m, 1))),
            _ => Err(Fault::UnsupportedOpcode),
        },
        Instruction::DEX => match unit.addr_mode {
            AddressingMode::Implicit => Ok(spec_dex(spec_incr_pc(m, 1))),
            _ => Err(Fault::UnsupportedOpcode),
        },
        Instruction::DEY => match unit.addr_mode {
            AddressingMode::Implicit => Ok(spec_dey(spec_incr_pc(m, 1))),
            _ => Err(Fault::UnsupportedOpcode),
        },
        Instruction::ASL => match unit.addr_mode {
            AddressingMode::Implicit => {
                let m1 = spec_incr_pc(m, 1);
                Ok(
                    spec_shift_acc(
                        m1,
                        asl_result(m1.regs.accumulator),
                        bit7(m1.regs.accumulator),
                        2,
                    ),
                )
            },
            _ => match spec_rmw_addr(m, unit.addr_mode) {
                Ok(p) => Ok(
                    spec_shift_mem(
                        spec_incr_pc(m, n),
                        p.0,
                        asl_result(ram_read(m.mem, p.0)),
                        bit7(ram_read(m.mem, p.0)),
                        p.1,
                    ),
                ),
                Err(e) => Err(e),
            },
        },
        Instruction::LSR => match unit.addr_mode {
            AddressingMode::Implicit => {
                let m1 = spec_incr_pc(m, 1);
                Ok(
                    spec_shift_acc(
                        m1,
                        lsr_result(m1.regs.accumulator),
                        bit0(m1.regs.accumulator),
                        2,
                    ),
                )
            },
            _ => match spec_rmw_addr(m, unit.addr_mode) {
                Ok(p) => Ok(
                    spec_shift_mem(
                        spec_incr_pc(m, n),
                        p.0,
                        lsr_result(ram_read(m.mem, p.0)),
                        bit0(ram_read(m.mem, p.0)),
                        p.1,
                    ),
                ),
                Err(e) => Err(e),
            },
        },
        Instruction::ROL => match unit.addr_mode {
            AddressingMode::Implicit => {
                let m1 = spec_incr_pc(m, 1);
                Ok(
                    spec_shift_acc(
                        m1,
                        rol_result(m1.regs.accumulator, m1.regs.status_register.carry),
                        bit7(m1.regs.accumulator),
                        2,
                    ),
                )
            },
            _ => match spec_rmw_addr(m, unit.addr_mode) {
                Ok(p) => Ok(
                    spec_shift_mem(
                        spec_incr_pc(m, n),
                        p.0,
                        rol_result(ram_read(m.mem, p.0), m.regs.status_register.carry),
                        bit7(ram_read(m.mem, p.0)),
                        p.1,
                    ),
                ),
                Err(e) => Err(e),
            },
        },
        Instruction::ROR => match unit.addr_mode {
            AddressingMode::Implicit => {
                let m1 = spec_incr_pc(m, 1);
                Ok(
                    spec_shift_acc(
                        m1,
                        ror_result(m1.regs.accumulator, m1.regs.status_register.carry),
                        bit0(m1.regs.accumulator),
                        2,
                    ),
                )
            },
            _ => match spec_rmw_addr(m, unit.addr_mode) {
                Ok(p) => Ok(
                    spec_shift_mem(
                        spec_incr_pc(m, n),
                        p.0,
                        ror_result(ram_read(m.mem, p.0), m.regs.status_register.carry),
                        bit0(ram_read(m.mem, p.0)),
                        p.1,
                    ),
                ),
                Err(e) => Err(e),
            },
        },
        Instruction::SLO => match spec_rmw_addr(m, unit.addr_mode) {
            Ok(p) => Ok(spec_slo(spec_incr_pc(m, n), p.0, p.1)),
            Err(e) => Err(e),
        },
        Instruction::RLA => match spec_rmw_addr(m, unit.addr_mode) {
            Ok(p) => Ok(spec_rla(spec_incr_pc(m, n), p.0, p.1)),
            Err(e) => Err(e),
        },
        Instruction::SRE => match spec_rmw_addr(m, unit.addr_mode) {
            Ok(p) => Ok(spec_sre(spec_incr_pc(m, n), p.0, p.1)),
            Err(e) => Err(e),
        },
        Instruction::RRA => match spec_rmw_addr(m, unit.addr_mode) {
            Ok(p) => Ok(spec_rra(spec_incr_pc(m, n), p.0, p.1)),
            Err(e) => Err(e),
        },
        Instruction::DCP => match spec_rmw_addr(m, unit.addr_mode) {
            Ok(p) => Ok(spec_dcp(spec_incr_pc(m, n), p.0, p.1)),
            Err(e) => Err(e),
        },
        Instruction::ISC => match spec_rmw_addr(m, unit.addr_mode) {
            Ok(p) => Ok(spec_isc(spec_incr_pc(m, n), p.0, p.1)),
            Err(e) => Err(e),
        },
        Instruction::JMP => match unit.addr_mode {
            AddressingMode::Absolute(a) => Ok(spec_jmp(spec_incr_pc(m, 3), a, 3)),
            AddressingMode::Indirect(p) => if in_ram(p) {
                Ok(spec_jmp(spec_incr_pc(m, 3), indirect_target(m.mem, p), 5))
            } else {
                Err(Fault::MemoryFault)
            },
            _ => Err(Fault::UnsupportedOpcode),
        },
        Instruction::JSR => match unit.addr_mode {
            AddressingMode::Absolute(a) => Ok(spec_jsr(spec_incr_pc(m, 3), a)),
            _ => Err(Fault::UnsupportedOpcode),
        },
        Instruction::RTS => match unit.addr_mode {
            AddressingMode::Implicit => Ok(spec_rts(spec_incr_pc(m, 1))),
            _ => Err(Fault::UnsupportedOpcode),
        },
        Instruction::BCC => match unit.addr_mode {
            AddressingMode::Relative(off) => Ok(
                spec_branch(spec_incr_pc(m, 2), !m.regs.status_register.carry, off),
            ),
            _ => Err(Fault::UnsupportedOpcode),
        },
        Instruction::BCS => match unit.addr_mode {
            AddressingMode::Relative(off) => Ok(
                spec_branch(spec_incr_pc(m, 2), m.regs.status_register.carry, off),
            ),
            _ => Err(Fault::UnsupportedOpcode),
        },
        Instruction::BEQ => match unit.addr_mode {
            AddressingMode::Relative(off) => Ok(
                spec_branch(spec_incr_pc(m, 2), m.regs.status_register.zero, off),
            ),
            _ => Err(Fault::UnsupportedOpcode),
        },
        Instruction::BMI => match unit.addr_mode {
            AddressingMode::Relative(off) => Ok(
                spec_branch(spec_incr_pc(m, 2), m.regs.status_register.negative, off),
            ),
            _ => Err(Fault::UnsupportedOpcode),
        },
        Instruction::BNE => match unit.addr_mode {
            AddressingMode::Relative(off) => Ok(
                spec_branch(spec_incr_pc(m, 2), !m.regs.status_register.zero, off),
            ),
            _ => Err(Fault::UnsupportedOpcode),
        },
        Instruction::BPL => match unit.addr_mode {
            AddressingMode::Relative(off) => Ok(
                spec_branch(spec_incr_pc(m, 2), !m.regs.status_register.negative, off),
            ),
            _ => Err(Fault::UnsupportedOpcode),
        },
        Instruction::BVC => match unit.addr_mode {
            AddressingMode::Relative(off) => Ok(
                spec_branch(spec_incr_pc(m, 2), !m.regs.status_register.overflow, off),
            ),
            _ => Err(Fault::UnsupportedOpcode),
        },
        Instruction::BVS => match unit.addr_mode {
            AddressingMode::Relative(off) => Ok(
                spec_branch(spec_incr_pc(m, 2), m.regs.status_register.overflow, off),
            ),
            _ => Err(Fault::UnsupportedOpcode),
        },
        Instruction::CLC => match unit.addr_mode {
            AddressingMode::Implicit => Ok(
                spec_set_flags(
                    spec_incr_pc(m, 1),
                    StatusFlags { carry: false, ..m.regs.status_register },
                ),
            ),
            _ => Err(Fault::UnsupportedOpcode),
        },
        Instruction::CLD => match unit.addr_mode {
            AddressingMode::Implicit => Ok(
                spec_set_flags(
                    spec_incr_pc(m, 1),
                    StatusFlags { decimal: false, ..m.regs.status_register },
                ),
            ),
            _ => Err(Fault::UnsupportedOpcode),
        },
        Instruction::CLI => match unit.addr_mode {
            AddressingMode::Implicit => Ok(
                spec_set_flags(
                    spec_incr_pc(m, 1),
                    StatusFlags { interrupt_disable: false, ..m.regs.status_register },
                ),
            ),
            _ => Err(Fault::UnsupportedOpcode),
        },
        Instruction::CLV => match unit.addr_mode {
            AddressingMode::Implicit => Ok(
                spec_set_flags(
                    spec_incr_pc(m, 1),
                    StatusFlags { overflow: false, ..m.regs.status_register },
                ),
            ),
            _ => Err(Fault::UnsupportedOpcode),
        },
        Instruction::SEC => match unit.addr_mode {
            AddressingMode::Implicit => Ok(
                spec_set_flags(
                    spec_incr_pc(m, 1),
                    StatusFlags { carry: true, ..m.regs.status_register },
                ),
            ),
            _ => Err(Fault::UnsupportedOpcode),
        },
        Instruction::SED => match unit.addr_mode {
            AddressingMode::Implicit => Ok(
                spec_set_flags(
                    spec_incr_pc(m, 1),
                    StatusFlags { decimal: true, ..m.regs.status_register },
                ),
            ),
            _ => Err(Fault::UnsupportedOpcode),
        },
        Instruction::SEI => match unit.addr_mode {
            AddressingMode::Implicit => Ok(
                spec_set_flags(
                    spec_incr_pc(m, 1),
                    StatusFlags { interrupt_disable: true, ..m.regs.status_register },
                ),
            ),
            _ => Err(Fault::UnsupportedOpcode),
        },
        Instruction::NOP => match unit.addr_mode {
            AddressingMode::Implicit => Ok(add_cycles(spec_incr_pc(m, 1), 2)),
            _ => match spec_read(m, unit.addr_mode) {
                Ok(p) => Ok(add_cycles(spec_incr_pc(m, n), p.1)),
                Err(e) => Err(e),
            },
        },
        Instruction::ANC => match unit.addr_mode {
            AddressingMode::Immediate(v) => Ok(spec_anc(spec_incr_pc(m, 2), v)),
            _ => Err(Fault::UnsupportedOpcode),
        },
        Instruction::ALR => match unit.addr_mode {
            AddressingMode::Immediate(v) => Ok(spec_alr(spec_incr_pc(m, 2), v)),
            _ => Err(Fault::UnsupportedOpcode),
        },
        Instruction::AXS => match unit.addr_mode {
            AddressingMode::Immediate(v) => Ok(spec_axs(spec_incr_pc(m, 2), v)),
            _ => Err(Fault::UnsupportedOpcode),
        },
        _ => Err(Fault::UnsupportedOpcode),
    }
}

// ---------------------------------------------------------------------------
// The executor
// ---------------------------------------------------------------------------


/// Executes the read-class instructions: loads, logical and arithmetic reads,
/// bit test and compares.
#[verifier::spinoff_prover]
#[verifier::rlimit(60)]
fn exec_read_class(unit: &InstructionPair, cpu: &mut CPU) -> (r: Result<(), Fault>)
    requires
        old(cpu).cycles + 8 <= usize::MAX,
        unit.instruction is LDA
        || unit.instruction is LDX
        || unit.instruction is LDY
        || unit.instruction is LAX
        || unit.instruction is AND
        || unit.instruction is EOR
        || unit.instruction is ORA
        || unit.instruction is BIT
        || unit.instruction is ADC
        || unit.instruction is SBC
        || unit.instruction is CMP
        || unit.instruction is CPX
        || unit.instruction is CPY,
    ensures
        match spec_step(*unit, old(cpu)@) {
            Ok(m) => r == Ok::<(), Fault>(()) && final(cpu)@ == m,
            Err(e) => r == Err::<(), Fault>(e) && final(cpu)@ == old(cpu)@,
        },
{
    match unit.instruction {
        Instruction::LDA => match read_operand(cpu, &unit.addr_mode) {
            Ok((v, c)) => {
                let n: u16 = mode_len(&unit.addr_mode);
                cpu.incr_pc(n);
                cpu.lda(v, c);
                Ok(())
            },
            Err(e) => Err(e),
        },
        Instruction::LDX => match read_operand(cpu, &unit.addr_mode) {
            Ok((v, c)) => {
                let n: u16 = mode_len(&unit.addr_mode);
                cpu.incr_pc(n);
                cpu.ldx(v, c);
                Ok(())
            },
            Err(e) => Err(e),
        },
        Instruction::LDY => match read_operand(cpu, &unit.addr_mode) {
            Ok((v, c)) => {
                let n: u16 = mode_len(&unit.addr_mode);
                cpu.incr_pc(n);
                cpu.ldy(v, c);
                Ok(())
            },
            Err(e) => Err(e),
        },
        Instruction::LAX => match read_operand(cpu, &unit.addr_mode) {
            Ok((v, c)) => {
                let n: u16 = mode_len(&unit.addr_mode);
                cpu.incr_pc(n);
                cpu.lax(v, c);
                Ok(())
            },
            Err(e) => Err(e),
        },
        Instruction::AND => match read_operand(cpu, &unit.addr_mode) {
            Ok((v, c)) => {
                let n: u16 = mode_len(&unit.addr_mode);
                cpu.incr_pc(n);
                cpu.and(v, c);
                Ok(())
            },
            Err(e) => Err(e),
        },
        Instruction::EOR => match read_operand(cpu, &unit.addr_mode) {
            Ok((v, c)) => {
                let n: u16 = mode_len(&unit.addr_mode);
                cpu.incr_pc(n);
                cpu.eor(v, c);
                Ok(())
            },
            Err(e) => Err(e),
        },
        Instruction::ORA => match read_operand(cpu, &unit.addr_mode) {
            Ok((v, c)) => {
                let n: u16 = mode_len(&unit.addr_mode);
                cpu.incr_pc(n);
                cpu.ora(v, c);
                Ok(())
            },
            Err(e) => Err(e),
        },
        Instruction::BIT => match read_operand(cpu, &unit.addr_mode) {
            Ok((v, c)) => {
                let n: u16 = mode_len(&unit.addr_mode);
                cpu.incr_pc(n);
                cpu.bit(v, c);
                Ok(())
            },
            Err(e) => Err(e),
        },
        Instruction::ADC => match read_operand(cpu, &unit.addr_mode) {
            Ok((v, c)) => {
                let n: u16 = mode_len(&unit.addr_mode);
                cpu.incr_pc(n);
                cpu.adc(v, c);
                Ok(())
            },
            Err(e) => Err(e),
        },
        Instruction::SBC => match read_operand(cpu, &unit.addr_mode) {
            Ok((v, c)) => {
                let n: u16 = mode_len(&unit.addr_mode);
                cpu.incr_pc(n);
                cpu.sbc(v, c);
                Ok(())
            },
            Err(e) => Err(e),
        },
        Instruction::CMP => match read_operand(cpu, &unit.addr_mode) {
            Ok((v, c)) => {
                let n: u16 = mode_len(&unit.addr_mode);
                cpu.incr_pc(n);
                cpu.cmp(v, c);
                Ok(())
            },
            Err(e) => Err(e),
        },
        Instruction::CPX => match read_operand(cpu, &unit.addr_mode) {
            Ok((v, c)) => {
                let n: u16 = mode_len(&unit.addr_mode);
                cpu.incr_pc(n);
                cpu.cpx(v, c);
                Ok(())
            },
            Err(e) => Err(e),
        },
        Instruction::CPY => match read_operand(cpu, &unit.addr_mode) {
            Ok((v, c)) => {
                let n: u16 = mode_len(&unit.addr_mode);
                cpu.incr_pc(n);
                cpu.cpy(v, c);
                Ok(())
            },
            Err(e) => Err(e),
        },
        _ => Err(Fault::UnsupportedOpcode),
    }
}

/// Executes the store-class instructions.
#[verifier::spinoff_prover]
#[verifier::rlimit(60)]
fn exec_store_class(unit: &InstructionPair, cpu: &mut CPU) -> (r: Result<(), Fault>)
    requires
        old(cpu).cycles + 8 <= usize::MAX,
        unit.instruction is STA
        || unit.instruction is STX
        || unit.instruction is STY
        || unit.instruction is SAX,
    ensures
        match spec_step(*unit, old(cpu)@) {
            Ok(m) => r == Ok::<(), Fault>(()) && final(cpu)@ == m,
            Err(e) => r == Err::<(), Fault>(e) && final(cpu)@ == old(cpu)@,
        },
{
    match unit.instruction {
        Instruction::STA => match store_target(cpu, &unit.addr_mode) {
            Ok((addr, c)) => {
                let n: u16 = mode_len(&unit.addr_mode);
                cpu.incr_pc(n);
                cpu.sta(addr, c);
                Ok(())
            },
            Err(e) => Err(e),
        },
        Instruction::STX => match store_target(cpu, &unit.addr_mode) {
            Ok((addr, c)) => {
                let n: u16 = mode_len(&unit.addr_mode);
                cpu.incr_pc(n);
                cpu.stx(addr, c);
                Ok(())
            },
            Err(e) => Err(e),
        },
        Instruction::STY => match store_target(cpu, &unit.addr_mode) {
            Ok((addr, c)) => {
                let n: u16 = mode_len(&unit.addr_mode);
                cpu.incr_pc(n);
                cpu.sty(addr, c);
                Ok(())
            },
            Err(e) => Err(e),
        },
        Instruction::SAX => match store_target(cpu, &unit.addr_mode) {
            Ok((addr, c)) => {
                let n: u16 = mode_len(&unit.addr_mode);
                cpu.incr_pc(n);
                cpu.sax(addr, c);
                Ok(())
            },
            Err(e) => Err(e),
        },
        _ => Err(Fault::UnsupportedOpcode),
    }
}

/// Executes the read-modify-write instructions, official and fused.
#[verifier::spinoff_prover]
#[verifier::rlimit(60)]
fn exec_rmw_class(unit: &InstructionPair, cpu: &mut CPU) -> (r: Result<(), Fault>)
    requires
        old(cpu).cycles + 8 <= usize::MAX,
        unit.instruction is ASL
        || unit.instruction is LSR
        || unit.instruction is ROL
        || unit.instruction is ROR
        || unit.instruction is SLO
        || unit.instruction is RLA
        || unit.instruction is SRE
        || unit.instruction is RRA
        || unit.instruction is DCP
        || unit.instruction is ISC
        || unit.instruction is INC
        || unit.instruction is DEC,
    ensures
        match spec_step(*unit, old(cpu)@) {
            Ok(m) => r == Ok::<(), Fault>(()) && final(cpu)@ == m,
            Err(e) => r == Err::<(), Fault>(e) && final(cpu)@ == old(cpu)@,
        },
{
    match unit.instruction {
        Instruction::ASL => match unit.addr_mode {
            AddressingMode::Implicit => {
                cpu.incr_pc(1);
                cpu.asl_acc();
                Ok(())
            },
            _ => match rmw_target(cpu, &unit.addr_mode) {
                Ok((addr, c)) => {
                    let n: u16 = mode_len(&unit.addr_mode);
                    cpu.incr_pc(n);
                    cpu.asl(addr, c);
                    Ok(())
                },
                Err(e) => Err(e),
            },
        },
        Instruction::LSR => match unit.addr_mode {
            AddressingMode::Implicit => {
                cpu.incr_pc(1);
                cpu.lsr_acc();
                Ok(())
            },
            _ => match rmw_target(cpu, &unit.addr_mode) {
                Ok((addr, c)) => {
                    let n: u16 = mode_len(&unit.addr_mode);
                    cpu.incr_pc(n);
                    cpu.lsr(addr, c);
                    Ok(())
                },
                Err(e) => Err(e),
            },
        },
        Instruction::ROL => match unit.addr_mode {
            AddressingMode::Implicit => {
                cpu.incr_pc(1);
                cpu.rol_acc();
                Ok(())
            },
            _ => match rmw_target(cpu, &unit.addr_mode) {
                Ok((addr, c)) => {
                    let n: u16 = mode_len(&unit.addr_mode);
                    cpu.incr_pc(n);
                    cpu.rol(addr, c);
                    Ok(())
                },
                Err(e) => Err(e),
            },
        },
        Instruction::ROR => match unit.addr_mode {
            AddressingMode::Implicit => {
                cpu.incr_pc(1);
                cpu.ror_acc();
                Ok(())
            },
            _ => match rmw_target(cpu, &unit.addr_mode) {
                Ok((addr, c)) => {
                    let n: u16 = mode_len(&unit.addr_mode);
                    cpu.incr_pc(n);
                    cpu.ror(addr, c);
                    Ok(())
                },
                Err(e) => Err(e),
            },
        },
        Instruction::SLO => match rmw_target(cpu, &unit.addr_mode) {
            Ok((addr, c)) => {
                let n: u16 = mode_len(&unit.addr_mode);
                cpu.incr_pc(n);
                cpu.slo(addr, c);
                Ok(())
            },
            Err(e) => Err(e),
        },
        Instruction::RLA => match rmw_target(cpu, &unit.addr_mode) {
            Ok((addr, c)) => {
                let n: u16 = mode_len(&unit.addr_mode);
                cpu.incr_pc(n);
                cpu.rla(addr, c);
                Ok(())
            },
            Err(e) => Err(e),
        },
        Instruction::SRE => match rmw_target(cpu, &unit.addr_mode) {
            Ok((addr, c)) => {
                let n: u16 = mode_len(&unit.addr_mode);
                cpu.incr_pc(n);
                cpu.sre(addr, c);
                Ok(())
            },
            Err(e) => Err(e),
        },
        Instruction::RRA => match rmw_target(cpu, &unit.addr_mode) {
            Ok((addr, c)) => {
                let n: u16 = mode_len(&unit.addr_mode);
                cpu.incr_pc(n);
                cpu.rra(addr, c);
                Ok(())
            },
            Err(e) => Err(e),
        },
        Instruction::DCP => match rmw_target(cpu, &unit.addr_mode) {
            Ok((addr, c)) => {
                let n: u16 = mode_len(&unit.addr_mode);
                cpu.incr_pc(n);
                cpu.dcp(addr, c);
                Ok(())
            },
            Err(e) => Err(e),
        },
        Instruction::ISC => match rmw_target(cpu, &unit.addr_mode) {
            Ok((addr, c)) => {
                let n: u16 = mode_len(&unit.addr_mode);
                cpu.incr_pc(n);
                cpu.isc(addr, c);
                Ok(())
            },
            Err(e) => Err(e),
        },
        Instruction::INC => match rmw_target(cpu, &unit.addr_mode) {
            Ok((addr, c)) => {
                let n: u16 = mode_len(&unit.addr_mode);
                cpu.incr_pc(n);
                cpu.inc(addr, c);
                Ok(())
            },
            Err(e) => Err(e),
        },
        Instruction::DEC => match rmw_target(cpu, &unit.addr_mode) {
            Ok((addr, c)) => {
                let n: u16 = mode_len(&unit.addr_mode);
                cpu.incr_pc(n);
                cpu.dec(addr, c);
                Ok(())
            },
            Err(e) => Err(e),
        },
        _ => Err(Fault::UnsupportedOpcode),
    }
}

/// Executes the implied-mode instructions: transfers, stack, register
/// increments and decrements, and flag changes.
#[verifier::spinoff_prover]
#[verifier::rlimit(60)]
fn exec_implied_class(unit: &InstructionPair, cpu: &mut CPU) -> (r: Result<(), Fault>)
    requires
        old(cpu).cycles + 8 <= usize::MAX,
        unit.instruction is TAX
        || unit.instruction is TAY
        || unit.instruction is TXA
        || unit.instruction is TYA
        || unit.instruction is TSX
        || unit.instruction is TXS
        || unit.instruction is PHA
        || unit.instruction is PHP
        || unit.instruction is PLA
        || unit.instruction is PLP
        || unit.instruction is INX
        || unit.instruction is INY
        || unit.instruction is DEX
        || unit.instruction is DEY
        || unit.instruction is CLC
        || unit.instruction is CLD
        || unit.instruction is CLI
        || unit.instruction is CLV
        || unit.instruction is SEC
        || unit.instruction is SED
        || unit.instruction is SEI,
    ensures
        match spec_step(*unit, old(cpu)@) {
            Ok(m) => r == Ok::<(), Fault>(()) && final(cpu)@ == m,
            Err(e) => r == Err::<(), Fault>(e) && final(cpu)@ == old(cpu)@,
        },
{
    match unit.instruction {
        Instruction::TAX => match unit.addr_mode {
            AddressingMode::Implicit => {
                cpu.incr_pc(1);
                cpu.tax();
                Ok(())
            },
            _ => Err(Fault::UnsupportedOpcode),
        },
        Instruction::TAY => match unit.addr_mode {
            AddressingMode::Implicit => {
                cpu.incr_pc(1);
                cpu.tay();
                Ok(())
            },
            _ => Err(Fault::UnsupportedOpcode),
        },
        Instruction::TXA => match unit.addr_mode {
            AddressingMode::Implicit => {
                cpu.incr_pc(1);
                cpu.txa();
                Ok(())
            },
            _ => Err(Fault::UnsupportedOpcode),
        },
        Instruction::TYA => match unit.addr_mode {
            AddressingMode::Implicit => {
                cpu.incr_pc(1);
                cpu.tya();
                Ok(())
            },
            _ => Err(Fault::UnsupportedOpcode),
        },
        Instruction::TSX => match unit.addr_mode {
            AddressingMode::Implicit => {
                cpu.incr_pc(1);
                cpu.tsx();
                Ok(())
            },
            _ => Err(Fault::UnsupportedOpcode),
        },
        Instruction::TXS => match unit.addr_mode {
            AddressingMode::Implicit => {
                cpu.incr_pc(1);
                cpu.txs();
                Ok(())
            },
            _ => Err(Fault::UnsupportedOpcode),
        },
        Instruction::PHA => match unit.addr_mode {
            AddressingMode::Implicit => {
                cpu.incr_pc(1);
                cpu.pha();
                Ok(())
            },
            _ => Err(Fault::UnsupportedOpcode),
        },
        Instruction::PHP => match unit.addr_mode {
            AddressingMode::Implicit => {
                cpu.incr_pc(1);
                cpu.php();
                Ok(())
            },
            _ => Err(Fault::UnsupportedOpcode),
        },
        Instruction::PLA => match unit.addr_mode {
            AddressingMode::Implicit => {
                cpu.incr_pc(1);
                cpu.pla();
                Ok(())
            },
            _ => Err(Fault::UnsupportedOpcode),
        },
        Instruction::PLP => match unit.addr_mode {
            AddressingMode::Implicit => {
                cpu.incr_pc(1);
                cpu.plp();
                Ok(())
            },
            _ => Err(Fault::UnsupportedOpcode),
        },
        Instruction::INX => match unit.addr_mode {
            AddressingMode::Implicit => {
                cpu.incr_pc(1);
                cpu.inx();
                Ok(())
            },
            _ => Err(Fault::UnsupportedOpcode),
        },
        Instruction::INY => match unit.addr_mode {
            AddressingMode::Implicit => {
                cpu.incr_pc(1);
                cpu.iny();
                Ok(())
            },
            _ => Err(Fault::UnsupportedOpcode),
        },
        Instruction::DEX => match unit.addr_mode {
            AddressingMode::Implicit => {
                cpu.incr_pc(1);
                cpu.dex();
                Ok(())
            },
            _ => Err(Fault::UnsupportedOpcode),
        },
        Instruction::DEY => match unit.addr_mode {
            AddressingMode::Implicit => {
                cpu.incr_pc(1);
                cpu.dey();
                Ok(())
            },
            _ => Err(Fault::UnsupportedOpcode),
        },
        Instruction::CLC => match unit.addr_mode {
            AddressingMode::Implicit => {
                cpu.incr_pc(1);
                cpu.clc();
                Ok(())
            },
            _ => Err(Fault::UnsupportedOpcode),
        },
        Instruction::CLD => match unit.addr_mode {
            AddressingMode::Implicit => {
                cpu.incr_pc(1);
                cpu.cld();
                Ok(())
            },
            _ => Err(Fault::UnsupportedOpcode),
        },
        Instruction::CLI => match unit.addr_mode {
            AddressingMode::Implicit => {
                cpu.incr_pc(1);
                cpu.cli();
                Ok(())
            },
            _ => Err(Fault::UnsupportedOpcode),
        },
        Instruction::CLV => match unit.addr_mode {
            AddressingMode::Implicit => {
                cpu.incr_pc(1);
                cpu.clv();
                Ok(())
            },
            _ => Err(Fault::UnsupportedOpcode),
        },
        Instruction::SEC => match unit.addr_mode {
            AddressingMode::Implicit => {
                cpu.incr_pc(1);
                cpu.sec();
                Ok(())
            },
            _ => Err(Fault::UnsupportedOpcode),
        },
        Instruction::SED => match unit.addr_mode {
            AddressingMode::Implicit => {
                cpu.incr_pc(1);
                cpu.sed();
                Ok(())
            },
            _ => Err(Fault::UnsupportedOpcode),
        },
        Instruction::SEI => match unit.addr_mode {
            AddressingMode::Implicit => {
                cpu.incr_pc(1);
                cpu.sei();
                Ok(())
            },
            _ => Err(Fault::UnsupportedOpcode),
        },
        _ => Err(Fault::UnsupportedOpcode),
    }
}

/// Executes the control-flow instructions: jumps, subroutine call and return,
/// and branches.
#[verifier::spinoff_prover]
#[verifier::rlimit(60)]
fn exec_control_class(unit: &InstructionPair, cpu: &mut CPU) -> (r: Result<(), Fault>)
    requires
        old(cpu).cycles + 8 <= usize::MAX,
        unit.instruction is JMP
        || unit.instruction is JSR
        || unit.instruction is RTS
        || unit.instruction is BCC
        || unit.instruction is BCS
        || unit.instruction is BEQ
        || unit.instruction is BMI
        || unit.instruction is BNE
        || unit.instruction is BPL
        || unit.instruction is BVC
        || unit.instruction is BVS,
    ensures
        match spec_step(*unit, old(cpu)@) {
            Ok(m) => r == Ok::<(), Fault>(()) && final(cpu)@ == m,
            Err(e) => r == Err::<(), Fault>(e) && final(cpu)@ == old(cpu)@,
        },
{
    match unit.instruction {
        Instruction::JMP => match unit.addr_mode {
            AddressingMode::Absolute(a) => {
                cpu.incr_pc(3);
                cpu.jmp(a, 3);
                Ok(())
            },
            AddressingMode::Indirect(p) => {
                if p < 0x2000 {
                    let lo: u8 = cpu.memory.read_ram(p);
                    let hi_addr: u16 = if p % 0x100 == 0xFF {
                        p - 0xFF
                    } else {
                        p + 1
                    };
                    let hi: u8 = cpu.memory.read_ram(hi_addr);
                    let target: u16 = word(lo, hi);
                    cpu.incr_pc(3);
                    cpu.jmp(target, 5);
                    Ok(())
                } else {
                    Err(Fault::MemoryFault)
                }
            },
            _ => Err(Fault::UnsupportedOpcode),
        },
        Instruction::JSR => match unit.addr_mode {
            AddressingMode::Absolute(a) => {
                cpu.incr_pc(3);
                cpu.jsr(a);
                Ok(())
            },
            _ => Err(Fault::UnsupportedOpcode),
        },
        Instruction::RTS => match unit.addr_mode {
            AddressingMode::Implicit => {
                cpu.incr_pc(1);
                cpu.rts();
                Ok(())
            },
            _ => Err(Fault::UnsupportedOpcode),
        },
        Instruction::BCC => match unit.addr_mode {
            AddressingMode::Relative(off) => {
                cpu.incr_pc(2);
                cpu.bcc(off);
                Ok(())
            },
            _ => Err(Fault::UnsupportedOpcode),
        },
        Instruction::BCS => match unit.addr_mode {
            AddressingMode::Relative(off) => {
                cpu.incr_pc(2);
                cpu.bcs(off);
                Ok(())
            },
            _ => Err(Fault::UnsupportedOpcode),
        },
        Instruction::BEQ => match unit.addr_mode {
            AddressingMode::Relative(off) => {
                cpu.incr_pc(2);
                cpu.beq(off);
                Ok(())
            },
            _ => Err(Fault::UnsupportedOpcode),
        },
        Instruction::BMI => match unit.addr_mode {
            AddressingMode::Relative(off) => {
                cpu.incr_pc(2);
                cpu.bmi(off);
                Ok(())
            },
            _ => Err(Fault::UnsupportedOpcode),
        },
        Instruction::BNE => match unit.addr_mode {
            AddressingMode::Relative(off) => {
                cpu.incr_pc(2);
                cpu.bne(off);
                Ok(())
            },
            _ => Err(Fault::UnsupportedOpcode),
        },
        Instruction::BPL => match unit.addr_mode {
            AddressingMode::Relative(off) => {
                cpu.incr_pc(2);
                cpu.bpl(off);
                Ok(())
            },
            _ => Err(Fault::UnsupportedOpcode),
        },
        Instruction::BVC => match unit.addr_mode {
            AddressingMode::Relative(off) => {
                cpu.incr_pc(2);
                cpu.bvc(off);
                Ok(())
            },
            _ => Err(Fault::UnsupportedOpcode),
        },
        Instruction::BVS => match unit.addr_mode {
            AddressingMode::Relative(off) => {
                cpu.incr_pc(2);
                cpu.bvs(off);
                Ok(())
            },
            _ => Err(Fault::UnsupportedOpcode),
        },
        _ => Err(Fault::UnsupportedOpcode),
    }
}

/// Executes the no-operation forms, implied and operand-bearing.
#[verifier::spinoff_prover]
#[verifier::rlimit(60)]
fn exec_nop_class(unit: &InstructionPair, cpu: &mut CPU) -> (r: Result<(), Fault>)
    requires
        old(cpu).cycles + 8 <= usize::MAX,
        unit.instruction is NOP,
    ensures
        match spec_step(*unit, old(cpu)@) {
            Ok(m) => r == Ok::<(), Fault>(()) && final(cpu)@ == m,
            Err(e) => r == Err::<(), Fault>(e) && final(cpu)@ == old(cpu)@,
        },
{
    match unit.instruction {
        Instruction::NOP => match unit.addr_mode {
            AddressingMode::Implicit => {
                cpu.incr_pc(1);
                cpu.incr_cycles(2);
                Ok(())
            },
            _ => match read_operand(cpu, &unit.addr_mode) {
                Ok((_, c)) => {
                    let n: u16 = mode_len(&unit.addr_mode);
                    cpu.incr_pc(n);
                    cpu.incr_cycles(c);
                    Ok(())
                },
                Err(e) => Err(e),
            },
        },
        _ => Err(Fault::UnsupportedOpcode),
    }
}

/// Executes the immediate-mode fused unofficial opcodes.
#[verifier::spinoff_prover]
#[verifier::rlimit(60)]
fn exec_fused_imm_class(unit: &InstructionPair, cpu: &mut CPU) -> (r: Result<(), Fault>)
    requires
        old(cpu).cycles + 8 <= usize::MAX,
        unit.instruction is ANC
        || unit.instruction is ALR
        || unit.instruction is AXS,
    ensures
        match spec_step(*unit, old(cpu)@) {
            Ok(m) => r == Ok::<(), Fault>(()) && final(cpu)@ == m,
            Err(e) => r == Err::<(), Fault>(e) && final(cpu)@ == old(cpu)@,
        },
{
    match unit.instruction {
        Instruction::ANC => match unit.addr_mode {
            AddressingMode::Immediate(v) => {
                cpu.incr_pc(2);
                cpu.anc(v);
                Ok(())
            },
            _ => Err(Fault::UnsupportedOpcode),
        },
        Instruction::ALR => match unit.addr_mode {
            AddressingMode::Immediate(v) => {
                cpu.incr_pc(2);
                cpu.alr(v);
                Ok(())
            },
            _ => Err(Fault::UnsupportedOpcode),
        },
        Instruction::AXS => match unit.addr_mode {
            AddressingMode::Immediate(v) => {
                cpu.incr_pc(2);
                cpu.axs(v);
                Ok(())
            },
            _ => Err(Fault::UnsupportedOpcode),
        },
        _ => Err(Fault::UnsupportedOpcode),
    }
}

impl InstructionPair {
    /// Pairs a mnemonic with its addressing mode.
    pub fn new(instruction: Instruction, addr_mode: AddressingMode) -> (r: InstructionPair)
        ensures
            r == (InstructionPair { instruction, addr_mode }),
    {
        InstructionPair { instruction, addr_mode }
    }

    /// Executes this instruction unit against the processor: exactly the
    /// effect of `spec_step`, atomically.  On a fault the processor is left
    /// untouched.  BRK and RTI, and the unofficial opcodes without a defined
    /// fused semantic, report `UnsupportedOpcode`.  The caller keeps the
    /// cycle counter at least one instruction's worst cost, 8 cycles, below
    /// the machine limit.
    #[verifier::spinoff_prover]
    #[verifier::rlimit(60)]
    pub fn exec(&self, cpu: &mut CPU) -> (r: Result<(), Fault>)
        requires
            old(cpu).cycles + 8 <= usize::MAX,
        ensures
            match spec_step(*self, old(cpu)@) {
                Ok(m) => r == Ok::<(), Fault>(()) && final(cpu)@ == m,
                Err(e) => r == Err::<(), Fault>(e) && final(cpu)@ == old(cpu)@,
            },
    {
        match self.instruction {
            Instruction::LDA
            | Instruction::LDX
            | Instruction::LDY
            | Instruction::LAX
            | Instruction::AND
            | Instruction::EOR
            | Instruction::ORA
            | Instruction::BIT
            | Instruction::ADC
            | Instruction::SBC
            | Instruction::CMP
            | Instruction::CPX
            | Instruction::CPY => exec_read_class(self, cpu),
            Instruction::STA
            | Instruction::STX
            | Instruction::STY
            | Instruction::SAX => exec_store_class(self, cpu),
            Instruction::ASL
            | Instruction::LSR
            | Instruction::ROL
            | Instruction::ROR
            | Instruction::SLO
            | Instruction::RLA
            | Instruction::SRE
            | Instruction::RRA
            | Instruction::DCP
            | Instruction::ISC
            | Instruction::INC
            | Instruction::DEC => exec_rmw_class(self, cpu),
            Instruction::TAX
            | Instruction::TAY
            | Instruction::TXA
            | Instruction::TYA
            | Instruction::TSX
            | Instruction::TXS
            | Instruction::PHA
            | Instruction::PHP
            | Instruction::PLA
            | Instruction::PLP
            | Instruction::INX
            | Instruction::INY
            | Instruction::DEX
            | Instruction::DEY
            | Instruction::CLC
            | Instruction::CLD
            | Instruction::CLI
            | Instruction::CLV
            | Instruction::SEC
            | Instruction::SED
            | Instruction::SEI => exec_implied_class(self, cpu),
            Instruction::JMP
            | Instruction::JSR
            | Instruction::RTS
            | Instruction::BCC
            | Instruction::BCS
            | Instruction::BEQ
            | Instruction::BMI
            | Instruction::BNE
            | Instruction::BPL
            | Instruction::BVC
            | Instruction::BVS => exec_control_class(self, cpu),
            Instruction::NOP => exec_nop_class(self, cpu),
            Instruction::ANC
            | Instruction::ALR
            | Instruction::AXS => exec_fused_imm_class(self, cpu),
            _ => Err(Fault::UnsupportedOpcode),
        }
    }
}

} // verus!

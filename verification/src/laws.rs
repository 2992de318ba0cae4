//! The laws of the core, proved once and for all inputs: flag discipline,
//! the lossless packed flag byte, cycle accounting, the addressing quirks,
//! and the call/return round trip.

use vstd::prelude::*;
use crate::cpu::{flags_from_byte, flags_to_byte, StatusFlags};
use crate::decoder::{opcode_len, spec_decode};
use crate::exec::{spec_read, spec_step, spec_store_addr, InstructionPair};
use crate::instructions::{operand_bytes, AddressingMode, Instruction};
use crate::memory::{in_ram, ram_read};
use crate::model::{
    abs_indexed_addr, bit7, compare_flags, indirect_target, page_of, spec_adc, spec_and,
    spec_branch, spec_dec, spec_dex, spec_dey, spec_eor, spec_inc, spec_inx, spec_iny, spec_lax,
    spec_lda, spec_ldx, spec_ldy, spec_ora, spec_sbc, spec_shift_acc, spec_shift_mem, wrap16,
    wrap8, zp_index, CpuModel,
};
use crate::Fault;

verus! {

// ---------------------------------------------------------------------------
// Zero and negative flag discipline
// ---------------------------------------------------------------------------

/// Law: every load sets the zero flag exactly when the loaded value is
/// zero, and the negative flag exactly to bit 7 of the value.
pub proof fn lemma_load_flags(m: CpuModel, v: u8, c: usize)
    ensures
        spec_lda(m, v, c).regs.status_register.zero <==> v == 0,
        spec_lda(m, v, c).regs.status_register.negative <==> bit7(v),
        spec_ldx(m, v, c).regs.status_register.zero <==> v == 0,
        spec_ldx(m, v, c).regs.status_register.negative <==> bit7(v),
        spec_ldy(m, v, c).regs.status_register.zero <==> v == 0,
        spec_ldy(m, v, c).regs.status_register.negative <==> bit7(v),
        spec_lax(m, v, c).regs.status_register.zero <==> v == 0,
        spec_lax(m, v, c).regs.status_register.negative <==> bit7(v),
{
}

/// Law: the logical operations set zero exactly when the combined
/// accumulator is zero, and negative exactly to bit 7 of the result.
pub proof fn lemma_logical_flags(m: CpuModel, v: u8, c: usize)
    ensures
        spec_and(m, v, c).regs.accumulator == (m.regs.accumulator & v),
        spec_and(m, v, c).regs.status_register.zero <==> (m.regs.accumulator & v) == 0,
        spec_and(m, v, c).regs.status_register.negative <==> bit7(m.regs.accumulator & v),
        spec_eor(m, v, c).regs.accumulator == (m.regs.accumulator ^ v),
        spec_eor(m, v, c).regs.status_register.zero <==> (m.regs.accumulator ^ v) == 0,
        spec_eor(m, v, c).regs.status_register.negative <==> bit7(m.regs.accumulator ^ v),
        spec_ora(m, v, c).regs.accumulator == (m.regs.accumulator | v),
        spec_ora(m, v, c).regs.status_register.zero <==> (m.regs.accumulator | v) == 0,
        spec_ora(m, v, c).regs.status_register.negative <==> bit7(m.regs.accumulator | v),
{
}

/// Law: for every accumulator, operand and carry combination, the add sets
/// zero exactly when its 8-bit wraparound result is zero, and negative
/// exactly to bit 7 of the result; the subtract does the same.
pub proof fn lemma_arithmetic_flags(m: CpuModel, v: u8, c: usize)
    ensures
        ({
            let cin: int = if m.regs.status_register.carry { 1 } else { 0 };
            let r = wrap8(m.regs.accumulator + v + cin);
            &&& spec_adc(m, v, c).regs.accumulator == r
            &&& (spec_adc(m, v, c).regs.status_register.zero <==> r == 0)
            &&& (spec_adc(m, v, c).regs.status_register.negative <==> bit7(r))
        }),
        ({
            let borrow: int = if m.regs.status_register.carry { 0 } else { 1 };
            let r = wrap8(m.regs.accumulator - v - borrow);
            &&& spec_sbc(m, v, c).regs.accumulator == r
            &&& (spec_sbc(m, v, c).regs.status_register.zero <==> r == 0)
            &&& (spec_sbc(m, v, c).regs.status_register.negative <==> bit7(r))
        }),
{
}

/// Law: increments and decrements, of memory and of the index registers,
/// set zero exactly when the wraparound result is zero and negative exactly
/// to bit 7 of the result.
pub proof fn lemma_incdec_flags(m: CpuModel, addr: u16, c: usize)
    ensures
        ({
            let r = wrap8(ram_read(m.mem, addr) + 1);
            &&& (spec_inc(m, addr, c).regs.status_register.zero <==> r == 0)
            &&& (spec_inc(m, addr, c).regs.status_register.negative <==> bit7(r))
        }),
        ({
            let r = wrap8(ram_read(m.mem, addr) - 1);
            &&& (spec_dec(m, addr, c).regs.status_register.zero <==> r == 0)
            &&& (spec_dec(m, addr, c).regs.status_register.negative <==> bit7(r))
        }),
        ({
            let r = wrap8(m.regs.index_x + 1);
            &&& (spec_inx(m).regs.status_register.zero <==> r == 0)
            &&& (spec_inx(m).regs.status_register.negative <==> bit7(r))
        }),
        ({
            let r = wrap8(m.regs.index_y + 1);
            &&& (spec_iny(m).regs.status_register.zero <==> r == 0)
            &&& (spec_iny(m).regs.status_register.negative <==> bit7(r))
        }),
        ({
            let r = wrap8(m.regs.index_x - 1);
            &&& (spec_dex(m).regs.status_register.zero <==> r == 0)
            &&& (spec_dex(m).regs.status_register.negative <==> bit7(r))
        }),
        ({
            let r = wrap8(m.regs.index_y - 1);
            &&& (spec_dey(m).regs.status_register.zero <==> r == 0)
            &&& (spec_dey(m).regs.status_register.negative <==> bit7(r))
        }),
{
}

/// Law: every shift and rotate sets zero exactly when the shifted byte is
/// zero and negative exactly to its bit 7, in both the accumulator and the
/// memory form.
pub proof fn lemma_shift_flags(m: CpuModel, addr: u16, r: u8, carry_out: bool, c: usize)
    ensures
        spec_shift_acc(m, r, carry_out, c).regs.status_register.zero <==> r == 0,
        spec_shift_acc(m, r, carry_out, c).regs.status_register.negative <==> bit7(r),
        spec_shift_acc(m, r, carry_out, c).regs.status_register.carry == carry_out,
        spec_shift_mem(m, addr, r, carry_out, c).regs.status_register.zero <==> r == 0,
        spec_shift_mem(m, addr, r, carry_out, c).regs.status_register.negative <==> bit7(r),
        spec_shift_mem(m, addr, r, carry_out, c).regs.status_register.carry == carry_out,
{
}

// ---------------------------------------------------------------------------
// The packed flag byte
// ---------------------------------------------------------------------------

/// Law: packing the eight flags into a byte and unpacking that byte gives
/// the flags back unchanged.
pub proof fn lemma_flags_pack_unpack(f: StatusFlags)
    ensures
        flags_from_byte(flags_to_byte(f)) == f,
{
}

/// Law: unpacking a byte into the eight flags and packing them again gives
/// the byte back unchanged.
pub proof fn lemma_flags_unpack_pack(b: u8)
    ensures
        flags_to_byte(flags_from_byte(b)) == b,
{
    assert(b == 128 * (b / 128) + 64 * ((b / 64) % 2) + 32 * ((b / 32) % 2) + 16 * ((b / 16) % 2)
        + 8 * ((b / 8) % 2) + 4 * ((b / 4) % 2) + 2 * ((b / 2) % 2) + b % 2) by (bit_vector);
}

// ---------------------------------------------------------------------------
// Addressing quirks
// ---------------------------------------------------------------------------

/// Law: zero-page indexing never leaves the zero page; the effective
/// address is base plus index reduced mod 256.
pub proof fn lemma_zero_page_index_wraps(base: u8, idx: u8)
    ensures
        zp_index(base, idx) < 0x100,
        zp_index(base, idx) == (base + idx) % 0x100,
{
}

/// Law: an indirect jump whose pointer ends in 0xFF reads the high byte of
/// its target from the start of the pointer's own page, not from the next
/// page.
pub proof fn lemma_indirect_jump_page_wrap(mem: Seq<u8>, ptr: u16)
    requires
        ptr % 0x100 == 0xFF,
    ensures
        indirect_target(mem, ptr) == ram_read(mem, ptr) + 0x100 * ram_read(
            mem,
            (ptr - 0xFF) as u16,
        ),
{
}

/// Law: an absolute-indexed read charges 5 cycles exactly when indexing
/// crosses a page and 4 otherwise, while the store form at the same
/// addresses always charges its fixed worst case of 5.
pub proof fn lemma_absolute_indexed_cost_asymmetry(m: CpuModel, base: u16)
    ensures
        ({
            let e = abs_indexed_addr(base, m.regs.index_x);
            in_ram(e) ==> {
                &&& spec_read(m, AddressingMode::AbsoluteIndexedX(base)) == Ok::<
                    (u8, usize),
                    Fault,
                >((ram_read(m.mem, e), if page_of(e) != page_of(base) { 5 } else { 4 }))
                &&& spec_store_addr(m, AddressingMode::AbsoluteIndexedX(base)) == Ok::<
                    (u16, usize),
                    Fault,
                >((e, 5))
            }
        }),
{
}

// ---------------------------------------------------------------------------
// Cycle accounting of branches
// ---------------------------------------------------------------------------

/// Law: a branch not taken costs 2 cycles; taken without a page cross, 3;
/// taken with a page cross, 4.
pub proof fn lemma_branch_cycles(m: CpuModel, taken: bool, off: i8)
    ensures
        !taken ==> spec_branch(m, taken, off).cycles == m.cycles + 2,
        taken && page_of(wrap16(m.regs.program_counter + off)) == page_of(
            m.regs.program_counter,
        ) ==> spec_branch(m, taken, off).cycles == m.cycles + 3,
        taken && page_of(wrap16(m.regs.program_counter + off)) != page_of(
            m.regs.program_counter,
        ) ==> spec_branch(m, taken, off).cycles == m.cycles + 4,
{
}

// ---------------------------------------------------------------------------
// Compares never fault
// ---------------------------------------------------------------------------

/// Law: a compare whose register value is below the operand is defined
/// wraparound, not an error: carry and zero clear, negative from bit 7 of
/// the wrapped difference.
pub proof fn lemma_compare_defined_on_underflow(f: StatusFlags, reg: u8, v: u8)
    requires
        reg < v,
    ensures
        !compare_flags(f, reg, v).carry,
        !compare_flags(f, reg, v).zero,
        compare_flags(f, reg, v).negative == bit7(wrap8(reg - v)),
{
}

// ---------------------------------------------------------------------------
// Decoding is total
// ---------------------------------------------------------------------------

#[verifier::spinoff_prover]
#[verifier::rlimit(100)]
proof fn lemma_decode_total_block_0(op: u8, b1: u8, b2: u8)
    requires
        0x00 <= op < 0x20,
    ensures
        1 <= opcode_len(op) <= 3,
        opcode_len(op) == 1 + operand_bytes(spec_decode(op, b1, b2).addr_mode),
{
}

#[verifier::spinoff_prover]
#[verifier::rlimit(100)]
proof fn lemma_decode_total_block_1(op: u8, b1: u8, b2: u8)
    requires
        0x20 <= op < 0x40,
    ensures
        1 <= opcode_len(op) <= 3,
        opcode_len(op) == 1 + operand_bytes(spec_decode(op, b1, b2).addr_mode),
{
}

#[verifier::spinoff_prover]
#[verifier::rlimit(100)]
proof fn lemma_decode_total_block_2(op: u8, b1: u8, b2: u8)
    requires
        0x40 <= op < 0x60,
    ensures
        1 <= opcode_len(op) <= 3,
        opcode_len(op) == 1 + operand_bytes(spec_decode(op, b1, b2).addr_mode),
{
}

#[verifier::spinoff_prover]
#[verifier::rlimit(100)]
proof fn lemma_decode_total_block_3(op: u8, b1: u8, b2: u8)
    requires
        0x60 <= op < 0x80,
    ensures
        1 <= opcode_len(op) <= 3,
        opcode_len(op) == 1 + operand_bytes(spec_decode(op, b1, b2).addr_mode),
{
}

#[verifier::spinoff_prover]
#[verifier::rlimit(100)]
proof fn lemma_decode_total_block_4(op: u8, b1: u8, b2: u8)
    requires
        0x80 <= op < 0xA0,
    ensures
        1 <= opcode_len(op) <= 3,
        opcode_len(op) == 1 + operand_bytes(spec_decode(op, b1, b2).addr_mode),
{
}

#[verifier::spinoff_prover]
#[verifier::rlimit(100)]
proof fn lemma_decode_total_block_5(op: u8, b1: u8, b2: u8)
    requires
        0xA0 <= op < 0xC0,
    ensures
        1 <= opcode_len(op) <= 3,
        opcode_len(op) == 1 + operand_bytes(spec_decode(op, b1, b2).addr_mode),
{
}

#[verifier::spinoff_prover]
#[verifier::rlimit(100)]
proof fn lemma_decode_total_block_6(op: u8, b1: u8, b2: u8)
    requires
        0xC0 <= op < 0xE0,
    ensures
        1 <= opcode_len(op) <= 3,
        opcode_len(op) == 1 + operand_bytes(spec_decode(op, b1, b2).addr_mode),
{
}

#[verifier::spinoff_prover]
#[verifier::rlimit(100)]
proof fn lemma_decode_total_block_7(op: u8, b1: u8, b2: u8)
    requires
        0xE0 <= op < 0x100,
    ensures
        1 <= opcode_len(op) <= 3,
        opcode_len(op) == 1 + operand_bytes(spec_decode(op, b1, b2).addr_mode),
{
}

/// Law: every opcode value decodes to a structured unit of one to three
/// encoded bytes, and the shape of the unit depends on the opcode alone,
/// never on the operand bytes.
pub proof fn lemma_decode_total(op: u8, b1: u8, b2: u8)
    ensures
        1 <= opcode_len(op) <= 3,
        opcode_len(op) == 1 + operand_bytes(spec_decode(op, b1, b2).addr_mode),
{
    if op < 0x20 {
        lemma_decode_total_block_0(op, b1, b2);
    } else if op < 0x40 {
        lemma_decode_total_block_1(op, b1, b2);
    } else if op < 0x60 {
        lemma_decode_total_block_2(op, b1, b2);
    } else if op < 0x80 {
        lemma_decode_total_block_3(op, b1, b2);
    } else if op < 0xA0 {
        lemma_decode_total_block_4(op, b1, b2);
    } else if op < 0xC0 {
        lemma_decode_total_block_5(op, b1, b2);
    } else if op < 0xE0 {
        lemma_decode_total_block_6(op, b1, b2);
    } else {
        lemma_decode_total_block_7(op, b1, b2);
    }
}

// ---------------------------------------------------------------------------
// The call/return round trip
// ---------------------------------------------------------------------------

/// Law: a jump-to-subroutine followed by a return-from-subroutine leaves
/// the program counter exactly at the byte following the 3-byte call
/// instruction, from any processor state; the stack pointer is restored and
/// the pair costs 12 cycles.
pub proof fn lemma_jsr_rts_round_trip(m: CpuModel, target: u16)
    requires
        m.mem.len() == 0x800,
    ensures
        ({
            let jsr_unit = InstructionPair {
                instruction: Instruction::JSR,
                addr_mode: AddressingMode::Absolute(target),
            };
            let rts_unit = InstructionPair {
                instruction: Instruction::RTS,
                addr_mode: AddressingMode::Implicit,
            };
            &&& spec_step(jsr_unit, m) is Ok
            &&& spec_step(rts_unit, spec_step(jsr_unit, m)->Ok_0) is Ok
            &&& spec_step(
                rts_unit,
                spec_step(jsr_unit, m)->Ok_0,
            )->Ok_0.regs.program_counter == wrap16(m.regs.program_counter + 3)
            &&& spec_step(
                rts_unit,
                spec_step(jsr_unit, m)->Ok_0,
            )->Ok_0.regs.stack_pointer == m.regs.stack_pointer
            &&& spec_step(rts_unit, spec_step(jsr_unit, m)->Ok_0)->Ok_0.cycles == m.cycles + 12
        }),
{
    let sp0 = m.regs.stack_pointer;
    let sp1 = wrap8(sp0 - 1);
    let pc1 = wrap16(m.regs.program_counter + 3);
    let ret = wrap16(pc1 - 1);
    let hi = (ret / 0x100) as u8;
    let lo = (ret % 0x100) as u8;
    let i0 = (0x100 + sp0) % 0x800;
    let i1 = (0x100 + sp1) % 0x800;
    assert(i0 == 0x100 + sp0);
    assert(i1 == 0x100 + sp1);
    assert(sp0 != sp1);
    assert(m.mem.update(i0 as int, hi).update(i1 as int, lo)[i1 as int] == lo);
    assert(m.mem.update(i0 as int, hi).update(i1 as int, lo)[i0 as int] == hi);
    assert(wrap8(wrap8(sp1 - 1) + 1) == sp1);
    assert(wrap8(sp1 + 1) == sp0);
    assert(lo + 0x100 * hi == ret);
    assert(wrap16(ret + 1) == pc1);
}

} // verus!

//! The mathematical model of the processor: a ghost record of the register
//! file, the physical memory contents and the cycle counter, together with
//! the state transformers that give each instruction family its meaning.

use vstd::prelude::*;
use crate::cpu::{flags_to_byte, flags_from_byte, CPURegisters, StatusFlags, CPU};
use crate::memory::{ram_index, ram_read};

verus! {

// ---------------------------------------------------------------------------
// Wraparound arithmetic
// ---------------------------------------------------------------------------

/// `n` reduced to the 8-bit range; defined for one wrap in either direction,
/// which covers every computation of the core.
pub open spec fn wrap8(n: int) -> u8
    recommends
        -0x100 <= n < 0x200,
{
    if n < 0 {
        (n + 0x100) as u8
    } else if n >= 0x100 {
        (n - 0x100) as u8
    } else {
        n as u8
    }
}

/// `n` reduced to the 16-bit range; defined for one wrap in either direction.
pub open spec fn wrap16(n: int) -> u16
    recommends
        -0x10000 <= n < 0x20000,
{
    if n < 0 {
        (n + 0x10000) as u16
    } else if n >= 0x10000 {
        (n - 0x10000) as u16
    } else {
        n as u16
    }
}

/// The two's-complement reading of a byte as a signed offset.
pub open spec fn sbyte(b: u8) -> i8 {
    if b >= 0x80 {
        (b - 0x100) as i8
    } else {
        b as i8
    }
}

/// Bit 7 of a byte, the sign bit.
pub open spec fn bit7(v: u8) -> bool {
    v >= 0x80
}

/// Bit 6 of a byte.
pub open spec fn bit6(v: u8) -> bool {
    (v / 64) % 2 == 1
}

/// Bit 0 of a byte.
pub open spec fn bit0(v: u8) -> bool {
    v % 2 == 1
}

/// The 256-byte page a 16-bit address lies in.
pub open spec fn page_of(addr: u16) -> int {
    addr as int / 0x100
}

// ---------------------------------------------------------------------------
// The machine model
// ---------------------------------------------------------------------------

/// The processor state as mathematics: registers, the 2 KB of physical
/// memory as a sequence, and the cycle counter as an unbounded natural.
#[verifier::ext_equal]
pub ghost struct CpuModel {
    pub regs: CPURegisters,
    pub mem: Seq<u8>,
    pub cycles: nat,
}

impl View for CPU {
    type V = CpuModel;

    open spec fn view(&self) -> CpuModel {
        CpuModel {
            regs: self.registers,
            mem: self.memory@,
            cycles: self.cycles as nat,
        }
    }
}

/// Replaces the register file of a model.
pub open spec fn with_regs(m: CpuModel, r: CPURegisters) -> CpuModel {
    CpuModel { regs: r, ..m }
}

/// Replaces the status flags of a model.
pub open spec fn with_flags(m: CpuModel, f: StatusFlags) -> CpuModel {
    with_regs(m, CPURegisters { status_register: f, ..m.regs })
}

/// Adds cycles to a model.
pub open spec fn add_cycles(m: CpuModel, c: usize) -> CpuModel {
    CpuModel { cycles: (m.cycles + c) as nat, ..m }
}

/// Stores one byte into the physical memory behind a backed address.
pub open spec fn with_mem_byte(m: CpuModel, addr: u16, v: u8) -> CpuModel {
    CpuModel { mem: m.mem.update(ram_index(addr), v), ..m }
}

/// The zero and negative flags recomputed from a result byte; both are set
/// and cleared to match the condition.
pub open spec fn zn(f: StatusFlags, v: u8) -> StatusFlags {
    StatusFlags { zero: v == 0, negative: bit7(v), ..f }
}

/// The program counter advanced with 16-bit wraparound.
pub open spec fn spec_incr_pc(m: CpuModel, amount: u16) -> CpuModel {
    with_regs(
        m,
        CPURegisters { program_counter: wrap16(m.regs.program_counter + amount), ..m.regs },
    )
}

// ---------------------------------------------------------------------------
// The stack
// ---------------------------------------------------------------------------

/// The bus address the stack pointer designates: page 1, descending.
pub open spec fn stack_addr(sp: u8) -> u16 {
    (0x100 + sp) as u16
}

/// A push: the byte lands at the current stack address, and the stack
/// pointer moves down with 8-bit wraparound.
pub open spec fn spec_stack_push(m: CpuModel, v: u8) -> CpuModel {
    CpuModel {
        regs: CPURegisters { stack_pointer: wrap8(m.regs.stack_pointer - 1), ..m.regs },
        mem: m.mem.update(ram_index(stack_addr(m.regs.stack_pointer)), v),
        cycles: m.cycles,
    }
}

/// A pull: the stack pointer moves up with 8-bit wraparound, and the byte
/// at the new stack address comes back.
pub open spec fn spec_stack_pull(m: CpuModel) -> (CpuModel, u8) {
    let sp = wrap8(m.regs.stack_pointer + 1);
    (
        with_regs(m, CPURegisters { stack_pointer: sp, ..m.regs }),
        ram_read(m.mem, stack_addr(sp)),
    )
}

// ---------------------------------------------------------------------------
// Address resolution
// ---------------------------------------------------------------------------

/// Zero-page indexing: base plus index, wrapped to the zero page.
pub open spec fn zp_index(base: u8, idx: u8) -> u16 {
    wrap8(base + idx) as u16
}

/// Absolute indexing: base plus index in 16-bit arithmetic.
pub open spec fn abs_indexed_addr(base: u16, idx: u8) -> u16 {
    wrap16(base + idx)
}

/// The 16-bit pointer stored little-endian in the zero page at `d`; its high
/// byte comes from `d + 1` wrapped within the zero page.
pub open spec fn zp_ptr(mem: Seq<u8>, d: u8) -> u16 {
    (ram_read(mem, d as u16) + 0x100 * ram_read(mem, wrap8(d + 1) as u16)) as u16
}

/// The jump target stored at `ptr`, with the hardware page-wrap defect: when
/// the low byte of `ptr` is 0xFF, the high byte of the target is read from
/// the start of the same page, not from the next page.
pub open spec fn indirect_target(mem: Seq<u8>, ptr: u16) -> u16 {
    let hi_addr = if ptr % 0x100 == 0xFF {
        (ptr - 0xFF) as u16
    } else {
        (ptr + 1) as u16
    };
    (ram_read(mem, ptr) + 0x100 * ram_read(mem, hi_addr)) as u16
}

// ---------------------------------------------------------------------------
// Loads, stores, transfers
// ---------------------------------------------------------------------------

/// Load accumulator: destination takes the operand; zero/negative follow.
pub open spec fn spec_lda(m: CpuModel, v: u8, c: usize) -> CpuModel {
    add_cycles(
        with_regs(
            m,
            CPURegisters {
                accumulator: v,
                status_register: zn(m.regs.status_register, v),
                ..m.regs
            },
        ),
        c,
    )
}

/// Load index X.
pub open spec fn spec_ldx(m: CpuModel, v: u8, c: usize) -> CpuModel {
    add_cycles(
        with_regs(
            m,
            CPURegisters { index_x: v, status_register: zn(m.regs.status_register, v), ..m.regs },
        ),
        c,
    )
}

/// Load index Y.
pub open spec fn spec_ldy(m: CpuModel, v: u8, c: usize) -> CpuModel {
    add_cycles(
        with_regs(
            m,
            CPURegisters { index_y: v, status_register: zn(m.regs.status_register, v), ..m.regs },
        ),
        c,
    )
}

/// Store accumulator: memory takes the register; no flag changes.
pub open spec fn spec_sta(m: CpuModel, addr: u16, c: usize) -> CpuModel {
    add_cycles(with_mem_byte(m, addr, m.regs.accumulator), c)
}

/// Store index X.
pub open spec fn spec_stx(m: CpuModel, addr: u16, c: usize) -> CpuModel {
    add_cycles(with_mem_byte(m, addr, m.regs.index_x), c)
}

/// Store index Y.
pub open spec fn spec_sty(m: CpuModel, addr: u16, c: usize) -> CpuModel {
    add_cycles(with_mem_byte(m, addr, m.regs.index_y), c)
}

/// Store accumulator AND index X (the fused unofficial store form).
pub open spec fn spec_sax(m: CpuModel, addr: u16, c: usize) -> CpuModel {
    add_cycles(with_mem_byte(m, addr, m.regs.accumulator & m.regs.index_x), c)
}

/// Transfer accumulator to X; zero/negative follow the destination.
pub open spec fn spec_tax(m: CpuModel) -> CpuModel {
    add_cycles(
        with_regs(
            m,
            CPURegisters {
                index_x: m.regs.accumulator,
                status_register: zn(m.regs.status_register, m.regs.accumulator),
                ..m.regs
            },
        ),
        2,
    )
}

/// Transfer accumulator to Y.
pub open spec fn spec_tay(m: CpuModel) -> CpuModel {
    add_cycles(
        with_regs(
            m,
            CPURegisters {
                index_y: m.regs.accumulator,
                status_register: zn(m.regs.status_register, m.regs.accumulator),
                ..m.regs
            },
        ),
        2,
    )
}

/// Transfer X to accumulator.
pub open spec fn spec_txa(m: CpuModel) -> CpuModel {
    add_cycles(
        with_regs(
            m,
            CPURegisters {
                accumulator: m.regs.index_x,
                status_register: zn(m.regs.status_register, m.regs.index_x),
                ..m.regs
            },
        ),
        2,
    )
}

/// Transfer Y to accumulator.
pub open spec fn spec_tya(m: CpuModel) -> CpuModel {
    add_cycles(
        with_regs(
            m,
            CPURegisters {
                accumulator: m.regs.index_y,
                status_register: zn(m.regs.status_register, m.regs.index_y),
                ..m.regs
            },
        ),
        2,
    )
}

/// Transfer stack pointer to X; zero/negative follow.
pub open spec fn spec_tsx(m: CpuModel) -> CpuModel {
    add_cycles(
        with_regs(
            m,
            CPURegisters {
                index_x: m.regs.stack_pointer,
                status_register: zn(m.regs.status_register, m.regs.stack_pointer),
                ..m.regs
            },
        ),
        2,
    )
}

/// Transfer X to stack pointer; no flag changes.
pub open spec fn spec_txs(m: CpuModel) -> CpuModel {
    add_cycles(with_regs(m, CPURegisters { stack_pointer: m.regs.index_x, ..m.regs }), 2)
}

// ---------------------------------------------------------------------------
// Stack instructions
// ---------------------------------------------------------------------------

/// Push accumulator.
pub open spec fn spec_pha(m: CpuModel) -> CpuModel {
    add_cycles(spec_stack_push(m, m.regs.accumulator), 3)
}

/// Push the packed status byte.
pub open spec fn spec_php(m: CpuModel) -> CpuModel {
    add_cycles(spec_stack_push(m, flags_to_byte(m.regs.status_register)), 3)
}

/// Pull accumulator; zero/negative follow.
pub open spec fn spec_pla(m: CpuModel) -> CpuModel {
    let pulled = spec_stack_pull(m);
    let v = pulled.1;
    add_cycles(
        with_regs(
            pulled.0,
            CPURegisters {
                accumulator: v,
                status_register: zn(m.regs.status_register, v),
                ..pulled.0.regs
            },
        ),
        4,
    )
}

/// Pull the packed status byte and unpack it into the eight flags.
pub open spec fn spec_plp(m: CpuModel) -> CpuModel {
    let pulled = spec_stack_pull(m);
    add_cycles(
        with_regs(
            pulled.0,
            CPURegisters { status_register: flags_from_byte(pulled.1), ..pulled.0.regs },
        ),
        4,
    )
}

// ---------------------------------------------------------------------------
// Logical and arithmetic instructions
// ---------------------------------------------------------------------------

/// Bitwise AND into the accumulator; zero/negative follow.
pub open spec fn spec_and(m: CpuModel, v: u8, c: usize) -> CpuModel {
    spec_lda(m, m.regs.accumulator & v, c)
}

/// Bitwise exclusive OR into the accumulator.
pub open spec fn spec_eor(m: CpuModel, v: u8, c: usize) -> CpuModel {
    spec_lda(m, m.regs.accumulator ^ v, c)
}

/// Bitwise inclusive OR into the accumulator.
pub open spec fn spec_ora(m: CpuModel, v: u8, c: usize) -> CpuModel {
    spec_lda(m, m.regs.accumulator | v, c)
}

/// Bit test: zero from the masked accumulator, overflow and negative copied
/// from bits 6 and 7 of the operand; the accumulator itself is untouched.
pub open spec fn spec_bit_test(m: CpuModel, v: u8, c: usize) -> CpuModel {
    add_cycles(
        with_flags(
            m,
            StatusFlags {
                zero: m.regs.accumulator & v == 0,
                overflow: bit6(v),
                negative: bit7(v),
                ..m.regs.status_register
            },
        ),
        c,
    )
}

/// Add with carry: 8-bit wraparound sum of accumulator, operand and carry-in;
/// carry reports unsigned overflow; overflow reports the signed rule (two
/// like-signed operands whose result sign differs); zero/negative follow.
pub open spec fn spec_adc(m: CpuModel, v: u8, c: usize) -> CpuModel {
    let a = m.regs.accumulator;
    let cin: int = if m.regs.status_register.carry { 1 } else { 0 };
    let total: int = a + v + cin;
    let r = wrap8(total);
    add_cycles(
        with_regs(
            m,
            CPURegisters {
                accumulator: r,
                status_register: StatusFlags {
                    carry: total > 0xFF,
                    overflow: bit7(a) == bit7(v) && bit7(r) != bit7(a),
                    zero: r == 0,
                    negative: bit7(r),
                    ..m.regs.status_register
                },
                ..m.regs
            },
        ),
        c,
    )
}

/// Subtract with carry: the complement of carry acts as borrow; carry is set
/// when no borrow was needed; overflow follows the signed rule in its
/// subtractive form; zero/negative follow.
pub open spec fn spec_sbc(m: CpuModel, v: u8, c: usize) -> CpuModel {
    let a = m.regs.accumulator;
    let borrow: int = if m.regs.status_register.carry { 0 } else { 1 };
    let total: int = a - v - borrow;
    let r = wrap8(total);
    add_cycles(
        with_regs(
            m,
            CPURegisters {
                accumulator: r,
                status_register: StatusFlags {
                    carry: total >= 0,
                    overflow: bit7(a) != bit7(v) && bit7(r) != bit7(a),
                    zero: r == 0,
                    negative: bit7(r),
                    ..m.regs.status_register
                },
                ..m.regs
            },
        ),
        c,
    )
}

/// The comparison flags for register value `reg` against operand `v`:
/// carry when the register is at least the operand, zero on equality, and
/// negative from bit 7 of the wraparound difference.  Underflow is defined
/// wraparound, never an error.
pub open spec fn compare_flags(f: StatusFlags, reg: u8, v: u8) -> StatusFlags {
    StatusFlags { carry: reg >= v, zero: reg == v, negative: bit7(wrap8(reg - v)), ..f }
}

/// Compare accumulator; no register changes.
pub open spec fn spec_cmp(m: CpuModel, v: u8, c: usize) -> CpuModel {
    add_cycles(with_flags(m, compare_flags(m.regs.status_register, m.regs.accumulator, v)), c)
}

/// Compare index X.
pub open spec fn spec_cpx(m: CpuModel, v: u8, c: usize) -> CpuModel {
    add_cycles(with_flags(m, compare_flags(m.regs.status_register, m.regs.index_x, v)), c)
}

/// Compare index Y.
pub open spec fn spec_cpy(m: CpuModel, v: u8, c: usize) -> CpuModel {
    add_cycles(with_flags(m, compare_flags(m.regs.status_register, m.regs.index_y, v)), c)
}

// ---------------------------------------------------------------------------
// Increments, decrements
// ---------------------------------------------------------------------------

/// Increment a memory location with 8-bit wraparound; zero/negative follow.
pub open spec fn spec_inc(m: CpuModel, addr: u16, c: usize) -> CpuModel {
    let r = wrap8(ram_read(m.mem, addr) + 1);
    add_cycles(with_flags(with_mem_byte(m, addr, r), zn(m.regs.status_register, r)), c)
}

/// Decrement a memory location with 8-bit wraparound.
pub open spec fn spec_dec(m: CpuModel, addr: u16, c: usize) -> CpuModel {
    let r = wrap8(ram_read(m.mem, addr) - 1);
    add_cycles(with_flags(with_mem_byte(m, addr, r), zn(m.regs.status_register, r)), c)
}

/// Increment index X with 8-bit wraparound.
pub open spec fn spec_inx(m: CpuModel) -> CpuModel {
    spec_ldx(m, wrap8(m.regs.index_x + 1), 2)
}

/// Increment index Y with 8-bit wraparound.
pub open spec fn spec_iny(m: CpuModel) -> CpuModel {
    spec_ldy(m, wrap8(m.regs.index_y + 1), 2)
}

/// Decrement index X with 8-bit wraparound.
pub open spec fn spec_dex(m: CpuModel) -> CpuModel {
    spec_ldx(m, wrap8(m.regs.index_x - 1), 2)
}

/// Decrement index Y with 8-bit wraparound.
pub open spec fn spec_dey(m: CpuModel) -> CpuModel {
    spec_ldy(m, wrap8(m.regs.index_y - 1), 2)
}

// ---------------------------------------------------------------------------
// Shifts and rotates
// ---------------------------------------------------------------------------

/// The shifted byte and the carry for an arithmetic shift left.
pub open spec fn asl_result(v: u8) -> u8 {
    wrap8(2 * v)
}

/// The shifted byte for a logical shift right.
pub open spec fn lsr_result(v: u8) -> u8 {
    v / 2
}

/// The rotated byte for a rotate left: prior carry fills bit 0.
pub open spec fn rol_result(v: u8, carry_in: bool) -> u8 {
    wrap8(2 * v + (if carry_in { 1int } else { 0int }))
}

/// The rotated byte for a rotate right: prior carry fills bit 7.
pub open spec fn ror_result(v: u8, carry_in: bool) -> u8 {
    (v / 2 + (if carry_in { 0x80int } else { 0int })) as u8
}

/// A shift or rotate applied to the accumulator: the result replaces the
/// accumulator, the named carry is the bit shifted out, zero/negative follow.
pub open spec fn spec_shift_acc(m: CpuModel, r: u8, carry_out: bool, c: usize) -> CpuModel {
    add_cycles(
        with_regs(
            m,
            CPURegisters {
                accumulator: r,
                status_register: StatusFlags {
                    carry: carry_out,
                    ..zn(m.regs.status_register, r)
                },
                ..m.regs
            },
        ),
        c,
    )
}

/// A shift or rotate applied to a memory location.
pub open spec fn spec_shift_mem(
    m: CpuModel,
    addr: u16,
    r: u8,
    carry_out: bool,
    c: usize,
) -> CpuModel {
    add_cycles(
        with_flags(
            with_mem_byte(m, addr, r),
            StatusFlags { carry: carry_out, ..zn(m.regs.status_register, r) },
        ),
        c,
    )
}

// ---------------------------------------------------------------------------
// Jumps, calls, branches
// ---------------------------------------------------------------------------

/// Jump: the program counter takes the target.
pub open spec fn spec_jmp(m: CpuModel, target: u16, c: usize) -> CpuModel {
    add_cycles(with_regs(m, CPURegisters { program_counter: target, ..m.regs }), c)
}

/// Jump to subroutine: the address of the call's last byte (the program
/// counter past the 3-byte instruction, minus one) is pushed high byte
/// first onto the stack, and the program counter takes the target.
pub open spec fn spec_jsr(m: CpuModel, target: u16) -> CpuModel {
    let ret = wrap16(m.regs.program_counter - 1);
    let hi = (ret / 0x100) as u8;
    let lo = (ret % 0x100) as u8;
    let pushed = spec_stack_push(spec_stack_push(m, hi), lo);
    add_cycles(with_regs(pushed, CPURegisters { program_counter: target, ..pushed.regs }), 6)
}

/// Return from subroutine: the return address is pulled low byte first and
/// incremented by one.
pub open spec fn spec_rts(m: CpuModel) -> CpuModel {
    let first = spec_stack_pull(m);
    let second = spec_stack_pull(first.0);
    let target = wrap16(first.1 + 0x100 * second.1 + 1);
    add_cycles(
        with_regs(second.0, CPURegisters { program_counter: target, ..second.0.regs }),
        6,
    )
}

/// The taken path of a conditional branch: the program counter moves by the
/// signed offset with 16-bit wraparound, for 1 extra cycle, or 2 when the
/// destination lies in a different page.
pub open spec fn spec_branch_taken(m: CpuModel, off: i8) -> CpuModel {
    let np = wrap16(m.regs.program_counter + off);
    let c: usize = if page_of(np) != page_of(m.regs.program_counter) {
        2
    } else {
        1
    };
    add_cycles(with_regs(m, CPURegisters { program_counter: np, ..m.regs }), c)
}

/// A conditional branch, after the 2-byte instruction has been fetched: not
/// taken costs 2 cycles; taken costs 3, or 4 when the branch crosses a page.
pub open spec fn spec_branch(m: CpuModel, taken: bool, off: i8) -> CpuModel {
    if taken {
        add_cycles(spec_branch_taken(m, off), 2)
    } else {
        add_cycles(m, 2)
    }
}

// ---------------------------------------------------------------------------
// The fused unofficial opcodes
// ---------------------------------------------------------------------------

/// Load accumulator and X together; zero/negative follow.
pub open spec fn spec_lax(m: CpuModel, v: u8, c: usize) -> CpuModel {
    add_cycles(
        with_regs(
            m,
            CPURegisters {
                accumulator: v,
                index_x: v,
                status_register: zn(m.regs.status_register, v),
                ..m.regs
            },
        ),
        c,
    )
}

/// Shift left in memory, fused with OR into the accumulator.
pub open spec fn spec_slo(m: CpuModel, addr: u16, c: usize) -> CpuModel {
    let v = ram_read(m.mem, addr);
    let s = asl_result(v);
    spec_ora(
        with_flags(
            with_mem_byte(m, addr, s),
            StatusFlags { carry: bit7(v), ..m.regs.status_register },
        ),
        s,
        c,
    )
}

/// Rotate left in memory, fused with AND into the accumulator.
pub open spec fn spec_rla(m: CpuModel, addr: u16, c: usize) -> CpuModel {
    let v = ram_read(m.mem, addr);
    let s = rol_result(v, m.regs.status_register.carry);
    spec_and(
        with_flags(
            with_mem_byte(m, addr, s),
            StatusFlags { carry: bit7(v), ..m.regs.status_register },
        ),
        s,
        c,
    )
}

/// Shift right in memory, fused with exclusive OR into the accumulator.
pub open spec fn spec_sre(m: CpuModel, addr: u16, c: usize) -> CpuModel {
    let v = ram_read(m.mem, addr);
    let s = lsr_result(v);
    spec_eor(
        with_flags(
            with_mem_byte(m, addr, s),
            StatusFlags { carry: bit0(v), ..m.regs.status_register },
        ),
        s,
        c,
    )
}

/// Rotate right in memory, fused with an add-with-carry of the result.
pub open spec fn spec_rra(m: CpuModel, addr: u16, c: usize) -> CpuModel {
    let v = ram_read(m.mem, addr);
    let s = ror_result(v, m.regs.status_register.carry);
    spec_adc(
        with_flags(
            with_mem_byte(m, addr, s),
            StatusFlags { carry: bit0(v), ..m.regs.status_register },
        ),
        s,
        c,
    )
}

/// Decrement memory, fused with a compare against the accumulator.
pub open spec fn spec_dcp(m: CpuModel, addr: u16, c: usize) -> CpuModel {
    let s = wrap8(ram_read(m.mem, addr) - 1);
    spec_cmp(with_mem_byte(m, addr, s), s, c)
}

/// Increment memory, fused with a subtract-with-carry of the result.
pub open spec fn spec_isc(m: CpuModel, addr: u16, c: usize) -> CpuModel {
    let s = wrap8(ram_read(m.mem, addr) + 1);
    spec_sbc(with_mem_byte(m, addr, s), s, c)
}

/// AND immediate, copying the sign of the result into carry.
pub open spec fn spec_anc(m: CpuModel, v: u8) -> CpuModel {
    let a = m.regs.accumulator & v;
    add_cycles(
        with_regs(
            m,
            CPURegisters {
                accumulator: a,
                status_register: StatusFlags {
                    carry: bit7(a),
                    ..zn(m.regs.status_register, a)
                },
                ..m.regs
            },
        ),
        2,
    )
}

/// AND immediate, fused with a logical shift right of the accumulator.
pub open spec fn spec_alr(m: CpuModel, v: u8) -> CpuModel {
    let t = m.regs.accumulator & v;
    let r = lsr_result(t);
    add_cycles(
        with_regs(
            m,
            CPURegisters {
                accumulator: r,
                status_register: StatusFlags {
                    carry: bit0(t),
                    ..zn(m.regs.status_register, r)
                },
                ..m.regs
            },
        ),
        2,
    )
}

/// X takes (accumulator AND X) minus the operand, with compare-style carry.
pub open spec fn spec_axs(m: CpuModel, v: u8) -> CpuModel {
    let t = m.regs.accumulator & m.regs.index_x;
    let r = wrap8(t - v);
    add_cycles(
        with_regs(
            m,
            CPURegisters {
                index_x: r,
                status_register: StatusFlags {
                    carry: t >= v,
                    ..zn(m.regs.status_register, r)
                },
                ..m.regs
            },
        ),
        2,
    )
}

// ---------------------------------------------------------------------------
// Flag instructions and the interrupt helper
// ---------------------------------------------------------------------------

/// A two-cycle instruction that replaces the status flags.
pub open spec fn spec_set_flags(m: CpuModel, f: StatusFlags) -> CpuModel {
    add_cycles(with_flags(m, f), 2)
}

/// The flag effect of the interrupt entry: both break bits and the
/// interrupt-disable flag are set; nothing else moves.
pub open spec fn spec_brk_flags(m: CpuModel) -> CpuModel {
    with_flags(
        m,
        StatusFlags {
            b_flag_4: true,
            b_flag_5: true,
            interrupt_disable: true,
            ..m.regs.status_register
        },
    )
}

} // verus!

//! The per-instruction semantics: each method performs one mnemonic's full
//! register, memory and flag effect and charges the cycles it is handed.
//!
//! Zero and negative flags are always both set and cleared to match the
//! result, and every wraparound (8-bit arithmetic, zero-page indexing,
//! stack pointer, program counter) is defined behavior, never an error.

use vstd::prelude::*;
use crate::cpu::{StatusFlags, CPU};
use crate::memory::{in_ram, ram_read};
use crate::model::{
    asl_result, bit0, bit7, lsr_result, rol_result, ror_result, spec_adc, spec_alr, spec_anc,
    spec_and, spec_axs, spec_bit_test, spec_branch, spec_branch_taken, spec_brk_flags, spec_cmp,
    spec_cpx, spec_cpy, spec_dcp, spec_dec, spec_dex, spec_dey, spec_eor, spec_inc, spec_inx,
    spec_iny, spec_isc, spec_jmp, spec_jsr, spec_lax, spec_lda, spec_ldx, spec_ldy, spec_ora,
    spec_pha, spec_php, spec_pla, spec_plp, spec_rla, spec_rra, spec_rts, spec_sax, spec_sbc,
    spec_set_flags, spec_shift_acc, spec_shift_mem, spec_slo, spec_sre, spec_sta, spec_stx,
    spec_sty, spec_tax, spec_tay, spec_tsx, spec_txa, spec_txs, spec_tya,
};
use crate::cpu::CPURegisters;
use crate::utils::{wrapping_add8, wrapping_sub8};

verus! {

impl CPU {
    /// Sets or clears the zero flag from a result byte.
    fn set_z_flag(&mut self, value: u8)
        ensures
            final(self).registers.status_register == (StatusFlags {
                zero: value == 0,
                ..old(self).registers.status_register
            }),
            final(self).registers == (CPURegisters {
                status_register: final(self).registers.status_register,
                ..old(self).registers
            }),
            final(self).cycles == old(self).cycles,
            final(self).memory@ == old(self).memory@,
    {
        self.registers.status_register.zero = value == 0;
    }

    /// Sets or clears the negative flag from bit 7 of a result byte.
    fn set_n_flag(&mut self, value: u8)
        ensures
            final(self).registers.status_register == (StatusFlags {
                negative: bit7(value),
                ..old(self).registers.status_register
            }),
            final(self).registers == (CPURegisters {
                status_register: final(self).registers.status_register,
                ..old(self).registers
            }),
            final(self).cycles == old(self).cycles,
            final(self).memory@ == old(self).memory@,
    {
        self.registers.status_register.negative = value >= 0x80;
    }

    /// The taken path of a branch: moves the program counter and charges the
    /// extra cycle, or two when the destination page differs.
    fn branch(&mut self, value: i8)
        requires
            old(self).cycles + 2 <= usize::MAX,
        ensures
            final(self)@ == spec_branch_taken(old(self)@, value),
    {
        let pc: u16 = self.registers.program_counter;
        let t: i32 = pc as i32 + value as i32;
        let np: u16 = if t < 0 {
            (t + 0x10000) as u16
        } else if t >= 0x10000 {
            (t - 0x10000) as u16
        } else {
            t as u16
        };
        self.registers.program_counter = np;
        if np / 0x100 != pc / 0x100 {
            self.incr_cycles(2);
        } else {
            self.incr_cycles(1);
        }
    }

    /// Load accumulator.
    pub fn lda(&mut self, value: u8, cycles: usize)
        requires
            old(self).cycles + cycles <= usize::MAX,
        ensures
            final(self)@ == spec_lda(old(self)@, value, cycles),
    {
        self.registers.accumulator = value;
        let r: u8 = self.registers.accumulator;
        self.set_z_flag(r);
        self.set_n_flag(r);
        self.incr_cycles(cycles)
    }

    /// Load X register.
    pub fn ldx(&mut self, value: u8, cycles: usize)
        requires
            old(self).cycles + cycles <= usize::MAX,
        ensures
            final(self)@ == spec_ldx(old(self)@, value, cycles),
    {
        self.registers.index_x = value;
        let r: u8 = self.registers.index_x;
        self.set_z_flag(r);
        self.set_n_flag(r);
        self.incr_cycles(cycles);
    }

    /// Load Y register.
    pub fn ldy(&mut self, value: u8, cycles: usize)
        requires
            old(self).cycles + cycles <= usize::MAX,
        ensures
            final(self)@ == spec_ldy(old(self)@, value, cycles),
    {
        self.registers.index_y = value;
        let r: u8 = self.registers.index_y;
        self.set_z_flag(r);
        self.set_n_flag(r);
        self.incr_cycles(cycles);
    }

    /// Store accumulator; no flag changes.
    pub fn sta(&mut self, addr: u16, cycles: usize)
        requires
            in_ram(addr),
            old(self).cycles + cycles <= usize::MAX,
        ensures
            final(self)@ == spec_sta(old(self)@, addr, cycles),
    {
        let v: u8 = self.registers.accumulator;
        self.memory.write_ram(addr, v);
        self.incr_cycles(cycles);
    }

    /// Store X register.
    pub fn stx(&mut self, addr: u16, cycles: usize)
        requires
            in_ram(addr),
            old(self).cycles + cycles <= usize::MAX,
        ensures
            final(self)@ == spec_stx(old(self)@, addr, cycles),
    {
        let v: u8 = self.registers.index_x;
        self.memory.write_ram(addr, v);
        self.incr_cycles(cycles);
    }

    /// Store Y register.
    pub fn sty(&mut self, addr: u16, cycles: usize)
        requires
            in_ram(addr),
            old(self).cycles + cycles <= usize::MAX,
        ensures
            final(self)@ == spec_sty(old(self)@, addr, cycles),
    {
        let v: u8 = self.registers.index_y;
        self.memory.write_ram(addr, v);
        self.incr_cycles(cycles);
    }

    /// Store accumulator AND X; no flag changes.
    pub fn sax(&mut self, addr: u16, cycles: usize)
        requires
            in_ram(addr),
            old(self).cycles + cycles <= usize::MAX,
        ensures
            final(self)@ == spec_sax(old(self)@, addr, cycles),
    {
        let v: u8 = self.registers.accumulator & self.registers.index_x;
        self.memory.write_ram(addr, v);
        self.incr_cycles(cycles);
    }

    /// Transfer accumulator to X.
    pub fn tax(&mut self)
        requires
            old(self).cycles + 2 <= usize::MAX,
        ensures
            final(self)@ == spec_tax(old(self)@),
    {
        self.registers.index_x = self.registers.accumulator;
        let r: u8 = self.registers.index_x;
        self.set_z_flag(r);
        self.set_n_flag(r);
        self.incr_cycles(2);
    }

    /// Transfer accumulator to Y.
    pub fn tay(&mut self)
        requires
            old(self).cycles + 2 <= usize::MAX,
        ensures
            final(self)@ == spec_tay(old(self)@),
    {
        self.registers.index_y = self.registers.accumulator;
        let r: u8 = self.registers.index_y;
        self.set_z_flag(r);
        self.set_n_flag(r);
        self.incr_cycles(2);
    }

    /// Transfer X to accumulator.
    pub fn txa(&mut self)
        requires
            old(self).cycles + 2 <= usize::MAX,
        ensures
            final(self)@ == spec_txa(old(self)@),
    {
        self.registers.accumulator = self.registers.index_x;
        let r: u8 = self.registers.accumulator;
        self.set_z_flag(r);
        self.set_n_flag(r);
        self.incr_cycles(2);
    }

    /// Transfer Y to accumulator.
    pub fn tya(&mut self)
        requires
            old(self).cycles + 2 <= usize::MAX,
        ensures
            final(self)@ == spec_tya(old(self)@),
    {
        self.registers.accumulator = self.registers.index_y;
        let r: u8 = self.registers.accumulator;
        self.set_z_flag(r);
        self.set_n_flag(r);
        self.incr_cycles(2);
    }

    /// Transfer stack pointer to X.
    pub fn tsx(&mut self)
        requires
            old(self).cycles + 2 <= usize::MAX,
        ensures
            final(self)@ == spec_tsx(old(self)@),
    {
        self.registers.index_x = self.registers.stack_pointer;
        let r: u8 = self.registers.index_x;
        self.set_z_flag(r);
        self.set_n_flag(r);
        self.incr_cycles(2);
    }

    /// Transfer X to stack pointer; no flag changes.
    pub fn txs(&mut self)
        requires
            old(self).cycles + 2 <= usize::MAX,
        ensures
            final(self)@ == spec_txs(old(self)@),
    {
        self.registers.stack_pointer = self.registers.index_x;
        self.incr_cycles(2);
    }

    /// Push accumulator on the stack.
    pub fn pha(&mut self)
        requires
            old(self).cycles + 3 <= usize::MAX,
        ensures
            final(self)@ == spec_pha(old(self)@),
    {
        let v: u8 = self.registers.accumulator;
        self.stack_push(v);
        self.incr_cycles(3);
    }

    /// Push the packed status byte on the stack.
    pub fn php(&mut self)
        requires
            old(self).cycles + 3 <= usize::MAX,
        ensures
            final(self)@ == spec_php(old(self)@),
    {
        let v: u8 = self.registers.status_register.to_byte();
        self.stack_push(v);
        self.incr_cycles(3);
    }

    /// Pull accumulator from the stack.
    pub fn pla(&mut self)
        requires
            old(self).cycles + 4 <= usize::MAX,
        ensures
            final(self)@ == spec_pla(old(self)@),
    {
        let v: u8 = self.stack_pull();
        self.registers.accumulator = v;
        self.set_z_flag(v);
        self.set_n_flag(v);
        self.incr_cycles(4);
    }

    /// Pull the packed status byte from the stack into the eight flags.
    pub fn plp(&mut self)
        requires
            old(self).cycles + 4 <= usize::MAX,
        ensures
            final(self)@ == spec_plp(old(self)@),
    {
        let v: u8 = self.stack_pull();
        self.registers.status_register = StatusFlags::from_byte(v);
        self.incr_cycles(4);
    }

    /// Bitwise AND into the accumulator.
    pub fn and(&mut self, value: u8, cycles: usize)
        requires
            old(self).cycles + cycles <= usize::MAX,
        ensures
            final(self)@ == spec_and(old(self)@, value, cycles),
    {
        let r: u8 = self.registers.accumulator & value;
        self.lda(r, cycles);
    }

    /// Bitwise exclusive OR into the accumulator.
    pub fn eor(&mut self, value: u8, cycles: usize)
        requires
            old(self).cycles + cycles <= usize::MAX,
        ensures
            final(self)@ == spec_eor(old(self)@, value, cycles),
    {
        let r: u8 = self.registers.accumulator ^ value;
        self.lda(r, cycles);
    }

    /// Bitwise inclusive OR into the accumulator.
    pub fn ora(&mut self, value: u8, cycles: usize)
        requires
            old(self).cycles + cycles <= usize::MAX,
        ensures
            final(self)@ == spec_ora(old(self)@, value, cycles),
    {
        let r: u8 = self.registers.accumulator | value;
        self.lda(r, cycles);
    }

    /// Bit test: zero from the masked accumulator, overflow and negative
    /// copied from bits 6 and 7 of the operand.
    pub fn bit(&mut self, value: u8, cycles: usize)
        requires
            old(self).cycles + cycles <= usize::MAX,
        ensures
            final(self)@ == spec_bit_test(old(self)@, value, cycles),
    {
        let masked: u8 = self.registers.accumulator & value;
        self.set_z_flag(masked);
        self.registers.status_register.overflow = (value / 64) % 2 == 1;
        self.set_n_flag(value);
        self.incr_cycles(cycles);
    }

    /// Add with carry; decimal mode is tracked as a flag only, the
    /// arithmetic stays binary.
    pub fn adc(&mut self, value: u8, cycles: usize)
        requires
            old(self).cycles + cycles <= usize::MAX,
        ensures
            final(self)@ == spec_adc(old(self)@, value, cycles),
    {
        let a: u8 = self.registers.accumulator;
        let cin: u16 = if self.registers.status_register.carry { 1 } else { 0 };
        let total: u16 = a as u16 + value as u16 + cin;
        let r: u8 = if total > 0xFF {
            (total - 0x100) as u8
        } else {
            total as u8
        };
        self.registers.accumulator = r;
        self.registers.status_register.carry = total > 0xFF;
        self.registers.status_register.overflow = ((a >= 0x80) == (value >= 0x80)) && ((r >= 0x80)
            != (a >= 0x80));
        self.set_z_flag(r);
        self.set_n_flag(r);
        self.incr_cycles(cycles);
    }

    /// Subtract with carry: the complement of carry acts as borrow.
    pub fn sbc(&mut self, value: u8, cycles: usize)
        requires
            old(self).cycles + cycles <= usize::MAX,
        ensures
            final(self)@ == spec_sbc(old(self)@, value, cycles),
    {
        let a: u8 = self.registers.accumulator;
        let borrow: i16 = if self.registers.status_register.carry { 0 } else { 1 };
        let total: i16 = a as i16 - value as i16 - borrow;
        let r: u8 = if total < 0 {
            (total + 0x100) as u8
        } else {
            total as u8
        };
        self.registers.accumulator = r;
        self.registers.status_register.carry = total >= 0;
        self.registers.status_register.overflow = ((a >= 0x80) != (value >= 0x80)) && ((r >= 0x80)
            != (a >= 0x80));
        self.set_z_flag(r);
        self.set_n_flag(r);
        self.incr_cycles(cycles);
    }

    /// Compare accumulator: non-mutating; underflow is defined wraparound.
    pub fn cmp(&mut self, value: u8, cycles: usize)
        requires
            old(self).cycles + cycles <= usize::MAX,
        ensures
            final(self)@ == spec_cmp(old(self)@, value, cycles),
    {
        let reg: u8 = self.registers.accumulator;
        self.registers.status_register.carry = reg >= value;
        self.registers.status_register.zero = reg == value;
        let d: u8 = wrapping_sub8(reg, value);
        self.set_n_flag(d);
        self.incr_cycles(cycles);
    }

    /// Compare X register.
    pub fn cpx(&mut self, value: u8, cycles: usize)
        requires
            old(self).cycles + cycles <= usize::MAX,
        ensures
            final(self)@ == spec_cpx(old(self)@, value, cycles),
    {
        let reg: u8 = self.registers.index_x;
        self.registers.status_register.carry = reg >= value;
        self.registers.status_register.zero = reg == value;
        let d: u8 = wrapping_sub8(reg, value);
        self.set_n_flag(d);
        self.incr_cycles(cycles);
    }

    /// Compare Y register.
    pub fn cpy(&mut self, value: u8, cycles: usize)
        requires
            old(self).cycles + cycles <= usize::MAX,
        ensures
            final(self)@ == spec_cpy(old(self)@, value, cycles),
    {
        let reg: u8 = self.registers.index_y;
        self.registers.status_register.carry = reg >= value;
        self.registers.status_register.zero = reg == value;
        let d: u8 = wrapping_sub8(reg, value);
        self.set_n_flag(d);
        self.incr_cycles(cycles);
    }

    /// Increment a memory location with 8-bit wraparound.
    pub fn inc(&mut self, value: u16, cycles: usize)
        requires
            in_ram(value),
            old(self).cycles + cycles <= usize::MAX,
        ensures
            final(self)@ == spec_inc(old(self)@, value, cycles),
    {
        let v: u8 = self.memory.read_ram(value);
        let r: u8 = wrapping_add8(v, 1);
        self.memory.write_ram(value, r);
        self.set_z_flag(r);
        self.set_n_flag(r);
        self.incr_cycles(cycles);
    }

    /// Increment the X register with 8-bit wraparound.
    pub fn inx(&mut self)
        requires
            old(self).cycles + 2 <= usize::MAX,
        ensures
            final(self)@ == spec_inx(old(self)@),
    {
        let r: u8 = wrapping_add8(self.registers.index_x, 1);
        self.ldx(r, 2);
    }

    /// Increment the Y register with 8-bit wraparound.
    pub fn iny(&mut self)
        requires
            old(self).cycles + 2 <= usize::MAX,
        ensures
            final(self)@ == spec_iny(old(self)@),
    {
        let r: u8 = wrapping_add8(self.registers.index_y, 1);
        self.ldy(r, 2);
    }

    /// Decrement a memory location with 8-bit wraparound.
    pub fn dec(&mut self, value: u16, cycles: usize)
        requires
            in_ram(value),
            old(self).cycles + cycles <= usize::MAX,
        ensures
            final(self)@ == spec_dec(old(self)@, value, cycles),
    {
        let v: u8 = self.memory.read_ram(value);
        let r: u8 = wrapping_sub8(v, 1);
        self.memory.write_ram(value, r);
        self.set_z_flag(r);
        self.set_n_flag(r);
        self.incr_cycles(cycles);
    }

    /// Decrement the X register with 8-bit wraparound.
    pub fn dex(&mut self)
        requires
            old(self).cycles + 2 <= usize::MAX,
        ensures
            final(self)@ == spec_dex(old(self)@),
    {
        let r: u8 = wrapping_sub8(self.registers.index_x, 1);
        self.ldx(r, 2);
    }

    /// Decrement the Y register with 8-bit wraparound.
    pub fn dey(&mut self)
        requires
            old(self).cycles + 2 <= usize::MAX,
        ensures
            final(self)@ == spec_dey(old(self)@),
    {
        let r: u8 = wrapping_sub8(self.registers.index_y, 1);
        self.ldy(r, 2);
    }

    /// Arithmetic shift left of the accumulator; carry takes bit 7.
    pub fn asl_acc(&mut self)
        requires
            old(self).cycles + 2 <= usize::MAX,
        ensures
            final(self)@ == spec_shift_acc(
                old(self)@,
                asl_result(old(self).registers.accumulator),
                bit7(old(self).registers.accumulator),
                2,
            ),
    {
        let v: u8 = self.registers.accumulator;
        let r: u8 = wrapping_add8(v, v);
        self.registers.status_register.carry = v >= 0x80;
        self.registers.accumulator = r;
        self.set_z_flag(r);
        self.set_n_flag(r);
        self.incr_cycles(2);
    }

    /// Arithmetic shift left of a memory location.
    pub fn asl(&mut self, value: u16, cycles: usize)
        requires
            in_ram(value),
            old(self).cycles + cycles <= usize::MAX,
        ensures
            final(self)@ == spec_shift_mem(
                old(self)@,
                value,
                asl_result(ram_read(old(self)@.mem, value)),
                bit7(ram_read(old(self)@.mem, value)),
                cycles,
            ),
    {
        let v: u8 = self.memory.read_ram(value);
        let r: u8 = wrapping_add8(v, v);
        self.registers.status_register.carry = v >= 0x80;
        self.memory.write_ram(value, r);
        self.set_z_flag(r);
        self.set_n_flag(r);
        self.incr_cycles(cycles);
    }

    /// Logical shift right of the accumulator; carry takes bit 0.
    pub fn lsr_acc(&mut self)
        requires
            old(self).cycles + 2 <= usize::MAX,
        ensures
            final(self)@ == spec_shift_acc(
                old(self)@,
                lsr_result(old(self).registers.accumulator),
                bit0(old(self).registers.accumulator),
                2,
            ),
    {
        let v: u8 = self.registers.accumulator;
        let r: u8 = v / 2;
        self.registers.status_register.carry = v % 2 == 1;
        self.registers.accumulator = r;
        self.set_z_flag(r);
        self.set_n_flag(r);
        self.incr_cycles(2);
    }

    /// Logical shift right of a memory location.
    pub fn lsr(&mut self, value: u16, cycles: usize)
        requires
            in_ram(value),
            old(self).cycles + cycles <= usize::MAX,
        ensures
            final(self)@ == spec_shift_mem(
                old(self)@,
                value,
                lsr_result(ram_read(old(self)@.mem, value)),
                bit0(ram_read(old(self)@.mem, value)),
                cycles,
            ),
    {
        let v: u8 = self.memory.read_ram(value);
        let r: u8 = v / 2;
        self.registers.status_register.carry = v % 2 == 1;
        self.memory.write_ram(value, r);
        self.set_z_flag(r);
        self.set_n_flag(r);
        self.incr_cycles(cycles);
    }

    /// Rotate left of the accumulator: prior carry fills bit 0, carry takes
    /// bit 7.
    pub fn rol_acc(&mut self)
        requires
            old(self).cycles + 2 <= usize::MAX,
        ensures
            final(self)@ == spec_shift_acc(
                old(self)@,
                rol_result(
                    old(self).registers.accumulator,
                    old(self).registers.status_register.carry,
                ),
                bit7(old(self).registers.accumulator),
                2,
            ),
    {
        let v: u8 = self.registers.accumulator;
        let doubled: u8 = wrapping_add8(v, v);
        let r: u8 = if self.registers.status_register.carry {
            doubled + 1
        } else {
            doubled
        };
        self.registers.status_register.carry = v >= 0x80;
        self.registers.accumulator = r;
        self.set_z_flag(r);
        self.set_n_flag(r);
        self.incr_cycles(2);
    }

    /// Rotate left of a memory location.
    pub fn rol(&mut self, value: u16, cycles: usize)
        requires
            in_ram(value),
            old(self).cycles + cycles <= usize::MAX,
        ensures
            final(self)@ == spec_shift_mem(
                old(self)@,
                value,
                rol_result(
                    ram_read(old(self)@.mem, value),
                    old(self).registers.status_register.carry,
                ),
                bit7(ram_read(old(self)@.mem, value)),
                cycles,
            ),
    {
        let v: u8 = self.memory.read_ram(value);
        let doubled: u8 = wrapping_add8(v, v);
        let r: u8 = if self.registers.status_register.carry {
            doubled + 1
        } else {
            doubled
        };
        self.registers.status_register.carry = v >= 0x80;
        self.memory.write_ram(value, r);
        self.set_z_flag(r);
        self.set_n_flag(r);
        self.incr_cycles(cycles);
    }

    /// Rotate right of the accumulator: prior carry fills bit 7, carry takes
    /// bit 0.
    pub fn ror_acc(&mut self)
        requires
            old(self).cycles + 2 <= usize::MAX,
        ensures
            final(self)@ == spec_shift_acc(
                old(self)@,
                ror_result(
                    old(self).registers.accumulator,
                    old(self).registers.status_register.carry,
                ),
                bit0(old(self).registers.accumulator),
                2,
            ),
    {
        let v: u8 = self.registers.accumulator;
        let r: u8 = v / 2 + (if self.registers.status_register.carry { 0x80 } else { 0 });
        self.registers.status_register.carry = v % 2 == 1;
        self.registers.accumulator = r;
        self.set_z_flag(r);
        self.set_n_flag(r);
        self.incr_cycles(2);
    }

    /// Rotate right of a memory location.
    pub fn ror(&mut self, value: u16, cycles: usize)
        requires
            in_ram(value),
            old(self).cycles + cycles <= usize::MAX,
        ensures
            final(self)@ == spec_shift_mem(
                old(self)@,
                value,
                ror_result(
                    ram_read(old(self)@.mem, value),
                    old(self).registers.status_register.carry,
                ),
                bit0(ram_read(old(self)@.mem, value)),
                cycles,
            ),
    {
        let v: u8 = self.memory.read_ram(value);
        let r: u8 = v / 2 + (if self.registers.status_register.carry { 0x80 } else { 0 });
        self.registers.status_register.carry = v % 2 == 1;
        self.memory.write_ram(value, r);
        self.set_z_flag(r);
        self.set_n_flag(r);
        self.incr_cycles(cycles);
    }

    /// Jump: the program counter takes the target.
    pub fn jmp(&mut self, value: u16, cycles: usize)
        requires
            old(self).cycles + cycles <= usize::MAX,
        ensures
            final(self)@ == spec_jmp(old(self)@, value, cycles),
    {
        self.registers.program_counter = value;
        self.incr_cycles(cycles);
    }

    /// Jump to subroutine: pushes the address of the call's last byte, high
    /// byte first, onto the stack.
    pub fn jsr(&mut self, value: u16)
        requires
            old(self).cycles + 6 <= usize::MAX,
        ensures
            final(self)@ == spec_jsr(old(self)@, value),
    {
        let pc: u16 = self.registers.program_counter;
        let ret: u16 = if pc == 0 {
            0xFFFF
        } else {
            pc - 1
        };
        let hi: u8 = (ret / 0x100) as u8;
        let lo: u8 = (ret % 0x100) as u8;
        self.stack_push(hi);
        self.stack_push(lo);
        self.registers.program_counter = value;
        self.incr_cycles(6);
    }

    /// Return from subroutine: pulls the return address low byte first and
    /// adds one.
    pub fn rts(&mut self)
        requires
            old(self).cycles + 6 <= usize::MAX,
        ensures
            final(self)@ == spec_rts(old(self)@),
    {
        let lo: u8 = self.stack_pull();
        let hi: u8 = self.stack_pull();
        let t: u32 = lo as u32 + 0x100 * hi as u32 + 1;
        let pc: u16 = if t >= 0x10000 {
            (t - 0x10000) as u16
        } else {
            t as u16
        };
        self.registers.program_counter = pc;
        self.incr_cycles(6);
    }

    /// Branch if carry flag clear.
    pub fn bcc(&mut self, value: i8)
        requires
            old(self).cycles + 4 <= usize::MAX,
        ensures
            final(self)@ == spec_branch(
                old(self)@,
                !old(self).registers.status_register.carry,
                value,
            ),
    {
        if !self.registers.status_register.carry {
            self.branch(value);
        }
        self.incr_cycles(2);
    }

    /// Branch if carry flag set.
    pub fn bcs(&mut self, value: i8)
        requires
            old(self).cycles + 4 <= usize::MAX,
        ensures
            final(self)@ == spec_branch(
                old(self)@,
                old(self).registers.status_register.carry,
                value,
            ),
    {
        if self.registers.status_register.carry {
            self.branch(value);
        }
        self.incr_cycles(2);
    }

    /// Branch if zero flag set.
    pub fn beq(&mut self, value: i8)
        requires
            old(self).cycles + 4 <= usize::MAX,
        ensures
            final(self)@ == spec_branch(
                old(self)@,
                old(self).registers.status_register.zero,
                value,
            ),
    {
        if self.registers.status_register.zero {
            self.branch(value);
        }
        self.incr_cycles(2);
    }

    /// Branch if negative flag set.
    pub fn bmi(&mut self, value: i8)
        requires
            old(self).cycles + 4 <= usize::MAX,
        ensures
            final(self)@ == spec_branch(
                old(self)@,
                old(self).registers.status_register.negative,
                value,
            ),
    {
        if self.registers.status_register.negative {
            self.branch(value);
        }
        self.incr_cycles(2);
    }

    /// Branch if zero flag clear.
    pub fn bne(&mut self, value: i8)
        requires
            old(self).cycles + 4 <= usize::MAX,
        ensures
            final(self)@ == spec_branch(
                old(self)@,
                !old(self).registers.status_register.zero,
                value,
            ),
    {
        if !self.registers.status_register.zero {
            self.branch(value);
        }
        self.incr_cycles(2);
    }

    /// Branch if negative flag clear.
    pub fn bpl(&mut self, value: i8)
        requires
            old(self).cycles + 4 <= usize::MAX,
        ensures
            final(self)@ == spec_branch(
                old(self)@,
                !old(self).registers.status_register.negative,
                value,
            ),
    {
        if !self.registers.status_register.negative {
            self.branch(value);
        }
        self.incr_cycles(2);
    }

    /// Branch if overflow flag clear.
    pub fn bvc(&mut self, value: i8)
        requires
            old(self).cycles + 4 <= usize::MAX,
        ensures
            final(self)@ == spec_branch(
                old(self)@,
                !old(self).registers.status_register.overflow,
                value,
            ),
    {
        if !self.registers.status_register.overflow {
            self.branch(value);
        }
        self.incr_cycles(2);
    }

    /// Branch if overflow flag set.
    pub fn bvs(&mut self, value: i8)
        requires
            old(self).cycles + 4 <= usize::MAX,
        ensures
            final(self)@ == spec_branch(
                old(self)@,
                old(self).registers.status_register.overflow,
                value,
            ),
    {
        if self.registers.status_register.overflow {
            self.branch(value);
        }
        self.incr_cycles(2);
    }

    /// Clear carry flag.
    pub fn clc(&mut self)
        requires
            old(self).cycles + 2 <= usize::MAX,
        ensures
            final(self)@ == spec_set_flags(
                old(self)@,
                (StatusFlags { carry: false, ..old(self).registers.status_register }),
            ),
    {
        self.registers.status_register.carry = false;
        self.incr_cycles(2);
    }

    /// Clear decimal mode flag.
    pub fn cld(&mut self)
        requires
            old(self).cycles + 2 <= usize::MAX,
        ensures
            final(self)@ == spec_set_flags(
                old(self)@,
                (StatusFlags { decimal: false, ..old(self).registers.status_register }),
            ),
    {
        self.registers.status_register.decimal = false;
        self.incr_cycles(2);
    }

    /// Clear interrupt disable flag.
    pub fn cli(&mut self)
        requires
            old(self).cycles + 2 <= usize::MAX,
        ensures
            final(self)@ == spec_set_flags(
                old(self)@,
                (StatusFlags {
                    interrupt_disable: false,
                    ..old(self).registers.status_register
                }),
            ),
    {
        self.registers.status_register.interrupt_disable = false;
        self.incr_cycles(2);
    }

    /// Clear overflow flag.
    pub fn clv(&mut self)
        requires
            old(self).cycles + 2 <= usize::MAX,
        ensures
            final(self)@ == spec_set_flags(
                old(self)@,
                (StatusFlags { overflow: false, ..old(self).registers.status_register }),
            ),
    {
        self.registers.status_register.overflow = false;
        self.incr_cycles(2);
    }

    /// Set carry flag.
    pub fn sec(&mut self)
        requires
            old(self).cycles + 2 <= usize::MAX,
        ensures
            final(self)@ == spec_set_flags(
                old(self)@,
                (StatusFlags { carry: true, ..old(self).registers.status_register }),
            ),
    {
        self.registers.status_register.carry = true;
        self.incr_cycles(2);
    }

    /// Set decimal mode flag.
    pub fn sed(&mut self)
        requires
            old(self).cycles + 2 <= usize::MAX,
        ensures
            final(self)@ == spec_set_flags(
                old(self)@,
                (StatusFlags { decimal: true, ..old(self).registers.status_register }),
            ),
    {
        self.registers.status_register.decimal = true;
        self.incr_cycles(2);
    }

    /// Set interrupt disable flag.
    pub fn sei(&mut self)
        requires
            old(self).cycles + 2 <= usize::MAX,
        ensures
            final(self)@ == spec_set_flags(
                old(self)@,
                (StatusFlags {
                    interrupt_disable: true,
                    ..old(self).registers.status_register
                }),
            ),
    {
        self.registers.status_register.interrupt_disable = true;
        self.incr_cycles(2);
    }

    /// The flag effect of the interrupt entry: both break bits and the
    /// interrupt-disable flag are set.  The full interrupt sequence (pushing
    /// state and taking the vector) needs bus regions this core does not
    /// implement, so the executor reports the opcode as unsupported.
    pub fn brk(&mut self)
        ensures
            final(self)@ == spec_brk_flags(old(self)@),
    {
        self.registers.status_register.b_flag_4 = true;
        self.registers.status_register.b_flag_5 = true;
        self.registers.status_register.interrupt_disable = true;
    }

    /// Load accumulator and X together.
    pub fn lax(&mut self, value: u8, cycles: usize)
        requires
            old(self).cycles + cycles <= usize::MAX,
        ensures
            final(self)@ == spec_lax(old(self)@, value, cycles),
    {
        self.registers.accumulator = value;
        self.registers.index_x = value;
        self.set_z_flag(value);
        self.set_n_flag(value);
        self.incr_cycles(cycles);
    }

    /// Shift left in memory, fused with OR into the accumulator.
    pub fn slo(&mut self, value: u16, cycles: usize)
        requires
            in_ram(value),
            old(self).cycles + cycles <= usize::MAX,
        ensures
            final(self)@ == spec_slo(old(self)@, value, cycles),
    {
        let v: u8 = self.memory.read_ram(value);
        let r: u8 = wrapping_add8(v, v);
        self.memory.write_ram(value, r);
        self.registers.status_register.carry = v >= 0x80;
        self.ora(r, cycles);
    }

    /// Rotate left in memory, fused with AND into the accumulator.
    pub fn rla(&mut self, value: u16, cycles: usize)
        requires
            in_ram(value),
            old(self).cycles + cycles <= usize::MAX,
        ensures
            final(self)@ == spec_rla(old(self)@, value, cycles),
    {
        let v: u8 = self.memory.read_ram(value);
        let doubled: u8 = wrapping_add8(v, v);
        let r: u8 = if self.registers.status_register.carry {
            doubled + 1
        } else {
            doubled
        };
        self.memory.write_ram(value, r);
        self.registers.status_register.carry = v >= 0x80;
        self.and(r, cycles);
    }

    /// Shift right in memory, fused with exclusive OR into the accumulator.
    pub fn sre(&mut self, value: u16, cycles: usize)
        requires
            in_ram(value),
            old(self).cycles + cycles <= usize::MAX,
        ensures
            final(self)@ == spec_sre(old(self)@, value, cycles),
    {
        let v: u8 = self.memory.read_ram(value);
        let r: u8 = v / 2;
        self.memory.write_ram(value, r);
        self.registers.status_register.carry = v % 2 == 1;
        self.eor(r, cycles);
    }

    /// Rotate right in memory, fused with an add-with-carry of the result.
    pub fn rra(&mut self, value: u16, cycles: usize)
        requires
            in_ram(value),
            old(self).cycles + cycles <= usize::MAX,
        ensures
            final(self)@ == spec_rra(old(self)@, value, cycles),
    {
        let v: u8 = self.memory.read_ram(value);
        let r: u8 = v / 2 + (if self.registers.status_register.carry { 0x80 } else { 0 });
        self.memory.write_ram(value, r);
        self.registers.status_register.carry = v % 2 == 1;
        self.adc(r, cycles);
    }

    /// Decrement memory, fused with a compare against the accumulator.
    pub fn dcp(&mut self, value: u16, cycles: usize)
        requires
            in_ram(value),
            old(self).cycles + cycles <= usize::MAX,
        ensures
            final(self)@ == spec_dcp(old(self)@, value, cycles),
    {
        let v: u8 = self.memory.read_ram(value);
        let r: u8 = wrapping_sub8(v, 1);
        self.memory.write_ram(value, r);
        self.cmp(r, cycles);
    }

    /// Increment memory, fused with a subtract-with-carry of the result.
    pub fn isc(&mut self, value: u16, cycles: usize)
        requires
            in_ram(value),
            old(self).cycles + cycles <= usize::MAX,
        ensures
            final(self)@ == spec_isc(old(self)@, value, cycles),
    {
        let v: u8 = self.memory.read_ram(value);
        let r: u8 = wrapping_add8(v, 1);
        self.memory.write_ram(value, r);
        self.sbc(r, cycles);
    }

    /// AND immediate, copying the sign of the result into carry.
    pub fn anc(&mut self, value: u8)
        requires
            old(self).cycles + 2 <= usize::MAX,
        ensures
            final(self)@ == spec_anc(old(self)@, value),
    {
        let r: u8 = self.registers.accumulator & value;
        self.registers.accumulator = r;
        self.registers.status_register.carry = r >= 0x80;
        self.set_z_flag(r);
        self.set_n_flag(r);
        self.incr_cycles(2);
    }

    /// AND immediate, fused with a logical shift right of the accumulator.
    pub fn alr(&mut self, value: u8)
        requires
            old(self).cycles + 2 <= usize::MAX,
        ensures
            final(self)@ == spec_alr(old(self)@, value),
    {
        let t: u8 = self.registers.accumulator & value;
        let r: u8 = t / 2;
        self.registers.accumulator = r;
        self.registers.status_register.carry = t % 2 == 1;
        self.set_z_flag(r);
        self.set_n_flag(r);
        self.incr_cycles(2);
    }

    /// X takes (accumulator AND X) minus the operand, with compare-style
    /// carry.
    pub fn axs(&mut self, value: u8)
        requires
            old(self).cycles + 2 <= usize::MAX,
        ensures
            final(self)@ == spec_axs(old(self)@, value),
    {
        let t: u8 = self.registers.accumulator & self.registers.index_x;
        let r: u8 = wrapping_sub8(t, value);
        self.registers.index_x = r;
        self.registers.status_register.carry = t >= value;
        self.set_z_flag(r);
        self.set_n_flag(r);
        self.incr_cycles(2);
    }
}

} // verus!

//! The register file and the processor: accumulator, two index registers,
//! program counter, stack pointer and the eight status flags, together with
//! the cycle counter and the memory bus.

use vstd::prelude::*;
use crate::memory::Memory;
use crate::model::{spec_incr_pc, spec_stack_pull, spec_stack_push};
use crate::utils::{get_bit, spec_bit, wrapping_add8, wrapping_add16, wrapping_sub8};

verus! {

/// Processor status decoded into its eight independent flags.
///
/// Packed order, bit 0 to bit 7: carry, zero, interrupt-disable, decimal,
/// the two break bits, overflow, negative.
#[derive(Clone, Copy, Debug, PartialEq, Eq, Structural)]
pub struct StatusFlags {
    pub carry: bool,
    pub zero: bool,
    pub interrupt_disable: bool,
    pub decimal: bool,
    pub b_flag_4: bool,
    pub b_flag_5: bool,
    pub overflow: bool,
    pub negative: bool,
}

/// The packed 8-bit form of the flag set, bit 0 = carry ... bit 7 = negative.
pub open spec fn flags_to_byte(f: StatusFlags) -> u8 {
    ((if f.carry { 1int } else { 0int })
        + (if f.zero { 2int } else { 0int })
        + (if f.interrupt_disable { 4int } else { 0int })
        + (if f.decimal { 8int } else { 0int })
        + (if f.b_flag_4 { 16int } else { 0int })
        + (if f.b_flag_5 { 32int } else { 0int })
        + (if f.overflow { 64int } else { 0int })
        + (if f.negative { 128int } else { 0int })) as u8
}

/// The flag set unpacked from its 8-bit form.
pub open spec fn flags_from_byte(b: u8) -> StatusFlags {
    StatusFlags {
        carry: spec_bit(b, 0),
        zero: spec_bit(b, 1),
        interrupt_disable: spec_bit(b, 2),
        decimal: spec_bit(b, 3),
        b_flag_4: spec_bit(b, 4),
        b_flag_5: spec_bit(b, 5),
        overflow: spec_bit(b, 6),
        negative: spec_bit(b, 7),
    }
}

impl StatusFlags {
    /// Packs the eight flags into their 8-bit form.
    pub fn to_byte(&self) -> (r: u8)
        ensures
            r == flags_to_byte(*self),
    {
        (if self.carry { 1u8 } else { 0u8 })
            + (if self.zero { 2u8 } else { 0u8 })
            + (if self.interrupt_disable { 4u8 } else { 0u8 })
            + (if self.decimal { 8u8 } else { 0u8 })
            + (if self.b_flag_4 { 16u8 } else { 0u8 })
            + (if self.b_flag_5 { 32u8 } else { 0u8 })
            + (if self.overflow { 64u8 } else { 0u8 })
            + (if self.negative { 128u8 } else { 0u8 })
    }

    /// Unpacks the 8-bit form into the eight flags.
    pub fn from_byte(b: u8) -> (r: StatusFlags)
        ensures
            r == flags_from_byte(b),
    {
        StatusFlags {
            carry: get_bit(b, 0),
            zero: get_bit(b, 1),
            interrupt_disable: get_bit(b, 2),
            decimal: get_bit(b, 3),
            b_flag_4: get_bit(b, 4),
            b_flag_5: get_bit(b, 5),
            overflow: get_bit(b, 6),
            negative: get_bit(b, 7),
        }
    }
}

/// The register file.
#[derive(Clone, Copy, Debug, PartialEq, Eq, Structural)]
pub struct CPURegisters {
    pub accumulator: u8,
    pub index_x: u8,
    pub index_y: u8,
    pub program_counter: u16,
    pub stack_pointer: u8,
    pub status_register: StatusFlags,
}

/// The documented power-on state: accumulator and both indexes zero, stack
/// pointer 0xFD, interrupt-disable and both break bits set, all else clear.
pub open spec fn reset_registers() -> CPURegisters {
    CPURegisters {
        accumulator: 0x00,
        index_x: 0x00,
        index_y: 0x00,
        program_counter: 0x0000,
        stack_pointer: 0xFD,
        status_register: StatusFlags {
            carry: false,
            zero: false,
            interrupt_disable: true,
            decimal: false,
            b_flag_4: true,
            b_flag_5: true,
            overflow: false,
            negative: false,
        },
    }
}

impl Default for CPURegisters {
    /// The state of the registers at processor reset.
    fn default() -> (r: CPURegisters)
        ensures
            r == reset_registers(),
    {
        CPURegisters {
            accumulator: 0x00,
            index_x: 0x00,
            index_y: 0x00,
            program_counter: 0x0000,
            stack_pointer: 0xFD,
            status_register: StatusFlags {
                carry: false,
                zero: false,
                interrupt_disable: true,
                decimal: false,
                b_flag_4: true,
                b_flag_5: true,
                overflow: false,
                negative: false,
            },
        }
    }
}

/// The processor: register file, cycle counter and memory bus, exclusively
/// owned by one instance and mutated only through instruction execution.
pub struct CPU {
    pub registers: CPURegisters,
    pub cycles: usize,
    pub memory: Memory,
}

impl CPU {
    /// A processor at reset, with zeroed memory.
    pub fn new() -> (r: CPU)
        ensures
            r.registers == reset_registers(),
            r.cycles == 0,
            r.memory@.len() == 0x800,
            forall|i: int| 0 <= i < 0x800 ==> r.memory@[i] == 0u8,
    {
        CPU { registers: CPURegisters::default(), cycles: 0, memory: Memory::new() }
    }

    /// Adds elapsed cycles to the counter.
    pub fn incr_cycles(&mut self, amount: usize)
        requires
            old(self).cycles + amount <= usize::MAX,
        ensures
            final(self).cycles == old(self).cycles + amount,
            final(self).registers == old(self).registers,
            final(self).memory@ == old(self).memory@,
    {
        self.cycles = self.cycles + amount;
    }

    /// Advances the program counter with 16-bit wraparound.
    pub fn incr_pc(&mut self, amount: u16)
        ensures
            final(self)@ == spec_incr_pc(old(self)@, amount),
    {
        let pc: u16 = wrapping_add16(self.registers.program_counter, amount);
        self.registers.program_counter = pc;
    }

    /// Pushes a byte onto the descending stack in page 1; the stack pointer
    /// wraps 0x00 to 0xFF without an overflow trap.
    pub fn stack_push(&mut self, value: u8)
        ensures
            final(self)@ == spec_stack_push(old(self)@, value),
    {
        let addr: u16 = 0x100 + self.registers.stack_pointer as u16;
        self.memory.write_ram(addr, value);
        let sp: u8 = wrapping_sub8(self.registers.stack_pointer, 1);
        self.registers.stack_pointer = sp;
    }

    /// Pulls a byte from the stack; the stack pointer wraps 0xFF to 0x00.
    pub fn stack_pull(&mut self) -> (r: u8)
        ensures
            final(self)@ == spec_stack_pull(old(self)@).0,
            r == spec_stack_pull(old(self)@).1,
    {
        let sp: u8 = wrapping_add8(self.registers.stack_pointer, 1);
        self.registers.stack_pointer = sp;
        let addr: u16 = 0x100 + sp as u16;
        self.memory.read_ram(addr)
    }
}

} // verus!

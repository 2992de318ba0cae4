//! Whole-instruction execution: cycle accounting, addressing quirks,
//! control flow and the fault discipline of the executor.

use emu6502::cpu::CPU;
use emu6502::decoder::decode_instr;
use emu6502::exec::InstructionPair;
use emu6502::instructions::{AddressingMode, Instruction};
use emu6502::Fault;

fn run(cpu: &mut CPU, instruction: Instruction, addr_mode: AddressingMode) {
    InstructionPair::new(instruction, addr_mode).exec(cpu).unwrap();
}

#[test]
fn jsr_then_rts_returns_past_the_call() {
    let mut cpu = CPU::new();
    cpu.registers.program_counter = 0x0200;
    run(&mut cpu, Instruction::JSR, AddressingMode::Absolute(0x0300));
    assert_eq!(cpu.registers.program_counter, 0x0300);
    assert_eq!(cpu.cycles, 6);
    run(&mut cpu, Instruction::RTS, AddressingMode::Implicit);
    // Exactly the byte after the 3-byte call instruction.
    assert_eq!(cpu.registers.program_counter, 0x0203);
    assert_eq!(cpu.cycles, 12);
    // The stack pointer is back where it started.
    assert_eq!(cpu.registers.stack_pointer, 0xFD);
}

#[test]
fn indirect_jump_wraps_within_the_pointer_page() {
    let mut cpu = CPU::new();
    // Pointer at 0x10FF: low byte there, high byte from 0x1000 (the start
    // of the same page), not from 0x1100.
    cpu.memory.write(0x10FF, 0x34).unwrap();
    cpu.memory.write(0x1000, 0x12).unwrap();
    cpu.memory.write(0x1100, 0x77).unwrap();
    run(&mut cpu, Instruction::JMP, AddressingMode::Indirect(0x10FF));
    assert_eq!(cpu.registers.program_counter, 0x1234);
    assert_eq!(cpu.cycles, 5);
}

#[test]
fn indirect_jump_without_the_page_edge_reads_the_next_byte() {
    let mut cpu = CPU::new();
    cpu.memory.write(0x1080, 0x34).unwrap();
    cpu.memory.write(0x1081, 0x12).unwrap();
    run(&mut cpu, Instruction::JMP, AddressingMode::Indirect(0x1080));
    assert_eq!(cpu.registers.program_counter, 0x1234);
}

#[test]
fn zero_page_indexing_never_leaves_the_zero_page() {
    let mut cpu = CPU::new();
    // Base 0xFF with index 2 resolves to 0x0001, never 0x0101.
    cpu.memory.write(0x0001, 0x77).unwrap();
    cpu.memory.write(0x0101, 0x55).unwrap();
    cpu.ldx(0x02, 2);
    run(&mut cpu, Instruction::LDA, AddressingMode::ZeroPageIndexedX(0xFF));
    assert_eq!(cpu.registers.accumulator, 0x77);
}

#[test]
fn absolute_indexed_read_pays_for_the_page_cross() {
    let mut cpu = CPU::new();
    cpu.ldx(0x01, 2);
    let before = cpu.cycles;
    run(&mut cpu, Instruction::LDA, AddressingMode::AbsoluteIndexedX(0x10FF));
    assert_eq!(cpu.cycles - before, 5);

    let before = cpu.cycles;
    run(&mut cpu, Instruction::LDA, AddressingMode::AbsoluteIndexedX(0x1000));
    assert_eq!(cpu.cycles - before, 4);
}

#[test]
fn absolute_indexed_store_always_costs_its_fixed_maximum() {
    let mut cpu = CPU::new();
    cpu.ldx(0x01, 2);
    let before = cpu.cycles;
    run(&mut cpu, Instruction::STA, AddressingMode::AbsoluteIndexedX(0x10FF));
    assert_eq!(cpu.cycles - before, 5);

    let before = cpu.cycles;
    run(&mut cpu, Instruction::STA, AddressingMode::AbsoluteIndexedX(0x1000));
    assert_eq!(cpu.cycles - before, 5);
}

#[test]
fn branch_costs_two_three_or_four_cycles() {
    // Not taken: 2 cycles.
    let mut cpu = CPU::new();
    cpu.registers.program_counter = 0x0140;
    cpu.registers.status_register.zero = true;
    let before = cpu.cycles;
    run(&mut cpu, Instruction::BNE, AddressingMode::Relative(0x10));
    assert_eq!(cpu.cycles - before, 2);
    assert_eq!(cpu.registers.program_counter, 0x0142);

    // Taken within the page: 3 cycles.
    let mut cpu = CPU::new();
    cpu.registers.program_counter = 0x0140;
    let before = cpu.cycles;
    run(&mut cpu, Instruction::BNE, AddressingMode::Relative(0x10));
    assert_eq!(cpu.cycles - before, 3);
    assert_eq!(cpu.registers.program_counter, 0x0152);

    // Taken across a page: 4 cycles.
    let mut cpu = CPU::new();
    cpu.registers.program_counter = 0x01F0;
    let before = cpu.cycles;
    run(&mut cpu, Instruction::BNE, AddressingMode::Relative(0x20));
    assert_eq!(cpu.cycles - before, 4);
    assert_eq!(cpu.registers.program_counter, 0x0212);

    // A backward branch across a page also costs 4.
    let mut cpu = CPU::new();
    cpu.registers.program_counter = 0x0200;
    let before = cpu.cycles;
    run(&mut cpu, Instruction::BNE, AddressingMode::Relative(-0x10));
    assert_eq!(cpu.cycles - before, 4);
    assert_eq!(cpu.registers.program_counter, 0x01F2);
}

#[test]
fn read_cycle_costs_follow_the_addressing_mode() {
    let mut cpu = CPU::new();
    let before = cpu.cycles;
    run(&mut cpu, Instruction::LDA, AddressingMode::Immediate(1));
    assert_eq!(cpu.cycles - before, 2);
    let before = cpu.cycles;
    run(&mut cpu, Instruction::LDA, AddressingMode::ZeroPage(0x10));
    assert_eq!(cpu.cycles - before, 3);
    let before = cpu.cycles;
    run(&mut cpu, Instruction::LDA, AddressingMode::ZeroPageIndexedX(0x10));
    assert_eq!(cpu.cycles - before, 4);
    let before = cpu.cycles;
    run(&mut cpu, Instruction::LDA, AddressingMode::Absolute(0x0300));
    assert_eq!(cpu.cycles - before, 4);
    let before = cpu.cycles;
    run(&mut cpu, Instruction::LDA, AddressingMode::IndexedIndirect(0x10));
    assert_eq!(cpu.cycles - before, 6);
    let before = cpu.cycles;
    run(&mut cpu, Instruction::LDA, AddressingMode::IndirectIndexed(0x10));
    assert_eq!(cpu.cycles - before, 5);
}

#[test]
fn indexed_indirect_dereferences_a_zero_page_pointer() {
    let mut cpu = CPU::new();
    // Pointer table entry at 0x24 + X(=4) = 0x28 points to 0x0456.
    cpu.memory.write(0x0028, 0x56).unwrap();
    cpu.memory.write(0x0029, 0x04).unwrap();
    cpu.memory.write(0x0456, 0x42).unwrap();
    cpu.ldx(0x04, 2);
    run(&mut cpu, Instruction::LDA, AddressingMode::IndexedIndirect(0x24));
    assert_eq!(cpu.registers.accumulator, 0x42);
}

#[test]
fn indirect_indexed_adds_y_after_the_dereference() {
    let mut cpu = CPU::new();
    // Pointer at 0x30 holds 0x0450; Y = 6 lands on 0x0456.
    cpu.memory.write(0x0030, 0x50).unwrap();
    cpu.memory.write(0x0031, 0x04).unwrap();
    cpu.memory.write(0x0456, 0x99).unwrap();
    cpu.ldy(0x06, 2);
    run(&mut cpu, Instruction::LDA, AddressingMode::IndirectIndexed(0x30));
    assert_eq!(cpu.registers.accumulator, 0x99);
}

#[test]
fn store_outside_the_bus_faults_and_leaves_no_effect() {
    let mut cpu = CPU::new();
    cpu.lda(0x42, 2);
    let pc = cpu.registers.program_counter;
    let cycles = cpu.cycles;
    let unit = InstructionPair::new(Instruction::STA, AddressingMode::Absolute(0x2000));
    assert_eq!(unit.exec(&mut cpu), Err(Fault::MemoryFault));
    assert_eq!(cpu.registers.program_counter, pc);
    assert_eq!(cpu.cycles, cycles);
}

#[test]
fn unimplemented_opcodes_raise_a_distinct_signal() {
    let mut cpu = CPU::new();
    let unit = InstructionPair::new(Instruction::BRK, AddressingMode::Implicit);
    assert_eq!(unit.exec(&mut cpu), Err(Fault::UnsupportedOpcode));
    let unit = InstructionPair::new(Instruction::RTI, AddressingMode::Implicit);
    assert_eq!(unit.exec(&mut cpu), Err(Fault::UnsupportedOpcode));
    let unit = InstructionPair::new(Instruction::XAA, AddressingMode::Immediate(1));
    assert_eq!(unit.exec(&mut cpu), Err(Fault::UnsupportedOpcode));
    // The processor is untouched.
    assert_eq!(cpu.registers.program_counter, 0x0000);
    assert_eq!(cpu.cycles, 0);
}

#[test]
fn nop_forms_advance_and_charge_without_effect() {
    let mut cpu = CPU::new();
    run(&mut cpu, Instruction::NOP, AddressingMode::Implicit);
    assert_eq!(cpu.registers.program_counter, 1);
    assert_eq!(cpu.cycles, 2);
    run(&mut cpu, Instruction::NOP, AddressingMode::ZeroPage(0x10));
    assert_eq!(cpu.registers.program_counter, 3);
    assert_eq!(cpu.cycles, 5);
    assert_eq!(cpu.registers.accumulator, 0);
}

#[test]
fn fetch_decode_execute_loop_runs_a_small_program() {
    // LDA #$05; STA $10; LDX #$03; INX; AND #$04
    let program: Vec<u8> = vec![0xA9, 0x05, 0x85, 0x10, 0xA2, 0x03, 0xE8, 0x29, 0x04];
    let mut cpu = CPU::new();
    let mut pos: usize = 0;
    while pos < program.len() {
        let (unit, next) = decode_instr(&program, pos).unwrap();
        unit.exec(&mut cpu).unwrap();
        pos = next;
    }
    assert_eq!(cpu.memory.fetch(0x0010), Ok(0x05));
    assert_eq!(cpu.registers.index_x, 0x04);
    assert_eq!(cpu.registers.accumulator, 0x04);
    assert_eq!(cpu.registers.program_counter, 9);
    assert_eq!(cpu.cycles, 2 + 3 + 2 + 2 + 2);
}

#[test]
fn executed_lax_loads_both_registers() {
    let mut cpu = CPU::new();
    cpu.memory.write(0x0020, 0x8E).unwrap();
    run(&mut cpu, Instruction::LAX, AddressingMode::ZeroPage(0x20));
    assert_eq!(cpu.registers.accumulator, 0x8E);
    assert_eq!(cpu.registers.index_x, 0x8E);
    assert!(cpu.registers.status_register.negative);
}

#[test]
fn executed_sax_stores_the_conjunction() {
    let mut cpu = CPU::new();
    cpu.lda(0x6C, 2);
    cpu.ldx(0x35, 2);
    run(&mut cpu, Instruction::SAX, AddressingMode::ZeroPage(0x40));
    assert_eq!(cpu.memory.fetch(0x0040), Ok(0x24));
}

//! Register-file scenarios: reset values, flag discipline, arithmetic
//! edges, the packed status byte, and the stack.

use emu6502::cpu::{StatusFlags, CPU};
use emu6502::utils::get_bit;

#[test]
fn reset_state_matches_power_on_values() {
    let cpu = CPU::new();
    assert_eq!(cpu.registers.accumulator, 0x00);
    assert_eq!(cpu.registers.index_x, 0x00);
    assert_eq!(cpu.registers.index_y, 0x00);
    assert_eq!(cpu.registers.program_counter, 0x0000);
    assert_eq!(cpu.registers.stack_pointer, 0xFD);
    assert!(cpu.registers.status_register.interrupt_disable);
    assert!(cpu.registers.status_register.b_flag_4);
    assert!(cpu.registers.status_register.b_flag_5);
    assert!(!cpu.registers.status_register.carry);
    assert!(!cpu.registers.status_register.zero);
    assert!(!cpu.registers.status_register.decimal);
    assert!(!cpu.registers.status_register.overflow);
    assert!(!cpu.registers.status_register.negative);
    assert_eq!(cpu.cycles, 0);
}

#[test]
fn load_sets_and_clears_zero_flag() {
    let mut cpu = CPU::new();
    cpu.lda(0x00, 2);
    assert!(cpu.registers.status_register.zero);
    cpu.lda(0x05, 2);
    assert!(!cpu.registers.status_register.zero);
}

#[test]
fn load_sets_and_clears_negative_flag() {
    let mut cpu = CPU::new();
    cpu.lda(0x80, 2);
    assert!(cpu.registers.status_register.negative);
    cpu.lda(0x7F, 2);
    assert!(!cpu.registers.status_register.negative);
}

#[test]
fn adc_wraps_and_reports_carry_and_zero() {
    let mut cpu = CPU::new();
    cpu.lda(0xFF, 2);
    cpu.adc(0x01, 2);
    assert_eq!(cpu.registers.accumulator, 0x00);
    assert!(cpu.registers.status_register.carry);
    assert!(cpu.registers.status_register.zero);
    assert!(!cpu.registers.status_register.negative);
    assert!(!cpu.registers.status_register.overflow);
}

#[test]
fn adc_reports_signed_overflow() {
    let mut cpu = CPU::new();
    cpu.lda(0x50, 2);
    cpu.adc(0x50, 2);
    assert_eq!(cpu.registers.accumulator, 0xA0);
    assert!(cpu.registers.status_register.overflow);
    assert!(cpu.registers.status_register.negative);
    assert!(!cpu.registers.status_register.carry);
}

#[test]
fn adc_adds_the_carry_in() {
    let mut cpu = CPU::new();
    cpu.sec();
    cpu.lda(0x10, 2);
    cpu.adc(0x05, 2);
    assert_eq!(cpu.registers.accumulator, 0x16);
    assert!(!cpu.registers.status_register.carry);
}

#[test]
fn sbc_borrows_through_the_carry_complement() {
    let mut cpu = CPU::new();
    cpu.sec();
    cpu.lda(0x50, 2);
    cpu.sbc(0x10, 2);
    assert_eq!(cpu.registers.accumulator, 0x40);
    assert!(cpu.registers.status_register.carry);

    // Without carry, one more is subtracted.
    let mut cpu = CPU::new();
    cpu.lda(0x50, 2);
    cpu.sbc(0x10, 2);
    assert_eq!(cpu.registers.accumulator, 0x3F);
}

#[test]
fn sbc_underflow_wraps_and_clears_carry() {
    let mut cpu = CPU::new();
    cpu.sec();
    cpu.lda(0x10, 2);
    cpu.sbc(0x20, 2);
    assert_eq!(cpu.registers.accumulator, 0xF0);
    assert!(!cpu.registers.status_register.carry);
    assert!(cpu.registers.status_register.negative);
}

#[test]
fn cmp_below_operand_is_defined_wraparound() {
    let mut cpu = CPU::new();
    cpu.lda(0x10, 2);
    cpu.cmp(0x20, 2);
    assert!(!cpu.registers.status_register.carry);
    assert!(!cpu.registers.status_register.zero);
    // 0x10 - 0x20 wraps to 0xF0, whose bit 7 is set.
    assert!(cpu.registers.status_register.negative);
}

#[test]
fn cmp_equal_and_above() {
    let mut cpu = CPU::new();
    cpu.lda(0x20, 2);
    cpu.cmp(0x20, 2);
    assert!(cpu.registers.status_register.carry);
    assert!(cpu.registers.status_register.zero);
    cpu.cmp(0x10, 2);
    assert!(cpu.registers.status_register.carry);
    assert!(!cpu.registers.status_register.zero);
}

#[test]
fn increments_and_decrements_wrap() {
    let mut cpu = CPU::new();
    cpu.ldx(0xFF, 2);
    cpu.inx();
    assert_eq!(cpu.registers.index_x, 0x00);
    assert!(cpu.registers.status_register.zero);

    cpu.dex();
    assert_eq!(cpu.registers.index_x, 0xFF);
    assert!(cpu.registers.status_register.negative);

    cpu.memory.write(0x0010, 0xFF).unwrap();
    cpu.inc(0x0010, 5);
    assert_eq!(cpu.memory.fetch(0x0010), Ok(0x00));
    assert!(cpu.registers.status_register.zero);
    cpu.dec(0x0010, 5);
    assert_eq!(cpu.memory.fetch(0x0010), Ok(0xFF));
    assert!(cpu.registers.status_register.negative);
}

#[test]
fn shifts_move_bits_through_carry() {
    let mut cpu = CPU::new();
    cpu.lda(0x81, 2);
    cpu.asl_acc();
    assert_eq!(cpu.registers.accumulator, 0x02);
    assert!(cpu.registers.status_register.carry);

    cpu.lda(0x01, 2);
    cpu.lsr_acc();
    assert_eq!(cpu.registers.accumulator, 0x00);
    assert!(cpu.registers.status_register.carry);
    assert!(cpu.registers.status_register.zero);
}

#[test]
fn rotates_feed_the_prior_carry_into_the_vacated_bit() {
    let mut cpu = CPU::new();
    cpu.sec();
    cpu.lda(0x00, 2);
    cpu.rol_acc();
    assert_eq!(cpu.registers.accumulator, 0x01);
    assert!(!cpu.registers.status_register.carry);

    cpu.sec();
    cpu.lda(0x00, 2);
    cpu.ror_acc();
    assert_eq!(cpu.registers.accumulator, 0x80);
    assert!(!cpu.registers.status_register.carry);
    assert!(cpu.registers.status_register.negative);
}

#[test]
fn transfers_update_flags_but_txs_does_not() {
    let mut cpu = CPU::new();
    cpu.lda(0x80, 2);
    cpu.tax();
    assert_eq!(cpu.registers.index_x, 0x80);
    assert!(cpu.registers.status_register.negative);

    cpu.ldx(0x00, 2);
    let negative_before = {
        cpu.ldy(0x80, 2);
        cpu.registers.status_register.negative
    };
    assert!(negative_before);
    cpu.txs();
    assert_eq!(cpu.registers.stack_pointer, 0x00);
    // TXS leaves the flags alone.
    assert!(cpu.registers.status_register.negative);
}

#[test]
fn stack_push_and_pull_round_trip() {
    let mut cpu = CPU::new();
    cpu.stack_push(0x11);
    cpu.stack_push(0x22);
    assert_eq!(cpu.registers.stack_pointer, 0xFB);
    assert_eq!(cpu.stack_pull(), 0x22);
    assert_eq!(cpu.stack_pull(), 0x11);
    assert_eq!(cpu.registers.stack_pointer, 0xFD);
}

#[test]
fn stack_pointer_wraps_without_trapping() {
    let mut cpu = CPU::new();
    cpu.registers.stack_pointer = 0x00;
    cpu.stack_push(0x33);
    assert_eq!(cpu.registers.stack_pointer, 0xFF);
    assert_eq!(cpu.stack_pull(), 0x33);
    assert_eq!(cpu.registers.stack_pointer, 0x00);
}

#[test]
fn pha_pla_moves_the_accumulator_through_the_stack() {
    let mut cpu = CPU::new();
    cpu.lda(0x5A, 2);
    cpu.pha();
    cpu.lda(0x00, 2);
    cpu.pla();
    assert_eq!(cpu.registers.accumulator, 0x5A);
    assert!(!cpu.registers.status_register.zero);
}

#[test]
fn php_plp_preserves_the_whole_flag_set() {
    let mut cpu = CPU::new();
    cpu.sec();
    cpu.sed();
    cpu.lda(0x80, 2);
    let before = cpu.registers.status_register;
    cpu.php();
    cpu.clc();
    cpu.cld();
    cpu.lda(0x01, 2);
    cpu.plp();
    assert_eq!(cpu.registers.status_register, before);
}

#[test]
fn status_byte_packs_in_documented_bit_order() {
    let mut f = StatusFlags {
        carry: true,
        zero: false,
        interrupt_disable: false,
        decimal: false,
        b_flag_4: false,
        b_flag_5: false,
        overflow: false,
        negative: false,
    };
    assert_eq!(f.to_byte(), 0x01);
    f.carry = false;
    f.negative = true;
    assert_eq!(f.to_byte(), 0x80);
    f.zero = true;
    f.overflow = true;
    assert_eq!(f.to_byte(), 0xC2);
}

#[test]
fn status_byte_round_trips() {
    for b in 0..=255u8 {
        assert_eq!(StatusFlags::from_byte(b).to_byte(), b);
    }
    let f = StatusFlags {
        carry: true,
        zero: false,
        interrupt_disable: true,
        decimal: false,
        b_flag_4: true,
        b_flag_5: true,
        overflow: false,
        negative: true,
    };
    assert_eq!(StatusFlags::from_byte(f.to_byte()), f);
}

#[test]
fn flag_instructions_touch_exactly_one_flag() {
    let mut cpu = CPU::new();
    cpu.sec();
    assert!(cpu.registers.status_register.carry);
    cpu.clc();
    assert!(!cpu.registers.status_register.carry);
    cpu.sed();
    assert!(cpu.registers.status_register.decimal);
    cpu.cld();
    assert!(!cpu.registers.status_register.decimal);
    cpu.sei();
    assert!(cpu.registers.status_register.interrupt_disable);
    cpu.cli();
    assert!(!cpu.registers.status_register.interrupt_disable);
    cpu.clv();
    assert!(!cpu.registers.status_register.overflow);
    assert_eq!(cpu.cycles, 14);
}

#[test]
fn bit_test_copies_operand_bits_into_flags() {
    let mut cpu = CPU::new();
    cpu.lda(0x0F, 2);
    cpu.bit(0xC0, 3);
    assert!(cpu.registers.status_register.zero);
    assert!(cpu.registers.status_register.overflow);
    assert!(cpu.registers.status_register.negative);
    cpu.bit(0x01, 3);
    assert!(!cpu.registers.status_register.zero);
    assert!(!cpu.registers.status_register.overflow);
    assert!(!cpu.registers.status_register.negative);
}

#[test]
fn get_bit_reads_each_position() {
    assert!(get_bit(0b1000_0000, 7));
    assert!(!get_bit(0b0111_1111, 7));
    assert!(get_bit(0b0000_0001, 0));
    assert!(get_bit(0b0010_0000, 5));
    assert!(!get_bit(0b0000_0000, 3));
}

#[test]
fn fused_opcodes_combine_their_two_halves() {
    // Shift-left fused with OR.
    let mut cpu = CPU::new();
    cpu.memory.write(0x0010, 0x81).unwrap();
    cpu.lda(0x01, 2);
    cpu.slo(0x0010, 5);
    assert_eq!(cpu.memory.fetch(0x0010), Ok(0x02));
    assert!(cpu.registers.status_register.carry);
    assert_eq!(cpu.registers.accumulator, 0x03);

    // Decrement fused with compare.
    let mut cpu = CPU::new();
    cpu.memory.write(0x0010, 0x01).unwrap();
    cpu.lda(0x00, 2);
    cpu.dcp(0x0010, 5);
    assert_eq!(cpu.memory.fetch(0x0010), Ok(0x00));
    assert!(cpu.registers.status_register.carry);
    assert!(cpu.registers.status_register.zero);

    // Increment fused with subtract.
    let mut cpu = CPU::new();
    cpu.memory.write(0x0010, 0x0F).unwrap();
    cpu.sec();
    cpu.lda(0x20, 2);
    cpu.isc(0x0010, 5);
    assert_eq!(cpu.memory.fetch(0x0010), Ok(0x10));
    assert_eq!(cpu.registers.accumulator, 0x10);

    // AND fused with shift right.
    let mut cpu = CPU::new();
    cpu.lda(0x03, 2);
    cpu.alr(0x01);
    assert_eq!(cpu.registers.accumulator, 0x00);
    assert!(cpu.registers.status_register.carry);
    assert!(cpu.registers.status_register.zero);
}

#[test]
fn brk_helper_sets_the_interrupt_entry_flags() {
    let mut cpu = CPU::new();
    cpu.cli();
    cpu.registers.status_register.b_flag_4 = false;
    cpu.registers.status_register.b_flag_5 = false;
    cpu.brk();
    assert!(cpu.registers.status_register.b_flag_4);
    assert!(cpu.registers.status_register.b_flag_5);
    assert!(cpu.registers.status_register.interrupt_disable);
}

#[test]
fn program_counter_wraps_at_the_address_space_edge() {
    let mut cpu = CPU::new();
    cpu.registers.program_counter = 0xFFFF;
    cpu.incr_pc(2);
    assert_eq!(cpu.registers.program_counter, 0x0001);
}

#[test]
fn anc_copies_the_sign_into_carry() {
    let mut cpu = CPU::new();
    cpu.lda(0xC0, 2);
    cpu.anc(0x80);
    assert_eq!(cpu.registers.accumulator, 0x80);
    assert!(cpu.registers.status_register.carry);
    assert!(cpu.registers.status_register.negative);
    cpu.anc(0x00);
    assert_eq!(cpu.registers.accumulator, 0x00);
    assert!(!cpu.registers.status_register.carry);
    assert!(cpu.registers.status_register.zero);
}

#[test]
fn axs_subtracts_from_the_masked_pair() {
    let mut cpu = CPU::new();
    cpu.lda(0x0F, 2);
    cpu.ldx(0x33, 2);
    cpu.axs(0x02);
    // (0x0F AND 0x33) = 0x03; minus 2 leaves 1, no borrow.
    assert_eq!(cpu.registers.index_x, 0x01);
    assert!(cpu.registers.status_register.carry);
    cpu.lda(0x01, 2);
    cpu.tax();
    cpu.axs(0x02);
    // 1 minus 2 wraps to 0xFF with the carry cleared.
    assert_eq!(cpu.registers.index_x, 0xFF);
    assert!(!cpu.registers.status_register.carry);
    assert!(cpu.registers.status_register.negative);
}

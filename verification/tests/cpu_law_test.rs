#![allow(non_snake_case, unused_must_use)]
use nes_core::bus::cpu_bus::CpuBus;
use nes_core::cpu::instructions::{
    adc_imm, bit, brk, dcp, isc, jsr, lax, lax_imm, plp, push, rla, rra, rti, rts, sax, sbc_imm,
    slo, sre, txs,
};
use nes_core::cpu::opecodes::{
    instruction_cycle, instruction_page_cross_cycle, opecode, Addressing, Instruction,
};
use nes_core::cpu::{is_supported, process_irq, process_nmi, reset, run};
use nes_core::cpu_register::{CpuRegister, InterruptType, Register};
use nes_core::fault::Fault;
use nes_core::helper::bool2u8;
use nes_core::types::{Addr, Data, Word};

/// Flat memory of 64 KiB, words stored low byte first.
struct Memory {
    cells: Vec<Data>,
}

impl Memory {
    fn new() -> Self {
        Memory { cells: vec![0; 0x10000] }
    }

    fn load(&mut self, at: usize, bytes: &[u8]) {
        for (i, b) in bytes.iter().enumerate() {
            self.cells[at + i] = *b;
        }
    }
}

impl CpuBus for Memory {
    fn read(&mut self, a: Addr) -> Data {
        self.cells[a as usize]
    }

    fn read_word(&mut self, a: Addr) -> Word {
        let low = self.read(a) as u16;
        let high = self.read(a.wrapping_add(1)) as u16;
        high << 8 | low
    }

    fn write(&mut self, a: Addr, d: Data) {
        self.cells[a as usize] = d
    }
}

fn machine(at: u16, code: &[u8]) -> (Register, Memory) {
    let mut r = Register::new();
    let mut b = Memory::new();
    b.load(at as usize, code);
    r.set_PC(at);
    (r, b)
}

#[test]
fn power_on_state_has_status_0x24() {
    let mut r = Register::new();
    assert_eq!(r.get_Status(), 0x24);
    assert_eq!(r.get_S(), 0xFD);
    assert_eq!(r.get_PC(), 0x8000);
    assert_eq!(r.get_A(), 0);
    assert!(r.get_status_reserved());
    assert!(matches!(r.get_interrupt_type(), InterruptType::NONE));
}

#[test]
fn bit_5_of_the_status_cannot_be_cleared() {
    let mut r = Register::new();
    r.set_Status(0x00);
    assert_eq!(r.get_Status(), 0x20);
    r.set_status_reserved(false);
    assert!(r.get_status_reserved());
    assert_eq!(r.get_Status() & 0x20, 0x20);
    let (mut r, mut b) = machine(0x0200, &[0x28]);
    r.set_S(0x10);
    b.cells[0x0111] = 0x00;
    assert_eq!(run(&mut r, &mut b, &mut false), Ok(4));
    assert_eq!(r.get_Status(), 0x20);
}

#[test]
fn status_byte_packs_each_flag_at_its_bit() {
    let mut r = Register::new();
    r.set_Status(0x00);
    r.set_status_carry(true);
    assert_eq!(r.get_Status(), 0x21);
    r.set_status_zero(true);
    assert_eq!(r.get_Status(), 0x23);
    r.set_status_interrupt(true);
    assert_eq!(r.get_Status(), 0x27);
    r.set_status_decimal_mode(true);
    assert_eq!(r.get_Status(), 0x2F);
    r.set_status_break_mode(true);
    assert_eq!(r.get_Status(), 0x3F);
    r.set_status_overflow(true);
    assert_eq!(r.get_Status(), 0x7F);
    r.set_status_negative(true);
    assert_eq!(r.get_Status(), 0xFF);
}

#[test]
fn adc_one_plus_three_with_carry_is_five() {
    let mut r = Register::new();
    r.set_A(0x01);
    r.set_status_carry(true);
    adc_imm(0x03, &mut r);
    assert_eq!(r.get_A(), 0x05);
    assert!(!r.get_status_overflow());
    assert!(!r.get_status_carry());
    assert!(!r.get_status_zero());
    assert!(!r.get_status_negative());
}

#[test]
fn adc_one_plus_0x7f_overflows_to_0x80() {
    let mut r = Register::new();
    r.set_A(0x01);
    r.set_status_carry(false);
    adc_imm(0x7F, &mut r);
    assert_eq!(r.get_A(), 0x80);
    assert!(r.get_status_overflow());
    assert!(r.get_status_negative());
    assert!(!r.get_status_carry());
}

#[test]
fn adc_carries_out_of_bit_7() {
    let mut r = Register::new();
    r.set_A(0xFF);
    adc_imm(0x01, &mut r);
    assert_eq!(r.get_A(), 0x00);
    assert!(r.get_status_carry());
    assert!(r.get_status_zero());
    assert!(!r.get_status_overflow());
    r.set_A(0x80);
    r.set_status_carry(false);
    adc_imm(0x80, &mut r);
    assert_eq!(r.get_A(), 0x00);
    assert!(r.get_status_carry());
    assert!(r.get_status_overflow());
}

#[test]
fn sbc_three_minus_two_with_carry_is_one() {
    let mut r = Register::new();
    r.set_A(0x03);
    r.set_status_carry(true);
    sbc_imm(0x02, &mut r);
    assert_eq!(r.get_A(), 0x01);
    assert!(!r.get_status_overflow());
    assert!(r.get_status_carry());
}

#[test]
fn sbc_borrows_and_overflows() {
    let mut r = Register::new();
    r.set_A(0x00);
    r.set_status_carry(true);
    sbc_imm(0x01, &mut r);
    assert_eq!(r.get_A(), 0xFF);
    assert!(!r.get_status_carry());
    assert!(r.get_status_negative());
    r.set_A(0x80);
    r.set_status_carry(true);
    sbc_imm(0x01, &mut r);
    assert_eq!(r.get_A(), 0x7F);
    assert!(r.get_status_overflow());
    assert!(r.get_status_carry());
}

#[test]
fn cycles_are_base_plus_page_cross_plus_branch() {
    // LDA 0x01FF,X with X = 1 crosses a page: 4 + 1
    let (mut r, mut b) = machine(0x0300, &[0xBD, 0xFF, 0x01]);
    r.set_X(1);
    assert_eq!(run(&mut r, &mut b, &mut false), Ok(5));
    // the same without the crossing: 4
    let (mut r, mut b) = machine(0x0300, &[0xBD, 0x00, 0x01]);
    r.set_X(1);
    assert_eq!(run(&mut r, &mut b, &mut false), Ok(4));
    // STA 0x01FF,X pays nothing for the crossing: 5
    let (mut r, mut b) = machine(0x0300, &[0x9D, 0xFF, 0x01]);
    r.set_X(1);
    assert_eq!(run(&mut r, &mut b, &mut false), Ok(5));
    // LDA (0x10),Y crossing a page: 5 + 1
    let (mut r, mut b) = machine(0x0300, &[0xB1, 0x10]);
    b.load(0x10, &[0xFF, 0x02]);
    r.set_Y(1);
    assert_eq!(run(&mut r, &mut b, &mut false), Ok(6));
    // a branch not taken: 2
    let (mut r, mut b) = machine(0x0300, &[0xB0, 0x10]);
    r.set_status_carry(false);
    assert_eq!(run(&mut r, &mut b, &mut false), Ok(2));
    assert_eq!(r.get_PC(), 0x0302);
    // a branch taken inside the page: 2 + 1
    let (mut r, mut b) = machine(0x0300, &[0xB0, 0x10]);
    r.set_status_carry(true);
    assert_eq!(run(&mut r, &mut b, &mut false), Ok(3));
    assert_eq!(r.get_PC(), 0x0312);
    // a branch taken to another page: 2 + 2
    let (mut r, mut b) = machine(0x03F0, &[0xB0, 0x7F]);
    r.set_status_carry(true);
    assert_eq!(run(&mut r, &mut b, &mut false), Ok(4));
    assert_eq!(r.get_PC(), 0x0471);
    // a branch backwards
    let (mut r, mut b) = machine(0x0300, &[0xD0, 0xFE]);
    r.set_status_zero(false);
    assert_eq!(run(&mut r, &mut b, &mut false), Ok(3));
    assert_eq!(r.get_PC(), 0x0300);
}

#[test]
fn the_opcode_table_has_its_entries() {
    let o = opecode(0xA9);
    assert!(matches!(o.name, Instruction::LDA));
    assert_eq!(o.mode, Addressing::Immediate);
    assert_eq!(o.cycle, 2);
    let o = opecode(0x6C);
    assert!(matches!(o.name, Instruction::JMP));
    assert_eq!(o.mode, Addressing::AbsoluteIndirect);
    assert_eq!(o.cycle, 5);
    let o = opecode(0x00);
    assert!(matches!(o.name, Instruction::BRK));
    assert_eq!(o.cycle, 7);
    assert_eq!(Addressing::offset(12), Addressing::ZeropageY);
    assert_eq!(Addressing::offset(0), Addressing::Absolute);
    assert_eq!(instruction_cycle(0xFF), 7);
    assert_eq!(instruction_page_cross_cycle(0xBD), 1);
    assert_eq!(instruction_page_cross_cycle(0x9D), 0);
    assert!(is_supported(Instruction::SLO));
    assert!(!is_supported(Instruction::ANC));
    for code in 0..=255u8 {
        let c = instruction_cycle(code);
        assert!(2 <= c && c <= 8);
        assert!(instruction_page_cross_cycle(code) <= 1);
    }
}

#[test]
fn an_opcode_that_is_not_implemented_is_a_fault() {
    for code in [0x0Bu8, 0x4B, 0x6B, 0x8B, 0x93, 0x9B, 0x9C, 0x9E, 0xBB, 0xCB] {
        let (mut r, mut b) = machine(0x0300, &[code]);
        assert_eq!(run(&mut r, &mut b, &mut false), Err(Fault::UnknownOpcode(code)));
        assert_eq!(r.get_PC(), 0x0301);
    }
}

#[test]
fn jsr_then_rts_comes_back_behind_the_operand() {
    let (mut r, mut b) = machine(0x0300, &[0x20, 0x00, 0x04]);
    b.load(0x0400, &[0x60]);
    assert_eq!(run(&mut r, &mut b, &mut false), Ok(6));
    assert_eq!(r.get_PC(), 0x0400);
    assert_eq!(r.get_S(), 0xFB);
    assert_eq!(run(&mut r, &mut b, &mut false), Ok(6));
    assert_eq!(r.get_PC(), 0x0303);
    assert_eq!(r.get_S(), 0xFD);
    // the stack pointer wraps
    let mut r = Register::new();
    let mut b = Memory::new();
    r.set_PC(0x1234);
    r.set_S(0x00);
    jsr(0x4000, &mut r, &mut b);
    assert_eq!(r.get_S(), 0xFE);
    assert_eq!(b.cells[0x0100], 0x12);
    assert_eq!(b.cells[0x01FF], 0x33);
    rts(&mut r, &mut b);
    assert_eq!(r.get_PC(), 0x1234);
    assert_eq!(r.get_S(), 0x00);
}

#[test]
fn brk_pushes_and_rti_brings_the_flags_back() {
    let mut r = Register::new();
    let mut b = Memory::new();
    b.load(0xFFFE, &[0x00, 0x05]);
    r.set_PC(0x0301);
    r.set_Status(0x00);
    r.set_status_carry(true);
    brk(&mut r, &mut b);
    assert_eq!(r.get_PC(), 0x0500);
    assert!(r.get_status_interrupt());
    assert_eq!(r.get_S(), 0xFA);
    assert_eq!(b.cells[0x01FD], 0x03);
    assert_eq!(b.cells[0x01FC], 0x02);
    assert_eq!(b.cells[0x01FB], 0x31);
    rti(&mut r, &mut b);
    assert_eq!(r.get_Status(), 0x31);
    assert!(!r.get_status_interrupt());
    assert_eq!(r.get_PC(), 0x0302);
    assert_eq!(r.get_S(), 0xFD);
}

#[test]
fn nmi_entry_takes_seven_cycles_and_clears_the_break_flag() {
    let mut r = Register::new();
    let mut b = Memory::new();
    b.load(0xFFFA, &[0x00, 0x06]);
    r.set_PC(0x1234);
    r.set_Status(0xFF);
    r.set_status_interrupt(false);
    process_nmi(&mut r, &mut b);
    assert_eq!(r.pop_additional_cycle(), 7);
    assert_eq!(r.get_PC(), 0x0600);
    assert!(r.get_status_interrupt());
    assert!(!r.get_status_break_mode());
    assert_eq!(r.get_S(), 0xFA);
    assert_eq!(b.cells[0x01FD], 0x12);
    assert_eq!(b.cells[0x01FC], 0x34);
    assert_eq!(b.cells[0x01FB], 0xEB);
}

#[test]
fn irq_entry_goes_through_0xfffe_and_withdraws_the_request() {
    let mut r = Register::new();
    let mut b = Memory::new();
    b.load(0xFFFE, &[0x00, 0x07]);
    r.set_status_interrupt(false);
    r.set_interrupt_irq();
    assert!(r.is_interrupt_irq_enabled());
    process_irq(&mut r, &mut b);
    assert_eq!(r.get_PC(), 0x0700);
    assert!(!r.is_interrupt_irq_enabled());
    assert_eq!(r.pop_additional_cycle(), 7);
    // a masked request is not latched
    r.set_interrupt_irq();
    assert!(!r.is_interrupt_irq_enabled());
    r.set_interrupt_type(InterruptType::INTERRUPT_IRQ);
    r.set_interrupt_none();
    assert!(!r.is_interrupt_irq_enabled());
}

#[test]
fn a_step_serves_a_pending_irq_first() {
    let (mut r, mut b) = machine(0x0300, &[0xEA]);
    b.load(0xFFFE, &[0x00, 0x07]);
    b.load(0x0700, &[0xE8]);
    r.set_status_interrupt(false);
    r.set_interrupt_irq();
    assert_eq!(run(&mut r, &mut b, &mut false), Ok(7));
    assert_eq!(r.get_X(), 0);
    assert_eq!(r.get_PC(), 0x0700);
    assert_eq!(r.get_S(), 0xFA);
    assert!(r.get_status_interrupt());
    assert!(!r.is_interrupt_irq_enabled());
    assert_eq!(b.cells[0x01FD], 0x03);
    assert_eq!(b.cells[0x01FC], 0x00);
    assert_eq!(b.cells[0x01FB] & 0x10, 0x00);
    // the handler starts with the step after
    assert_eq!(run(&mut r, &mut b, &mut false), Ok(2));
    assert_eq!(r.get_X(), 1);
    assert_eq!(r.get_PC(), 0x0701);
}

#[test]
fn a_step_that_takes_the_nmi_fetches_no_opcode() {
    // the handler starts with PHA; the step of the entry must not run it
    let (mut r, mut b) = machine(0x0300, &[0xA9, 0xFF]);
    b.load(0xFFFA, &[0x00, 0x06]);
    b.load(0x0600, &[0x48, 0x40]);
    r.set_S(0x80);
    r.set_Status(0x00);
    r.set_A(0x11);
    let mut nmi = true;
    assert_eq!(run(&mut r, &mut b, &mut nmi), Ok(7));
    assert!(!nmi);
    assert_eq!(r.get_PC(), 0x0600);
    assert_eq!(r.get_S(), 0x7D);
    assert_eq!(r.get_A(), 0x11);
    assert!(r.get_status_interrupt());
    assert_eq!(b.cells[0x0180], 0x03);
    assert_eq!(b.cells[0x017F], 0x00);
    assert_eq!(b.cells[0x017E], 0x20);
    // PHA, then RTI comes back to the instruction that was due
    assert_eq!(run(&mut r, &mut b, &mut nmi), Ok(3));
    assert_eq!(r.get_S(), 0x7C);
    r.set_S(0x7D);
    assert_eq!(run(&mut r, &mut b, &mut nmi), Ok(6));
    assert_eq!(r.get_PC(), 0x0300);
    assert_eq!(r.get_S(), 0x80);
    assert_eq!(r.get_Status(), 0x20);
    assert_eq!(run(&mut r, &mut b, &mut nmi), Ok(2));
    assert_eq!(r.get_A(), 0xFF);
}

#[test]
fn the_nmi_is_taken_whatever_the_interrupt_disable_flag() {
    let (mut r, mut b) = machine(0x0300, &[0xEA]);
    b.load(0xFFFA, &[0x34, 0x12]);
    r.set_status_interrupt(true);
    assert_eq!(run(&mut r, &mut b, &mut true), Ok(7));
    assert_eq!(r.get_PC(), 0x1234);
    assert!(r.get_status_interrupt());
}

#[test]
fn brk_then_rti_comes_back_two_behind_the_opcode() {
    let (mut r, mut b) = machine(0x0300, &[0x00, 0xFF, 0xE8]);
    b.load(0xFFFE, &[0x00, 0x05]);
    b.load(0x0500, &[0x40]);
    r.set_Status(0x01);
    assert_eq!(run(&mut r, &mut b, &mut false), Ok(7));
    assert_eq!(r.get_PC(), 0x0500);
    assert!(r.get_status_interrupt());
    assert_eq!(run(&mut r, &mut b, &mut false), Ok(6));
    assert_eq!(r.get_PC(), 0x0302);
    assert_eq!(r.get_Status(), 0x31);
    assert_eq!(r.get_S(), 0xFD);
}

#[test]
fn cycles_left_over_in_the_registers_do_not_count() {
    let (mut r, mut b) = machine(0x0300, &[0xEA, 0xEA]);
    r.add_interrupt_cycle();
    r.add_branch_cycle(0x01FF, 0x0200);
    assert_eq!(run(&mut r, &mut b, &mut false), Ok(2));
    assert_eq!(r.pop_additional_cycle(), 0);
    b.load(0xFFFA, &[0x00, 0x06]);
    r.add_interrupt_cycle();
    assert_eq!(run(&mut r, &mut b, &mut true), Ok(7));
    assert_eq!(r.pop_additional_cycle(), 0);
}

#[test]
fn reset_loads_the_vector() {
    let mut r = Register::new();
    let mut b = Memory::new();
    b.load(0xFFFC, &[0x34, 0x12]);
    r.set_S(0x00);
    r.set_status_interrupt(false);
    reset(&mut r, &mut b);
    assert_eq!(r.get_PC(), 0x1234);
    assert_eq!(r.get_S(), 0xFD);
    assert!(r.get_status_interrupt());
}

#[test]
fn indirect_jump_does_not_carry_into_the_next_page() {
    let (mut r, mut b) = machine(0x0300, &[0x6C, 0xFF, 0x02]);
    b.cells[0x02FF] = 0x34;
    b.cells[0x0200] = 0x12;
    b.cells[0x0300 + 0x0000] = 0x6C;
    assert_eq!(run(&mut r, &mut b, &mut false), Ok(5));
    assert_eq!(r.get_PC(), 0x1234);
}

#[test]
fn indexed_zero_page_wraps() {
    let (mut r, mut b) = machine(0x0300, &[0xB5, 0xFF]);
    r.set_X(2);
    b.cells[0x0001] = 0x99;
    assert_eq!(run(&mut r, &mut b, &mut false), Ok(4));
    assert_eq!(r.get_A(), 0x99);
    // (zp,X) with the pointer at 0xFF takes its high byte from 0x00
    let (mut r, mut b) = machine(0x0300, &[0xA1, 0xFE]);
    r.set_X(1);
    b.cells[0x00FF] = 0x10;
    b.cells[0x0000] = 0x20;
    b.cells[0x2010] = 0x77;
    assert_eq!(run(&mut r, &mut b, &mut false), Ok(6));
    assert_eq!(r.get_A(), 0x77);
}

#[test]
fn the_program_counter_and_the_stack_pointer_wrap() {
    let mut r = Register::new();
    r.set_PC(0xFFFF);
    r.increment_PC();
    assert_eq!(r.get_PC(), 0x0000);
    r.decrement_PC();
    assert_eq!(r.get_PC(), 0xFFFF);
    r.set_S(0xFF);
    r.inc_S();
    assert_eq!(r.get_S(), 0x00);
    r.dec_S();
    assert_eq!(r.get_S(), 0xFF);
    assert!(r.page_differ(0x01FF, 0x0200));
    assert!(!r.page_differ(0x0200, 0x02FF));
    r.set_page_crossed(true);
    assert!(r.get_page_crossed());
    r.add_branch_cycle(0x01FF, 0x0200);
    r.add_interrupt_cycle();
    assert_eq!(r.pop_additional_cycle(), 9);
    assert_eq!(r.pop_additional_cycle(), 0);
}

#[test]
fn txs_leaves_the_flags_alone() {
    let mut r = Register::new();
    r.set_X(0x00);
    r.set_status_zero(false);
    txs(&mut r);
    assert_eq!(r.get_S(), 0x00);
    assert!(!r.get_status_zero());
}

#[test]
fn shifts_and_rotations_move_the_right_bit_into_the_carry() {
    // ASL 0x81 -> 0x02, carry from bit 7
    let (mut r, mut b) = machine(0x0300, &[0x0A, 0x4A, 0x2A, 0x6A]);
    r.set_A(0x81);
    run(&mut r, &mut b, &mut false);
    assert_eq!(r.get_A(), 0x02);
    assert!(r.get_status_carry());
    // LSR 0x02 -> 0x01, carry clear
    run(&mut r, &mut b, &mut false);
    assert_eq!(r.get_A(), 0x01);
    assert!(!r.get_status_carry());
    // ROL 0x01 with carry clear -> 0x02
    run(&mut r, &mut b, &mut false);
    assert_eq!(r.get_A(), 0x02);
    // ROR 0x02 with carry clear -> 0x01
    run(&mut r, &mut b, &mut false);
    assert_eq!(r.get_A(), 0x01);
    assert!(!r.get_status_carry());
}

#[test]
fn bit_takes_its_flags_from_memory() {
    let mut r = Register::new();
    let mut b = Memory::new();
    r.set_A(0x01);
    b.cells[0x10] = 0xC0;
    bit(0x10, &mut r, &mut b);
    assert!(r.get_status_negative());
    assert!(r.get_status_overflow());
    assert!(r.get_status_zero());
}

#[test]
fn undocumented_instructions_combine_two_documented_ones() {
    let mut r = Register::new();
    let mut b = Memory::new();
    // LAX
    b.cells[0x10] = 0x80;
    lax(0x10, &mut r, &mut b);
    assert_eq!((r.get_A(), r.get_X()), (0x80, 0x80));
    assert!(r.get_status_negative());
    lax_imm(0x00, &mut r);
    assert_eq!((r.get_A(), r.get_X()), (0x00, 0x00));
    assert!(r.get_status_zero());
    // SAX
    r.set_A(0xF0);
    r.set_X(0x3C);
    sax(0x11, &mut r, &mut b);
    assert_eq!(b.cells[0x11], 0x30);
    // DCP
    b.cells[0x12] = 0x11;
    r.set_A(0x10);
    dcp(0x12, &mut r, &mut b);
    assert_eq!(b.cells[0x12], 0x10);
    assert!(r.get_status_zero());
    assert!(r.get_status_carry());
    // ISC
    b.cells[0x13] = 0x01;
    r.set_A(0x05);
    r.set_status_carry(true);
    isc(0x13, &mut r, &mut b);
    assert_eq!(b.cells[0x13], 0x02);
    assert_eq!(r.get_A(), 0x03);
    // SLO
    b.cells[0x14] = 0x81;
    r.set_A(0x01);
    slo(0x14, &mut r, &mut b);
    assert_eq!(b.cells[0x14], 0x02);
    assert_eq!(r.get_A(), 0x03);
    assert!(r.get_status_carry());
    // RLA
    b.cells[0x15] = 0x40;
    r.set_A(0xFF);
    r.set_status_carry(true);
    rla(0x15, &mut r, &mut b);
    assert_eq!(b.cells[0x15], 0x81);
    assert_eq!(r.get_A(), 0x81);
    assert!(!r.get_status_carry());
    // SRE
    b.cells[0x16] = 0x03;
    r.set_A(0x03);
    sre(0x16, &mut r, &mut b);
    assert_eq!(b.cells[0x16], 0x01);
    assert_eq!(r.get_A(), 0x02);
    assert!(r.get_status_carry());
    // RRA
    b.cells[0x17] = 0x02;
    r.set_A(0x10);
    r.set_status_carry(false);
    rra(0x17, &mut r, &mut b);
    assert_eq!(b.cells[0x17], 0x01);
    assert_eq!(r.get_A(), 0x11);
}

#[test]
fn undocumented_opcodes_run_through_the_table() {
    // LAX 0x10 (0xA7), SAX 0x20 (0x87), NOP 0x30 (0x04), NOP abs (0x0C)
    let (mut r, mut b) = machine(0x0300, &[0xA7, 0x10, 0x87, 0x20, 0x04, 0x30, 0x0C, 0x00, 0x10]);
    b.cells[0x10] = 0x5A;
    assert_eq!(run(&mut r, &mut b, &mut false), Ok(3));
    assert_eq!(run(&mut r, &mut b, &mut false), Ok(3));
    assert_eq!(b.cells[0x20], 0x5A);
    assert_eq!(run(&mut r, &mut b, &mut false), Ok(3));
    assert_eq!(r.get_PC(), 0x0306);
    assert_eq!(run(&mut r, &mut b, &mut false), Ok(4));
    assert_eq!(r.get_PC(), 0x0309);
}

#[test]
fn push_and_plp_use_page_one() {
    let mut r = Register::new();
    let mut b = Memory::new();
    r.set_S(0x80);
    push(0xC3, &mut r, &mut b);
    assert_eq!(b.cells[0x0180], 0xC3);
    assert_eq!(r.get_S(), 0x7F);
    plp(&mut r, &mut b);
    assert_eq!(r.get_Status(), 0xE3);
    assert_eq!(r.get_S(), 0x80);
}

#[test]
fn a_flag_is_one_bit() {
    assert_eq!(bool2u8(true), 1);
    assert_eq!(bool2u8(false), 0);
}

use crate::helper::flag_bit;
use crate::types::{add16, add8, byte_of, sub16, sub8, word_of, Addr, Data};
use vstd::prelude::*;

verus! {

/// The interrupt that the processor will serve before its next instruction.
#[allow(non_camel_case_types)]
#[derive(Clone, Copy, Debug, PartialEq, Eq, Structural)]
pub enum InterruptType {
    NONE,
    INTERRUPT_IRQ,
    INTERRUPT_NMI,
}

/// What a register file holds, as plain values. Bit 5 of the status byte has no
/// field: it always reads 1.
pub struct RegisterState {
    pub a: Data,
    pub x: Data,
    pub y: Data,
    pub s: Data,
    pub pc: Addr,
    pub negative: bool,
    pub overflow: bool,
    pub break_mode: bool,
    pub decimal_mode: bool,
    pub interrupt: bool,
    pub zero: bool,
    pub carry: bool,
    pub interrupt_type: InterruptType,
    pub page_crossed: bool,
    pub additional_cycle: Data,
}

/// The register file after power-on: stack pointer 0xFD, status byte 0x24,
/// program counter at the start of the cartridge window.
pub open spec fn power_on_state() -> RegisterState {
    RegisterState {
        a: 0,
        x: 0,
        y: 0,
        s: 0xFD,
        pc: 0x8000,
        negative: false,
        overflow: false,
        break_mode: false,
        decimal_mode: false,
        interrupt: true,
        zero: false,
        carry: false,
        interrupt_type: InterruptType::NONE,
        page_crossed: false,
        additional_cycle: 0,
    }
}

/// The status byte of a register file, packed as N V 1 B D I Z C.
#[verifier::opaque]
pub open spec fn status_byte(s: RegisterState) -> Data {
    (flag_bit(s.negative) * 128 + flag_bit(s.overflow) * 64 + 32 + flag_bit(s.break_mode) * 16
        + flag_bit(s.decimal_mode) * 8 + flag_bit(s.interrupt) * 4 + flag_bit(s.zero) * 2
        + flag_bit(s.carry)) as Data
}

/// The register file with its flags taken from the status byte `v`.
#[verifier::opaque]
pub open spec fn with_status(s: RegisterState, v: Data) -> RegisterState {
    RegisterState {
        negative: (v / 128) % 2 == 1,
        overflow: (v / 64) % 2 == 1,
        break_mode: (v / 16) % 2 == 1,
        decimal_mode: (v / 8) % 2 == 1,
        interrupt: (v / 4) % 2 == 1,
        zero: (v / 2) % 2 == 1,
        carry: v % 2 == 1,
        ..s
    }
}

/// Whether two addresses lie in different 256-byte pages.
pub open spec fn pages_differ(addr1: Addr, addr2: Addr) -> bool {
    addr1 / 256 != addr2 / 256
}

/// The extra cycles of a taken branch from `addr1` to `addr2`.
pub open spec fn branch_penalty(addr1: Addr, addr2: Addr) -> Data {
    if pages_differ(addr1, addr2) {
        2
    } else {
        1
    }
}

/// The register file with `n` more cycles charged to it. The count is a byte
/// and wraps.
pub open spec fn charge(s: RegisterState, n: Data) -> RegisterState {
    RegisterState { additional_cycle: byte_of(s.additional_cycle + n), ..s }
}

/// The register file after a maskable interrupt is raised: it is latched only
/// while the interrupt-disable flag is clear.
pub open spec fn raise_irq(s: RegisterState) -> RegisterState {
    if s.interrupt {
        s
    } else {
        RegisterState { interrupt_type: InterruptType::INTERRUPT_IRQ, ..s }
    }
}

/// The register file of the processor.
#[derive(Debug)]
pub struct Register {
    a: Data,
    x: Data,
    y: Data,
    s: Data,
    pc: Addr,
    negative: bool,
    overflow: bool,
    break_mode: bool,
    decimal_mode: bool,
    interrupt: bool,
    zero: bool,
    carry: bool,
    interrupt_type: InterruptType,
    is_page_crossed: bool,
    additional_cycle: Data,
}

impl Register {
    /// A register file in its power-on state.
    pub fn new() -> (r: Self)
        ensures
            r@ == power_on_state(),
    {
        Register {
            a: 0,
            x: 0,
            y: 0,
            s: 0xFD,
            pc: 0x8000,
            negative: false,
            overflow: false,
            break_mode: false,
            decimal_mode: false,
            interrupt: true,
            zero: false,
            carry: false,
            interrupt_type: InterruptType::NONE,
            is_page_crossed: false,
            additional_cycle: 0,
        }
    }
}

/// What the processor asks of its register file. Every method says exactly how
/// it changes the state that `view` gives.
#[allow(non_snake_case)]
pub trait CpuRegister {
    /// The state held, as plain values.
    spec fn view(&self) -> RegisterState;

    /// The accumulator.
    fn get_A(&self) -> (r: Data)
        ensures
            r == self@.a,
    ;

    /// The X index register.
    fn get_X(&self) -> (r: Data)
        ensures
            r == self@.x,
    ;

    /// The Y index register.
    fn get_Y(&self) -> (r: Data)
        ensures
            r == self@.y,
    ;

    /// The stack pointer.
    fn get_S(&self) -> (r: Data)
        ensures
            r == self@.s,
    ;

    /// The program counter.
    fn get_PC(&self) -> (r: Addr)
        ensures
            r == self@.pc,
    ;

    /// Sets the accumulator and leaves the rest as it is.
    fn set_A(&mut self, v: Data) -> (r: &mut Self)
        ensures
            r@ == (RegisterState { a: v, ..old(self)@ }),
            final(self)@ == final(r)@,
    ;

    /// Sets the X index register and leaves the rest as it is.
    fn set_X(&mut self, v: Data) -> (r: &mut Self)
        ensures
            r@ == (RegisterState { x: v, ..old(self)@ }),
            final(self)@ == final(r)@,
    ;

    /// Sets the Y index register and leaves the rest as it is.
    fn set_Y(&mut self, v: Data) -> (r: &mut Self)
        ensures
            r@ == (RegisterState { y: v, ..old(self)@ }),
            final(self)@ == final(r)@,
    ;

    /// Sets the stack pointer and leaves the rest as it is.
    fn set_S(&mut self, v: Data) -> (r: &mut Self)
        ensures
            r@ == (RegisterState { s: v, ..old(self)@ }),
            final(self)@ == final(r)@,
    ;

    /// Sets the program counter and leaves the rest as it is.
    fn set_PC(&mut self, v: Addr) -> (r: &mut Self)
        ensures
            r@ == (RegisterState { pc: v, ..old(self)@ }),
            final(self)@ == final(r)@,
    ;

    /// The negative flag.
    fn get_status_negative(&self) -> (r: bool)
        ensures
            r == self@.negative,
    ;

    /// The overflow flag.
    fn get_status_overflow(&self) -> (r: bool)
        ensures
            r == self@.overflow,
    ;

    /// Bit 5 of the status byte, which is wired to 1.
    fn get_status_reserved(&self) -> (r: bool)
        ensures
            r,
    ;

    /// The break mode flag.
    fn get_status_break_mode(&self) -> (r: bool)
        ensures
            r == self@.break_mode,
    ;

    /// The decimal mode flag.
    fn get_status_decimal_mode(&self) -> (r: bool)
        ensures
            r == self@.decimal_mode,
    ;

    /// The interrupt flag.
    fn get_status_interrupt(&self) -> (r: bool)
        ensures
            r == self@.interrupt,
    ;

    /// The zero flag.
    fn get_status_zero(&self) -> (r: bool)
        ensures
            r == self@.zero,
    ;

    /// The carry flag.
    fn get_status_carry(&self) -> (r: bool)
        ensures
            r == self@.carry,
    ;

    /// The interrupt that waits to be served.
    fn get_interrupt_type(&self) -> (r: InterruptType)
        ensures
            r == self@.interrupt_type,
    ;

    /// Whether a maskable interrupt waits to be served.
    fn is_interrupt_irq_enabled(&self) -> (r: bool)
        ensures
            r == (self@.interrupt_type == InterruptType::INTERRUPT_IRQ),
    ;

    /// Sets the negative flag and leaves the rest as it is.
    fn set_status_negative(&mut self, b: bool) -> (r: &mut Self)
        ensures
            r@ == (RegisterState { negative: b, ..old(self)@ }),
            final(self)@ == final(r)@,
    ;

    /// Sets the overflow flag and leaves the rest as it is.
    fn set_status_overflow(&mut self, b: bool) -> (r: &mut Self)
        ensures
            r@ == (RegisterState { overflow: b, ..old(self)@ }),
            final(self)@ == final(r)@,
    ;

    /// Bit 5 of the status byte is wired to 1: a write to it changes nothing.
    fn set_status_reserved(&mut self, b: bool) -> (r: &mut Self)
        ensures
            r@ == old(self)@,
            final(self)@ == final(r)@,
    ;

    /// Sets the break mode flag and leaves the rest as it is.
    fn set_status_break_mode(&mut self, b: bool) -> (r: &mut Self)
        ensures
            r@ == (RegisterState { break_mode: b, ..old(self)@ }),
            final(self)@ == final(r)@,
    ;

    /// Sets the decimal mode flag and leaves the rest as it is.
    fn set_status_decimal_mode(&mut self, b: bool) -> (r: &mut Self)
        ensures
            r@ == (RegisterState { decimal_mode: b, ..old(self)@ }),
            final(self)@ == final(r)@,
    ;

    /// Sets the interrupt flag and leaves the rest as it is.
    fn set_status_interrupt(&mut self, b: bool) -> (r: &mut Self)
        ensures
            r@ == (RegisterState { interrupt: b, ..old(self)@ }),
            final(self)@ == final(r)@,
    ;

    /// Sets the zero flag and leaves the rest as it is.
    fn set_status_zero(&mut self, b: bool) -> (r: &mut Self)
        ensures
            r@ == (RegisterState { zero: b, ..old(self)@ }),
            final(self)@ == final(r)@,
    ;

    /// Sets the carry flag and leaves the rest as it is.
    fn set_status_carry(&mut self, b: bool) -> (r: &mut Self)
        ensures
            r@ == (RegisterState { carry: b, ..old(self)@ }),
            final(self)@ == final(r)@,
    ;

    /// Sets the pending interrupt and leaves the rest as it is.
    fn set_interrupt_type(&mut self, t: InterruptType) -> (r: &mut Self)
        ensures
            r@ == (RegisterState { interrupt_type: t, ..old(self)@ }),
            final(self)@ == final(r)@,
    ;

    /// Raises a maskable interrupt, unless the interrupt-disable flag masks it.
    fn set_interrupt_irq(&mut self) -> (r: &mut Self)
        ensures
            r@ == raise_irq(old(self)@),
            final(self)@ == final(r)@,
    ;

    /// Withdraws the pending interrupt.
    fn set_interrupt_none(&mut self) -> (r: &mut Self)
        ensures
            r@ == (RegisterState { interrupt_type: InterruptType::NONE, ..old(self)@ }),
            final(self)@ == final(r)@,
    ;

    /// Sets the negative flag to bit 7 of `v`.
    fn update_status_negative_by(&mut self, v: Data) -> (r: &mut Self)
        ensures
            r@ == (RegisterState { negative: v >= 0x80, ..old(self)@ }),
            final(self)@ == final(r)@,
    ;

    /// Sets the zero flag when `v` is zero and clears it otherwise.
    fn update_status_zero_by(&mut self, v: Data) -> (r: &mut Self)
        ensures
            r@ == (RegisterState { zero: v == 0, ..old(self)@ }),
            final(self)@ == final(r)@,
    ;

    /// Moves the program counter one byte on, from 0xFFFF round to 0.
    fn increment_PC(&mut self) -> (r: &mut Self)
        ensures
            r@ == (RegisterState { pc: word_of(old(self)@.pc + 1), ..old(self)@ }),
            final(self)@ == final(r)@,
    ;

    /// Moves the program counter one byte back, from 0 round to 0xFFFF.
    fn decrement_PC(&mut self) -> (r: &mut Self)
        ensures
            r@ == (RegisterState { pc: word_of(old(self)@.pc - 1), ..old(self)@ }),
            final(self)@ == final(r)@,
    ;

    /// Moves the stack pointer one byte up, from 0xFF round to 0.
    fn inc_S(&mut self) -> (r: &mut Self)
        ensures
            r@ == (RegisterState { s: byte_of(old(self)@.s + 1), ..old(self)@ }),
            final(self)@ == final(r)@,
    ;

    /// Moves the stack pointer one byte down, from 0 round to 0xFF.
    fn dec_S(&mut self) -> (r: &mut Self)
        ensures
            r@ == (RegisterState { s: byte_of(old(self)@.s - 1), ..old(self)@ }),
            final(self)@ == final(r)@,
    ;

    /// The status byte, packed as N V 1 B D I Z C.
    fn get_Status(&mut self) -> (r: Data)
        ensures
            r == status_byte(old(self)@),
            final(self)@ == old(self)@,
    ;

    /// Unpacks a status byte into the flags. Bit 5 is not stored: it stays 1.
    fn set_Status(&mut self, v: Data) -> (r: &mut Self)
        ensures
            r@ == with_status(old(self)@, v),
            final(self)@ == final(r)@,
    ;

    /// Whether the last indexed operand crossed a page.
    fn get_page_crossed(&self) -> (r: bool)
        ensures
            r == self@.page_crossed,
    ;

    /// Records whether the last indexed operand crossed a page.
    fn set_page_crossed(&mut self, b: bool)
        ensures
            final(self)@ == (RegisterState { page_crossed: b, ..old(self)@ }),
    ;

    /// Whether two addresses lie in different 256-byte pages.
    fn page_differ(&mut self, addr1: Addr, addr2: Addr) -> (r: bool)
        ensures
            r == pages_differ(addr1, addr2),
            final(self)@ == old(self)@,
    ;

    /// Charges the seven cycles of an interrupt entry.
    fn add_interrupt_cycle(&mut self)
        ensures
            final(self)@ == charge(old(self)@, 7),
    ;

    /// Charges the cycles of a taken branch from `addr1` to `addr2`: one, and one
    /// more when the two lie in different pages.
    fn add_branch_cycle(&mut self, addr1: Addr, addr2: Addr)
        ensures
            final(self)@ == charge(old(self)@, branch_penalty(addr1, addr2)),
    ;

    /// Hands out the cycles charged so far and clears the count.
    fn pop_additional_cycle(&mut self) -> (r: Data)
        ensures
            r == old(self)@.additional_cycle,
            final(self)@ == (RegisterState { additional_cycle: 0, ..old(self)@ }),
    ;
}

#[allow(non_snake_case)]
impl CpuRegister for Register {
    closed spec fn view(&self) -> RegisterState {
        RegisterState {
            a: self.a,
            x: self.x,
            y: self.y,
            s: self.s,
            pc: self.pc,
            negative: self.negative,
            overflow: self.overflow,
            break_mode: self.break_mode,
            decimal_mode: self.decimal_mode,
            interrupt: self.interrupt,
            zero: self.zero,
            carry: self.carry,
            interrupt_type: self.interrupt_type,
            page_crossed: self.is_page_crossed,
            additional_cycle: self.additional_cycle,
        }
    }

    fn get_A(&self) -> (r: Data) {
        self.a
    }

    fn get_X(&self) -> (r: Data) {
        self.x
    }

    fn get_Y(&self) -> (r: Data) {
        self.y
    }

    fn get_S(&self) -> (r: Data) {
        self.s
    }

    fn get_PC(&self) -> (r: Addr) {
        self.pc
    }

    fn set_A(&mut self, v: Data) -> (r: &mut Self) {
        self.a = v;
        self
    }

    fn set_X(&mut self, v: Data) -> (r: &mut Self) {
        self.x = v;
        self
    }

    fn set_Y(&mut self, v: Data) -> (r: &mut Self) {
        self.y = v;
        self
    }

    fn set_S(&mut self, v: Data) -> (r: &mut Self) {
        self.s = v;
        self
    }

    fn set_PC(&mut self, v: Addr) -> (r: &mut Self) {
        self.pc = v;
        self
    }

    fn get_status_negative(&self) -> (r: bool) {
        self.negative
    }

    fn get_status_overflow(&self) -> (r: bool) {
        self.overflow
    }

    fn get_status_reserved(&self) -> (r: bool) {
        true
    }

    fn get_status_break_mode(&self) -> (r: bool) {
        self.break_mode
    }

    fn get_status_decimal_mode(&self) -> (r: bool) {
        self.decimal_mode
    }

    fn get_status_interrupt(&self) -> (r: bool) {
        self.interrupt
    }

    fn get_status_zero(&self) -> (r: bool) {
        self.zero
    }

    fn get_status_carry(&self) -> (r: bool) {
        self.carry
    }

    fn get_interrupt_type(&self) -> (r: InterruptType) {
        self.interrupt_type
    }

    fn is_interrupt_irq_enabled(&self) -> (r: bool) {
        match self.interrupt_type {
            InterruptType::INTERRUPT_IRQ => true,
            _ => false,
        }
    }

    fn set_status_negative(&mut self, b: bool) -> (r: &mut Self) {
        self.negative = b;
        self
    }

    fn set_status_overflow(&mut self, b: bool) -> (r: &mut Self) {
        self.overflow = b;
        self
    }

    fn set_status_reserved(&mut self, b: bool) -> (r: &mut Self) {
        self
    }

    fn set_status_break_mode(&mut self, b: bool) -> (r: &mut Self) {
        self.break_mode = b;
        self
    }

    fn set_status_decimal_mode(&mut self, b: bool) -> (r: &mut Self) {
        self.decimal_mode = b;
        self
    }

    fn set_status_interrupt(&mut self, b: bool) -> (r: &mut Self) {
        self.interrupt = b;
        self
    }

    fn set_status_zero(&mut self, b: bool) -> (r: &mut Self) {
        self.zero = b;
        self
    }

    fn set_status_carry(&mut self, b: bool) -> (r: &mut Self) {
        self.carry = b;
        self
    }

    fn set_interrupt_type(&mut self, t: InterruptType) -> (r: &mut Self) {
        self.interrupt_type = t;
        self
    }

    fn set_interrupt_irq(&mut self) -> (r: &mut Self) {
        if !self.interrupt {
            self.interrupt_type = InterruptType::INTERRUPT_IRQ;
        }
        self
    }

    fn set_interrupt_none(&mut self) -> (r: &mut Self) {
        self.interrupt_type = InterruptType::NONE;
        self
    }

    fn update_status_negative_by(&mut self, v: Data) -> (r: &mut Self) {
        self.negative = v >= 0x80;
        self
    }

    fn update_status_zero_by(&mut self, v: Data) -> (r: &mut Self) {
        self.zero = v == 0;
        self
    }

    fn increment_PC(&mut self) -> (r: &mut Self) {
        self.pc = add16(self.pc, 1);
        self
    }

    fn decrement_PC(&mut self) -> (r: &mut Self) {
        self.pc = sub16(self.pc, 1);
        self
    }

    fn inc_S(&mut self) -> (r: &mut Self) {
        self.s = add8(self.s, 1);
        self
    }

    fn dec_S(&mut self) -> (r: &mut Self) {
        self.s = sub8(self.s, 1);
        self
    }

    fn get_Status(&mut self) -> (r: Data) {
        reveal(status_byte);
        let mut p: Data = 32;
        if self.negative {
            p = p + 128;
        }
        if self.overflow {
            p = p + 64;
        }
        if self.break_mode {
            p = p + 16;
        }
        if self.decimal_mode {
            p = p + 8;
        }
        if self.interrupt {
            p = p + 4;
        }
        if self.zero {
            p = p + 2;
        }
        if self.carry {
            p = p + 1;
        }
        p
    }

    fn set_Status(&mut self, v: Data) -> (r: &mut Self) {
        reveal(with_status);
        self.negative = (v / 128) % 2 == 1;
        self.overflow = (v / 64) % 2 == 1;
        self.break_mode = (v / 16) % 2 == 1;
        self.decimal_mode = (v / 8) % 2 == 1;
        self.interrupt = (v / 4) % 2 == 1;
        self.zero = (v / 2) % 2 == 1;
        self.carry = v % 2 == 1;
        self
    }

    fn get_page_crossed(&self) -> (r: bool) {
        self.is_page_crossed
    }

    fn set_page_crossed(&mut self, b: bool) {
        self.is_page_crossed = b;
    }

    fn page_differ(&mut self, addr1: Addr, addr2: Addr) -> (r: bool) {
        addr1 / 256 != addr2 / 256
    }

    fn add_interrupt_cycle(&mut self) {
        self.additional_cycle = add8(self.additional_cycle, 7);
    }

    fn add_branch_cycle(&mut self, addr1: Addr, addr2: Addr) {
        self.additional_cycle = add8(self.additional_cycle, 1);
        if self.page_differ(addr1, addr2) {
            self.additional_cycle = add8(self.additional_cycle, 1);
        }
    }

    fn pop_additional_cycle(&mut self) -> (r: Data) {
        let c = self.additional_cycle;
        self.additional_cycle = 0;
        c
    }
}

} // verus!

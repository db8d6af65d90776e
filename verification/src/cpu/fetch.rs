use super::opecodes::{Addressing, Opecode};
use super::Cpu;
use crate::bus::cpu_bus::{after_read, read_value, BusState, CpuBus};
use crate::cpu_register::{pages_differ, CpuRegister, RegisterState};
use crate::types::{
    add16, add8, byte_of, make_word, sub16, widen, word, word_of, Addr, Data, Word,
};
use vstd::prelude::*;

verus! {

/// Reads the byte at the program counter and moves the counter one on.
pub open spec fn sem_fetch(r: RegisterState, b: BusState) -> (Data, Cpu) {
    (
        read_value(b, r.pc),
        Cpu { reg: RegisterState { pc: word_of(r.pc + 1), ..r }, bus: after_read(b, r.pc) },
    )
}

/// The target of a branch: the next byte, taken as a signed offset from the
/// program counter behind it.
pub open spec fn sem_fetch_relative(r: RegisterState, b: BusState) -> (Addr, Cpu) {
    let (base, c) = sem_fetch(r, b);
    (
        if base < 0x80 {
            word_of(c.reg.pc + base)
        } else {
            word_of(c.reg.pc + base - 256)
        },
        c,
    )
}

/// A zero-page address indexed by X: the sum wraps inside the zero page.
pub open spec fn sem_fetch_zeropage_x(r: RegisterState, b: BusState) -> (Data, Cpu) {
    let (base, c) = sem_fetch(r, b);
    (byte_of(base + c.reg.x), c)
}

/// A zero-page address indexed by Y: the sum wraps inside the zero page.
pub open spec fn sem_fetch_zeropage_y(r: RegisterState, b: BusState) -> (Data, Cpu) {
    let (base, c) = sem_fetch(r, b);
    (byte_of(base + c.reg.y), c)
}

/// The next two bytes as an address, low byte first.
pub open spec fn sem_fetch_absolute(r: RegisterState, b: BusState) -> (Addr, Cpu) {
    let (low, c1) = sem_fetch(r, b);
    let (high, c2) = sem_fetch(c1.reg, c1.bus);
    (make_word(low, high), c2)
}

/// The address `base + index`, and the state that records whether the sum left
/// the page of `base`.
pub open spec fn indexed(base: Addr, index: Data, c: Cpu) -> (Addr, Cpu) {
    let addr = word_of(base + index);
    (addr, Cpu { reg: RegisterState { page_crossed: pages_differ(base, addr), ..c.reg }, ..c })
}

/// An absolute address indexed by X.
pub open spec fn sem_fetch_absolute_x(r: RegisterState, b: BusState) -> (Addr, Cpu) {
    let (base, c) = sem_fetch_absolute(r, b);
    indexed(base, c.reg.x, c)
}

/// An absolute address indexed by Y.
pub open spec fn sem_fetch_absolute_y(r: RegisterState, b: BusState) -> (Addr, Cpu) {
    let (base, c) = sem_fetch_absolute(r, b);
    indexed(base, c.reg.y, c)
}

/// The address that follows `addr` inside the page of `addr`.
pub open spec fn next_in_page(addr: Addr) -> Addr {
    ((addr / 256) * 256 + (addr + 1) % 256) as Addr
}

/// The address stored at the address that the next two bytes give. The high
/// byte is read from the same page as the low byte: the pointer never carries
/// into the next page.
pub open spec fn sem_fetch_absolute_indirect(r: RegisterState, b: BusState) -> (Addr, Cpu) {
    let (ptr, c) = sem_fetch_absolute(r, b);
    let low = read_value(c.bus, ptr);
    let b1 = after_read(c.bus, ptr);
    let high = read_value(b1, next_in_page(ptr));
    (make_word(low, high), Cpu { reg: c.reg, bus: after_read(b1, next_in_page(ptr)) })
}

/// The word stored in the zero page at `zp`, its high byte at `zp + 1` inside
/// the zero page.
pub open spec fn zeropage_word(zp: Data, b: BusState) -> (Addr, BusState) {
    let low = read_value(b, zp as Addr);
    let b1 = after_read(b, zp as Addr);
    let high = read_value(b1, byte_of(zp + 1) as Addr);
    (make_word(low, high), after_read(b1, byte_of(zp + 1) as Addr))
}

/// The address stored in the zero page at the next byte plus X.
pub open spec fn sem_fetch_indirect_x(r: RegisterState, b: BusState) -> (Addr, Cpu) {
    let (zp, c) = sem_fetch_zeropage_x(r, b);
    let (addr, b2) = zeropage_word(zp, c.bus);
    (addr, Cpu { reg: c.reg, bus: b2 })
}

/// The address stored in the zero page at the next byte, indexed by Y.
pub open spec fn sem_fetch_indirect_y(r: RegisterState, b: BusState) -> (Addr, Cpu) {
    let (zp, c) = sem_fetch(r, b);
    let (base, b2) = zeropage_word(zp, c.bus);
    indexed(base, c.reg.y, Cpu { reg: c.reg, bus: b2 })
}

/// The operand of an instruction with the given addressing mode: a value for
/// Immediate, nothing for Implied and Accumulator, an address otherwise.
#[verifier::opaque]
pub open spec fn sem_fetch_operand(mode: Addressing, r: RegisterState, b: BusState) -> (
    Word,
    Cpu,
) {
    match mode {
        Addressing::Implied => (0, Cpu { reg: r, bus: b }),
        Addressing::Accumulator => (0, Cpu { reg: r, bus: b }),
        Addressing::Immediate => (sem_fetch(r, b).0 as Word, sem_fetch(r, b).1),
        Addressing::Relative => sem_fetch_relative(r, b),
        Addressing::Zeropage => (sem_fetch(r, b).0 as Word, sem_fetch(r, b).1),
        Addressing::ZeropageX => (
            sem_fetch_zeropage_x(r, b).0 as Word,
            sem_fetch_zeropage_x(r, b).1,
        ),
        Addressing::ZeropageY => (
            sem_fetch_zeropage_y(r, b).0 as Word,
            sem_fetch_zeropage_y(r, b).1,
        ),
        Addressing::Absolute => sem_fetch_absolute(r, b),
        Addressing::AbsoluteX => sem_fetch_absolute_x(r, b),
        Addressing::AbsoluteY => sem_fetch_absolute_y(r, b),
        Addressing::AbsoluteIndirect => sem_fetch_absolute_indirect(r, b),
        Addressing::IndexedIndirect => sem_fetch_indirect_x(r, b),
        Addressing::IndirectIndexed => sem_fetch_indirect_y(r, b),
    }
}

/// Reads the byte at the program counter and moves the counter one on.
pub fn fetch<T: CpuRegister, U: CpuBus>(register: &mut T, bus: &mut U) -> (code: Data)
    requires
        old(bus).inv(),
    ensures
        final(bus).inv(),
        code == sem_fetch(old(register)@, old(bus).state()).0,
        final(register)@ == sem_fetch(old(register)@, old(bus).state()).1.reg,
        final(bus).state() == sem_fetch(old(register)@, old(bus).state()).1.bus,
{
    let code = bus.read(register.get_PC());
    register.increment_PC();
    code
}

/// Resolves the operand of `code` and moves the program counter behind it.
pub fn fetch_operand<T: CpuRegister, U: CpuBus>(
    code: &Opecode,
    register: &mut T,
    bus: &mut U,
) -> (operand: Word)
    requires
        old(bus).inv(),
    ensures
        final(bus).inv(),
        operand == sem_fetch_operand(code.mode, old(register)@, old(bus).state()).0,
        final(register)@ == sem_fetch_operand(code.mode, old(register)@, old(bus).state()).1.reg,
        final(bus).state() == sem_fetch_operand(
            code.mode,
            old(register)@,
            old(bus).state(),
        ).1.bus,
{
    reveal(sem_fetch_operand);
    match code.mode {
        Addressing::Implied => 0x0000,
        Addressing::Accumulator => 0x0000,
        Addressing::Immediate => widen(fetch(register, bus)),
        Addressing::Relative => fetch_relative(register, bus),
        Addressing::Zeropage => widen(fetch(register, bus)),
        Addressing::ZeropageX => widen(fetch_zeropage_x(register, bus)),
        Addressing::ZeropageY => widen(fetch_zeropage_y(register, bus)),
        Addressing::Absolute => fetch_absolute(register, bus),
        Addressing::AbsoluteX => fetch_absolute_x(register, bus),
        Addressing::AbsoluteY => fetch_absolute_y(register, bus),
        Addressing::AbsoluteIndirect => fetch_absolute_indirect(register, bus),
        Addressing::IndexedIndirect => fetch_indirect_x(register, bus),
        Addressing::IndirectIndexed => fetch_indirect_y(register, bus),
    }
}

pub fn fetch_relative<T: CpuRegister, U: CpuBus>(register: &mut T, bus: &mut U) -> (addr: Addr)
    requires
        old(bus).inv(),
    ensures
        final(bus).inv(),
        addr == sem_fetch_relative(old(register)@, old(bus).state()).0,
        final(register)@ == sem_fetch_relative(old(register)@, old(bus).state()).1.reg,
        final(bus).state() == sem_fetch_relative(old(register)@, old(bus).state()).1.bus,
{
    let base = widen(fetch(register, bus));
    if base < 0x80 {
        add16(register.get_PC(), base)
    } else {
        sub16(add16(register.get_PC(), base), 256)
    }
}

pub fn fetch_zeropage_x<T: CpuRegister, U: CpuBus>(register: &mut T, bus: &mut U) -> (addr: Data)
    requires
        old(bus).inv(),
    ensures
        final(bus).inv(),
        addr == sem_fetch_zeropage_x(old(register)@, old(bus).state()).0,
        final(register)@ == sem_fetch_zeropage_x(old(register)@, old(bus).state()).1.reg,
        final(bus).state() == sem_fetch_zeropage_x(old(register)@, old(bus).state()).1.bus,
{
    let addr = fetch(register, bus);
    add8(addr, register.get_X())
}

pub fn fetch_zeropage_y<T: CpuRegister, U: CpuBus>(register: &mut T, bus: &mut U) -> (addr: Data)
    requires
        old(bus).inv(),
    ensures
        final(bus).inv(),
        addr == sem_fetch_zeropage_y(old(register)@, old(bus).state()).0,
        final(register)@ == sem_fetch_zeropage_y(old(register)@, old(bus).state()).1.reg,
        final(bus).state() == sem_fetch_zeropage_y(old(register)@, old(bus).state()).1.bus,
{
    let addr = fetch(register, bus);
    add8(addr, register.get_Y())
}

pub fn fetch_absolute<T: CpuRegister, U: CpuBus>(register: &mut T, bus: &mut U) -> (addr: Addr)
    requires
        old(bus).inv(),
    ensures
        final(bus).inv(),
        addr == sem_fetch_absolute(old(register)@, old(bus).state()).0,
        final(register)@ == sem_fetch_absolute(old(register)@, old(bus).state()).1.reg,
        final(bus).state() == sem_fetch_absolute(old(register)@, old(bus).state()).1.bus,
{
    let lower = fetch(register, bus);
    let upper = fetch(register, bus);
    word(lower, upper)
}

pub fn fetch_absolute_x<T: CpuRegister, U: CpuBus>(register: &mut T, bus: &mut U) -> (addr: Addr)
    requires
        old(bus).inv(),
    ensures
        final(bus).inv(),
        addr == sem_fetch_absolute_x(old(register)@, old(bus).state()).0,
        final(register)@ == sem_fetch_absolute_x(old(register)@, old(bus).state()).1.reg,
        final(bus).state() == sem_fetch_absolute_x(old(register)@, old(bus).state()).1.bus,
{
    let base = fetch_absolute(register, bus);
    let addr = add16(base, widen(register.get_X()));
    let cross = register.page_differ(base, addr);
    register.set_page_crossed(cross);
    addr
}

pub fn fetch_absolute_y<T: CpuRegister, U: CpuBus>(register: &mut T, bus: &mut U) -> (addr: Addr)
    requires
        old(bus).inv(),
    ensures
        final(bus).inv(),
        addr == sem_fetch_absolute_y(old(register)@, old(bus).state()).0,
        final(register)@ == sem_fetch_absolute_y(old(register)@, old(bus).state()).1.reg,
        final(bus).state() == sem_fetch_absolute_y(old(register)@, old(bus).state()).1.bus,
{
    let base = fetch_absolute(register, bus);
    let addr = add16(base, widen(register.get_Y()));
    let cross = register.page_differ(base, addr);
    register.set_page_crossed(cross);
    addr
}

pub fn fetch_absolute_indirect<T: CpuRegister, U: CpuBus>(register: &mut T, bus: &mut U) -> (addr:
    Addr)
    requires
        old(bus).inv(),
    ensures
        final(bus).inv(),
        addr == sem_fetch_absolute_indirect(old(register)@, old(bus).state()).0,
        final(register)@ == sem_fetch_absolute_indirect(old(register)@, old(bus).state()).1.reg,
        final(bus).state() == sem_fetch_absolute_indirect(
            old(register)@,
            old(bus).state(),
        ).1.bus,
{
    let ptr = fetch_absolute(register, bus);
    let lower = bus.read(ptr);
    let upper = bus.read((ptr / 256) * 256 + (ptr % 256 + 1) % 256);
    word(lower, upper)
}

pub fn fetch_indirect_x<T: CpuRegister, U: CpuBus>(register: &mut T, bus: &mut U) -> (addr: Addr)
    requires
        old(bus).inv(),
    ensures
        final(bus).inv(),
        addr == sem_fetch_indirect_x(old(register)@, old(bus).state()).0,
        final(register)@ == sem_fetch_indirect_x(old(register)@, old(bus).state()).1.reg,
        final(bus).state() == sem_fetch_indirect_x(old(register)@, old(bus).state()).1.bus,
{
    let zp = fetch_zeropage_x(register, bus);
    let lower = bus.read(widen(zp));
    let upper = bus.read(widen(add8(zp, 1)));
    word(lower, upper)
}

pub fn fetch_indirect_y<T: CpuRegister, U: CpuBus>(register: &mut T, bus: &mut U) -> (addr: Addr)
    requires
        old(bus).inv(),
    ensures
        final(bus).inv(),
        addr == sem_fetch_indirect_y(old(register)@, old(bus).state()).0,
        final(register)@ == sem_fetch_indirect_y(old(register)@, old(bus).state()).1.reg,
        final(bus).state() == sem_fetch_indirect_y(old(register)@, old(bus).state()).1.bus,
{
    let zp = fetch(register, bus);
    let lower = bus.read(widen(zp));
    let upper = bus.read(widen(add8(zp, 1)));
    let base = word(lower, upper);
    let addr = add16(base, widen(register.get_Y()));
    let cross = register.page_differ(base, addr);
    register.set_page_crossed(cross);
    addr
}

} // verus!

use super::Cpu;
use crate::bus::cpu_bus::{
    after_read, after_read_word, after_write, read_value, word_value, BusState, CpuBus,
};
use crate::cpu_register::{
    branch_penalty, charge, status_byte, with_status, CpuRegister, RegisterState,
};
use crate::helper::{bool2u8, flag_bit};
use crate::types::{
    add16, add8, byte_of, hi, high_byte, lo, low_byte, make_word, sub16, sub8, widen, word,
    word_of, Addr, Data, Word,
};
use vstd::prelude::*;

verus! {

/// The negative and zero flags set from the byte `v`.
pub open spec fn set_nz(r: RegisterState, v: Data) -> RegisterState {
    RegisterState { negative: v >= 0x80, zero: v == 0, ..r }
}

/// `v` loaded into the accumulator.
pub open spec fn load_a(r: RegisterState, v: Data) -> RegisterState {
    RegisterState { a: v, ..set_nz(r, v) }
}

/// `v` loaded into X.
pub open spec fn load_x(r: RegisterState, v: Data) -> RegisterState {
    RegisterState { x: v, ..set_nz(r, v) }
}

/// `v` loaded into Y.
pub open spec fn load_y(r: RegisterState, v: Data) -> RegisterState {
    RegisterState { y: v, ..set_nz(r, v) }
}

/// `v` loaded into both the accumulator and X.
pub open spec fn load_ax(r: RegisterState, v: Data) -> RegisterState {
    RegisterState { a: v, x: v, ..set_nz(r, v) }
}

/// Binary addition with carry: A + m + C. The carry flag is the carry out of
/// bit 7. The overflow flag is set when both addends have the same sign and the
/// sum has the other one.
pub open spec fn adc_value(r: RegisterState, m: Data) -> RegisterState {
    let sum = r.a + m + flag_bit(r.carry);
    let result = byte_of(sum);
    RegisterState {
        a: result,
        carry: sum > 0xFF,
        overflow: ((r.a >= 0x80) == (m >= 0x80)) && ((result >= 0x80) != (r.a >= 0x80)),
        ..set_nz(r, result)
    }
}

/// Binary subtraction with borrow: A - m - (1 - C). The carry flag is set when
/// no borrow was needed. The overflow flag is set when A and m differ in sign
/// and the difference differs in sign from A.
pub open spec fn sbc_value(r: RegisterState, m: Data) -> RegisterState {
    let diff = r.a - m - flag_bit(!r.carry);
    let result = byte_of(diff);
    RegisterState {
        a: result,
        carry: diff >= 0,
        overflow: ((r.a >= 0x80) != (m >= 0x80)) && ((r.a >= 0x80) != (result >= 0x80)),
        ..set_nz(r, result)
    }
}

/// The accumulator ANDed with `m`.
pub open spec fn and_value(r: RegisterState, m: Data) -> RegisterState {
    load_a(r, r.a & m)
}

/// The accumulator ORed with `m`.
pub open spec fn ora_value(r: RegisterState, m: Data) -> RegisterState {
    load_a(r, r.a | m)
}

/// The accumulator exclusive-ORed with `m`.
pub open spec fn eor_value(r: RegisterState, m: Data) -> RegisterState {
    load_a(r, r.a ^ m)
}

/// The flags of a comparison of the register value `v` with `m`: those of
/// `v - m`, with carry set when `v >= m`.
pub open spec fn compare(r: RegisterState, v: Data, m: Data) -> RegisterState {
    RegisterState { carry: v >= m, ..set_nz(r, byte_of(v - m)) }
}

pub open spec fn compare_a(r: RegisterState, m: Data) -> RegisterState {
    compare(r, r.a, m)
}

pub open spec fn compare_x(r: RegisterState, m: Data) -> RegisterState {
    compare(r, r.x, m)
}

pub open spec fn compare_y(r: RegisterState, m: Data) -> RegisterState {
    compare(r, r.y, m)
}

/// The flags of a bit test of the accumulator against `m`: negative and
/// overflow are bits 7 and 6 of `m`, zero says that A AND m is zero.
pub open spec fn bit_value(r: RegisterState, m: Data) -> RegisterState {
    RegisterState { negative: m >= 0x80, overflow: (m / 64) % 2 == 1, zero: (r.a & m) == 0, ..r }
}

/// `v` shifted left by one bit.
pub open spec fn asl_result(v: Data) -> Data {
    byte_of(v * 2)
}

/// `v` shifted right by one bit.
pub open spec fn lsr_result(v: Data) -> Data {
    v / 2
}

/// `v` rotated left through the carry.
pub open spec fn rol_result(v: Data, carry: bool) -> Data {
    byte_of(v * 2 + flag_bit(carry))
}

/// `v` rotated right through the carry.
pub open spec fn ror_result(v: Data, carry: bool) -> Data {
    byte_of(v / 2 + flag_bit(carry) * 128)
}

/// The flags after a shift or rotation that gave `result` and pushed the bit
/// `carry_out` out.
pub open spec fn shifted(r: RegisterState, result: Data, carry_out: bool) -> RegisterState {
    RegisterState { carry: carry_out, ..set_nz(r, result) }
}

/// The processor after `data` is pushed on the stack: it is written at
/// 0x0100 + S, and S goes one down.
pub open spec fn sem_push(data: Data, r: RegisterState, b: BusState) -> Cpu {
    Cpu {
        reg: RegisterState { s: byte_of(r.s - 1), ..r },
        bus: after_write(b, make_word(r.s, 1), data),
    }
}

/// The byte pulled from the stack and the processor afterwards: S goes one
/// up, then the byte at 0x0100 + S is read.
pub open spec fn sem_pop(r: RegisterState, b: BusState) -> (Data, Cpu) {
    let s = byte_of(r.s + 1);
    (
        read_value(b, make_word(s, 1)),
        Cpu { reg: RegisterState { s: s, ..r }, bus: after_read(b, make_word(s, 1)) },
    )
}

/// The program counter pulled from the stack, low byte first.
pub open spec fn sem_pop_pc(r: RegisterState, b: BusState) -> Cpu {
    let (lower, c1) = sem_pop(r, b);
    let (upper, c2) = sem_pop(c1.reg, c1.bus);
    Cpu { reg: RegisterState { pc: make_word(lower, upper), ..c2.reg }, bus: c2.bus }
}

/// The flags pulled from the stack.
pub open spec fn sem_pop_status(r: RegisterState, b: BusState) -> Cpu {
    let (p, c) = sem_pop(r, b);
    Cpu { reg: with_status(c.reg, p), bus: c.bus }
}

/// A branch to `target` that is taken when `taken` holds. A taken branch is
/// charged one cycle, and one more when the target lies in another page.
pub open spec fn branch_if(r: RegisterState, taken: bool, target: Addr) -> RegisterState {
    if taken {
        charge(RegisterState { pc: target, ..r }, branch_penalty(r.pc, target))
    } else {
        r
    }
}

/// The program counter moved one byte on.
pub open spec fn step_pc(r: RegisterState) -> RegisterState {
    RegisterState { pc: word_of(r.pc + 1), ..r }
}

/// Sets the flags of a comparison of the register value `v` with `m`.
fn compare_with<T: CpuRegister>(v: Data, m: Data, register: &mut T)
    ensures
        final(register)@ == compare(old(register)@, v, m),
{
    let computed = sub8(v, m);
    register.update_status_negative_by(computed).update_status_zero_by(computed).set_status_carry(
        v >= m,
    );
}

/// Loads the accumulator from memory: the registers change as they do
/// for the byte read at `operand`.
pub open spec fn sem_lda(r: RegisterState, b: BusState, operand: Addr) -> Cpu {
    Cpu { reg: load_a(r, read_value(b, operand)), bus: after_read(b, operand) }
}

/// Loads the accumulator with the low byte of `operand`.
pub fn lda_imm<T: CpuRegister>(operand: Word, register: &mut T)
    ensures
        final(register)@ == load_a(old(register)@, low_byte(operand)),
{
    let v = lo(operand);
    register.set_A(v).update_status_negative_by(v).update_status_zero_by(v);
}

/// Loads the accumulator with the byte at address `operand`.
pub fn lda<T: CpuRegister, U: CpuBus>(operand: Addr, register: &mut T, bus: &mut U)
    requires
        old(bus).inv(),
    ensures
        final(bus).inv(),
        final(register)@ == sem_lda(old(register)@, old(bus).state(), operand).reg,
        final(bus).state() == sem_lda(old(register)@, old(bus).state(), operand).bus,
{
    let v = bus.read(operand);
    lda_imm(widen(v), register);
}

/// Loads X from memory: the registers change as they do
/// for the byte read at `operand`.
pub open spec fn sem_ldx(r: RegisterState, b: BusState, operand: Addr) -> Cpu {
    Cpu { reg: load_x(r, read_value(b, operand)), bus: after_read(b, operand) }
}

/// Loads X with the low byte of `operand`.
pub fn ldx_imm<T: CpuRegister>(operand: Word, register: &mut T)
    ensures
        final(register)@ == load_x(old(register)@, low_byte(operand)),
{
    let v = lo(operand);
    register.set_X(v).update_status_negative_by(v).update_status_zero_by(v);
}

/// Loads X with the byte at address `operand`.
pub fn ldx<T: CpuRegister, U: CpuBus>(operand: Addr, register: &mut T, bus: &mut U)
    requires
        old(bus).inv(),
    ensures
        final(bus).inv(),
        final(register)@ == sem_ldx(old(register)@, old(bus).state(), operand).reg,
        final(bus).state() == sem_ldx(old(register)@, old(bus).state(), operand).bus,
{
    let v = bus.read(operand);
    ldx_imm(widen(v), register);
}

/// Loads Y from memory: the registers change as they do
/// for the byte read at `operand`.
pub open spec fn sem_ldy(r: RegisterState, b: BusState, operand: Addr) -> Cpu {
    Cpu { reg: load_y(r, read_value(b, operand)), bus: after_read(b, operand) }
}

/// Loads Y with the low byte of `operand`.
pub fn ldy_imm<T: CpuRegister>(operand: Word, register: &mut T)
    ensures
        final(register)@ == load_y(old(register)@, low_byte(operand)),
{
    let v = lo(operand);
    register.set_Y(v).update_status_negative_by(v).update_status_zero_by(v);
}

/// Loads Y with the byte at address `operand`.
pub fn ldy<T: CpuRegister, U: CpuBus>(operand: Addr, register: &mut T, bus: &mut U)
    requires
        old(bus).inv(),
    ensures
        final(bus).inv(),
        final(register)@ == sem_ldy(old(register)@, old(bus).state(), operand).reg,
        final(bus).state() == sem_ldy(old(register)@, old(bus).state(), operand).bus,
{
    let v = bus.read(operand);
    ldy_imm(widen(v), register);
}

/// Adds to the accumulator, with carry from memory: the registers change as they do
/// for the byte read at `operand`.
pub open spec fn sem_adc(r: RegisterState, b: BusState, operand: Addr) -> Cpu {
    Cpu { reg: adc_value(r, read_value(b, operand)), bus: after_read(b, operand) }
}

/// Adds to the accumulator, with carry with the low byte of `operand`.
pub fn adc_imm<T: CpuRegister>(operand: Word, register: &mut T)
    ensures
        final(register)@ == adc_value(old(register)@, low_byte(operand)),
{
    let m = lo(operand);
    let a = register.get_A();
    let computed = widen(m) + widen(a) + widen(bool2u8(register.get_status_carry()));
    let result = lo(computed);
    register.set_status_overflow(((a >= 0x80) == (m >= 0x80)) && ((result >= 0x80) != (a >= 0x80)))
        .update_status_negative_by(result).update_status_zero_by(result).set_status_carry(
        computed > 0x00ff,
    ).set_A(result);
}

/// Adds to the accumulator, with carry with the byte at address `operand`.
pub fn adc<T: CpuRegister, U: CpuBus>(operand: Addr, register: &mut T, bus: &mut U)
    requires
        old(bus).inv(),
    ensures
        final(bus).inv(),
        final(register)@ == sem_adc(old(register)@, old(bus).state(), operand).reg,
        final(bus).state() == sem_adc(old(register)@, old(bus).state(), operand).bus,
{
    let v = bus.read(operand);
    adc_imm(widen(v), register);
}

/// ANDs into the accumulator from memory: the registers change as they do
/// for the byte read at `operand`.
pub open spec fn sem_and(r: RegisterState, b: BusState, operand: Addr) -> Cpu {
    Cpu { reg: and_value(r, read_value(b, operand)), bus: after_read(b, operand) }
}

/// ANDs into the accumulator with the low byte of `operand`.
pub fn and_imm<T: CpuRegister>(operand: Word, register: &mut T)
    ensures
        final(register)@ == and_value(old(register)@, low_byte(operand)),
{
    let c = register.get_A() & lo(operand);
    register.update_status_negative_by(c).update_status_zero_by(c).set_A(c);
}

/// ANDs into the accumulator with the byte at address `operand`.
pub fn and<T: CpuRegister, U: CpuBus>(operand: Addr, register: &mut T, bus: &mut U)
    requires
        old(bus).inv(),
    ensures
        final(bus).inv(),
        final(register)@ == sem_and(old(register)@, old(bus).state(), operand).reg,
        final(bus).state() == sem_and(old(register)@, old(bus).state(), operand).bus,
{
    let v = bus.read(operand);
    and_imm(widen(v), register);
}

/// Compares the accumulator from memory: the registers change as they do
/// for the byte read at `operand`.
pub open spec fn sem_cmp(r: RegisterState, b: BusState, operand: Addr) -> Cpu {
    Cpu { reg: compare_a(r, read_value(b, operand)), bus: after_read(b, operand) }
}

/// Compares the accumulator with the low byte of `operand`.
pub fn cmp_imm<T: CpuRegister>(operand: Word, register: &mut T)
    ensures
        final(register)@ == compare_a(old(register)@, low_byte(operand)),
{
    let v = register.get_A();
    compare_with(v, lo(operand), register);
}

/// Compares the accumulator with the byte at address `operand`.
pub fn cmp<T: CpuRegister, U: CpuBus>(operand: Addr, register: &mut T, bus: &mut U)
    requires
        old(bus).inv(),
    ensures
        final(bus).inv(),
        final(register)@ == sem_cmp(old(register)@, old(bus).state(), operand).reg,
        final(bus).state() == sem_cmp(old(register)@, old(bus).state(), operand).bus,
{
    let v = bus.read(operand);
    cmp_imm(widen(v), register);
}

/// Compares X from memory: the registers change as they do
/// for the byte read at `operand`.
pub open spec fn sem_cpx(r: RegisterState, b: BusState, operand: Addr) -> Cpu {
    Cpu { reg: compare_x(r, read_value(b, operand)), bus: after_read(b, operand) }
}

/// Compares X with the low byte of `operand`.
pub fn cpx_imm<T: CpuRegister>(operand: Word, register: &mut T)
    ensures
        final(register)@ == compare_x(old(register)@, low_byte(operand)),
{
    let v = register.get_X();
    compare_with(v, lo(operand), register);
}

/// Compares X with the byte at address `operand`.
pub fn cpx<T: CpuRegister, U: CpuBus>(operand: Addr, register: &mut T, bus: &mut U)
    requires
        old(bus).inv(),
    ensures
        final(bus).inv(),
        final(register)@ == sem_cpx(old(register)@, old(bus).state(), operand).reg,
        final(bus).state() == sem_cpx(old(register)@, old(bus).state(), operand).bus,
{
    let v = bus.read(operand);
    cpx_imm(widen(v), register);
}

/// Compares Y from memory: the registers change as they do
/// for the byte read at `operand`.
pub open spec fn sem_cpy(r: RegisterState, b: BusState, operand: Addr) -> Cpu {
    Cpu { reg: compare_y(r, read_value(b, operand)), bus: after_read(b, operand) }
}

/// Compares Y with the low byte of `operand`.
pub fn cpy_imm<T: CpuRegister>(operand: Word, register: &mut T)
    ensures
        final(register)@ == compare_y(old(register)@, low_byte(operand)),
{
    let v = register.get_Y();
    compare_with(v, lo(operand), register);
}

/// Compares Y with the byte at address `operand`.
pub fn cpy<T: CpuRegister, U: CpuBus>(operand: Addr, register: &mut T, bus: &mut U)
    requires
        old(bus).inv(),
    ensures
        final(bus).inv(),
        final(register)@ == sem_cpy(old(register)@, old(bus).state(), operand).reg,
        final(bus).state() == sem_cpy(old(register)@, old(bus).state(), operand).bus,
{
    let v = bus.read(operand);
    cpy_imm(widen(v), register);
}

/// Exclusive-ORs into the accumulator from memory: the registers change as they do
/// for the byte read at `operand`.
pub open spec fn sem_eor(r: RegisterState, b: BusState, operand: Addr) -> Cpu {
    Cpu { reg: eor_value(r, read_value(b, operand)), bus: after_read(b, operand) }
}

/// Exclusive-ORs into the accumulator with the low byte of `operand`.
pub fn eor_imm<T: CpuRegister>(operand: Word, register: &mut T)
    ensures
        final(register)@ == eor_value(old(register)@, low_byte(operand)),
{
    let c = register.get_A() ^ lo(operand);
    register.update_status_negative_by(c).update_status_zero_by(c).set_A(c);
}

/// Exclusive-ORs into the accumulator with the byte at address `operand`.
pub fn eor<T: CpuRegister, U: CpuBus>(operand: Addr, register: &mut T, bus: &mut U)
    requires
        old(bus).inv(),
    ensures
        final(bus).inv(),
        final(register)@ == sem_eor(old(register)@, old(bus).state(), operand).reg,
        final(bus).state() == sem_eor(old(register)@, old(bus).state(), operand).bus,
{
    let v = bus.read(operand);
    eor_imm(widen(v), register);
}

/// ORs into the accumulator from memory: the registers change as they do
/// for the byte read at `operand`.
pub open spec fn sem_ora(r: RegisterState, b: BusState, operand: Addr) -> Cpu {
    Cpu { reg: ora_value(r, read_value(b, operand)), bus: after_read(b, operand) }
}

/// ORs into the accumulator with the low byte of `operand`.
pub fn ora_imm<T: CpuRegister>(operand: Word, register: &mut T)
    ensures
        final(register)@ == ora_value(old(register)@, low_byte(operand)),
{
    let c = register.get_A() | lo(operand);
    register.update_status_negative_by(c).update_status_zero_by(c).set_A(c);
}

/// ORs into the accumulator with the byte at address `operand`.
pub fn ora<T: CpuRegister, U: CpuBus>(operand: Addr, register: &mut T, bus: &mut U)
    requires
        old(bus).inv(),
    ensures
        final(bus).inv(),
        final(register)@ == sem_ora(old(register)@, old(bus).state(), operand).reg,
        final(bus).state() == sem_ora(old(register)@, old(bus).state(), operand).bus,
{
    let v = bus.read(operand);
    ora_imm(widen(v), register);
}

/// Subtracts from the accumulator, with borrow from memory: the registers change as they do
/// for the byte read at `operand`.
pub open spec fn sem_sbc(r: RegisterState, b: BusState, operand: Addr) -> Cpu {
    Cpu { reg: sbc_value(r, read_value(b, operand)), bus: after_read(b, operand) }
}

/// Subtracts from the accumulator, with borrow with the low byte of `operand`.
pub fn sbc_imm<T: CpuRegister>(operand: Word, register: &mut T)
    ensures
        final(register)@ == sbc_value(old(register)@, low_byte(operand)),
{
    let m = lo(operand);
    let a = register.get_A();
    let borrow = bool2u8(!register.get_status_carry());
    let result = sub8(sub8(a, m), borrow);
    let no_borrow = widen(a) >= widen(m) + widen(borrow);
    register.set_status_overflow(((a >= 0x80) != (m >= 0x80)) && ((a >= 0x80) != (result >= 0x80)))
        .update_status_negative_by(result).update_status_zero_by(result).set_status_carry(
        no_borrow,
    ).set_A(result);
}

/// Subtracts from the accumulator, with borrow with the byte at address `operand`.
pub fn sbc<T: CpuRegister, U: CpuBus>(operand: Addr, register: &mut T, bus: &mut U)
    requires
        old(bus).inv(),
    ensures
        final(bus).inv(),
        final(register)@ == sem_sbc(old(register)@, old(bus).state(), operand).reg,
        final(bus).state() == sem_sbc(old(register)@, old(bus).state(), operand).bus,
{
    let v = bus.read(operand);
    sbc_imm(widen(v), register);
}

/// Loads the accumulator and X from memory: the registers change as they do
/// for the byte read at `operand`.
pub open spec fn sem_lax(r: RegisterState, b: BusState, operand: Addr) -> Cpu {
    Cpu { reg: load_ax(r, read_value(b, operand)), bus: after_read(b, operand) }
}

/// Loads the accumulator and X with the low byte of `operand`.
pub fn lax_imm<T: CpuRegister>(operand: Word, register: &mut T)
    ensures
        final(register)@ == load_ax(old(register)@, low_byte(operand)),
{
    let v = lo(operand);
    register.set_A(v).set_X(v).update_status_negative_by(v).update_status_zero_by(v);
}

/// Loads the accumulator and X with the byte at address `operand`.
pub fn lax<T: CpuRegister, U: CpuBus>(operand: Addr, register: &mut T, bus: &mut U)
    requires
        old(bus).inv(),
    ensures
        final(bus).inv(),
        final(register)@ == sem_lax(old(register)@, old(bus).state(), operand).reg,
        final(bus).state() == sem_lax(old(register)@, old(bus).state(), operand).bus,
{
    let v = bus.read(operand);
    lax_imm(widen(v), register);
}

/// Tests the bits of the byte at `operand` against the accumulator.
pub open spec fn sem_bit(r: RegisterState, b: BusState, operand: Addr) -> Cpu {
    Cpu { reg: bit_value(r, read_value(b, operand)), bus: after_read(b, operand) }
}

/// Tests the bits of the byte at `operand` against the accumulator.
pub fn bit<T: CpuRegister, U: CpuBus>(operand: Addr, register: &mut T, bus: &mut U)
    requires
        old(bus).inv(),
    ensures
        final(bus).inv(),
        final(register)@ == sem_bit(old(register)@, old(bus).state(), operand).reg,
        final(bus).state() == sem_bit(old(register)@, old(bus).state(), operand).bus,
{
    let fetched = bus.read(operand);
    let a = register.get_A();
    register.update_status_negative_by(fetched).update_status_zero_by(a & fetched)
        .set_status_overflow((fetched / 64) % 2 == 1);
}

/// Stores the accumulator at `operand`.
pub open spec fn sem_sta(r: RegisterState, b: BusState, operand: Addr) -> Cpu {
    Cpu { reg: r, bus: after_write(b, operand, r.a) }
}

/// Stores the accumulator at `operand`.
pub fn sta<T: CpuRegister, U: CpuBus>(operand: Addr, register: &mut T, bus: &mut U)
    requires
        old(bus).inv(),
    ensures
        final(bus).inv(),
        final(register)@ == old(register)@,
        final(bus).state() == sem_sta(old(register)@, old(bus).state(), operand).bus,
{
    bus.write(operand, register.get_A())
}

/// Stores X at `operand`.
pub open spec fn sem_stx(r: RegisterState, b: BusState, operand: Addr) -> Cpu {
    Cpu { reg: r, bus: after_write(b, operand, r.x) }
}

/// Stores X at `operand`.
pub fn stx<T: CpuRegister, U: CpuBus>(operand: Addr, register: &mut T, bus: &mut U)
    requires
        old(bus).inv(),
    ensures
        final(bus).inv(),
        final(register)@ == old(register)@,
        final(bus).state() == sem_stx(old(register)@, old(bus).state(), operand).bus,
{
    bus.write(operand, register.get_X())
}

/// Stores Y at `operand`.
pub open spec fn sem_sty(r: RegisterState, b: BusState, operand: Addr) -> Cpu {
    Cpu { reg: r, bus: after_write(b, operand, r.y) }
}

/// Stores Y at `operand`.
pub fn sty<T: CpuRegister, U: CpuBus>(operand: Addr, register: &mut T, bus: &mut U)
    requires
        old(bus).inv(),
    ensures
        final(bus).inv(),
        final(register)@ == old(register)@,
        final(bus).state() == sem_sty(old(register)@, old(bus).state(), operand).bus,
{
    bus.write(operand, register.get_Y())
}

/// Stores the accumulator ANDed with X at `operand`.
pub open spec fn sem_sax(r: RegisterState, b: BusState, operand: Addr) -> Cpu {
    Cpu { reg: r, bus: after_write(b, operand, r.a & r.x) }
}

/// Stores the accumulator ANDed with X at `operand`.
pub fn sax<T: CpuRegister, U: CpuBus>(operand: Addr, register: &mut T, bus: &mut U)
    requires
        old(bus).inv(),
    ensures
        final(bus).inv(),
        final(register)@ == old(register)@,
        final(bus).state() == sem_sax(old(register)@, old(bus).state(), operand).bus,
{
    bus.write(operand, register.get_A() & register.get_X())
}

/// `v` rotated left through the carry flag.
pub fn rotate_to_left<T: CpuRegister>(register: &mut T, v: Data) -> (r: Data)
    ensures
        r == rol_result(v, old(register)@.carry),
        final(register)@ == old(register)@,
{
    lo(widen(v) * 2 + widen(bool2u8(register.get_status_carry())))
}

/// `v` rotated right through the carry flag.
pub fn rotate_to_right<T: CpuRegister>(register: &mut T, v: Data) -> (r: Data)
    ensures
        r == ror_result(v, old(register)@.carry),
        final(register)@ == old(register)@,
{
    v / 2 + if register.get_status_carry() {
        0x80
    } else {
        0x00
    }
}

/// Copies the accumulator to X.
pub open spec fn sem_tax(r: RegisterState) -> RegisterState {
    load_x(r, r.a)
}

/// Copies the accumulator to X.
pub fn tax<T: CpuRegister>(register: &mut T)
    ensures
        final(register)@ == sem_tax(old(register)@),
{
    let v = register.get_A();
    register.set_X(v).update_status_negative_by(v).update_status_zero_by(v);
}

/// Copies the accumulator to Y.
pub open spec fn sem_tay(r: RegisterState) -> RegisterState {
    load_y(r, r.a)
}

/// Copies the accumulator to Y.
pub fn tay<T: CpuRegister>(register: &mut T)
    ensures
        final(register)@ == sem_tay(old(register)@),
{
    let v = register.get_A();
    register.set_Y(v).update_status_negative_by(v).update_status_zero_by(v);
}

/// Copies the stack pointer to X.
pub open spec fn sem_tsx(r: RegisterState) -> RegisterState {
    load_x(r, r.s)
}

/// Copies the stack pointer to X.
pub fn tsx<T: CpuRegister>(register: &mut T)
    ensures
        final(register)@ == sem_tsx(old(register)@),
{
    let v = register.get_S();
    register.set_X(v).update_status_negative_by(v).update_status_zero_by(v);
}

/// Copies X to the accumulator.
pub open spec fn sem_txa(r: RegisterState) -> RegisterState {
    load_a(r, r.x)
}

/// Copies X to the accumulator.
pub fn txa<T: CpuRegister>(register: &mut T)
    ensures
        final(register)@ == sem_txa(old(register)@),
{
    let v = register.get_X();
    register.set_A(v).update_status_negative_by(v).update_status_zero_by(v);
}

/// Copies X to the stack pointer; no flag changes.
pub open spec fn sem_txs(r: RegisterState) -> RegisterState {
    RegisterState { s: r.x, ..r }
}

/// Copies X to the stack pointer; no flag changes.
pub fn txs<T: CpuRegister>(register: &mut T)
    ensures
        final(register)@ == sem_txs(old(register)@),
{
    let v = register.get_X();
    register.set_S(v);
}

/// Copies Y to the accumulator.
pub open spec fn sem_tya(r: RegisterState) -> RegisterState {
    load_a(r, r.y)
}

/// Copies Y to the accumulator.
pub fn tya<T: CpuRegister>(register: &mut T)
    ensures
        final(register)@ == sem_tya(old(register)@),
{
    let v = register.get_Y();
    register.set_A(v).update_status_negative_by(v).update_status_zero_by(v);
}

/// Shifts the accumulator left; bit 7 goes to the carry.
pub open spec fn sem_asl_acc(r: RegisterState) -> RegisterState {
    RegisterState { a: asl_result(r.a), ..shifted(r, asl_result(r.a), r.a >= 0x80) }
}

/// Shifts the accumulator left; bit 7 goes to the carry.
pub fn asl_acc<T: CpuRegister>(register: &mut T)
    ensures
        final(register)@ == sem_asl_acc(old(register)@),
{
    let a = register.get_A();
    let shifted = lo(widen(a) * 2);
    register.set_status_carry(a >= 0x80).update_status_negative_by(shifted).update_status_zero_by(
        shifted,
    ).set_A(shifted);
}

/// Shifts the accumulator right; bit 0 goes to the carry.
pub open spec fn sem_lsr_acc(r: RegisterState) -> RegisterState {
    RegisterState { a: lsr_result(r.a), ..shifted(r, lsr_result(r.a), r.a % 2 == 1) }
}

/// Shifts the accumulator right; bit 0 goes to the carry.
pub fn lsr_acc<T: CpuRegister>(register: &mut T)
    ensures
        final(register)@ == sem_lsr_acc(old(register)@),
{
    let a = register.get_A();
    let shifted = a / 2;
    register.set_status_carry(a % 2 == 1).update_status_negative_by(shifted).update_status_zero_by(
        shifted,
    ).set_A(shifted);
}

/// Rotates the accumulator left through the carry.
pub open spec fn sem_rol_acc(r: RegisterState) -> RegisterState {
    RegisterState {
        a: rol_result(r.a, r.carry),
        ..shifted(r, rol_result(r.a, r.carry), r.a >= 0x80)
    }
}

/// Rotates the accumulator left through the carry.
pub fn rol_acc<T: CpuRegister>(register: &mut T)
    ensures
        final(register)@ == sem_rol_acc(old(register)@),
{
    let a = register.get_A();
    let computed = rotate_to_left(register, a);
    register.set_status_carry(a >= 0x80).update_status_negative_by(computed)
        .update_status_zero_by(computed).set_A(computed);
}

/// Rotates the accumulator right through the carry.
pub open spec fn sem_ror_acc(r: RegisterState) -> RegisterState {
    RegisterState {
        a: ror_result(r.a, r.carry),
        ..shifted(r, ror_result(r.a, r.carry), r.a % 2 == 1)
    }
}

/// Rotates the accumulator right through the carry.
pub fn ror_acc<T: CpuRegister>(register: &mut T)
    ensures
        final(register)@ == sem_ror_acc(old(register)@),
{
    let a = register.get_A();
    let computed = rotate_to_right(register, a);
    register.set_status_carry(a % 2 == 1).update_status_negative_by(computed)
        .update_status_zero_by(computed).set_A(computed);
}

/// Takes one from X.
pub open spec fn sem_dex(r: RegisterState) -> RegisterState {
    load_x(r, byte_of(r.x - 1))
}

/// Takes one from X.
pub fn dex<T: CpuRegister>(register: &mut T)
    ensures
        final(register)@ == sem_dex(old(register)@),
{
    let x = sub8(register.get_X(), 1);
    register.update_status_negative_by(x).update_status_zero_by(x).set_X(x);
}

/// Takes one from Y.
pub open spec fn sem_dey(r: RegisterState) -> RegisterState {
    load_y(r, byte_of(r.y - 1))
}

/// Takes one from Y.
pub fn dey<T: CpuRegister>(register: &mut T)
    ensures
        final(register)@ == sem_dey(old(register)@),
{
    let y = sub8(register.get_Y(), 1);
    register.update_status_negative_by(y).update_status_zero_by(y).set_Y(y);
}

/// Adds one to X.
pub open spec fn sem_inx(r: RegisterState) -> RegisterState {
    load_x(r, byte_of(r.x + 1))
}

/// Adds one to X.
pub fn inx<T: CpuRegister>(register: &mut T)
    ensures
        final(register)@ == sem_inx(old(register)@),
{
    let x = add8(register.get_X(), 1);
    register.update_status_negative_by(x).update_status_zero_by(x).set_X(x);
}

/// Adds one to Y.
pub open spec fn sem_iny(r: RegisterState) -> RegisterState {
    load_y(r, byte_of(r.y + 1))
}

/// Adds one to Y.
pub fn iny<T: CpuRegister>(register: &mut T)
    ensures
        final(register)@ == sem_iny(old(register)@),
{
    let y = add8(register.get_Y(), 1);
    register.update_status_negative_by(y).update_status_zero_by(y).set_Y(y);
}

/// Clears the carry flag.
pub open spec fn sem_clc(r: RegisterState) -> RegisterState {
    RegisterState { carry: false, ..r }
}

/// Clears the carry flag.
pub fn clc<T: CpuRegister>(register: &mut T)
    ensures
        final(register)@ == sem_clc(old(register)@),
{
    register.set_status_carry(false);
}

/// Clears the decimal flag.
pub open spec fn sem_cld(r: RegisterState) -> RegisterState {
    RegisterState { decimal_mode: false, ..r }
}

/// Clears the decimal flag.
pub fn cld<T: CpuRegister>(register: &mut T)
    ensures
        final(register)@ == sem_cld(old(register)@),
{
    register.set_status_decimal_mode(false);
}

/// Clears the interrupt-disable flag.
pub open spec fn sem_cli(r: RegisterState) -> RegisterState {
    RegisterState { interrupt: false, ..r }
}

/// Clears the interrupt-disable flag.
pub fn cli<T: CpuRegister>(register: &mut T)
    ensures
        final(register)@ == sem_cli(old(register)@),
{
    register.set_status_interrupt(false);
}

/// Clears the overflow flag.
pub open spec fn sem_clv(r: RegisterState) -> RegisterState {
    RegisterState { overflow: false, ..r }
}

/// Clears the overflow flag.
pub fn clv<T: CpuRegister>(register: &mut T)
    ensures
        final(register)@ == sem_clv(old(register)@),
{
    register.set_status_overflow(false);
}

/// Sets the carry flag.
pub open spec fn sem_sec(r: RegisterState) -> RegisterState {
    RegisterState { carry: true, ..r }
}

/// Sets the carry flag.
pub fn sec<T: CpuRegister>(register: &mut T)
    ensures
        final(register)@ == sem_sec(old(register)@),
{
    register.set_status_carry(true);
}

/// Sets the decimal flag.
pub open spec fn sem_sed(r: RegisterState) -> RegisterState {
    RegisterState { decimal_mode: true, ..r }
}

/// Sets the decimal flag.
pub fn sed<T: CpuRegister>(register: &mut T)
    ensures
        final(register)@ == sem_sed(old(register)@),
{
    register.set_status_decimal_mode(true);
}

/// Sets the interrupt-disable flag.
pub open spec fn sem_sei(r: RegisterState) -> RegisterState {
    RegisterState { interrupt: true, ..r }
}

/// Sets the interrupt-disable flag.
pub fn sei<T: CpuRegister>(register: &mut T)
    ensures
        final(register)@ == sem_sei(old(register)@),
{
    register.set_status_interrupt(true);
}

/// Shifts the byte at `operand` left; bit 7 goes to the carry.
pub open spec fn sem_asl(r: RegisterState, b: BusState, operand: Addr) -> Cpu {
    let v = read_value(b, operand);
    Cpu {
        reg: shifted(r, asl_result(v), v >= 0x80),
        bus: after_write(after_read(b, operand), operand, asl_result(v)),
    }
}

/// Shifts the byte at `operand` left; bit 7 goes to the carry.
pub fn asl<T: CpuRegister, U: CpuBus>(operand: Addr, register: &mut T, bus: &mut U)
    requires
        old(bus).inv(),
    ensures
        final(bus).inv(),
        final(register)@ == sem_asl(old(register)@, old(bus).state(), operand).reg,
        final(bus).state() == sem_asl(old(register)@, old(bus).state(), operand).bus,
{
    let fetched = bus.read(operand);
    let shifted = lo(widen(fetched) * 2);
    register.set_status_carry(fetched >= 0x80).update_status_negative_by(shifted)
        .update_status_zero_by(shifted);
    bus.write(operand, shifted);
}

/// Shifts the byte at `operand` right; bit 0 goes to the carry.
pub open spec fn sem_lsr(r: RegisterState, b: BusState, operand: Addr) -> Cpu {
    let v = read_value(b, operand);
    Cpu {
        reg: shifted(r, lsr_result(v), v % 2 == 1),
        bus: after_write(after_read(b, operand), operand, lsr_result(v)),
    }
}

/// Shifts the byte at `operand` right; bit 0 goes to the carry.
pub fn lsr<T: CpuRegister, U: CpuBus>(operand: Addr, register: &mut T, bus: &mut U)
    requires
        old(bus).inv(),
    ensures
        final(bus).inv(),
        final(register)@ == sem_lsr(old(register)@, old(bus).state(), operand).reg,
        final(bus).state() == sem_lsr(old(register)@, old(bus).state(), operand).bus,
{
    let fetched = bus.read(operand);
    let shifted = fetched / 2;
    register.set_status_carry(fetched % 2 == 1).update_status_negative_by(shifted)
        .update_status_zero_by(shifted);
    bus.write(operand, shifted)
}

/// Rotates the byte at `operand` left through the carry.
pub open spec fn sem_rol(r: RegisterState, b: BusState, operand: Addr) -> Cpu {
    let v = read_value(b, operand);
    Cpu {
        reg: shifted(r, rol_result(v, r.carry), v >= 0x80),
        bus: after_write(after_read(b, operand), operand, rol_result(v, r.carry)),
    }
}

/// Rotates the byte at `operand` left through the carry.
pub fn rol<T: CpuRegister, U: CpuBus>(operand: Addr, register: &mut T, bus: &mut U)
    requires
        old(bus).inv(),
    ensures
        final(bus).inv(),
        final(register)@ == sem_rol(old(register)@, old(bus).state(), operand).reg,
        final(bus).state() == sem_rol(old(register)@, old(bus).state(), operand).bus,
{
    let fetched = bus.read(operand);
    let computed = rotate_to_left(register, fetched);
    register.set_status_carry(fetched >= 0x80).update_status_negative_by(computed)
        .update_status_zero_by(computed);
    bus.write(operand, computed);
}

/// Rotates the byte at `operand` right through the carry.
pub open spec fn sem_ror(r: RegisterState, b: BusState, operand: Addr) -> Cpu {
    let v = read_value(b, operand);
    Cpu {
        reg: shifted(r, ror_result(v, r.carry), v % 2 == 1),
        bus: after_write(after_read(b, operand), operand, ror_result(v, r.carry)),
    }
}

/// Rotates the byte at `operand` right through the carry.
pub fn ror<T: CpuRegister, U: CpuBus>(operand: Addr, register: &mut T, bus: &mut U)
    requires
        old(bus).inv(),
    ensures
        final(bus).inv(),
        final(register)@ == sem_ror(old(register)@, old(bus).state(), operand).reg,
        final(bus).state() == sem_ror(old(register)@, old(bus).state(), operand).bus,
{
    let fetched = bus.read(operand);
    let computed = rotate_to_right(register, fetched);
    register.set_status_carry(fetched % 2 == 1).update_status_negative_by(computed)
        .update_status_zero_by(computed);
    bus.write(operand, computed);
}

/// Takes one from the byte at `operand`.
pub open spec fn sem_dec(r: RegisterState, b: BusState, operand: Addr) -> Cpu {
    let v = read_value(b, operand);
    Cpu {
        reg: set_nz(r, byte_of(v - 1)),
        bus: after_write(after_read(b, operand), operand, byte_of(v - 1)),
    }
}

/// Takes one from the byte at `operand`.
pub fn dec<T: CpuRegister, U: CpuBus>(operand: Addr, register: &mut T, bus: &mut U)
    requires
        old(bus).inv(),
    ensures
        final(bus).inv(),
        final(register)@ == sem_dec(old(register)@, old(bus).state(), operand).reg,
        final(bus).state() == sem_dec(old(register)@, old(bus).state(), operand).bus,
{
    let computed = sub8(bus.read(operand), 1);
    register.update_status_negative_by(computed).update_status_zero_by(computed);
    bus.write(operand, computed)
}

/// Adds one to the byte at `operand`.
pub open spec fn sem_inc(r: RegisterState, b: BusState, operand: Addr) -> Cpu {
    let v = read_value(b, operand);
    Cpu {
        reg: set_nz(r, byte_of(v + 1)),
        bus: after_write(after_read(b, operand), operand, byte_of(v + 1)),
    }
}

/// Adds one to the byte at `operand`.
pub fn inc<T: CpuRegister, U: CpuBus>(operand: Addr, register: &mut T, bus: &mut U)
    requires
        old(bus).inv(),
    ensures
        final(bus).inv(),
        final(register)@ == sem_inc(old(register)@, old(bus).state(), operand).reg,
        final(bus).state() == sem_inc(old(register)@, old(bus).state(), operand).bus,
{
    let computed = add8(bus.read(operand), 1);
    register.update_status_negative_by(computed).update_status_zero_by(computed);
    bus.write(operand, computed)
}

/// Takes one from the byte at `operand`, then compares the accumulator with it.
pub open spec fn sem_dcp(r: RegisterState, b: BusState, operand: Addr) -> Cpu {
    let v = read_value(b, operand);
    Cpu {
        reg: compare_a(r, byte_of(v - 1)),
        bus: after_write(after_read(b, operand), operand, byte_of(v - 1)),
    }
}

/// Takes one from the byte at `operand`, then compares the accumulator with it.
pub fn dcp<T: CpuRegister, U: CpuBus>(operand: Addr, register: &mut T, bus: &mut U)
    requires
        old(bus).inv(),
    ensures
        final(bus).inv(),
        final(register)@ == sem_dcp(old(register)@, old(bus).state(), operand).reg,
        final(bus).state() == sem_dcp(old(register)@, old(bus).state(), operand).bus,
{
    let computed = sub8(bus.read(operand), 1);
    bus.write(operand, computed);
    let a = register.get_A();
    compare_with(a, computed, register);
}

/// Adds one to the byte at `operand`, then subtracts it from the accumulator.
pub open spec fn sem_isc(r: RegisterState, b: BusState, operand: Addr) -> Cpu {
    let v = read_value(b, operand);
    Cpu {
        reg: sbc_value(r, byte_of(v + 1)),
        bus: after_write(after_read(b, operand), operand, byte_of(v + 1)),
    }
}

/// Adds one to the byte at `operand`, then subtracts it from the accumulator.
pub fn isc<T: CpuRegister, U: CpuBus>(operand: Addr, register: &mut T, bus: &mut U)
    requires
        old(bus).inv(),
    ensures
        final(bus).inv(),
        final(register)@ == sem_isc(old(register)@, old(bus).state(), operand).reg,
        final(bus).state() == sem_isc(old(register)@, old(bus).state(), operand).bus,
{
    let computed = add8(bus.read(operand), 1);
    bus.write(operand, computed);
    sbc_imm(widen(computed), register);
}

/// Shifts the byte at `operand` left, then ORs it into the accumulator.
pub open spec fn sem_slo(r: RegisterState, b: BusState, operand: Addr) -> Cpu {
    let v = read_value(b, operand);
    Cpu {
        reg: ora_value(RegisterState { carry: v >= 0x80, ..r }, asl_result(v)),
        bus: after_write(after_read(b, operand), operand, asl_result(v)),
    }
}

/// Shifts the byte at `operand` left, then ORs it into the accumulator.
pub fn slo<T: CpuRegister, U: CpuBus>(operand: Addr, register: &mut T, bus: &mut U)
    requires
        old(bus).inv(),
    ensures
        final(bus).inv(),
        final(register)@ == sem_slo(old(register)@, old(bus).state(), operand).reg,
        final(bus).state() == sem_slo(old(register)@, old(bus).state(), operand).bus,
{
    let fetched = bus.read(operand);
    let shifted = lo(widen(fetched) * 2);
    bus.write(operand, shifted);
    register.set_status_carry(fetched >= 0x80);
    ora_imm(widen(shifted), register);
}

/// Rotates the byte at `operand` left, then ANDs it into the accumulator.
pub open spec fn sem_rla(r: RegisterState, b: BusState, operand: Addr) -> Cpu {
    let v = read_value(b, operand);
    Cpu {
        reg: and_value(RegisterState { carry: v >= 0x80, ..r }, rol_result(v, r.carry)),
        bus: after_write(after_read(b, operand), operand, rol_result(v, r.carry)),
    }
}

/// Rotates the byte at `operand` left, then ANDs it into the accumulator.
pub fn rla<T: CpuRegister, U: CpuBus>(operand: Addr, register: &mut T, bus: &mut U)
    requires
        old(bus).inv(),
    ensures
        final(bus).inv(),
        final(register)@ == sem_rla(old(register)@, old(bus).state(), operand).reg,
        final(bus).state() == sem_rla(old(register)@, old(bus).state(), operand).bus,
{
    let fetched = bus.read(operand);
    let computed = rotate_to_left(register, fetched);
    bus.write(operand, computed);
    register.set_status_carry(fetched >= 0x80);
    and_imm(widen(computed), register);
}

/// Shifts the byte at `operand` right, then exclusive-ORs it into the accumulator.
pub open spec fn sem_sre(r: RegisterState, b: BusState, operand: Addr) -> Cpu {
    let v = read_value(b, operand);
    Cpu {
        reg: eor_value(RegisterState { carry: v % 2 == 1, ..r }, lsr_result(v)),
        bus: after_write(after_read(b, operand), operand, lsr_result(v)),
    }
}

/// Shifts the byte at `operand` right, then exclusive-ORs it into the accumulator.
pub fn sre<T: CpuRegister, U: CpuBus>(operand: Addr, register: &mut T, bus: &mut U)
    requires
        old(bus).inv(),
    ensures
        final(bus).inv(),
        final(register)@ == sem_sre(old(register)@, old(bus).state(), operand).reg,
        final(bus).state() == sem_sre(old(register)@, old(bus).state(), operand).bus,
{
    let fetched = bus.read(operand);
    let shifted = fetched / 2;
    bus.write(operand, shifted);
    register.set_status_carry(fetched % 2 == 1);
    eor_imm(widen(shifted), register);
}

/// Rotates the byte at `operand` right, then adds it to the accumulator.
pub open spec fn sem_rra(r: RegisterState, b: BusState, operand: Addr) -> Cpu {
    let v = read_value(b, operand);
    Cpu {
        reg: adc_value(RegisterState { carry: v % 2 == 1, ..r }, ror_result(v, r.carry)),
        bus: after_write(after_read(b, operand), operand, ror_result(v, r.carry)),
    }
}

/// Rotates the byte at `operand` right, then adds it to the accumulator.
pub fn rra<T: CpuRegister, U: CpuBus>(operand: Addr, register: &mut T, bus: &mut U)
    requires
        old(bus).inv(),
    ensures
        final(bus).inv(),
        final(register)@ == sem_rra(old(register)@, old(bus).state(), operand).reg,
        final(bus).state() == sem_rra(old(register)@, old(bus).state(), operand).bus,
{
    let fetched = bus.read(operand);
    let computed = rotate_to_right(register, fetched);
    bus.write(operand, computed);
    register.set_status_carry(fetched % 2 == 1);
    adc_imm(widen(computed), register);
}

/// Pushes `data` on the stack.
pub fn push<T: CpuRegister, U: CpuBus>(data: Data, register: &mut T, bus: &mut U)
    requires
        old(bus).inv(),
    ensures
        final(bus).inv(),
        final(register)@ == sem_push(data, old(register)@, old(bus).state()).reg,
        final(bus).state() == sem_push(data, old(register)@, old(bus).state()).bus,
{
    let addr = word(register.get_S(), 1);
    bus.write(addr, data);
    register.dec_S();
}

/// Pulls a byte from the stack.
pub fn pop<T: CpuRegister, U: CpuBus>(register: &mut T, bus: &mut U) -> (data: Data)
    requires
        old(bus).inv(),
    ensures
        final(bus).inv(),
        data == sem_pop(old(register)@, old(bus).state()).0,
        final(register)@ == sem_pop(old(register)@, old(bus).state()).1.reg,
        final(bus).state() == sem_pop(old(register)@, old(bus).state()).1.bus,
{
    register.inc_S();
    let stack = word(register.get_S(), 1);
    bus.read(stack)
}

/// Pulls the program counter from the stack.
pub fn pop_pc<T: CpuRegister, U: CpuBus>(register: &mut T, bus: &mut U)
    requires
        old(bus).inv(),
    ensures
        final(bus).inv(),
        final(register)@ == sem_pop_pc(old(register)@, old(bus).state()).reg,
        final(bus).state() == sem_pop_pc(old(register)@, old(bus).state()).bus,
{
    let lower = pop(register, bus);
    let upper = pop(register, bus);
    register.set_PC(word(lower, upper));
}

/// Pulls the flags from the stack.
pub fn pop_status<T: CpuRegister, U: CpuBus>(register: &mut T, bus: &mut U)
    requires
        old(bus).inv(),
    ensures
        final(bus).inv(),
        final(register)@ == sem_pop_status(old(register)@, old(bus).state()).reg,
        final(bus).state() == sem_pop_status(old(register)@, old(bus).state()).bus,
{
    let p = pop(register, bus);
    register.set_Status(p);
}

/// Pushes the accumulator.
pub open spec fn sem_pha(r: RegisterState, b: BusState) -> Cpu {
    sem_push(r.a, r, b)
}

/// Pushes the status byte.
pub open spec fn sem_php(r: RegisterState, b: BusState) -> Cpu {
    sem_push(status_byte(r), r, b)
}

/// Pulls the accumulator.
pub open spec fn sem_pla(r: RegisterState, b: BusState) -> Cpu {
    let (v, c) = sem_pop(r, b);
    Cpu { reg: load_a(c.reg, v), bus: c.bus }
}

/// Pulls the flags.
pub open spec fn sem_plp(r: RegisterState, b: BusState) -> Cpu {
    sem_pop_status(r, b)
}

/// Calls the subroutine at `operand`: the address of the last byte of this
/// instruction is pushed, high byte first.
pub open spec fn sem_jsr(r: RegisterState, b: BusState, operand: Addr) -> Cpu {
    let ret = word_of(r.pc - 1);
    let c1 = sem_push(high_byte(ret), r, b);
    let c2 = sem_push(low_byte(ret), c1.reg, c1.bus);
    Cpu { reg: RegisterState { pc: operand, ..c2.reg }, bus: c2.bus }
}

/// Returns from a subroutine: the program counter is pulled and moved one on.
pub open spec fn sem_rts(r: RegisterState, b: BusState) -> Cpu {
    let c = sem_pop_pc(r, b);
    Cpu { reg: step_pc(c.reg), bus: c.bus }
}

/// Returns from an interrupt: the flags are pulled, then the program counter,
/// which is the address to go on at.
pub open spec fn sem_rti(r: RegisterState, b: BusState) -> Cpu {
    let c1 = sem_pop_status(r, b);
    sem_pop_pc(c1.reg, c1.bus)
}

/// A software interrupt. The program counter plus one is pushed, then the
/// status byte with the break flag set; the interrupt-disable flag is set and
/// the program counter is loaded from the word at 0xFFFE.
pub open spec fn sem_brk(r: RegisterState, b: BusState) -> Cpu {
    let ret = word_of(r.pc + 1);
    let r0 = RegisterState { break_mode: true, ..r };
    let c1 = sem_push(high_byte(ret), r0, b);
    let c2 = sem_push(low_byte(ret), c1.reg, c1.bus);
    let c3 = sem_push(status_byte(c2.reg), c2.reg, c2.bus);
    Cpu {
        reg: RegisterState { interrupt: true, pc: word_value(c3.bus, 0xFFFE), ..c3.reg },
        bus: after_read_word(c3.bus, 0xFFFE),
    }
}

/// Pushes the accumulator.
pub fn pha<T: CpuRegister, U: CpuBus>(register: &mut T, bus: &mut U)
    requires
        old(bus).inv(),
    ensures
        final(bus).inv(),
        final(register)@ == sem_pha(old(register)@, old(bus).state()).reg,
        final(bus).state() == sem_pha(old(register)@, old(bus).state()).bus,
{
    let a = register.get_A();
    push(a, register, bus);
}

/// Pushes the status byte.
pub fn php<T: CpuRegister, U: CpuBus>(register: &mut T, bus: &mut U)
    requires
        old(bus).inv(),
    ensures
        final(bus).inv(),
        final(register)@ == sem_php(old(register)@, old(bus).state()).reg,
        final(bus).state() == sem_php(old(register)@, old(bus).state()).bus,
{
    let p = register.get_Status();
    push(p, register, bus);
}

/// Pulls the accumulator.
pub fn pla<T: CpuRegister, U: CpuBus>(register: &mut T, bus: &mut U)
    requires
        old(bus).inv(),
    ensures
        final(bus).inv(),
        final(register)@ == sem_pla(old(register)@, old(bus).state()).reg,
        final(bus).state() == sem_pla(old(register)@, old(bus).state()).bus,
{
    let v = pop(register, bus);
    register.update_status_negative_by(v).update_status_zero_by(v).set_A(v);
}

/// Pulls the flags.
pub fn plp<T: CpuRegister, U: CpuBus>(register: &mut T, bus: &mut U)
    requires
        old(bus).inv(),
    ensures
        final(bus).inv(),
        final(register)@ == sem_plp(old(register)@, old(bus).state()).reg,
        final(bus).state() == sem_plp(old(register)@, old(bus).state()).bus,
{
    pop_status(register, bus);
}

/// Jumps to `operand`.
pub open spec fn sem_jmp(r: RegisterState, operand: Addr) -> RegisterState {
    RegisterState { pc: operand, ..r }
}

/// Jumps to `operand`.
pub fn jmp<T: CpuRegister>(operand: Addr, register: &mut T)
    ensures
        final(register)@ == sem_jmp(old(register)@, operand),
{
    register.set_PC(operand);
}

/// Calls the subroutine at `operand`.
pub fn jsr<T: CpuRegister, U: CpuBus>(operand: Addr, register: &mut T, bus: &mut U)
    requires
        old(bus).inv(),
    ensures
        final(bus).inv(),
        final(register)@ == sem_jsr(old(register)@, old(bus).state(), operand).reg,
        final(bus).state() == sem_jsr(old(register)@, old(bus).state(), operand).bus,
{
    let addr = sub16(register.get_PC(), 1);
    push(hi(addr), register, bus);
    push(lo(addr), register, bus);
    register.set_PC(operand);
}

/// Returns from a subroutine.
pub fn rts<T: CpuRegister, U: CpuBus>(register: &mut T, bus: &mut U)
    requires
        old(bus).inv(),
    ensures
        final(bus).inv(),
        final(register)@ == sem_rts(old(register)@, old(bus).state()).reg,
        final(bus).state() == sem_rts(old(register)@, old(bus).state()).bus,
{
    pop_pc(register, bus);
    register.increment_PC();
}

/// Returns from an interrupt.
pub fn rti<T: CpuRegister, U: CpuBus>(register: &mut T, bus: &mut U)
    requires
        old(bus).inv(),
    ensures
        final(bus).inv(),
        final(register)@ == sem_rti(old(register)@, old(bus).state()).reg,
        final(bus).state() == sem_rti(old(register)@, old(bus).state()).bus,
{
    pop_status(register, bus);
    pop_pc(register, bus);
}

/// A software interrupt.
pub fn brk<T: CpuRegister, U: CpuBus>(register: &mut T, bus: &mut U)
    requires
        old(bus).inv(),
    ensures
        final(bus).inv(),
        final(register)@ == sem_brk(old(register)@, old(bus).state()).reg,
        final(bus).state() == sem_brk(old(register)@, old(bus).state()).bus,
{
    let ret = add16(register.get_PC(), 1);
    register.set_status_break_mode(true);
    push(hi(ret), register, bus);
    push(lo(ret), register, bus);
    let p = register.get_Status();
    push(p, register, bus);
    let vector = bus.read_word(0xFFFE);
    register.set_status_interrupt(true).set_PC(vector);
}

/// Moves the program counter to `addr` and charges the cycles of a taken
/// branch.
pub fn branch<T: CpuRegister>(addr: Addr, register: &mut T)
    ensures
        final(register)@ == branch_if(old(register)@, true, addr),
{
    let from = register.get_PC();
    register.set_PC(addr);
    register.add_branch_cycle(from, addr);
}

/// Branches to `operand` when the carry flag is clear.
pub open spec fn sem_bcc(r: RegisterState, operand: Addr) -> RegisterState {
    branch_if(r, !r.carry, operand)
}

/// Branches to `operand` when the carry flag is clear.
pub fn bcc<T: CpuRegister>(operand: Addr, register: &mut T)
    ensures
        final(register)@ == sem_bcc(old(register)@, operand),
{
    if !register.get_status_carry() {
        branch(operand, register);
    }
}

/// Branches to `operand` when the carry flag is set.
pub open spec fn sem_bcs(r: RegisterState, operand: Addr) -> RegisterState {
    branch_if(r, r.carry, operand)
}

/// Branches to `operand` when the carry flag is set.
pub fn bcs<T: CpuRegister>(operand: Addr, register: &mut T)
    ensures
        final(register)@ == sem_bcs(old(register)@, operand),
{
    if register.get_status_carry() {
        branch(operand, register);
    }
}

/// Branches to `operand` when the zero flag is set.
pub open spec fn sem_beq(r: RegisterState, operand: Addr) -> RegisterState {
    branch_if(r, r.zero, operand)
}

/// Branches to `operand` when the zero flag is set.
pub fn beq<T: CpuRegister>(operand: Addr, register: &mut T)
    ensures
        final(register)@ == sem_beq(old(register)@, operand),
{
    if register.get_status_zero() {
        branch(operand, register);
    }
}

/// Branches to `operand` when the negative flag is set.
pub open spec fn sem_bmi(r: RegisterState, operand: Addr) -> RegisterState {
    branch_if(r, r.negative, operand)
}

/// Branches to `operand` when the negative flag is set.
pub fn bmi<T: CpuRegister>(operand: Addr, register: &mut T)
    ensures
        final(register)@ == sem_bmi(old(register)@, operand),
{
    if register.get_status_negative() {
        branch(operand, register);
    }
}

/// Branches to `operand` when the zero flag is clear.
pub open spec fn sem_bne(r: RegisterState, operand: Addr) -> RegisterState {
    branch_if(r, !r.zero, operand)
}

/// Branches to `operand` when the zero flag is clear.
pub fn bne<T: CpuRegister>(operand: Addr, register: &mut T)
    ensures
        final(register)@ == sem_bne(old(register)@, operand),
{
    if !register.get_status_zero() {
        branch(operand, register);
    }
}

/// Branches to `operand` when the negative flag is clear.
pub open spec fn sem_bpl(r: RegisterState, operand: Addr) -> RegisterState {
    branch_if(r, !r.negative, operand)
}

/// Branches to `operand` when the negative flag is clear.
pub fn bpl<T: CpuRegister>(operand: Addr, register: &mut T)
    ensures
        final(register)@ == sem_bpl(old(register)@, operand),
{
    if !register.get_status_negative() {
        branch(operand, register);
    }
}

/// Branches to `operand` when the overflow flag is clear.
pub open spec fn sem_bvc(r: RegisterState, operand: Addr) -> RegisterState {
    branch_if(r, !r.overflow, operand)
}

/// Branches to `operand` when the overflow flag is clear.
pub fn bvc<T: CpuRegister>(operand: Addr, register: &mut T)
    ensures
        final(register)@ == sem_bvc(old(register)@, operand),
{
    if !register.get_status_overflow() {
        branch(operand, register);
    }
}

/// Branches to `operand` when the overflow flag is set.
pub open spec fn sem_bvs(r: RegisterState, operand: Addr) -> RegisterState {
    branch_if(r, r.overflow, operand)
}

/// Branches to `operand` when the overflow flag is set.
pub fn bvs<T: CpuRegister>(operand: Addr, register: &mut T)
    ensures
        final(register)@ == sem_bvs(old(register)@, operand),
{
    if register.get_status_overflow() {
        branch(operand, register);
    }
}

} // verus!

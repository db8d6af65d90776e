use super::fetch::{sem_fetch, sem_fetch_absolute, sem_fetch_operand, zeropage_word};
use super::instructions::{sem_brk, sem_jsr, sem_pop, sem_push, sem_rti, sem_rts};
use super::opecodes::{
    addressing_of, base_cycles, instruction_of, mode_index, page_cross_cycles, Addressing,
    Instruction,
};
use super::{
    sem_arithmetic, sem_branch, sem_combined, sem_entry, sem_execute, sem_flag, sem_instruction,
    sem_interrupt, sem_run, sem_shift, sem_stack, sem_transfer, serves_interrupt, supported, Cpu,
};
use crate::bus::cpu_bus::{after_read, read_value, word_value, BusState};
use crate::cpu_register::{
    branch_penalty, pages_differ, status_byte, with_status, InterruptType, RegisterState,
};
use crate::fault::Fault;
use crate::types::{byte_of, high_byte, low_byte, make_word, word_of, Addr, Data, Word};
use vstd::prelude::*;

verus! {

/// Whether instruction `name` is a branch whose condition holds of the flags
/// in `r`.
pub open spec fn branch_taken(name: Instruction, r: RegisterState) -> bool {
    match name {
        Instruction::BCC => !r.carry,
        Instruction::BCS => r.carry,
        Instruction::BEQ => r.zero,
        Instruction::BMI => r.negative,
        Instruction::BNE => !r.zero,
        Instruction::BPL => !r.negative,
        Instruction::BVC => !r.overflow,
        Instruction::BVS => r.overflow,
        _ => false,
    }
}

/// The cycles that instruction `name` pays for branching from `next`, the
/// address of the instruction behind it, to `target`: none unless it is a
/// branch that is taken; then one, and one more when the target lies in another
/// page than `next`.
pub open spec fn branch_cycles(name: Instruction, r: RegisterState, target: Addr) -> int {
    if branch_taken(name, r) {
        branch_penalty(r.pc, target) as int
    } else {
        0
    }
}

/// The cycles that opcode `code` pays for an operand that crossed a page: the
/// entry of the table, 0 or 1, when it did, and none when it did not.
pub open spec fn cross_cycles(code: Data, crossed: bool) -> int {
    if crossed {
        page_cross_cycles(code) as int
    } else {
        0
    }
}

/// Where the beam of the picture unit stands: the dot and the scanline.
pub open spec fn beam(b: BusState) -> (usize, usize) {
    (b.ppu.cycle, b.ppu.line)
}

/// No access of the bus moves the beam of the picture unit.
pub proof fn lemma_access_keeps_beam()
    ensures
        forall|b: BusState, addr: Addr| beam(#[trigger] b.read(addr).0) == beam(b),
        forall|b: BusState, addr: Addr, data: Data|
            beam(#[trigger] b.write(addr, data)) == beam(b),
{
    reveal(BusState::read);
    reveal(BusState::write);
}

proof fn lemma_operand_keeps_beam(mode: Addressing, r: RegisterState, b: BusState)
    ensures
        beam(sem_fetch_operand(mode, r, b).1.bus) == beam(b),
        sem_fetch_operand(mode, r, b).1.reg.additional_cycle == r.additional_cycle,
{
    reveal(sem_fetch_operand);
    lemma_access_keeps_beam();
}

proof fn lemma_transfer_keeps(name: Instruction, mode: Addressing, operand: Word, c: Cpu)
    ensures
        beam(sem_transfer(name, mode, operand, c).bus) == beam(c.bus),
        sem_transfer(name, mode, operand, c).reg.additional_cycle == c.reg.additional_cycle,
        sem_transfer(name, mode, operand, c).reg.page_crossed == c.reg.page_crossed,
{
    reveal(sem_transfer);
    lemma_access_keeps_beam();
}

proof fn lemma_arithmetic_keeps(name: Instruction, mode: Addressing, operand: Word, c: Cpu)
    ensures
        beam(sem_arithmetic(name, mode, operand, c).bus) == beam(c.bus),
        sem_arithmetic(name, mode, operand, c).reg.additional_cycle == c.reg.additional_cycle,
        sem_arithmetic(name, mode, operand, c).reg.page_crossed == c.reg.page_crossed,
{
    reveal(sem_arithmetic);
    lemma_access_keeps_beam();
}

proof fn lemma_shift_keeps(name: Instruction, mode: Addressing, operand: Word, c: Cpu)
    ensures
        beam(sem_shift(name, mode, operand, c).bus) == beam(c.bus),
        sem_shift(name, mode, operand, c).reg.additional_cycle == c.reg.additional_cycle,
        sem_shift(name, mode, operand, c).reg.page_crossed == c.reg.page_crossed,
{
    reveal(sem_shift);
    lemma_access_keeps_beam();
}

proof fn lemma_stack_keeps(name: Instruction, mode: Addressing, operand: Word, c: Cpu)
    ensures
        beam(sem_stack(name, mode, operand, c).bus) == beam(c.bus),
        sem_stack(name, mode, operand, c).reg.additional_cycle == c.reg.additional_cycle,
        sem_stack(name, mode, operand, c).reg.page_crossed == c.reg.page_crossed,
{
    reveal(with_status);
    reveal(sem_stack);
    lemma_access_keeps_beam();
}

proof fn lemma_branch_keeps(name: Instruction, mode: Addressing, operand: Word, c: Cpu)
    requires
        c.reg.additional_cycle == 0,
    ensures
        beam(sem_branch(name, mode, operand, c).bus) == beam(c.bus),
        branch_taken(name, c.reg) ==> sem_branch(name, mode, operand, c).reg.additional_cycle
            == branch_penalty(c.reg.pc, operand),
        !branch_taken(name, c.reg) ==> sem_branch(name, mode, operand, c).reg.additional_cycle
            == 0,
        sem_branch(name, mode, operand, c).reg.page_crossed == c.reg.page_crossed,
{
    reveal(sem_branch);
}

proof fn lemma_flag_keeps(name: Instruction, mode: Addressing, operand: Word, c: Cpu)
    ensures
        beam(sem_flag(name, mode, operand, c).bus) == beam(c.bus),
        sem_flag(name, mode, operand, c).reg.additional_cycle == c.reg.additional_cycle,
        sem_flag(name, mode, operand, c).reg.page_crossed == c.reg.page_crossed,
{
    reveal(sem_flag);
}

proof fn lemma_combined_keeps(name: Instruction, mode: Addressing, operand: Word, c: Cpu)
    ensures
        beam(sem_combined(name, mode, operand, c).bus) == beam(c.bus),
        sem_combined(name, mode, operand, c).reg.additional_cycle == c.reg.additional_cycle,
        sem_combined(name, mode, operand, c).reg.page_crossed == c.reg.page_crossed,
{
    reveal(sem_combined);
    lemma_access_keeps_beam();
}

/// An instruction leaves the beam of the picture unit and the page-cross mark
/// alone, and charges the cycles of its branch and no others.
pub proof fn lemma_execute_keeps(name: Instruction, mode: Addressing, operand: Word, c: Cpu)
    requires
        c.reg.additional_cycle == 0,
    ensures
        beam(sem_execute(name, mode, operand, c).bus) == beam(c.bus),
        sem_execute(name, mode, operand, c).reg.additional_cycle == branch_cycles(
            name,
            c.reg,
            operand,
        ),
        sem_execute(name, mode, operand, c).reg.page_crossed == c.reg.page_crossed,
{
    lemma_transfer_keeps(name, mode, operand, c);
    lemma_arithmetic_keeps(name, mode, operand, c);
    lemma_shift_keeps(name, mode, operand, c);
    lemma_stack_keeps(name, mode, operand, c);
    lemma_branch_keeps(name, mode, operand, c);
    lemma_flag_keeps(name, mode, operand, c);
    lemma_combined_keeps(name, mode, operand, c);
}

proof fn lemma_fetch_keeps(r: RegisterState, b: BusState)
    ensures
        beam(sem_fetch(r, b).1.bus) == beam(b),
        sem_fetch(r, b).1.reg.additional_cycle == r.additional_cycle,
        sem_fetch(r, b).1.reg.page_crossed == r.page_crossed,
        sem_fetch(r, b).0 == read_value(b, r.pc),
{
    lemma_access_keeps_beam();
}

proof fn lemma_entry_keeps(r: RegisterState, b: BusState, nmi: bool)
    ensures
        beam(sem_entry(r, b, nmi).bus) == beam(b),
{
    lemma_access_keeps_beam();
}

proof fn lemma_tables(code: Data)
    ensures
        2 <= base_cycles(code) <= 8,
        page_cross_cycles(code) <= 1,
{
    reveal(base_cycles);
    reveal(page_cross_cycles);
}

/// The cycles of one instruction are its base cycles, the cycles of its
/// branch and the cycles of its page crossing, whatever the registers and the
/// bus hold: a branch pays nothing when it is not taken, one cycle when it is,
/// and two when its target lies in another page than the instruction behind
/// it; an operand that crossed a page pays what the table says, 0 or 1. The
/// instruction leaves no charged cycles over and leaves the beam of the
/// picture unit where it is.
pub proof fn lemma_instruction_cycles(r: RegisterState, b: BusState)
    ensures
        ({
            let code = read_value(b, r.pc);
            let (c, c1) = sem_fetch(
                RegisterState { page_crossed: false, additional_cycle: 0, ..r },
                b,
            );
            let (operand, c2) = sem_fetch_operand(addressing_of(code), c1.reg, c1.bus);
            let branch = branch_cycles(instruction_of(code), c2.reg, operand);
            let cross = cross_cycles(code, c2.reg.page_crossed);
            &&& c == code
            &&& 0 <= branch <= 2
            &&& 0 <= cross <= 1
            &&& 2 <= base_cycles(code) <= 8
            &&& supported(instruction_of(code)) ==> sem_instruction(r, b).result == Ok::<
                Data,
                Fault,
            >((base_cycles(code) + branch + cross) as Data) && sem_instruction(
                r,
                b,
            ).cpu.reg.additional_cycle == 0
            &&& !supported(instruction_of(code)) ==> sem_instruction(r, b).result == Err::<
                Data,
                Fault,
            >(Fault::UnknownOpcode(code))
            &&& beam(sem_instruction(r, b).cpu.bus) == beam(b)
        }),
{
    let r0 = RegisterState { page_crossed: false, additional_cycle: 0, ..r };
    lemma_fetch_keeps(r0, b);
    let (code, c1) = sem_fetch(r0, b);
    lemma_tables(code);
    let (operand, c2) = sem_fetch_operand(addressing_of(code), c1.reg, c1.bus);
    lemma_operand_keeps_beam(addressing_of(code), c1.reg, c1.bus);
    if supported(instruction_of(code)) {
        lemma_execute_keeps(instruction_of(code), addressing_of(code), operand, c2);
    }
}

/// An operand crosses a page only where it is indexed: with an addressing
/// mode other than absolute indexed by X or Y and indirect indexed by Y, the
/// page-cross mark stays clear while the operand is resolved.
pub proof fn lemma_no_page_cross(mode: Addressing, r: RegisterState, b: BusState)
    requires
        !r.page_crossed,
        mode != Addressing::AbsoluteX,
        mode != Addressing::AbsoluteY,
        mode != Addressing::IndirectIndexed,
    ensures
        !sem_fetch_operand(mode, r, b).1.reg.page_crossed,
{
    reveal(sem_fetch_operand);
}

/// With absolute addressing indexed by X or Y, the operand is the address
/// that the two bytes behind the opcode give, plus the index, and the
/// page-cross mark says whether the two lie in different pages. With indirect
/// addressing indexed by Y the same holds of the address stored in the zero
/// page.
pub proof fn lemma_page_cross_mark(mode: Addressing, r: RegisterState, b: BusState)
    requires
        mode == Addressing::AbsoluteX || mode == Addressing::AbsoluteY || mode
            == Addressing::IndirectIndexed,
    ensures
        ({
            let (operand, c) = sem_fetch_operand(mode, r, b);
            let base = if mode == Addressing::IndirectIndexed {
                let (zp, c1) = sem_fetch(r, b);
                zeropage_word(zp, c1.bus).0
            } else {
                sem_fetch_absolute(r, b).0
            };
            let index = if mode == Addressing::AbsoluteX {
                r.x
            } else {
                r.y
            };
            &&& operand == word_of(base + index)
            &&& c.reg.page_crossed == pages_differ(base, operand)
        }),
{
    reveal(sem_fetch_operand);
}

/// A step of the processor with no interrupt to serve is one instruction and
/// takes its cycles: the base cycles, the cycles of its branch and the cycles
/// of its page crossing. No cycles left over in the registers count.
pub proof fn lemma_step_cycles(r: RegisterState, b: BusState)
    requires
        !serves_interrupt(r, false),
        supported(instruction_of(read_value(b, r.pc))),
    ensures
        ({
            let code = read_value(b, r.pc);
            let c1 = sem_fetch(
                RegisterState { page_crossed: false, additional_cycle: 0, ..r },
                b,
            ).1;
            let (operand, c2) = sem_fetch_operand(addressing_of(code), c1.reg, c1.bus);
            sem_run(r, b, false).result == Ok::<Data, Fault>(
                (base_cycles(code) + branch_cycles(instruction_of(code), c2.reg, operand)
                    + cross_cycles(code, c2.reg.page_crossed)) as Data,
            )
        }),
{
    lemma_instruction_cycles(r, b);
}

/// A step of the processor that serves an interrupt enters the handler and
/// does nothing else. It takes seven cycles and fetches no opcode: the program
/// counter is the word read at the vector, 0xFFFA for the non-maskable
/// interrupt and 0xFFFE for the maskable one. The old program counter and
/// then the status byte with the break flag clear are on the stack, the stack
/// pointer is three down, the interrupt-disable flag is set, and a maskable
/// request is withdrawn.
pub proof fn lemma_interrupt_step(r: RegisterState, b: BusState, nmi: bool)
    requires
        b.ram.len() >= 0x0800,
        serves_interrupt(r, nmi),
    ensures
        ({
            let out = sem_run(r, b, nmi);
            let vector: Addr = if nmi {
                0xFFFA
            } else {
                0xFFFE
            };
            let flags = status_byte(RegisterState { break_mode: false, ..r });
            &&& out.result == Ok::<Data, Fault>(7)
            &&& out.cpu.reg.additional_cycle == 0
            &&& out.cpu.reg.interrupt
            &&& out.cpu.reg.s == byte_of(r.s - 3)
            &&& out.cpu.reg.a == r.a && out.cpu.reg.x == r.x && out.cpu.reg.y == r.y
            &&& out.cpu.bus.ram[0x100 + r.s] == high_byte(r.pc)
            &&& out.cpu.bus.ram[0x100 + byte_of(r.s - 1)] == low_byte(r.pc)
            &&& out.cpu.bus.ram[0x100 + byte_of(r.s - 2)] == flags
            &&& (flags / 16) % 2 == 0
            &&& out.cpu.reg.pc == word_value(BusState { ram: out.cpu.bus.ram, ..b }, vector)
            &&& out.cpu.bus == (BusState { ram: out.cpu.bus.ram, ..b }).read_word(vector).0
            &&& !nmi ==> out.cpu.reg.interrupt_type == InterruptType::NONE
        }),
{
    let vector: Addr = if nmi {
        0xFFFA
    } else {
        0xFFFE
    };
    lemma_interrupt_entry(r, b, vector);
}

/// A step of the processor leaves no charged cycles over and leaves the beam
/// of the picture unit where it is, and it takes from 2 to 11 cycles unless it
/// meets an opcode that is not implemented.
pub proof fn lemma_step_bounds(r: RegisterState, b: BusState, nmi: bool)
    ensures
        beam(sem_run(r, b, nmi).cpu.bus) == beam(b),
        sem_run(r, b, nmi).result matches Ok(cycles) ==> 2 <= cycles <= 11 && sem_run(
            r,
            b,
            nmi,
        ).cpu.reg.additional_cycle == 0,
{
    lemma_entry_keeps(r, b, nmi);
    lemma_instruction_cycles(r, b);
}

proof fn lemma_opcode_zero()
    ensures
        instruction_of(0x00) == Instruction::BRK,
        addressing_of(0x00) == Addressing::Implied,
        base_cycles(0x00) == 7,
{
    reveal(instruction_of);
    reveal(mode_index);
    reveal(base_cycles);
}

proof fn lemma_implied_operand(r: RegisterState, b: BusState)
    ensures
        sem_fetch_operand(Addressing::Implied, r, b) == (0u16, Cpu { reg: r, bus: b }),
{
    reveal(sem_fetch_operand);
}

proof fn lemma_execute_brk(mode: Addressing, operand: Word, c: Cpu)
    ensures
        sem_execute(Instruction::BRK, mode, operand, c) == sem_brk(c.reg, c.bus),
{
    reveal(sem_stack);
}

/// A step with no interrupt to serve that meets the opcode 0x00 is a software
/// interrupt: it takes seven cycles, sets the interrupt-disable flag and loads
/// the program counter from the word at 0xFFFE. The address two behind the
/// opcode and then the status byte with the break flag set are on the stack.
pub proof fn lemma_brk_step(r: RegisterState, b: BusState)
    requires
        b.ram.len() >= 0x0800,
        !serves_interrupt(r, false),
        read_value(b, r.pc) == 0x00,
    ensures
        ({
            let out = sem_run(r, b, false);
            let fetched = after_read(b, r.pc);
            let pushed = word_of(r.pc + 2);
            &&& out.result == Ok::<Data, Fault>(7)
            &&& out.cpu.reg.interrupt
            &&& out.cpu.reg.s == byte_of(r.s - 3)
            &&& out.cpu.bus.ram[0x100 + r.s] == high_byte(pushed)
            &&& out.cpu.bus.ram[0x100 + byte_of(r.s - 1)] == low_byte(pushed)
            &&& out.cpu.bus.ram[0x100 + byte_of(r.s - 2)] == status_byte(
                RegisterState { break_mode: true, ..r },
            )
            &&& out.cpu.reg.pc == word_value(
                BusState { ram: out.cpu.bus.ram, ..fetched },
                0xFFFE,
            )
        }),
{
    lemma_opcode_zero();
    lemma_instruction_cycles(r, b);
    let r0 = RegisterState { page_crossed: false, additional_cycle: 0, ..r };
    let (code, c1) = sem_fetch(r0, b);
    lemma_implied_operand(c1.reg, c1.bus);
    lemma_execute_brk(Addressing::Implied, 0, c1);
    assert(c1.bus.ram == b.ram) by {
        reveal(BusState::read);
    }
    lemma_brk(c1.reg, c1.bus);
    lemma_status_of_flags(
        RegisterState { break_mode: true, ..c1.reg },
        RegisterState { break_mode: true, ..r },
    );
    assert(word_of(c1.reg.pc + 1) == word_of(r.pc + 2));
}

/// Bit 5 of the status byte is 1, whatever the registers hold: no instruction
/// can clear it.
pub proof fn lemma_status_bit_5(r: RegisterState)
    ensures
        (status_byte(r) / 32) % 2 == 1,
{
    reveal(status_byte);
}

/// The flags unpacked from a status byte pack to that byte again, with bit 5
/// set.
pub proof fn lemma_status_round_trip(r: RegisterState, v: Data)
    ensures
        status_byte(with_status(r, v)) == (if (v / 32) % 2 == 1 {
            v
        } else {
            (v + 32) as Data
        }),
{
    reveal(status_byte);
    reveal(with_status);
    assert(((v / 128) % 2) * 128 + ((v / 64) % 2) * 64 + 32 + ((v / 16) % 2) * 16 + ((v / 8) % 2)
        * 8 + ((v / 4) % 2) * 4 + ((v / 2) % 2) * 2 + v % 2 == (if (v / 32) % 2 == 1 {
        v as int
    } else {
        v + 32
    })) by (bit_vector);
}

/// The status byte depends on the flags alone.
proof fn lemma_status_of_flags(r1: RegisterState, r2: RegisterState)
    requires
        r1.negative == r2.negative,
        r1.overflow == r2.overflow,
        r1.break_mode == r2.break_mode,
        r1.decimal_mode == r2.decimal_mode,
        r1.interrupt == r2.interrupt,
        r1.zero == r2.zero,
        r1.carry == r2.carry,
    ensures
        status_byte(r1) == status_byte(r2),
{
    reveal(status_byte);
}

/// Unpacking a status byte changes the flags and nothing else, and the break
/// flag is bit 4 of the byte.
proof fn lemma_with_status_frame(r: RegisterState, v: Data)
    ensures
        with_status(r, v).s == r.s,
        with_status(r, v).pc == r.pc,
        with_status(r, v).break_mode == ((v / 16) % 2 == 1),
{
    reveal(with_status);
}

/// A pull reads the cell of work memory above the stack pointer and changes
/// nothing on the bus.
pub proof fn lemma_pop_reads_ram(r: RegisterState, b: BusState)
    requires
        b.ram.len() >= 0x0800,
    ensures
        sem_pop(r, b).0 == b.ram[0x100 + byte_of(r.s + 1)],
        sem_pop(r, b).1.bus == b,
        sem_pop(r, b).1.reg == (RegisterState { s: byte_of(r.s + 1), ..r }),
{
    reveal(BusState::read);
}

/// A push writes the cell of work memory at the stack pointer and nothing
/// else.
pub proof fn lemma_push_writes_ram(data: Data, r: RegisterState, b: BusState)
    requires
        b.ram.len() >= 0x0800,
    ensures
        sem_push(data, r, b).bus == (BusState { ram: b.ram.update(0x100 + r.s, data), ..b }),
        sem_push(data, r, b).bus.ram.len() == b.ram.len(),
        sem_push(data, r, b).reg == (RegisterState { s: byte_of(r.s - 1), ..r }),
{
    reveal(BusState::write);
}

/// A word read leaves work memory as it is.
proof fn lemma_read_word_keeps_ram(b: BusState, addr: Addr)
    ensures
        b.read_word(addr).0.ram == b.ram,
{
    reveal(BusState::read);
}

/// A subroutine call followed by a return brings the program counter back to
/// where it stood when the call was executed: behind the operand of the call.
/// The stack pointer is back too.
#[verifier::rlimit(60)]
pub proof fn lemma_jsr_rts(r: RegisterState, b: BusState, target: Addr)
    requires
        b.ram.len() >= 0x0800,
    ensures
        ({
            let called = sem_jsr(r, b, target);
            let back = sem_rts(called.reg, called.bus);
            &&& called.reg.pc == target
            &&& back.reg.pc == r.pc
            &&& back.reg.s == r.s
        }),
{
    let ret = word_of(r.pc - 1);
    lemma_push_writes_ram(high_byte(ret), r, b);
    let c1 = sem_push(high_byte(ret), r, b);
    lemma_push_writes_ram(low_byte(ret), c1.reg, c1.bus);
    let c2 = sem_push(low_byte(ret), c1.reg, c1.bus);
    let called = sem_jsr(r, b, target);
    assert(called.bus == c2.bus);
    lemma_pop_reads_ram(called.reg, called.bus);
    let (low, d1) = sem_pop(called.reg, called.bus);
    lemma_pop_reads_ram(d1.reg, d1.bus);
    let (high, d2) = sem_pop(d1.reg, d1.bus);
    assert(low == low_byte(ret));
    assert(high == high_byte(ret));
    assert(make_word(low, high) == ret);
}

/// What a software interrupt leaves on the stack and in the registers: the
/// program counter plus one is pushed, then the status byte with the break
/// flag set, and the interrupt-disable flag is set.
pub proof fn lemma_brk(r: RegisterState, b: BusState)
    requires
        b.ram.len() >= 0x0800,
    ensures
        ({
            let entered = sem_brk(r, b);
            let pushed = word_of(r.pc + 1);
            let flags = status_byte(RegisterState { break_mode: true, ..r });
            &&& entered.reg.interrupt
            &&& entered.reg.s == byte_of(r.s - 3)
            &&& entered.bus.ram.len() == b.ram.len()
            &&& entered.bus.ram[0x100 + r.s] == high_byte(pushed)
            &&& entered.bus.ram[0x100 + byte_of(r.s - 1)] == low_byte(pushed)
            &&& entered.bus.ram[0x100 + byte_of(r.s - 2)] == flags
            &&& entered.reg.pc == word_value(BusState { ram: entered.bus.ram, ..b }, 0xFFFE)
        }),
{
    let pushed = word_of(r.pc + 1);
    let r0 = RegisterState { break_mode: true, ..r };
    lemma_push_writes_ram(high_byte(pushed), r0, b);
    let c1 = sem_push(high_byte(pushed), r0, b);
    lemma_push_writes_ram(low_byte(pushed), c1.reg, c1.bus);
    let c2 = sem_push(low_byte(pushed), c1.reg, c1.bus);
    lemma_status_of_flags(c2.reg, r0);
    lemma_push_writes_ram(status_byte(c2.reg), c2.reg, c2.bus);
    let c3 = sem_push(status_byte(c2.reg), c2.reg, c2.bus);
    lemma_read_word_keeps_ram(c3.bus, 0xFFFE);
    assert(c3.bus == (BusState { ram: c3.bus.ram, ..b }));
}

/// A return from interrupt pulls the flags, then the program counter, and
/// goes on at the address pulled.
pub proof fn lemma_rti(r: RegisterState, b: BusState)
    requires
        b.ram.len() >= 0x0800,
    ensures
        ({
            let back = sem_rti(r, b);
            let flags = b.ram[0x100 + byte_of(r.s + 1)];
            let low = b.ram[0x100 + byte_of(r.s + 2)];
            let high = b.ram[0x100 + byte_of(r.s + 3)];
            &&& back.bus == b
            &&& back.reg.s == byte_of(r.s + 3)
            &&& back.reg.pc == make_word(low, high)
            &&& status_byte(back.reg) == (if (flags / 32) % 2 == 1 {
                flags
            } else {
                (flags + 32) as Data
            })
        }),
{
    lemma_pop_reads_ram(r, b);
    let (p, d1) = sem_pop(r, b);
    lemma_status_round_trip(d1.reg, p);
    lemma_with_status_frame(d1.reg, p);
    let e1 = with_status(d1.reg, p);
    lemma_pop_reads_ram(e1, d1.bus);
    let (low, d2) = sem_pop(e1, d1.bus);
    lemma_pop_reads_ram(d2.reg, d2.bus);
    let (high, d3) = sem_pop(d2.reg, d2.bus);
    let back = sem_rti(r, b);
    lemma_status_of_flags(back.reg, e1);
}

/// A software interrupt and a return from interrupt right after it: the
/// flags come back as they were pushed, with the break flag set, the stack
/// pointer comes back, and the program counter is the address pushed, one
/// behind where it stood.
#[verifier::rlimit(60)]
pub proof fn lemma_brk_rti(r: RegisterState, b: BusState)
    requires
        b.ram.len() >= 0x0800,
    ensures
        ({
            let entered = sem_brk(r, b);
            let back = sem_rti(entered.reg, entered.bus);
            &&& status_byte(back.reg) == status_byte(RegisterState { break_mode: true, ..r })
            &&& back.reg.s == r.s
            &&& back.reg.pc == word_of(r.pc + 1)
        }),
{
    lemma_brk(r, b);
    let entered = sem_brk(r, b);
    lemma_rti(entered.reg, entered.bus);
    lemma_status_bit_5(RegisterState { break_mode: true, ..r });
    let pushed = word_of(r.pc + 1);
    let down = byte_of(r.s - 3);
    assert(entered.reg.s == down);
    assert(byte_of(down + 1) == byte_of(r.s - 2));
    assert(byte_of(down + 2) == byte_of(r.s - 1));
    assert(byte_of(down + 3) == r.s);
    assert(make_word(low_byte(pushed), high_byte(pushed)) == pushed);
}

/// Entry into an interrupt handler charges seven cycles, pushes the program
/// counter and then the status byte with the break flag clear, sets the
/// interrupt-disable flag and loads the program counter from the word at the
/// vector.
#[verifier::rlimit(60)]
pub proof fn lemma_interrupt_entry(r: RegisterState, b: BusState, vector: Addr)
    requires
        b.ram.len() >= 0x0800,
    ensures
        ({
            let entered = sem_interrupt(r, b, vector);
            let flags = status_byte(RegisterState { break_mode: false, ..r });
            &&& entered.reg.additional_cycle == byte_of(r.additional_cycle + 7)
            &&& entered.reg.interrupt
            &&& entered.reg.s == byte_of(r.s - 3)
            &&& entered.reg.a == r.a && entered.reg.x == r.x && entered.reg.y == r.y
            &&& entered.reg.interrupt_type == r.interrupt_type
            &&& entered.bus.ram[0x100 + r.s] == high_byte(r.pc)
            &&& entered.bus.ram[0x100 + byte_of(r.s - 1)] == low_byte(r.pc)
            &&& entered.bus.ram[0x100 + byte_of(r.s - 2)] == flags
            &&& (flags / 16) % 2 == 0
            &&& entered.reg.pc == word_value(BusState { ram: entered.bus.ram, ..b }, vector)
            &&& entered.bus == (BusState { ram: entered.bus.ram, ..b }).read_word(vector).0
        }),
{
    let r0 = RegisterState { break_mode: false, ..r };
    lemma_push_writes_ram(high_byte(r.pc), r0, b);
    let c1 = sem_push(high_byte(r.pc), r0, b);
    lemma_push_writes_ram(low_byte(r.pc), c1.reg, c1.bus);
    let c2 = sem_push(low_byte(r.pc), c1.reg, c1.bus);
    lemma_status_of_flags(c2.reg, r0);
    lemma_push_writes_ram(status_byte(c2.reg), c2.reg, c2.bus);
    let c3 = sem_push(status_byte(c2.reg), c2.reg, c2.bus);
    lemma_read_word_keeps_ram(c3.bus, vector);
    assert(c3.bus == (BusState { ram: c3.bus.ram, ..b }));
    assert((status_byte(r0) / 16) % 2 == 0) by {
        reveal(status_byte);
    }
}

} // verus!

use self::fetch::{fetch, fetch_operand, sem_fetch, sem_fetch_operand};
use self::instructions::{
    adc, adc_imm, adc_value, and, and_imm, and_value, asl, asl_acc, bcc, bcs, beq, bit, bmi,
    bne, bpl, brk, bvc, bvs, clc, cld, cli, clv, cmp, cmp_imm, compare_a, compare_x, compare_y,
    cpx, cpx_imm, cpy, cpy_imm, dcp, dec, dex, dey, eor, eor_imm, eor_value, inc, inx, iny,
    isc, jmp, jsr, lax, lax_imm, lda, lda_imm, ldx, ldx_imm, ldy, ldy_imm, load_a, load_ax,
    load_x, load_y, lsr, lsr_acc, ora, ora_imm, ora_value, pha, php, pla, plp, push, rla, rol,
    rol_acc, ror, ror_acc, rra, rti, rts, sax, sbc, sbc_imm, sbc_value, sec, sed, sei, sem_adc,
    sem_and, sem_asl, sem_asl_acc, sem_bcc, sem_bcs, sem_beq, sem_bit, sem_bmi, sem_bne,
    sem_bpl, sem_brk, sem_bvc, sem_bvs, sem_clc, sem_cld, sem_cli, sem_clv, sem_cmp, sem_cpx,
    sem_cpy, sem_dcp, sem_dec, sem_dex, sem_dey, sem_eor, sem_inc, sem_inx, sem_iny, sem_isc,
    sem_jmp, sem_jsr, sem_lax, sem_lda, sem_ldx, sem_ldy, sem_lsr, sem_lsr_acc, sem_ora,
    sem_pha, sem_php, sem_pla, sem_plp, sem_push, sem_rla, sem_rol, sem_rol_acc, sem_ror,
    sem_ror_acc, sem_rra, sem_rti, sem_rts, sem_sax, sem_sbc, sem_sec, sem_sed, sem_sei,
    sem_slo, sem_sre, sem_sta, sem_stx, sem_sty, sem_tax, sem_tay, sem_tsx, sem_txa, sem_txs,
    sem_tya, slo, sre, sta, stx, sty, tax, tay, tsx, txa, txs, tya,
};
use self::opecodes::{
    addressing_of, base_cycles, instruction_of, instruction_page_cross_cycle, opecode,
    page_cross_cycles, Addressing, Instruction, Opecode,
};
use crate::bus::cpu_bus::{after_read_word, word_value, BusState, CpuBus};
use crate::cpu_register::{charge, status_byte, CpuRegister, InterruptType, RegisterState};
use crate::fault::Fault;
use crate::types::{add8, byte_of, hi, high_byte, lo, low_byte, Addr, Data, Word};
use vstd::prelude::*;

pub mod fetch;
pub mod instructions;
pub mod laws;
pub mod opecodes;

verus! {

/// The processor and the bus it is wired to, in the form the contracts use: what
/// the registers hold and what the console behind the bus holds.
pub ghost struct Cpu {
    pub reg: RegisterState,
    pub bus: BusState,
}

/// How one step of the processor ends: the state it leaves, and the cycles it
/// took or the fault that stopped it.
pub ghost struct Outcome {
    pub cpu: Cpu,
    pub result: Result<Data, Fault>,
}

/// Whether the processor implements the instruction.
pub open spec fn supported(name: Instruction) -> bool {
    match name {
        Instruction::ANC | Instruction::ALR | Instruction::ARR | Instruction::XAA
        | Instruction::AHX | Instruction::TAS | Instruction::SHY | Instruction::SHX
        | Instruction::LAS | Instruction::AXS => false,
        _ => true,
    }
}

/// Entry into an interrupt handler. The program counter is pushed, then the
/// status byte with the break flag clear; the interrupt-disable flag is set, the
/// program counter is loaded from the word at `vector`, and seven cycles are
/// charged.
pub open spec fn sem_interrupt(r: RegisterState, b: BusState, vector: Addr) -> Cpu {
    let r0 = RegisterState { break_mode: false, ..r };
    let c1 = sem_push(high_byte(r.pc), r0, b);
    let c2 = sem_push(low_byte(r.pc), c1.reg, c1.bus);
    let c3 = sem_push(status_byte(c2.reg), c2.reg, c2.bus);
    Cpu {
        reg: charge(
            RegisterState { interrupt: true, pc: word_value(c3.bus, vector), ..c3.reg },
            7,
        ),
        bus: after_read_word(c3.bus, vector),
    }
}

/// Entry into the handler of the non-maskable interrupt, through 0xFFFA.
pub open spec fn sem_nmi(r: RegisterState, b: BusState) -> Cpu {
    sem_interrupt(r, b, 0xFFFA)
}

/// Entry into the handler of the maskable interrupt, through 0xFFFE. The
/// pending request is withdrawn.
pub open spec fn sem_irq(r: RegisterState, b: BusState) -> Cpu {
    let c = sem_interrupt(r, b, 0xFFFE);
    Cpu { reg: RegisterState { interrupt_type: InterruptType::NONE, ..c.reg }, bus: c.bus }
}

/// The entry into the handler of the interrupt that a step serves: that of the
/// non-maskable interrupt if it is pending; failing that, that of a pending
/// maskable one while the interrupt-disable flag is clear; failing that,
/// nothing.
pub open spec fn sem_entry(r: RegisterState, b: BusState, nmi: bool) -> Cpu {
    if nmi {
        sem_nmi(r, b)
    } else if r.interrupt_type == InterruptType::INTERRUPT_IRQ && !r.interrupt {
        sem_irq(r, b)
    } else {
        Cpu { reg: r, bus: b }
    }
}

/// The effect of a load, a store or a transfer.
#[verifier::opaque]
pub open spec fn sem_transfer(name: Instruction, mode: Addressing, operand: Word, c: Cpu) -> Cpu {
    match name {
        Instruction::LDA => if mode == Addressing::Immediate {
            Cpu { reg: load_a(c.reg, low_byte(operand)), bus: c.bus }
        } else {
            sem_lda(c.reg, c.bus, operand)
        },
        Instruction::LDX => if mode == Addressing::Immediate {
            Cpu { reg: load_x(c.reg, low_byte(operand)), bus: c.bus }
        } else {
            sem_ldx(c.reg, c.bus, operand)
        },
        Instruction::LDY => if mode == Addressing::Immediate {
            Cpu { reg: load_y(c.reg, low_byte(operand)), bus: c.bus }
        } else {
            sem_ldy(c.reg, c.bus, operand)
        },
        Instruction::STA => sem_sta(c.reg, c.bus, operand),
        Instruction::STX => sem_stx(c.reg, c.bus, operand),
        Instruction::STY => sem_sty(c.reg, c.bus, operand),
        Instruction::TAX => Cpu { reg: sem_tax(c.reg), bus: c.bus },
        Instruction::TAY => Cpu { reg: sem_tay(c.reg), bus: c.bus },
        Instruction::TSX => Cpu { reg: sem_tsx(c.reg), bus: c.bus },
        Instruction::TXA => Cpu { reg: sem_txa(c.reg), bus: c.bus },
        Instruction::TXS => Cpu { reg: sem_txs(c.reg), bus: c.bus },
        Instruction::TYA => Cpu { reg: sem_tya(c.reg), bus: c.bus },
        Instruction::LAX => if mode == Addressing::Immediate {
            Cpu { reg: load_ax(c.reg, low_byte(operand)), bus: c.bus }
        } else {
            sem_lax(c.reg, c.bus, operand)
        },
        Instruction::SAX => sem_sax(c.reg, c.bus, operand),
        _ => c,
    }
}

/// The effect of an addition, a subtraction, a comparison or a logic operation.
#[verifier::opaque]
pub open spec fn sem_arithmetic(name: Instruction, mode: Addressing, operand: Word, c: Cpu) -> Cpu {
    match name {
        Instruction::ADC => if mode == Addressing::Immediate {
            Cpu { reg: adc_value(c.reg, low_byte(operand)), bus: c.bus }
        } else {
            sem_adc(c.reg, c.bus, operand)
        },
        Instruction::AND => if mode == Addressing::Immediate {
            Cpu { reg: and_value(c.reg, low_byte(operand)), bus: c.bus }
        } else {
            sem_and(c.reg, c.bus, operand)
        },
        Instruction::BIT => sem_bit(c.reg, c.bus, operand),
        Instruction::CMP => if mode == Addressing::Immediate {
            Cpu { reg: compare_a(c.reg, low_byte(operand)), bus: c.bus }
        } else {
            sem_cmp(c.reg, c.bus, operand)
        },
        Instruction::CPX => if mode == Addressing::Immediate {
            Cpu { reg: compare_x(c.reg, low_byte(operand)), bus: c.bus }
        } else {
            sem_cpx(c.reg, c.bus, operand)
        },
        Instruction::CPY => if mode == Addressing::Immediate {
            Cpu { reg: compare_y(c.reg, low_byte(operand)), bus: c.bus }
        } else {
            sem_cpy(c.reg, c.bus, operand)
        },
        Instruction::EOR => if mode == Addressing::Immediate {
            Cpu { reg: eor_value(c.reg, low_byte(operand)), bus: c.bus }
        } else {
            sem_eor(c.reg, c.bus, operand)
        },
        Instruction::ORA => if mode == Addressing::Immediate {
            Cpu { reg: ora_value(c.reg, low_byte(operand)), bus: c.bus }
        } else {
            sem_ora(c.reg, c.bus, operand)
        },
        Instruction::SBC => if mode == Addressing::Immediate {
            Cpu { reg: sbc_value(c.reg, low_byte(operand)), bus: c.bus }
        } else {
            sem_sbc(c.reg, c.bus, operand)
        },
        _ => c,
    }
}

/// The effect of a shift, a rotation, an increment or a decrement.
#[verifier::opaque]
pub open spec fn sem_shift(name: Instruction, mode: Addressing, operand: Word, c: Cpu) -> Cpu {
    match name {
        Instruction::ASL => if mode == Addressing::Accumulator {
            Cpu { reg: sem_asl_acc(c.reg), bus: c.bus }
        } else {
            sem_asl(c.reg, c.bus, operand)
        },
        Instruction::LSR => if mode == Addressing::Accumulator {
            Cpu { reg: sem_lsr_acc(c.reg), bus: c.bus }
        } else {
            sem_lsr(c.reg, c.bus, operand)
        },
        Instruction::ROL => if mode == Addressing::Accumulator {
            Cpu { reg: sem_rol_acc(c.reg), bus: c.bus }
        } else {
            sem_rol(c.reg, c.bus, operand)
        },
        Instruction::ROR => if mode == Addressing::Accumulator {
            Cpu { reg: sem_ror_acc(c.reg), bus: c.bus }
        } else {
            sem_ror(c.reg, c.bus, operand)
        },
        Instruction::DEC => sem_dec(c.reg, c.bus, operand),
        Instruction::DEX => Cpu { reg: sem_dex(c.reg), bus: c.bus },
        Instruction::DEY => Cpu { reg: sem_dey(c.reg), bus: c.bus },
        Instruction::INC => sem_inc(c.reg, c.bus, operand),
        Instruction::INX => Cpu { reg: sem_inx(c.reg), bus: c.bus },
        Instruction::INY => Cpu { reg: sem_iny(c.reg), bus: c.bus },
        _ => c,
    }
}

/// The effect of a stack operation, a jump or a return.
#[verifier::opaque]
pub open spec fn sem_stack(name: Instruction, mode: Addressing, operand: Word, c: Cpu) -> Cpu {
    match name {
        Instruction::PHA => sem_pha(c.reg, c.bus),
        Instruction::PHP => sem_php(c.reg, c.bus),
        Instruction::PLA => sem_pla(c.reg, c.bus),
        Instruction::PLP => sem_plp(c.reg, c.bus),
        Instruction::JMP => Cpu { reg: sem_jmp(c.reg, operand), bus: c.bus },
        Instruction::JSR => sem_jsr(c.reg, c.bus, operand),
        Instruction::RTS => sem_rts(c.reg, c.bus),
        Instruction::RTI => sem_rti(c.reg, c.bus),
        Instruction::BRK => sem_brk(c.reg, c.bus),
        _ => c,
    }
}

/// The effect of a branch.
#[verifier::opaque]
pub open spec fn sem_branch(name: Instruction, mode: Addressing, operand: Word, c: Cpu) -> Cpu {
    match name {
        Instruction::BCC => Cpu { reg: sem_bcc(c.reg, operand), bus: c.bus },
        Instruction::BCS => Cpu { reg: sem_bcs(c.reg, operand), bus: c.bus },
        Instruction::BEQ => Cpu { reg: sem_beq(c.reg, operand), bus: c.bus },
        Instruction::BMI => Cpu { reg: sem_bmi(c.reg, operand), bus: c.bus },
        Instruction::BNE => Cpu { reg: sem_bne(c.reg, operand), bus: c.bus },
        Instruction::BPL => Cpu { reg: sem_bpl(c.reg, operand), bus: c.bus },
        Instruction::BVC => Cpu { reg: sem_bvc(c.reg, operand), bus: c.bus },
        Instruction::BVS => Cpu { reg: sem_bvs(c.reg, operand), bus: c.bus },
        _ => c,
    }
}

/// The effect of a flag change.
#[verifier::opaque]
pub open spec fn sem_flag(name: Instruction, mode: Addressing, operand: Word, c: Cpu) -> Cpu {
    match name {
        Instruction::CLC => Cpu { reg: sem_clc(c.reg), bus: c.bus },
        Instruction::CLD => Cpu { reg: sem_cld(c.reg), bus: c.bus },
        Instruction::CLI => Cpu { reg: sem_cli(c.reg), bus: c.bus },
        Instruction::CLV => Cpu { reg: sem_clv(c.reg), bus: c.bus },
        Instruction::SEC => Cpu { reg: sem_sec(c.reg), bus: c.bus },
        Instruction::SED => Cpu { reg: sem_sed(c.reg), bus: c.bus },
        Instruction::SEI => Cpu { reg: sem_sei(c.reg), bus: c.bus },
        _ => c,
    }
}

/// The effect of an undocumented instruction that changes memory and then the accumulator.
#[verifier::opaque]
pub open spec fn sem_combined(name: Instruction, mode: Addressing, operand: Word, c: Cpu) -> Cpu {
    match name {
        Instruction::DCP => sem_dcp(c.reg, c.bus, operand),
        Instruction::ISC => sem_isc(c.reg, c.bus, operand),
        Instruction::SLO => sem_slo(c.reg, c.bus, operand),
        Instruction::RLA => sem_rla(c.reg, c.bus, operand),
        Instruction::SRE => sem_sre(c.reg, c.bus, operand),
        Instruction::RRA => sem_rra(c.reg, c.bus, operand),
        _ => c,
    }
}

/// The effect of a supported instruction on the processor, its operand
/// resolved.
pub open spec fn sem_execute(name: Instruction, mode: Addressing, operand: Word, c: Cpu) -> Cpu {
    match name {
        Instruction::LDA | Instruction::LDX | Instruction::LDY | Instruction::STA
        | Instruction::STX | Instruction::STY | Instruction::TAX | Instruction::TAY
        | Instruction::TSX | Instruction::TXA | Instruction::TXS | Instruction::TYA
        | Instruction::LAX | Instruction::SAX => sem_transfer(name, mode, operand, c),
        Instruction::ADC | Instruction::AND | Instruction::BIT | Instruction::CMP
        | Instruction::CPX | Instruction::CPY | Instruction::EOR | Instruction::ORA
        | Instruction::SBC => sem_arithmetic(name, mode, operand, c),
        Instruction::ASL | Instruction::LSR | Instruction::ROL | Instruction::ROR
        | Instruction::DEC | Instruction::DEX | Instruction::DEY | Instruction::INC
        | Instruction::INX | Instruction::INY => sem_shift(name, mode, operand, c),
        Instruction::PHA | Instruction::PHP | Instruction::PLA | Instruction::PLP
        | Instruction::JMP | Instruction::JSR | Instruction::RTS | Instruction::RTI
        | Instruction::BRK => sem_stack(name, mode, operand, c),
        Instruction::BCC | Instruction::BCS | Instruction::BEQ | Instruction::BMI
        | Instruction::BNE | Instruction::BPL | Instruction::BVC | Instruction::BVS => sem_branch(
            name,
            mode,
            operand,
            c,
        ),
        Instruction::CLC | Instruction::CLD | Instruction::CLI | Instruction::CLV
        | Instruction::SEC | Instruction::SED | Instruction::SEI => sem_flag(
            name,
            mode,
            operand,
            c,
        ),
        Instruction::DCP | Instruction::ISC | Instruction::SLO | Instruction::RLA
        | Instruction::SRE | Instruction::RRA => sem_combined(name, mode, operand, c),
        _ => c,
    }
}

/// The cycles of the instruction that `code` stands for, which left the
/// processor in state `r`: the base cycles, the page-cross cycles of the table
/// when the operand crossed a page, and the cycles charged on the way.
pub open spec fn step_cycles(code: Data, r: RegisterState) -> Data {
    byte_of(
        base_cycles(code) + (if r.page_crossed {
            page_cross_cycles(code)
        } else {
            0
        }) + r.additional_cycle,
    )
}

/// One instruction: fetch, decode, resolve the operand, execute. The count of
/// charged cycles and the page-cross mark start from nothing, whatever was
/// left in them.
pub open spec fn sem_instruction(r: RegisterState, b: BusState) -> Outcome {
    let (code, c1) = sem_fetch(
        RegisterState { page_crossed: false, additional_cycle: 0, ..r },
        b,
    );
    if !supported(instruction_of(code)) {
        Outcome { cpu: c1, result: Err(Fault::UnknownOpcode(code)) }
    } else {
        let (operand, c2) = sem_fetch_operand(addressing_of(code), c1.reg, c1.bus);
        let c3 = sem_execute(instruction_of(code), addressing_of(code), operand, c2);
        Outcome {
            cpu: Cpu { reg: RegisterState { additional_cycle: 0, ..c3.reg }, bus: c3.bus },
            result: Ok(step_cycles(code, c3.reg)),
        }
    }
}

/// Whether a step serves an interrupt: the non-maskable one is pending, or a
/// maskable one is pending while the interrupt-disable flag is clear.
pub open spec fn serves_interrupt(r: RegisterState, nmi: bool) -> bool {
    nmi || (r.interrupt_type == InterruptType::INTERRUPT_IRQ && !r.interrupt)
}

/// One step of the processor. A step that serves an interrupt enters the
/// handler and does nothing else: it takes seven cycles and fetches no
/// opcode. Any other step is one instruction. No charged cycles are left over
/// either way.
pub open spec fn sem_run(r: RegisterState, b: BusState, nmi: bool) -> Outcome {
    if serves_interrupt(r, nmi) {
        let c = sem_entry(r, b, nmi);
        Outcome {
            cpu: Cpu { reg: RegisterState { additional_cycle: 0, ..c.reg }, bus: c.bus },
            result: Ok(7),
        }
    } else {
        sem_instruction(r, b)
    }
}

/// The processor after a reset: the program counter is loaded from the word at
/// 0xFFFC, the interrupt-disable flag is set and the stack pointer is 0xFD.
pub open spec fn sem_reset(r: RegisterState, b: BusState) -> Cpu {
    Cpu {
        reg: RegisterState { pc: word_value(b, 0xFFFC), interrupt: true, s: 0xFD, ..r },
        bus: after_read_word(b, 0xFFFC),
    }
}

/// Resets the processor.
pub fn reset<T: CpuRegister, U: CpuBus>(register: &mut T, cpu_bus: &mut U)
    requires
        old(cpu_bus).inv(),
    ensures
        final(cpu_bus).inv(),
        final(register)@ == sem_reset(old(register)@, old(cpu_bus).state()).reg,
        final(cpu_bus).state() == sem_reset(old(register)@, old(cpu_bus).state()).bus,
{
    let vector = cpu_bus.read_word(0xFFFC);
    register.set_PC(vector).set_status_interrupt(true).set_S(0xFD);
}

/// Enters an interrupt handler through `vector`.
fn interrupt<T: CpuRegister, U: CpuBus>(vector: Addr, register: &mut T, cpu_bus: &mut U)
    requires
        old(cpu_bus).inv(),
    ensures
        final(cpu_bus).inv(),
        final(register)@ == sem_interrupt(old(register)@, old(cpu_bus).state(), vector).reg,
        final(cpu_bus).state() == sem_interrupt(
            old(register)@,
            old(cpu_bus).state(),
            vector,
        ).bus,
{
    let pc = register.get_PC();
    register.set_status_break_mode(false);
    push(hi(pc), register, cpu_bus);
    push(lo(pc), register, cpu_bus);
    let p = register.get_Status();
    push(p, register, cpu_bus);
    let target = cpu_bus.read_word(vector);
    register.set_status_interrupt(true).set_PC(target);
    register.add_interrupt_cycle();
}

/// Enters the handler of the non-maskable interrupt.
pub fn process_nmi<T: CpuRegister, U: CpuBus>(register: &mut T, cpu_bus: &mut U)
    requires
        old(cpu_bus).inv(),
    ensures
        final(cpu_bus).inv(),
        final(register)@ == sem_nmi(old(register)@, old(cpu_bus).state()).reg,
        final(cpu_bus).state() == sem_nmi(old(register)@, old(cpu_bus).state()).bus,
{
    interrupt(0xFFFA, register, cpu_bus);
}

/// Enters the handler of the maskable interrupt and withdraws the request.
pub fn process_irq<T: CpuRegister, U: CpuBus>(register: &mut T, cpu_bus: &mut U)
    requires
        old(cpu_bus).inv(),
    ensures
        final(cpu_bus).inv(),
        final(register)@ == sem_irq(old(register)@, old(cpu_bus).state()).reg,
        final(cpu_bus).state() == sem_irq(old(register)@, old(cpu_bus).state()).bus,
{
    interrupt(0xFFFE, register, cpu_bus);
    register.set_interrupt_none();
}

/// Whether the processor implements the instruction.
pub fn is_supported(name: Instruction) -> (r: bool)
    ensures
        r == supported(name),
{
    match name {
        Instruction::ANC | Instruction::ALR | Instruction::ARR | Instruction::XAA
        | Instruction::AHX | Instruction::TAS | Instruction::SHY | Instruction::SHX
        | Instruction::LAS | Instruction::AXS => false,
        _ => true,
    }
}

/// Executes a load, a store or a transfer.
fn execute_transfer<T: CpuRegister, U: CpuBus>(
    code: &Opecode,
    operand: Word,
    register: &mut T,
    cpu_bus: &mut U,
)
    requires
        old(cpu_bus).inv(),
        code.name == Instruction::LDA || code.name == Instruction::LDX
        || code.name == Instruction::LDY || code.name == Instruction::STA
        || code.name == Instruction::STX || code.name == Instruction::STY
        || code.name == Instruction::TAX || code.name == Instruction::TAY
        || code.name == Instruction::TSX || code.name == Instruction::TXA
        || code.name == Instruction::TXS || code.name == Instruction::TYA
        || code.name == Instruction::LAX || code.name == Instruction::SAX,
    ensures
        final(cpu_bus).inv(),
        final(register)@ == sem_transfer(
            code.name,
            code.mode,
            operand,
            Cpu { reg: old(register)@, bus: old(cpu_bus).state() },
        ).reg,
        final(cpu_bus).state() == sem_transfer(
            code.name,
            code.mode,
            operand,
            Cpu { reg: old(register)@, bus: old(cpu_bus).state() },
        ).bus,
{
    reveal(sem_transfer);
    match code.name {
        Instruction::LDA => if code.mode == Addressing::Immediate {
            lda_imm(operand, register)
        } else {
            lda(operand, register, cpu_bus)
        },
        Instruction::LDX => if code.mode == Addressing::Immediate {
            ldx_imm(operand, register)
        } else {
            ldx(operand, register, cpu_bus)
        },
        Instruction::LDY => if code.mode == Addressing::Immediate {
            ldy_imm(operand, register)
        } else {
            ldy(operand, register, cpu_bus)
        },
        Instruction::STA => sta(operand, register, cpu_bus),
        Instruction::STX => stx(operand, register, cpu_bus),
        Instruction::STY => sty(operand, register, cpu_bus),
        Instruction::TAX => tax(register),
        Instruction::TAY => tay(register),
        Instruction::TSX => tsx(register),
        Instruction::TXA => txa(register),
        Instruction::TXS => txs(register),
        Instruction::TYA => tya(register),
        Instruction::LAX => if code.mode == Addressing::Immediate {
            lax_imm(operand, register)
        } else {
            lax(operand, register, cpu_bus)
        },
        Instruction::SAX => sax(operand, register, cpu_bus),
        _ => (),
    }
}

/// Executes an addition, a subtraction, a comparison or a logic operation.
fn execute_arithmetic<T: CpuRegister, U: CpuBus>(
    code: &Opecode,
    operand: Word,
    register: &mut T,
    cpu_bus: &mut U,
)
    requires
        old(cpu_bus).inv(),
        code.name == Instruction::ADC || code.name == Instruction::AND
        || code.name == Instruction::BIT || code.name == Instruction::CMP
        || code.name == Instruction::CPX || code.name == Instruction::CPY
        || code.name == Instruction::EOR || code.name == Instruction::ORA
        || code.name == Instruction::SBC,
    ensures
        final(cpu_bus).inv(),
        final(register)@ == sem_arithmetic(
            code.name,
            code.mode,
            operand,
            Cpu { reg: old(register)@, bus: old(cpu_bus).state() },
        ).reg,
        final(cpu_bus).state() == sem_arithmetic(
            code.name,
            code.mode,
            operand,
            Cpu { reg: old(register)@, bus: old(cpu_bus).state() },
        ).bus,
{
    reveal(sem_arithmetic);
    match code.name {
        Instruction::ADC => if code.mode == Addressing::Immediate {
            adc_imm(operand, register)
        } else {
            adc(operand, register, cpu_bus)
        },
        Instruction::AND => if code.mode == Addressing::Immediate {
            and_imm(operand, register)
        } else {
            and(operand, register, cpu_bus)
        },
        Instruction::BIT => bit(operand, register, cpu_bus),
        Instruction::CMP => if code.mode == Addressing::Immediate {
            cmp_imm(operand, register)
        } else {
            cmp(operand, register, cpu_bus)
        },
        Instruction::CPX => if code.mode == Addressing::Immediate {
            cpx_imm(operand, register)
        } else {
            cpx(operand, register, cpu_bus)
        },
        Instruction::CPY => if code.mode == Addressing::Immediate {
            cpy_imm(operand, register)
        } else {
            cpy(operand, register, cpu_bus)
        },
        Instruction::EOR => if code.mode == Addressing::Immediate {
            eor_imm(operand, register)
        } else {
            eor(operand, register, cpu_bus)
        },
        Instruction::ORA => if code.mode == Addressing::Immediate {
            ora_imm(operand, register)
        } else {
            ora(operand, register, cpu_bus)
        },
        Instruction::SBC => if code.mode == Addressing::Immediate {
            sbc_imm(operand, register)
        } else {
            sbc(operand, register, cpu_bus)
        },
        _ => (),
    }
}

/// Executes a shift, a rotation, an increment or a decrement.
fn execute_shift<T: CpuRegister, U: CpuBus>(
    code: &Opecode,
    operand: Word,
    register: &mut T,
    cpu_bus: &mut U,
)
    requires
        old(cpu_bus).inv(),
        code.name == Instruction::ASL || code.name == Instruction::LSR
        || code.name == Instruction::ROL || code.name == Instruction::ROR
        || code.name == Instruction::DEC || code.name == Instruction::DEX
        || code.name == Instruction::DEY || code.name == Instruction::INC
        || code.name == Instruction::INX || code.name == Instruction::INY,
    ensures
        final(cpu_bus).inv(),
        final(register)@ == sem_shift(
            code.name,
            code.mode,
            operand,
            Cpu { reg: old(register)@, bus: old(cpu_bus).state() },
        ).reg,
        final(cpu_bus).state() == sem_shift(
            code.name,
            code.mode,
            operand,
            Cpu { reg: old(register)@, bus: old(cpu_bus).state() },
        ).bus,
{
    reveal(sem_shift);
    match code.name {
        Instruction::ASL => if code.mode == Addressing::Accumulator {
            asl_acc(register)
        } else {
            asl(operand, register, cpu_bus)
        },
        Instruction::LSR => if code.mode == Addressing::Accumulator {
            lsr_acc(register)
        } else {
            lsr(operand, register, cpu_bus)
        },
        Instruction::ROL => if code.mode == Addressing::Accumulator {
            rol_acc(register)
        } else {
            rol(operand, register, cpu_bus)
        },
        Instruction::ROR => if code.mode == Addressing::Accumulator {
            ror_acc(register)
        } else {
            ror(operand, register, cpu_bus)
        },
        Instruction::DEC => dec(operand, register, cpu_bus),
        Instruction::DEX => dex(register),
        Instruction::DEY => dey(register),
        Instruction::INC => inc(operand, register, cpu_bus),
        Instruction::INX => inx(register),
        Instruction::INY => iny(register),
        _ => (),
    }
}

/// Executes a stack operation, a jump or a return.
fn execute_stack<T: CpuRegister, U: CpuBus>(
    code: &Opecode,
    operand: Word,
    register: &mut T,
    cpu_bus: &mut U,
)
    requires
        old(cpu_bus).inv(),
        code.name == Instruction::PHA || code.name == Instruction::PHP
        || code.name == Instruction::PLA || code.name == Instruction::PLP
        || code.name == Instruction::JMP || code.name == Instruction::JSR
        || code.name == Instruction::RTS || code.name == Instruction::RTI
        || code.name == Instruction::BRK,
    ensures
        final(cpu_bus).inv(),
        final(register)@ == sem_stack(
            code.name,
            code.mode,
            operand,
            Cpu { reg: old(register)@, bus: old(cpu_bus).state() },
        ).reg,
        final(cpu_bus).state() == sem_stack(
            code.name,
            code.mode,
            operand,
            Cpu { reg: old(register)@, bus: old(cpu_bus).state() },
        ).bus,
{
    reveal(sem_stack);
    match code.name {
        Instruction::PHA => pha(register, cpu_bus),
        Instruction::PHP => php(register, cpu_bus),
        Instruction::PLA => pla(register, cpu_bus),
        Instruction::PLP => plp(register, cpu_bus),
        Instruction::JMP => jmp(operand, register),
        Instruction::JSR => jsr(operand, register, cpu_bus),
        Instruction::RTS => rts(register, cpu_bus),
        Instruction::RTI => rti(register, cpu_bus),
        Instruction::BRK => brk(register, cpu_bus),
        _ => (),
    }
}

/// Executes a branch.
fn execute_branch<T: CpuRegister, U: CpuBus>(
    code: &Opecode,
    operand: Word,
    register: &mut T,
    cpu_bus: &mut U,
)
    requires
        old(cpu_bus).inv(),
        code.name == Instruction::BCC || code.name == Instruction::BCS
        || code.name == Instruction::BEQ || code.name == Instruction::BMI
        || code.name == Instruction::BNE || code.name == Instruction::BPL
        || code.name == Instruction::BVC || code.name == Instruction::BVS,
    ensures
        final(cpu_bus).inv(),
        final(register)@ == sem_branch(
            code.name,
            code.mode,
            operand,
            Cpu { reg: old(register)@, bus: old(cpu_bus).state() },
        ).reg,
        final(cpu_bus).state() == sem_branch(
            code.name,
            code.mode,
            operand,
            Cpu { reg: old(register)@, bus: old(cpu_bus).state() },
        ).bus,
{
    reveal(sem_branch);
    match code.name {
        Instruction::BCC => bcc(operand, register),
        Instruction::BCS => bcs(operand, register),
        Instruction::BEQ => beq(operand, register),
        Instruction::BMI => bmi(operand, register),
        Instruction::BNE => bne(operand, register),
        Instruction::BPL => bpl(operand, register),
        Instruction::BVC => bvc(operand, register),
        Instruction::BVS => bvs(operand, register),
        _ => (),
    }
}

/// Executes a flag change.
fn execute_flag<T: CpuRegister, U: CpuBus>(
    code: &Opecode,
    operand: Word,
    register: &mut T,
    cpu_bus: &mut U,
)
    requires
        old(cpu_bus).inv(),
        code.name == Instruction::CLC || code.name == Instruction::CLD
        || code.name == Instruction::CLI || code.name == Instruction::CLV
        || code.name == Instruction::SEC || code.name == Instruction::SED
        || code.name == Instruction::SEI,
    ensures
        final(cpu_bus).inv(),
        final(register)@ == sem_flag(
            code.name,
            code.mode,
            operand,
            Cpu { reg: old(register)@, bus: old(cpu_bus).state() },
        ).reg,
        final(cpu_bus).state() == sem_flag(
            code.name,
            code.mode,
            operand,
            Cpu { reg: old(register)@, bus: old(cpu_bus).state() },
        ).bus,
{
    reveal(sem_flag);
    match code.name {
        Instruction::CLC => clc(register),
        Instruction::CLD => cld(register),
        Instruction::CLI => cli(register),
        Instruction::CLV => clv(register),
        Instruction::SEC => sec(register),
        Instruction::SED => sed(register),
        Instruction::SEI => sei(register),
        _ => (),
    }
}

/// Executes an undocumented instruction that changes memory and then the accumulator.
fn execute_combined<T: CpuRegister, U: CpuBus>(
    code: &Opecode,
    operand: Word,
    register: &mut T,
    cpu_bus: &mut U,
)
    requires
        old(cpu_bus).inv(),
        code.name == Instruction::DCP || code.name == Instruction::ISC
        || code.name == Instruction::SLO || code.name == Instruction::RLA
        || code.name == Instruction::SRE || code.name == Instruction::RRA,
    ensures
        final(cpu_bus).inv(),
        final(register)@ == sem_combined(
            code.name,
            code.mode,
            operand,
            Cpu { reg: old(register)@, bus: old(cpu_bus).state() },
        ).reg,
        final(cpu_bus).state() == sem_combined(
            code.name,
            code.mode,
            operand,
            Cpu { reg: old(register)@, bus: old(cpu_bus).state() },
        ).bus,
{
    reveal(sem_combined);
    match code.name {
        Instruction::DCP => dcp(operand, register, cpu_bus),
        Instruction::ISC => isc(operand, register, cpu_bus),
        Instruction::SLO => slo(operand, register, cpu_bus),
        Instruction::RLA => rla(operand, register, cpu_bus),
        Instruction::SRE => sre(operand, register, cpu_bus),
        Instruction::RRA => rra(operand, register, cpu_bus),
        _ => (),
    }
}

/// Executes a supported instruction whose operand is resolved.
pub fn execute<T: CpuRegister, U: CpuBus>(
    code: &Opecode,
    operand: Word,
    register: &mut T,
    cpu_bus: &mut U,
)
    requires
        old(cpu_bus).inv(),
        supported(code.name),
    ensures
        final(cpu_bus).inv(),
        final(register)@ == sem_execute(
            code.name,
            code.mode,
            operand,
            Cpu { reg: old(register)@, bus: old(cpu_bus).state() },
        ).reg,
        final(cpu_bus).state() == sem_execute(
            code.name,
            code.mode,
            operand,
            Cpu { reg: old(register)@, bus: old(cpu_bus).state() },
        ).bus,
{
    match code.name {
        Instruction::LDA | Instruction::LDX | Instruction::LDY | Instruction::STA
        | Instruction::STX | Instruction::STY | Instruction::TAX | Instruction::TAY
        | Instruction::TSX | Instruction::TXA | Instruction::TXS | Instruction::TYA
        | Instruction::LAX | Instruction::SAX => execute_transfer(code, operand, register, cpu_bus),
        Instruction::ADC | Instruction::AND | Instruction::BIT | Instruction::CMP
        | Instruction::CPX | Instruction::CPY | Instruction::EOR | Instruction::ORA
        | Instruction::SBC => execute_arithmetic(code, operand, register, cpu_bus),
        Instruction::ASL | Instruction::LSR | Instruction::ROL | Instruction::ROR
        | Instruction::DEC | Instruction::DEX | Instruction::DEY | Instruction::INC
        | Instruction::INX | Instruction::INY => execute_shift(code, operand, register, cpu_bus),
        Instruction::PHA | Instruction::PHP | Instruction::PLA | Instruction::PLP
        | Instruction::JMP | Instruction::JSR | Instruction::RTS | Instruction::RTI
        | Instruction::BRK => execute_stack(code, operand, register, cpu_bus),
        Instruction::BCC | Instruction::BCS | Instruction::BEQ | Instruction::BMI
        | Instruction::BNE | Instruction::BPL | Instruction::BVC
        | Instruction::BVS => execute_branch(
            code,
            operand,
            register,
            cpu_bus,
        ),
        Instruction::CLC | Instruction::CLD | Instruction::CLI | Instruction::CLV
        | Instruction::SEC | Instruction::SED | Instruction::SEI => execute_flag(
            code,
            operand,
            register,
            cpu_bus,
        ),
        Instruction::DCP | Instruction::ISC | Instruction::SLO | Instruction::RLA
        | Instruction::SRE | Instruction::RRA => execute_combined(code, operand, register, cpu_bus),
        _ => (),
    }
}

/// Fetches, decodes and executes one instruction.
fn step_instruction<T: CpuRegister, U: CpuBus>(register: &mut T, cpu_bus: &mut U) -> (res: Result<
    Data,
    Fault,
>)
    requires
        old(cpu_bus).inv(),
    ensures
        final(cpu_bus).inv(),
        res == sem_instruction(old(register)@, old(cpu_bus).state()).result,
        final(register)@ == sem_instruction(old(register)@, old(cpu_bus).state()).cpu.reg,
        final(cpu_bus).state() == sem_instruction(
            old(register)@,
            old(cpu_bus).state(),
        ).cpu.bus,
{
    register.set_page_crossed(false);
    register.pop_additional_cycle();
    assert(register@ == (RegisterState {
        page_crossed: false,
        additional_cycle: 0,
        ..old(register)@
    }));
    let code = fetch(register, cpu_bus);
    let ope = opecode(code);
    if !is_supported(ope.name) {
        return Err(Fault::UnknownOpcode(code));
    }
    let operand = fetch_operand(&ope, register, cpu_bus);
    execute(&ope, operand, register, cpu_bus);
    let cross = if register.get_page_crossed() {
        instruction_page_cross_cycle(code)
    } else {
        0
    };
    let extra = register.pop_additional_cycle();
    Ok(add8(ope.cycle + cross, extra))
}

/// Runs the processor for one step. A step with an interrupt to serve enters
/// the handler and takes seven cycles: the non-maskable interrupt if `nmi` is
/// set, which is then cleared; failing that, a pending maskable one while the
/// interrupt-disable flag is clear. Any other step fetches, decodes and
/// executes one instruction. The result is the number of cycles taken, or the
/// fault of an opcode that is not implemented.
pub fn run<T: CpuRegister, U: CpuBus>(register: &mut T, cpu_bus: &mut U, nmi: &mut bool) -> (res:
    Result<Data, Fault>)
    requires
        old(cpu_bus).inv(),
    ensures
        final(cpu_bus).inv(),
        res == sem_run(old(register)@, old(cpu_bus).state(), *old(nmi)).result,
        final(register)@ == sem_run(old(register)@, old(cpu_bus).state(), *old(nmi)).cpu.reg,
        final(cpu_bus).state() == sem_run(
            old(register)@,
            old(cpu_bus).state(),
            *old(nmi),
        ).cpu.bus,
        !*final(nmi),
{
    if *nmi {
        process_nmi(register, cpu_bus);
        *nmi = false;
        register.pop_additional_cycle();
        Ok(7)
    } else if register.is_interrupt_irq_enabled() && !register.get_status_interrupt() {
        process_irq(register, cpu_bus);
        register.pop_additional_cycle();
        Ok(7)
    } else {
        step_instruction(register, cpu_bus)
    }
}

} // verus!

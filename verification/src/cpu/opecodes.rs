use crate::types::Data;
use vstd::prelude::*;

verus! {

/// What one opcode byte stands for: the instruction, how its operand is found,
/// and the cycles it takes before any penalty.
#[derive(Debug)]
pub struct Opecode {
    pub name: Instruction,
    pub mode: Addressing,
    pub cycle: u8,
}

#[derive(Debug, Copy, Clone, PartialEq, Eq, Structural)]
pub enum Instruction {
    // transfers
    LDA,
    LDX,
    LDY,
    STA,
    STX,
    STY,
    TAX,
    TAY,
    TSX,
    TXA,
    TXS,
    TYA,
    // arithmetic and logic
    ADC,
    AND,
    ASL,
    BIT,
    CMP,
    CPX,
    CPY,
    DEC,
    DEX,
    DEY,
    EOR,
    INC,
    INX,
    INY,
    LSR,
    ORA,
    ROL,
    ROR,
    SBC,
    // stack
    PHA,
    PHP,
    PLA,
    PLP,
    // jumps
    JMP,
    JSR,
    RTS,
    RTI,
    // branches
    BCC,
    BCS,
    BEQ,
    BMI,
    BNE,
    BPL,
    BVC,
    BVS,
    // flag changes
    CLC,
    CLD,
    CLI,
    CLV,
    SEC,
    SED,
    SEI,
    // others
    BRK,
    NOP,
    // undocumented, supported
    LAX,
    SAX,
    DCP,
    ISC,
    SLO,
    RLA,
    SRE,
    RRA,
    // undocumented, not supported
    ANC,
    ALR,
    ARR,
    XAA,
    AHX,
    TAS,
    SHY,
    SHX,
    LAS,
    AXS,
}

#[derive(Debug, Copy, Clone, PartialEq, Eq, Structural)]
pub enum Addressing {
    Absolute,
    AbsoluteX,
    AbsoluteY,
    Accumulator,
    Immediate,
    Implied,
    IndexedIndirect,
    AbsoluteIndirect,
    IndirectIndexed,
    Relative,
    Zeropage,
    ZeropageX,
    ZeropageY,
}

/// The addressing mode that a mode number of the opcode table stands for.
pub open spec fn addressing_at(index: u8) -> Addressing {
    match index {
        0 => Addressing::Absolute,
        1 => Addressing::AbsoluteX,
        2 => Addressing::AbsoluteY,
        3 => Addressing::Accumulator,
        4 => Addressing::Immediate,
        5 => Addressing::Implied,
        6 => Addressing::IndexedIndirect,
        7 => Addressing::AbsoluteIndirect,
        8 => Addressing::IndirectIndexed,
        9 => Addressing::Relative,
        10 => Addressing::Zeropage,
        11 => Addressing::ZeropageX,
        _ => Addressing::ZeropageY,
    }
}

impl Addressing {
    /// The addressing mode with the given number, 0 to 12.
    pub fn offset(index: u8) -> (r: Addressing)
        requires
            index <= 12,
        ensures
            r == addressing_at(index),
    {
        match index {
            0 => Addressing::Absolute,
            1 => Addressing::AbsoluteX,
            2 => Addressing::AbsoluteY,
            3 => Addressing::Accumulator,
            4 => Addressing::Immediate,
            5 => Addressing::Implied,
            6 => Addressing::IndexedIndirect,
            7 => Addressing::AbsoluteIndirect,
            8 => Addressing::IndirectIndexed,
            9 => Addressing::Relative,
            10 => Addressing::Zeropage,
            11 => Addressing::ZeropageX,
            _ => Addressing::ZeropageY,
        }
    }
}

/// The instruction of each opcode byte.
#[verifier::opaque]
pub open spec fn instruction_of(code: Data) -> Instruction {
    match code {
        0x00 => Instruction::BRK,
        0x01 | 0x05 | 0x09 | 0x0D | 0x11 | 0x15 | 0x19 | 0x1D => Instruction::ORA,
        0x03 | 0x07 | 0x0F | 0x13 | 0x17 | 0x1B | 0x1F => Instruction::SLO,
        0x06 | 0x0A | 0x0E | 0x16 | 0x1E => Instruction::ASL,
        0x08 => Instruction::PHP,
        0x0B | 0x2B => Instruction::ANC,
        0x10 => Instruction::BPL,
        0x18 => Instruction::CLC,
        0x20 => Instruction::JSR,
        0x21 | 0x25 | 0x29 | 0x2D | 0x31 | 0x35 | 0x39 | 0x3D => Instruction::AND,
        0x23 | 0x27 | 0x2F | 0x33 | 0x37 | 0x3B | 0x3F => Instruction::RLA,
        0x24 | 0x2C => Instruction::BIT,
        0x26 | 0x2A | 0x2E | 0x36 | 0x3E => Instruction::ROL,
        0x28 => Instruction::PLP,
        0x30 => Instruction::BMI,
        0x38 => Instruction::SEC,
        0x40 => Instruction::RTI,
        0x41 | 0x45 | 0x49 | 0x4D | 0x51 | 0x55 | 0x59 | 0x5D => Instruction::EOR,
        0x43 | 0x47 | 0x4F | 0x53 | 0x57 | 0x5B | 0x5F => Instruction::SRE,
        0x46 | 0x4A | 0x4E | 0x56 | 0x5E => Instruction::LSR,
        0x48 => Instruction::PHA,
        0x4B => Instruction::ALR,
        0x4C | 0x6C => Instruction::JMP,
        0x50 => Instruction::BVC,
        0x58 => Instruction::CLI,
        0x60 => Instruction::RTS,
        0x61 | 0x65 | 0x69 | 0x6D | 0x71 | 0x75 | 0x79 | 0x7D => Instruction::ADC,
        0x63 | 0x67 | 0x6F | 0x73 | 0x77 | 0x7B | 0x7F => Instruction::RRA,
        0x66 | 0x6A | 0x6E | 0x76 | 0x7E => Instruction::ROR,
        0x68 => Instruction::PLA,
        0x6B => Instruction::ARR,
        0x70 => Instruction::BVS,
        0x78 => Instruction::SEI,
        0x81 | 0x85 | 0x8D | 0x91 | 0x95 | 0x99 | 0x9D => Instruction::STA,
        0x83 | 0x87 | 0x8F | 0x97 => Instruction::SAX,
        0x84 | 0x8C | 0x94 => Instruction::STY,
        0x86 | 0x8E | 0x96 => Instruction::STX,
        0x88 => Instruction::DEY,
        0x8A => Instruction::TXA,
        0x8B => Instruction::XAA,
        0x90 => Instruction::BCC,
        0x93 | 0x9F => Instruction::AHX,
        0x98 => Instruction::TYA,
        0x9A => Instruction::TXS,
        0x9B => Instruction::TAS,
        0x9C => Instruction::SHY,
        0x9E => Instruction::SHX,
        0xA0 | 0xA4 | 0xAC | 0xB4 | 0xBC => Instruction::LDY,
        0xA1 | 0xA5 | 0xA9 | 0xAD | 0xB1 | 0xB5 | 0xB9 | 0xBD => Instruction::LDA,
        0xA2 | 0xA6 | 0xAE | 0xB6 | 0xBE => Instruction::LDX,
        0xA3 | 0xA7 | 0xAB | 0xAF | 0xB3 | 0xB7 | 0xBF => Instruction::LAX,
        0xA8 => Instruction::TAY,
        0xAA => Instruction::TAX,
        0xB0 => Instruction::BCS,
        0xB8 => Instruction::CLV,
        0xBA => Instruction::TSX,
        0xBB => Instruction::LAS,
        0xC0 | 0xC4 | 0xCC => Instruction::CPY,
        0xC1 | 0xC5 | 0xC9 | 0xCD | 0xD1 | 0xD5 | 0xD9 | 0xDD => Instruction::CMP,
        0xC3 | 0xC7 | 0xCF | 0xD3 | 0xD7 | 0xDB | 0xDF => Instruction::DCP,
        0xC6 | 0xCE | 0xD6 | 0xDE => Instruction::DEC,
        0xC8 => Instruction::INY,
        0xCA => Instruction::DEX,
        0xCB => Instruction::AXS,
        0xD0 => Instruction::BNE,
        0xD8 => Instruction::CLD,
        0xE0 | 0xE4 | 0xEC => Instruction::CPX,
        0xE1 | 0xE5 | 0xE9 | 0xEB | 0xED | 0xF1 | 0xF5 | 0xF9 | 0xFD => Instruction::SBC,
        0xE3 | 0xE7 | 0xEF | 0xF3 | 0xF7 | 0xFB | 0xFF => Instruction::ISC,
        0xE6 | 0xEE | 0xF6 | 0xFE => Instruction::INC,
        0xE8 => Instruction::INX,
        0xF0 => Instruction::BEQ,
        0xF8 => Instruction::SED,
        _ => Instruction::NOP,
    }
}

/// The mode number of each opcode byte.
#[verifier::opaque]
pub open spec fn mode_index(code: Data) -> u8 {
    match code {
        0x01 | 0x03 | 0x21 | 0x23 | 0x41 | 0x43 | 0x61 | 0x63 | 0x81 | 0x83 | 0xA1 | 0xA3
        | 0xC1 | 0xC3 | 0xE1 | 0xE3 => 6,
        0x04 | 0x05 | 0x06 | 0x07 | 0x24 | 0x25 | 0x26 | 0x27 | 0x44 | 0x45 | 0x46 | 0x47
        | 0x64 | 0x65 | 0x66 | 0x67 | 0x84 | 0x85 | 0x86 | 0x87 | 0xA4 | 0xA5 | 0xA6 | 0xA7
        | 0xC4 | 0xC5 | 0xC6 | 0xC7 | 0xE4 | 0xE5 | 0xE6 | 0xE7 => 10,
        0x09 | 0x0B | 0x29 | 0x2B | 0x49 | 0x4B | 0x69 | 0x6B | 0x80 | 0x82 | 0x89 | 0x8B
        | 0xA0 | 0xA2 | 0xA9 | 0xAB | 0xC0 | 0xC2 | 0xC9 | 0xCB | 0xE0 | 0xE2 | 0xE9 | 0xEB => 4,
        0x0A | 0x2A | 0x4A | 0x6A => 3,
        0x0C | 0x0D | 0x0E | 0x0F | 0x20 | 0x2C | 0x2D | 0x2E | 0x2F | 0x4C | 0x4D | 0x4E
        | 0x4F | 0x6D | 0x6E | 0x6F | 0x8C | 0x8D | 0x8E | 0x8F | 0xAC | 0xAD | 0xAE | 0xAF
        | 0xCC | 0xCD | 0xCE | 0xCF | 0xEC | 0xED | 0xEE | 0xEF => 0,
        0x10 | 0x30 | 0x50 | 0x70 | 0x90 | 0xB0 | 0xD0 | 0xF0 => 9,
        0x11 | 0x13 | 0x31 | 0x33 | 0x51 | 0x53 | 0x71 | 0x73 | 0x91 | 0x93 | 0xB1 | 0xB3
        | 0xD1 | 0xD3 | 0xF1 | 0xF3 => 8,
        0x14 | 0x15 | 0x16 | 0x17 | 0x34 | 0x35 | 0x36 | 0x37 | 0x54 | 0x55 | 0x56 | 0x57
        | 0x74 | 0x75 | 0x76 | 0x77 | 0x94 | 0x95 | 0xB4 | 0xB5 | 0xD4 | 0xD5 | 0xD6 | 0xD7
        | 0xF4 | 0xF5 | 0xF6 | 0xF7 => 11,
        0x19 | 0x1B | 0x39 | 0x3B | 0x59 | 0x5B | 0x79 | 0x7B | 0x99 | 0x9B | 0x9E | 0x9F
        | 0xB9 | 0xBB | 0xBE | 0xBF | 0xD9 | 0xDB | 0xF9 | 0xFB => 2,
        0x1C | 0x1D | 0x1E | 0x1F | 0x3C | 0x3D | 0x3E | 0x3F | 0x5C | 0x5D | 0x5E | 0x5F
        | 0x7C | 0x7D | 0x7E | 0x7F | 0x9C | 0x9D | 0xBC | 0xBD | 0xDC | 0xDD | 0xDE | 0xDF
        | 0xFC | 0xFD | 0xFE | 0xFF => 1,
        0x6C => 7,
        0x96 | 0x97 | 0xB6 | 0xB7 => 12,
        _ => 5,
    }
}

/// The addressing mode of each opcode byte.
pub open spec fn addressing_of(code: Data) -> Addressing {
    addressing_at(mode_index(code))
}

/// The cycles of each opcode byte before any penalty.
#[verifier::opaque]
pub open spec fn base_cycles(code: Data) -> u8 {
    match code {
        0x00 | 0x1B | 0x1E | 0x1F | 0x3B | 0x3E | 0x3F | 0x5B | 0x5E | 0x5F | 0x7B | 0x7E
        | 0x7F | 0xDB | 0xDE | 0xDF | 0xFB | 0xFE | 0xFF => 7,
        0x01 | 0x0E | 0x0F | 0x16 | 0x17 | 0x20 | 0x21 | 0x2E | 0x2F | 0x36 | 0x37 | 0x40
        | 0x41 | 0x4E | 0x4F | 0x56 | 0x57 | 0x60 | 0x61 | 0x6E | 0x6F | 0x76 | 0x77 | 0x81
        | 0x83 | 0x91 | 0x93 | 0xA1 | 0xA3 | 0xC1 | 0xCE | 0xCF | 0xD6 | 0xD7 | 0xE1 | 0xEE
        | 0xEF | 0xF6 | 0xF7 => 6,
        0x03 | 0x13 | 0x23 | 0x33 | 0x43 | 0x53 | 0x63 | 0x73 | 0xC3 | 0xD3 | 0xE3 | 0xF3 => 8,
        0x04 | 0x05 | 0x08 | 0x24 | 0x25 | 0x44 | 0x45 | 0x48 | 0x4C | 0x64 | 0x65 | 0x84
        | 0x85 | 0x86 | 0x87 | 0xA4 | 0xA5 | 0xA6 | 0xA7 | 0xC4 | 0xC5 | 0xE4 | 0xE5 => 3,
        0x06 | 0x07 | 0x11 | 0x26 | 0x27 | 0x31 | 0x46 | 0x47 | 0x51 | 0x66 | 0x67 | 0x6C
        | 0x71 | 0x99 | 0x9B | 0x9C | 0x9D | 0x9E | 0x9F | 0xB1 | 0xB3 | 0xC6 | 0xC7 | 0xD1
        | 0xE6 | 0xE7 | 0xF1 => 5,
        0x0C | 0x0D | 0x14 | 0x15 | 0x19 | 0x1C | 0x1D | 0x28 | 0x2C | 0x2D | 0x34 | 0x35
        | 0x39 | 0x3C | 0x3D | 0x4D | 0x54 | 0x55 | 0x59 | 0x5C | 0x5D | 0x68 | 0x6D | 0x74
        | 0x75 | 0x79 | 0x7C | 0x7D | 0x8C | 0x8D | 0x8E | 0x8F | 0x94 | 0x95 | 0x96 | 0x97
        | 0xAC | 0xAD | 0xAE | 0xAF | 0xB4 | 0xB5 | 0xB6 | 0xB7 | 0xB9 | 0xBB | 0xBC | 0xBD
        | 0xBE | 0xBF | 0xCC | 0xCD | 0xD4 | 0xD5 | 0xD9 | 0xDC | 0xDD | 0xEC | 0xED | 0xF4
        | 0xF5 | 0xF9 | 0xFC | 0xFD => 4,
        _ => 2,
    }
}

/// The extra cycles of each opcode byte when its operand crosses a page.
#[verifier::opaque]
pub open spec fn page_cross_cycles(code: Data) -> u8 {
    match code {
        0x10 | 0x11 | 0x19 | 0x1C | 0x1D | 0x30 | 0x31 | 0x39 | 0x3C | 0x3D | 0x50 | 0x51
        | 0x59 | 0x5C | 0x5D | 0x70 | 0x71 | 0x79 | 0x7C | 0x7D | 0x90 | 0xB0 | 0xB1 | 0xB3
        | 0xB9 | 0xBB | 0xBC | 0xBD | 0xBE | 0xBF | 0xD0 | 0xD1 | 0xD9 | 0xDC | 0xDD | 0xF0
        | 0xF1 | 0xF9 | 0xFC | 0xFD => 1,
        _ => 0,
    }
}

/// The instruction of an opcode byte.
pub fn instruction_name(code: Data) -> (r: Instruction)
    ensures
        r == instruction_of(code),
{
    reveal(instruction_of);
    match code {
        0x00 => Instruction::BRK,
        0x01 | 0x05 | 0x09 | 0x0D | 0x11 | 0x15 | 0x19 | 0x1D => Instruction::ORA,
        0x03 | 0x07 | 0x0F | 0x13 | 0x17 | 0x1B | 0x1F => Instruction::SLO,
        0x06 | 0x0A | 0x0E | 0x16 | 0x1E => Instruction::ASL,
        0x08 => Instruction::PHP,
        0x0B | 0x2B => Instruction::ANC,
        0x10 => Instruction::BPL,
        0x18 => Instruction::CLC,
        0x20 => Instruction::JSR,
        0x21 | 0x25 | 0x29 | 0x2D | 0x31 | 0x35 | 0x39 | 0x3D => Instruction::AND,
        0x23 | 0x27 | 0x2F | 0x33 | 0x37 | 0x3B | 0x3F => Instruction::RLA,
        0x24 | 0x2C => Instruction::BIT,
        0x26 | 0x2A | 0x2E | 0x36 | 0x3E => Instruction::ROL,
        0x28 => Instruction::PLP,
        0x30 => Instruction::BMI,
        0x38 => Instruction::SEC,
        0x40 => Instruction::RTI,
        0x41 | 0x45 | 0x49 | 0x4D | 0x51 | 0x55 | 0x59 | 0x5D => Instruction::EOR,
        0x43 | 0x47 | 0x4F | 0x53 | 0x57 | 0x5B | 0x5F => Instruction::SRE,
        0x46 | 0x4A | 0x4E | 0x56 | 0x5E => Instruction::LSR,
        0x48 => Instruction::PHA,
        0x4B => Instruction::ALR,
        0x4C | 0x6C => Instruction::JMP,
        0x50 => Instruction::BVC,
        0x58 => Instruction::CLI,
        0x60 => Instruction::RTS,
        0x61 | 0x65 | 0x69 | 0x6D | 0x71 | 0x75 | 0x79 | 0x7D => Instruction::ADC,
        0x63 | 0x67 | 0x6F | 0x73 | 0x77 | 0x7B | 0x7F => Instruction::RRA,
        0x66 | 0x6A | 0x6E | 0x76 | 0x7E => Instruction::ROR,
        0x68 => Instruction::PLA,
        0x6B => Instruction::ARR,
        0x70 => Instruction::BVS,
        0x78 => Instruction::SEI,
        0x81 | 0x85 | 0x8D | 0x91 | 0x95 | 0x99 | 0x9D => Instruction::STA,
        0x83 | 0x87 | 0x8F | 0x97 => Instruction::SAX,
        0x84 | 0x8C | 0x94 => Instruction::STY,
        0x86 | 0x8E | 0x96 => Instruction::STX,
        0x88 => Instruction::DEY,
        0x8A => Instruction::TXA,
        0x8B => Instruction::XAA,
        0x90 => Instruction::BCC,
        0x93 | 0x9F => Instruction::AHX,
        0x98 => Instruction::TYA,
        0x9A => Instruction::TXS,
        0x9B => Instruction::TAS,
        0x9C => Instruction::SHY,
        0x9E => Instruction::SHX,
        0xA0 | 0xA4 | 0xAC | 0xB4 | 0xBC => Instruction::LDY,
        0xA1 | 0xA5 | 0xA9 | 0xAD | 0xB1 | 0xB5 | 0xB9 | 0xBD => Instruction::LDA,
        0xA2 | 0xA6 | 0xAE | 0xB6 | 0xBE => Instruction::LDX,
        0xA3 | 0xA7 | 0xAB | 0xAF | 0xB3 | 0xB7 | 0xBF => Instruction::LAX,
        0xA8 => Instruction::TAY,
        0xAA => Instruction::TAX,
        0xB0 => Instruction::BCS,
        0xB8 => Instruction::CLV,
        0xBA => Instruction::TSX,
        0xBB => Instruction::LAS,
        0xC0 | 0xC4 | 0xCC => Instruction::CPY,
        0xC1 | 0xC5 | 0xC9 | 0xCD | 0xD1 | 0xD5 | 0xD9 | 0xDD => Instruction::CMP,
        0xC3 | 0xC7 | 0xCF | 0xD3 | 0xD7 | 0xDB | 0xDF => Instruction::DCP,
        0xC6 | 0xCE | 0xD6 | 0xDE => Instruction::DEC,
        0xC8 => Instruction::INY,
        0xCA => Instruction::DEX,
        0xCB => Instruction::AXS,
        0xD0 => Instruction::BNE,
        0xD8 => Instruction::CLD,
        0xE0 | 0xE4 | 0xEC => Instruction::CPX,
        0xE1 | 0xE5 | 0xE9 | 0xEB | 0xED | 0xF1 | 0xF5 | 0xF9 | 0xFD => Instruction::SBC,
        0xE3 | 0xE7 | 0xEF | 0xF3 | 0xF7 | 0xFB | 0xFF => Instruction::ISC,
        0xE6 | 0xEE | 0xF6 | 0xFE => Instruction::INC,
        0xE8 => Instruction::INX,
        0xF0 => Instruction::BEQ,
        0xF8 => Instruction::SED,
        _ => Instruction::NOP,
    }
}

/// The mode number of an opcode byte.
pub fn instruction_mode(code: Data) -> (r: u8)
    ensures
        r == mode_index(code),
        r <= 12,
{
    reveal(mode_index);
    match code {
        0x01 | 0x03 | 0x21 | 0x23 | 0x41 | 0x43 | 0x61 | 0x63 | 0x81 | 0x83 | 0xA1 | 0xA3
        | 0xC1 | 0xC3 | 0xE1 | 0xE3 => 6,
        0x04 | 0x05 | 0x06 | 0x07 | 0x24 | 0x25 | 0x26 | 0x27 | 0x44 | 0x45 | 0x46 | 0x47
        | 0x64 | 0x65 | 0x66 | 0x67 | 0x84 | 0x85 | 0x86 | 0x87 | 0xA4 | 0xA5 | 0xA6 | 0xA7
        | 0xC4 | 0xC5 | 0xC6 | 0xC7 | 0xE4 | 0xE5 | 0xE6 | 0xE7 => 10,
        0x09 | 0x0B | 0x29 | 0x2B | 0x49 | 0x4B | 0x69 | 0x6B | 0x80 | 0x82 | 0x89 | 0x8B
        | 0xA0 | 0xA2 | 0xA9 | 0xAB | 0xC0 | 0xC2 | 0xC9 | 0xCB | 0xE0 | 0xE2 | 0xE9 | 0xEB => 4,
        0x0A | 0x2A | 0x4A | 0x6A => 3,
        0x0C | 0x0D | 0x0E | 0x0F | 0x20 | 0x2C | 0x2D | 0x2E | 0x2F | 0x4C | 0x4D | 0x4E
        | 0x4F | 0x6D | 0x6E | 0x6F | 0x8C | 0x8D | 0x8E | 0x8F | 0xAC | 0xAD | 0xAE | 0xAF
        | 0xCC | 0xCD | 0xCE | 0xCF | 0xEC | 0xED | 0xEE | 0xEF => 0,
        0x10 | 0x30 | 0x50 | 0x70 | 0x90 | 0xB0 | 0xD0 | 0xF0 => 9,
        0x11 | 0x13 | 0x31 | 0x33 | 0x51 | 0x53 | 0x71 | 0x73 | 0x91 | 0x93 | 0xB1 | 0xB3
        | 0xD1 | 0xD3 | 0xF1 | 0xF3 => 8,
        0x14 | 0x15 | 0x16 | 0x17 | 0x34 | 0x35 | 0x36 | 0x37 | 0x54 | 0x55 | 0x56 | 0x57
        | 0x74 | 0x75 | 0x76 | 0x77 | 0x94 | 0x95 | 0xB4 | 0xB5 | 0xD4 | 0xD5 | 0xD6 | 0xD7
        | 0xF4 | 0xF5 | 0xF6 | 0xF7 => 11,
        0x19 | 0x1B | 0x39 | 0x3B | 0x59 | 0x5B | 0x79 | 0x7B | 0x99 | 0x9B | 0x9E | 0x9F
        | 0xB9 | 0xBB | 0xBE | 0xBF | 0xD9 | 0xDB | 0xF9 | 0xFB => 2,
        0x1C | 0x1D | 0x1E | 0x1F | 0x3C | 0x3D | 0x3E | 0x3F | 0x5C | 0x5D | 0x5E | 0x5F
        | 0x7C | 0x7D | 0x7E | 0x7F | 0x9C | 0x9D | 0xBC | 0xBD | 0xDC | 0xDD | 0xDE | 0xDF
        | 0xFC | 0xFD | 0xFE | 0xFF => 1,
        0x6C => 7,
        0x96 | 0x97 | 0xB6 | 0xB7 => 12,
        _ => 5,
    }
}

/// The cycles of an opcode byte before any penalty.
pub fn instruction_cycle(code: Data) -> (r: u8)
    ensures
        r == base_cycles(code),
        2 <= r <= 8,
{
    reveal(base_cycles);
    match code {
        0x00 | 0x1B | 0x1E | 0x1F | 0x3B | 0x3E | 0x3F | 0x5B | 0x5E | 0x5F | 0x7B | 0x7E
        | 0x7F | 0xDB | 0xDE | 0xDF | 0xFB | 0xFE | 0xFF => 7,
        0x01 | 0x0E | 0x0F | 0x16 | 0x17 | 0x20 | 0x21 | 0x2E | 0x2F | 0x36 | 0x37 | 0x40
        | 0x41 | 0x4E | 0x4F | 0x56 | 0x57 | 0x60 | 0x61 | 0x6E | 0x6F | 0x76 | 0x77 | 0x81
        | 0x83 | 0x91 | 0x93 | 0xA1 | 0xA3 | 0xC1 | 0xCE | 0xCF | 0xD6 | 0xD7 | 0xE1 | 0xEE
        | 0xEF | 0xF6 | 0xF7 => 6,
        0x03 | 0x13 | 0x23 | 0x33 | 0x43 | 0x53 | 0x63 | 0x73 | 0xC3 | 0xD3 | 0xE3 | 0xF3 => 8,
        0x04 | 0x05 | 0x08 | 0x24 | 0x25 | 0x44 | 0x45 | 0x48 | 0x4C | 0x64 | 0x65 | 0x84
        | 0x85 | 0x86 | 0x87 | 0xA4 | 0xA5 | 0xA6 | 0xA7 | 0xC4 | 0xC5 | 0xE4 | 0xE5 => 3,
        0x06 | 0x07 | 0x11 | 0x26 | 0x27 | 0x31 | 0x46 | 0x47 | 0x51 | 0x66 | 0x67 | 0x6C
        | 0x71 | 0x99 | 0x9B | 0x9C | 0x9D | 0x9E | 0x9F | 0xB1 | 0xB3 | 0xC6 | 0xC7 | 0xD1
        | 0xE6 | 0xE7 | 0xF1 => 5,
        0x0C | 0x0D | 0x14 | 0x15 | 0x19 | 0x1C | 0x1D | 0x28 | 0x2C | 0x2D | 0x34 | 0x35
        | 0x39 | 0x3C | 0x3D | 0x4D | 0x54 | 0x55 | 0x59 | 0x5C | 0x5D | 0x68 | 0x6D | 0x74
        | 0x75 | 0x79 | 0x7C | 0x7D | 0x8C | 0x8D | 0x8E | 0x8F | 0x94 | 0x95 | 0x96 | 0x97
        | 0xAC | 0xAD | 0xAE | 0xAF | 0xB4 | 0xB5 | 0xB6 | 0xB7 | 0xB9 | 0xBB | 0xBC | 0xBD
        | 0xBE | 0xBF | 0xCC | 0xCD | 0xD4 | 0xD5 | 0xD9 | 0xDC | 0xDD | 0xEC | 0xED | 0xF4
        | 0xF5 | 0xF9 | 0xFC | 0xFD => 4,
        _ => 2,
    }
}

/// The extra cycles of an opcode byte when its operand crosses a page.
pub fn instruction_page_cross_cycle(code: Data) -> (r: u8)
    ensures
        r == page_cross_cycles(code),
        r <= 1,
{
    reveal(page_cross_cycles);
    match code {
        0x10 | 0x11 | 0x19 | 0x1C | 0x1D | 0x30 | 0x31 | 0x39 | 0x3C | 0x3D | 0x50 | 0x51
        | 0x59 | 0x5C | 0x5D | 0x70 | 0x71 | 0x79 | 0x7C | 0x7D | 0x90 | 0xB0 | 0xB1 | 0xB3
        | 0xB9 | 0xBB | 0xBC | 0xBD | 0xBE | 0xBF | 0xD0 | 0xD1 | 0xD9 | 0xDC | 0xDD | 0xF0
        | 0xF1 | 0xF9 | 0xFC | 0xFD => 1,
        _ => 0,
    }
}

/// Looks an opcode byte up in the table. Every byte has an entry.
pub fn opecode(code: Data) -> (r: Opecode)
    ensures
        r.name == instruction_of(code),
        r.mode == addressing_of(code),
        r.cycle == base_cycles(code),
        2 <= r.cycle <= 8,
{
    Opecode {
        name: instruction_name(code),
        mode: Addressing::offset(instruction_mode(code)),
        cycle: instruction_cycle(code),
    }
}

} // verus!

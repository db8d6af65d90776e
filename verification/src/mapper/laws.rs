use super::mapper::prg_read_result;
use super::mapper4::{bank_offset, Mapper4State};
use crate::types::{Addr, Data};
use vstd::arithmetic::div_mod::{
    lemma_fundamental_div_mod, lemma_small_mod, lemma_truncate_middle,
};
use vstd::prelude::*;

verus! {

/// In a memory of `banks` whole banks, the offset of bank `v` is `v` banks in,
/// counted round the memory: bank `v mod banks`.
pub proof fn lemma_bank_offset_wraps(v: Data, banks: nat, unit: nat)
    requires
        unit > 0,
        banks > 0,
    ensures
        bank_offset(v as int, banks * unit, unit) == (v * unit) % ((banks * unit) as int),
        bank_offset(v as int, banks * unit, unit) == (v as int % (banks as int)) * unit,
{
    let len = banks * unit;
    let b = banks as int;
    let u = unit as int;
    let x = v as int;
    assert(len / unit == banks) by (nonlinear_arith)
        requires
            len == banks * unit,
            unit > 0,
    ;
    lemma_truncate_middle(x, u, b);
    assert(u * b == len && u * x == x * u && u * (x % b) == (x % b) * u) by (nonlinear_arith)
        requires
            len == banks * unit,
            b == banks,
            u == unit,
    ;
}

/// In a memory of `banks` whole banks, the fixed banks -1 and -2 are the last
/// and the second-to-last bank.
pub proof fn lemma_fixed_banks(banks: nat, unit: nat)
    requires
        unit > 0,
        banks >= 2,
    ensures
        bank_offset(-1, banks * unit, unit) == (banks - 1) * unit,
        bank_offset(-2, banks * unit, unit) == (banks - 2) * unit,
{
    let len = banks * unit;
    assert(len / unit == banks) by (nonlinear_arith)
        requires
            len == banks * unit,
            unit > 0,
    ;
    lemma_small_mod(1, banks);
    if banks > 2 {
        lemma_small_mod(2, banks);
    } else {
        assert(2int % 2int == 0);
    }
    assert((banks - 1) * unit == len - 1 * unit && (banks - 2) * unit == len - 2 * unit)
        by (nonlinear_arith)
        requires
            len == banks * unit,
    ;
}

/// The four program windows of a program memory of N whole banks of 8 KiB, N
/// at least 2. In program mode 0 the windows at 0x8000, 0xA000, 0xC000 and
/// 0xE000 show the banks R6 mod N, R7 mod N, N - 2 and N - 1; in mode 1 the
/// first and the third change places. Every window lies inside program memory.
pub proof fn lemma_prg_windows(m: Mapper4State, banks: nat)
    requires
        banks >= 2,
        m.prg_len == banks * 0x2000,
    ensures
        m.prg_offset(0) == (if m.prg_mode {
            banks - 2
        } else {
            m.registers[6] as int % (banks as int)
        }) * 0x2000,
        m.prg_offset(1) == (m.registers[7] as int % (banks as int)) * 0x2000,
        m.prg_offset(2) == (if m.prg_mode {
            m.registers[6] as int % (banks as int)
        } else {
            banks - 2
        }) * 0x2000,
        m.prg_offset(3) == (banks - 1) * 0x2000,
        forall|slot: int| 0 <= slot < 4 ==> #[trigger] m.prg_offset(slot) + 0x2000 <= m.prg_len,
{
    lemma_bank_offset_wraps(m.registers[6], banks, 0x2000);
    lemma_bank_offset_wraps(m.registers[7], banks, 0x2000);
    lemma_fixed_banks(banks, 0x2000);
    let r6 = m.registers[6] as int % (banks as int);
    let r7 = m.registers[7] as int % (banks as int);
    assert(0 <= r6 < banks && 0 <= r7 < banks);
}

/// After bank register 6 is selected and `v` is written to it, the program
/// window that the register switches shows program memory from `v` banks of
/// 8 KiB in, counted round the memory: from offset `v * 0x2000 mod` the size of
/// program memory. The window is 0x8000 to 0x9FFF in program mode 0 and 0xC000
/// to 0xDFFF in program mode 1. This holds of a program memory of whole banks.
pub proof fn lemma_prg_bank_switch(
    m: Mapper4State,
    select: Data,
    v: Data,
    addr: Addr,
    rom: Seq<Data>,
    sram: Seq<Data>,
)
    requires
        m.registers.len() == 8,
        select % 8 == 6,
        m.prg_len > 0,
        m.prg_len % 0x2000 == 0,
        rom.len() == m.prg_len,
        if (select / 0x40) % 2 == 1 {
            0xC000 <= addr < 0xE000
        } else {
            0x8000 <= addr < 0xA000
        },
    ensures
        ({
            let switched = m.after_register_write(0x8000, select).after_register_write(0x8001, v);
            let offset = (v * 0x2000) % (m.prg_len as int) + addr % 0x2000;
            &&& switched.prg_index(addr) == offset
            &&& offset < rom.len()
            &&& switched.read_result(addr, rom, sram) == prg_read_result(rom, offset, addr)
        }),
{
    let banks = m.prg_len / 0x2000;
    lemma_fundamental_div_mod(m.prg_len as int, 0x2000);
    assert(m.prg_len == banks * 0x2000);
    lemma_bank_offset_wraps(v, banks, 0x2000);
    let switched = m.after_register_write(0x8000, select).after_register_write(0x8001, v);
    assert(switched.registers[6] == v);
    assert(switched.prg_len == m.prg_len);
    let whole = (v * 0x2000) % (m.prg_len as int);
    assert(whole == (v as int % (banks as int)) * 0x2000);
    assert(whole + 0x2000 <= m.prg_len) by (nonlinear_arith)
        requires
            whole == (v as int % (banks as int)) * 0x2000,
            0 <= v as int % (banks as int) < banks,
            m.prg_len == banks * 0x2000,
    ;
}

/// The scanline counter, tick by tick: found at zero it is set to the reload
/// value and raises nothing; otherwise it goes one down, and it raises an
/// interrupt exactly when that brings it to zero while interrupts are enabled.
pub proof fn lemma_scan_line_counter(m: Mapper4State)
    ensures
        m.counter == 0 ==> m.after_scan_line().counter == m.reload && !m.scan_line_interrupts(),
        m.counter > 0 ==> m.after_scan_line().counter == m.counter - 1,
        m.scan_line_interrupts() <==> m.counter > 0 && m.after_scan_line().counter == 0
            && m.irq_enabled,
{
}

} // verus!

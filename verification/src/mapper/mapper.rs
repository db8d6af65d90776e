use crate::fault::Fault;
use crate::ram::Ram;
use crate::rom::Rom;
use crate::types::{Addr, Data};
use vstd::prelude::*;

verus! {

/// What a read of save memory at bus address `addr`, from 0x6000 to 0x7FFF,
/// returns: the byte at `addr - 0x6000`, or a fault where save memory is
/// shorter than that.
pub open spec fn sram_read_result(sram: Seq<Data>, addr: Addr) -> Result<Data, Fault> {
    if addr - 0x6000 < sram.len() {
        Ok(sram[addr - 0x6000])
    } else {
        Err(Fault::MapperFault(addr))
    }
}

/// Save memory after a write of `data` at bus address `addr`, from 0x6000 to
/// 0x7FFF.
pub open spec fn sram_after_write(sram: Seq<Data>, addr: Addr, data: Data) -> Seq<Data> {
    if addr - 0x6000 < sram.len() {
        sram.update(addr - 0x6000, data)
    } else {
        sram
    }
}

/// What such a write returns.
pub open spec fn sram_write_result(sram: Seq<Data>, addr: Addr) -> Result<(), Fault> {
    if addr - 0x6000 < sram.len() {
        Ok(())
    } else {
        Err(Fault::MapperFault(addr))
    }
}

/// What a read of program memory at offset `index` returns for the processor's
/// read of `addr`: the byte there, or a fault where program memory is shorter.
pub open spec fn prg_read_result(rom: Seq<Data>, index: int, addr: Addr) -> Result<Data, Fault> {
    if 0 <= index < rom.len() {
        Ok(rom[index])
    } else {
        Err(Fault::MapperFault(addr))
    }
}

/// Reads save memory at bus address `addr`.
pub fn read_sram(sram: &Ram, addr: Addr) -> (r: Result<Data, Fault>)
    requires
        0x6000 <= addr < 0x8000,
    ensures
        r == sram_read_result(sram@, addr),
{
    let index = addr - 0x6000;
    if (index as usize) < sram.size() {
        Ok(sram.read(index))
    } else {
        Err(Fault::MapperFault(addr))
    }
}

/// Writes save memory at bus address `addr`.
pub fn write_sram(sram: &mut Ram, addr: Addr, data: Data) -> (r: Result<(), Fault>)
    requires
        0x6000 <= addr < 0x8000,
    ensures
        r == sram_write_result(old(sram)@, addr),
        final(sram)@ == sram_after_write(old(sram)@, addr, data),
{
    let index = addr - 0x6000;
    if (index as usize) < sram.size() {
        sram.write(index, data);
        Ok(())
    } else {
        Err(Fault::MapperFault(addr))
    }
}

/// Reads program memory at offset `index` for the processor's read of `addr`.
pub fn read_prg(prg_rom: &Rom, index: usize, addr: Addr) -> (r: Result<Data, Fault>)
    ensures
        r == prg_read_result(prg_rom@, index as int, addr),
{
    if index < prg_rom.size() {
        Ok(prg_rom.read(index))
    } else {
        Err(Fault::MapperFault(addr))
    }
}

} // verus!

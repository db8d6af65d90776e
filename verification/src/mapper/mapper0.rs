use super::mapper::{
    prg_read_result, read_prg, read_sram, sram_after_write, sram_read_result, sram_write_result,
    write_sram,
};
use crate::fault::Fault;
use crate::ram::Ram;
use crate::rom::Rom;
use crate::types::{index16, Addr, Data};
use vstd::prelude::*;

verus! {

/// A cartridge without bank switching. 16 KiB of program memory appear at
/// 0x8000 and again at 0xC000; 32 KiB fill both halves.
#[derive(Debug, Clone, Copy)]
pub struct Mapper0 {}

impl Mapper0 {
    /// The offset in program memory of bus address `addr`, from 0x8000 up.
    pub open spec fn prg_index(addr: Addr, rom_len: nat) -> int {
        if addr >= 0xC000 && rom_len <= 0x4000 {
            addr - 0xC000
        } else {
            addr - 0x8000
        }
    }

    /// What a read of `addr` returns.
    pub open spec fn read_result(addr: Addr, rom: Seq<Data>, sram: Seq<Data>) -> Result<
        Data,
        Fault,
    > {
        if addr < 0x6000 {
            Err(Fault::MapperFault(addr))
        } else if addr < 0x8000 {
            sram_read_result(sram, addr)
        } else {
            prg_read_result(rom, Self::prg_index(addr, rom.len()), addr)
        }
    }

    pub fn new() -> (m: Self)
        ensures
            m == (Mapper0 {  }),
    {
        Mapper0 {  }
    }

    /// The offset in pattern memory of pattern address `addr`: the same.
    pub fn get_cram_index(&self, addr: Addr) -> (r: usize)
        ensures
            r == addr,
    {
        index16(addr)
    }

    /// Serves a read of the processor at `addr`.
    pub fn read(&self, addr: Addr, prg_rom: &Rom, sram: &Ram) -> (r: Result<Data, Fault>)
        ensures
            r == Self::read_result(addr, prg_rom@, sram@),
    {
        if addr < 0x6000 {
            Err(Fault::MapperFault(addr))
        } else if addr < 0x8000 {
            read_sram(sram, addr)
        } else if addr >= 0xC000 && prg_rom.size() <= 0x4000 {
            read_prg(prg_rom, index16(addr - 0xC000), addr)
        } else {
            read_prg(prg_rom, index16(addr - 0x8000), addr)
        }
    }

    /// Serves a write of the processor at `addr`: save memory takes it, program
    /// memory ignores it.
    pub fn write(&mut self, addr: Addr, data: Data, sram: &mut Ram) -> (r: Result<(), Fault>)
        ensures
            r == (if addr < 0x6000 {
                Err(Fault::MapperFault(addr))
            } else if addr < 0x8000 {
                sram_write_result(old(sram)@, addr)
            } else {
                Ok(())
            }),
            final(sram)@ == (if 0x6000 <= addr < 0x8000 {
                sram_after_write(old(sram)@, addr, data)
            } else {
                old(sram)@
            }),
    {
        if addr < 0x6000 {
            Err(Fault::MapperFault(addr))
        } else if addr < 0x8000 {
            write_sram(sram, addr, data)
        } else {
            Ok(())
        }
    }
}

} // verus!

use super::mapper::{
    prg_read_result, read_prg, read_sram, sram_after_write, sram_read_result, sram_write_result,
    write_sram,
};
use crate::fault::Fault;
use crate::ram::Ram;
use crate::rom::Rom;
use crate::types::{index16, index8, Addr, Data};
use vstd::prelude::*;

verus! {

/// A cartridge that switches its 8 KiB of pattern memory between four banks.
#[allow(non_snake_case)]
#[derive(Debug, Clone, Copy)]
pub struct Mapper3 {
    /// The pattern bank in use, 0 to 3.
    pub chrBank: u8,
    /// The 16 KiB program bank at 0x8000.
    pub prgBank1: u16,
    /// The 16 KiB program bank at 0xC000.
    pub prgBank2: u16,
}

impl Mapper3 {
    /// The offset in program memory of bus address `addr`, from 0x8000 up.
    pub open spec fn prg_index(self, addr: Addr) -> int {
        if addr >= 0xC000 {
            self.prgBank2 * 0x4000 + (addr - 0xC000)
        } else {
            self.prgBank1 * 0x4000 + (addr - 0x8000)
        }
    }

    /// What a read of `addr` returns.
    pub open spec fn read_result(self, addr: Addr, rom: Seq<Data>, sram: Seq<Data>) -> Result<
        Data,
        Fault,
    > {
        if addr < 0x6000 {
            Err(Fault::MapperFault(addr))
        } else if addr < 0x8000 {
            sram_read_result(sram, addr)
        } else {
            prg_read_result(rom, self.prg_index(addr), addr)
        }
    }

    /// The mapper after a write of `data` at `addr`: a write from 0x8000 up
    /// selects pattern bank `data & 3`.
    pub open spec fn after_write(self, addr: Addr, data: Data) -> Mapper3 {
        if addr >= 0x8000 {
            Mapper3 { chrBank: data & 0x3, ..self }
        } else {
            self
        }
    }

    /// A mapper for program memory of `rpg_rom_len` bytes: the first 16 KiB bank
    /// at 0x8000, the last one at 0xC000.
    pub fn new(rpg_rom_len: u16) -> (m: Self)
        ensures
            m.chrBank == 0,
            m.prgBank1 == 0,
            m.prgBank2 == (if rpg_rom_len >= 0x4000 {
                rpg_rom_len / 0x4000 - 1
            } else {
                0
            }),
    {
        Mapper3 {
            chrBank: 0,
            prgBank1: 0,
            prgBank2: if rpg_rom_len >= 0x4000 {
                (rpg_rom_len / 0x4000) - 1
            } else {
                0
            },
        }
    }

    /// The offset in pattern memory of pattern address `addr`.
    pub fn get_cram_index(&self, addr: Addr) -> (r: usize)
        ensures
            r == self.chrBank * 0x2000 + addr,
    {
        index8(self.chrBank) * 0x2000 + index16(addr)
    }

    /// Serves a read of the processor at `addr`.
    pub fn read(&self, addr: Addr, prg_rom: &Rom, sram: &Ram) -> (r: Result<Data, Fault>)
        ensures
            r == self.read_result(addr, prg_rom@, sram@),
    {
        if addr < 0x6000 {
            Err(Fault::MapperFault(addr))
        } else if addr < 0x8000 {
            read_sram(sram, addr)
        } else if addr >= 0xC000 {
            read_prg(prg_rom, index16(self.prgBank2) * 0x4000 + index16(addr - 0xC000), addr)
        } else {
            read_prg(prg_rom, index16(self.prgBank1) * 0x4000 + index16(addr - 0x8000), addr)
        }
    }

    /// Serves a write of the processor at `addr`.
    pub fn write(&mut self, addr: Addr, data: Data, sram: &mut Ram) -> (r: Result<(), Fault>)
        ensures
            *final(self) == old(self).after_write(addr, data),
            r == (if addr < 0x6000 {
                Err(Fault::MapperFault(addr))
            } else if addr < 0x8000 {
                sram_write_result(old(sram)@, addr)
            } else {
                Ok(())
            }),
            final(sram)@ == (if 0x6000 <= addr < 0x8000 {
                sram_after_write(old(sram)@, addr, data)
            } else {
                old(sram)@
            }),
    {
        if addr < 0x6000 {
            Err(Fault::MapperFault(addr))
        } else if addr < 0x8000 {
            write_sram(sram, addr, data)
        } else {
            self.chrBank = data & 0x3;
            Ok(())
        }
    }
}

} // verus!

use self::mapper::{sram_after_write, sram_write_result};
use self::mapper0::Mapper0;
use self::mapper3::Mapper3;
use self::mapper4::{mirror_after_write, scan_line_ticks, Mapper4, Mapper4State};
use crate::cassette_parser::Cassette;
use crate::cpu_register::{raise_irq, CpuRegister, Register};
use crate::fault::Fault;
use crate::ppu::{Ppu, PpuConfig};
use crate::ram::Ram;
use crate::rom::Rom;
use crate::types::{Addr, Data};
use vstd::prelude::*;

pub mod laws;
pub mod mapper;
pub mod mapper0;
pub mod mapper3;
pub mod mapper4;

verus! {

/// The logic on the cartridge that places its memories in the address spaces
/// of the processor and of the picture unit.
#[derive(Debug)]
pub enum Mapper {
    Nrom(Mapper0),
    Cnrom(Mapper3),
    Mmc3(Mapper4),
}

/// What a mapper holds.
pub ghost enum MapperState {
    Nrom,
    Cnrom(Mapper3),
    Mmc3(Mapper4State),
}

impl MapperState {
    /// The offset in pattern memory of pattern address `addr`.
    pub open spec fn cram_index(self, addr: Addr) -> int {
        match self {
            MapperState::Nrom => addr as int,
            MapperState::Cnrom(m) => m.chrBank * 0x2000 + addr,
            MapperState::Mmc3(m) => m.cram_index(addr) as int,
        }
    }

    /// What a read of the processor at `addr` returns.
    pub open spec fn read_result(self, addr: Addr, rom: Seq<Data>, sram: Seq<Data>) -> Result<
        Data,
        Fault,
    > {
        match self {
            MapperState::Nrom => Mapper0::read_result(addr, rom, sram),
            MapperState::Cnrom(m) => m.read_result(addr, rom, sram),
            MapperState::Mmc3(m) => m.read_result(addr, rom, sram),
        }
    }

    /// The mapper after a write of the processor at `addr`.
    pub open spec fn after_write(self, addr: Addr, data: Data) -> MapperState {
        match self {
            MapperState::Nrom => self,
            MapperState::Cnrom(m) => MapperState::Cnrom(m.after_write(addr, data)),
            MapperState::Mmc3(m) => if addr >= 0x8000 {
                MapperState::Mmc3(m.after_register_write(addr, data))
            } else {
                self
            },
        }
    }

    /// The mirroring after a write of the processor at `addr`.
    pub open spec fn mirror_after_write(self, addr: Addr, data: Data, mirror: bool) -> bool {
        match self {
            MapperState::Mmc3(m) => mirror_after_write(addr, data, mirror),
            _ => mirror,
        }
    }

    /// The mapper after one dot of the picture unit at the given position.
    pub open spec fn after_step(self, cycle: usize, line: usize, rendering: bool) -> MapperState {
        match self {
            MapperState::Mmc3(m) => if scan_line_ticks(cycle, line, rendering) {
                MapperState::Mmc3(m.after_scan_line())
            } else {
                self
            },
            _ => self,
        }
    }

    /// Whether that dot makes the mapper raise an interrupt.
    pub open spec fn step_interrupts(self, cycle: usize, line: usize, rendering: bool) -> bool {
        match self {
            MapperState::Mmc3(m) => scan_line_ticks(cycle, line, rendering)
                && m.scan_line_interrupts(),
            _ => false,
        }
    }
}

/// What a write of the processor at `addr` returns, whatever the mapper: a
/// fault below 0x6000, the answer of save memory below 0x8000.
pub open spec fn write_result(sram: Seq<Data>, addr: Addr) -> Result<(), Fault> {
    if addr < 0x6000 {
        Err(Fault::MapperFault(addr))
    } else if addr < 0x8000 {
        sram_write_result(sram, addr)
    } else {
        Ok(())
    }
}

/// Save memory after a write of the processor at `addr`, whatever the mapper.
pub open spec fn sram_after(sram: Seq<Data>, addr: Addr, data: Data) -> Seq<Data> {
    if 0x6000 <= addr < 0x8000 {
        sram_after_write(sram, addr, data)
    } else {
        sram
    }
}

/// The mapper that a cartridge of the given mapper number starts with. Numbers
/// other than 3 and 4 get the mapper without bank switching.
pub open spec fn initial_mapper(number: Data, prg_len: nat, chr_len: nat) -> MapperState {
    if number == 3 {
        MapperState::Cnrom(
            Mapper3 {
                chrBank: 0,
                prgBank1: 0,
                prgBank2: if prg_len >= 0x10000 {
                    2
                } else if prg_len >= 0x4000 {
                    (prg_len / 0x4000 - 1) as u16
                } else {
                    0
                },
            },
        )
    } else if number == 4 {
        MapperState::Mmc3(
            Mapper4State {
                register: 0,
                registers: Seq::new(8, |i: int| 0u8),
                prg_mode: false,
                chr_mode: false,
                reload: 0,
                counter: 0,
                irq_enabled: false,
                prg_len: prg_len,
                chr_len: chr_len,
            },
        )
    } else {
        MapperState::Nrom
    }
}

impl View for Mapper {
    type V = MapperState;

    open spec fn view(&self) -> MapperState {
        match self {
            Mapper::Nrom(_) => MapperState::Nrom,
            Mapper::Cnrom(m) => MapperState::Cnrom(*m),
            Mapper::Mmc3(m) => MapperState::Mmc3(m@),
        }
    }
}

impl Mapper {
    pub open spec fn wf(&self) -> bool {
        match self {
            Mapper::Mmc3(m) => m.wf(),
            _ => true,
        }
    }

    /// The mapper of a cartridge.
    pub fn new(cassette: &Cassette) -> (m: Mapper)
        ensures
            m.wf(),
            m@ == initial_mapper(
                cassette.mapper,
                cassette.program_rom@.len(),
                cassette.character_ram@.len(),
            ),
    {
        match cassette.mapper {
            3 => {
                let len = cassette.program_rom.len();
                Mapper::Cnrom(
                    Mapper3::new(
                        if len >= 0x10000 {
                            0xFFFF
                        } else {
                            len as u16
                        },
                    ),
                )
            },
            4 => Mapper::Mmc3(
                Mapper4::new(cassette.program_rom.len(), cassette.character_ram.len()),
            ),
            _ => Mapper::Nrom(Mapper0::new()),
        }
    }

    /// The offset in pattern memory of pattern address `addr`.
    pub fn get_cram_index(&self, addr: Addr) -> (r: usize)
        requires
            self.wf(),
            addr < 0x2000,
        ensures
            r == self@.cram_index(addr),
    {
        match self {
            Mapper::Nrom(m) => m.get_cram_index(addr),
            Mapper::Cnrom(m) => m.get_cram_index(addr),
            Mapper::Mmc3(m) => m.get_cram_index(addr),
        }
    }

    /// Serves a read of the processor at `addr`.
    pub fn read(&self, addr: Addr, prg_rom: &Rom, sram: &Ram) -> (r: Result<Data, Fault>)
        requires
            self.wf(),
        ensures
            r == self@.read_result(addr, prg_rom@, sram@),
    {
        match self {
            Mapper::Nrom(m) => m.read(addr, prg_rom, sram),
            Mapper::Cnrom(m) => m.read(addr, prg_rom, sram),
            Mapper::Mmc3(m) => m.read(addr, prg_rom, sram),
        }
    }

    /// Serves a write of the processor at `addr`.
    pub fn write(&mut self, addr: Addr, data: Data, sram: &mut Ram, ppu_cfg: &mut PpuConfig) -> (r:
        Result<(), Fault>)
        requires
            old(self).wf(),
        ensures
            final(self).wf(),
            final(self)@ == old(self)@.after_write(addr, data),
            final(ppu_cfg).is_horizontal_mirror == old(self)@.mirror_after_write(
                addr,
                data,
                old(ppu_cfg).is_horizontal_mirror,
            ),
            r == write_result(old(sram)@, addr),
            final(sram)@ == sram_after(old(sram)@, addr, data),
    {
        match self {
            Mapper::Nrom(m) => m.write(addr, data, sram),
            Mapper::Cnrom(m) => m.write(addr, data, sram),
            Mapper::Mmc3(m) => m.write(addr, data, sram, ppu_cfg),
        }
    }

    /// Lets the mapper see one dot of the picture unit.
    pub fn step(&mut self, ppu: &Ppu, cpu_register: &mut Register)
        requires
            old(self).wf(),
        ensures
            final(self).wf(),
            final(self)@ == old(self)@.after_step(ppu.cycle, ppu.line, ppu.rendering()),
            final(cpu_register)@ == (if old(self)@.step_interrupts(
                ppu.cycle,
                ppu.line,
                ppu.rendering(),
            ) {
                raise_irq(old(cpu_register)@)
            } else {
                old(cpu_register)@
            }),
    {
        match self {
            Mapper::Mmc3(m) => m.step(ppu, cpu_register),
            _ => {},
        }
    }
}

} // verus!

use super::mapper::{
    prg_read_result, read_prg, read_sram, sram_after_write, sram_read_result, sram_write_result,
    write_sram,
};
use crate::cpu_register::{raise_irq, CpuRegister, Register};
use crate::fault::Fault;
use crate::ppu::{Ppu, PpuConfig};
use crate::ram::Ram;
use crate::rom::Rom;
use crate::types::{index16, index8, Addr, Data};
use vstd::prelude::*;

verus! {

/// A cartridge with eight bank registers, four 8 KiB program windows, eight
/// 1 KiB pattern windows and a scanline counter that can interrupt.
#[allow(non_snake_case)]
#[derive(Debug)]
pub struct Mapper4 {
    /// The bank register that the next bank-data write fills, 0 to 7.
    pub register: Data,
    /// The eight bank registers.
    pub registers: Vec<Data>,
    pub prg_mode: bool,
    pub chr_mode: bool,
    /// Where each of the four program windows starts in program memory.
    pub prg_offsets: Vec<usize>,
    /// Where each of the eight pattern windows starts in pattern memory.
    pub chr_offsets: Vec<usize>,
    pub reload: Data,
    pub counter: Data,
    pub irq_enabled: bool,
    pub PRG_ROM_LEN: usize,
    pub CHR_RAM_LEN: usize,
}

/// What the mapper holds. The offsets of the windows are not part of it: they
/// follow from the rest.
pub ghost struct Mapper4State {
    /// The bank register that the next bank-data write fills, 0 to 7.
    pub register: Data,
    /// The eight bank registers.
    pub registers: Seq<Data>,
    pub prg_mode: bool,
    pub chr_mode: bool,
    /// What the scanline counter is set to when it is found at zero.
    pub reload: Data,
    pub counter: Data,
    pub irq_enabled: bool,
    pub prg_len: nat,
    pub chr_len: nat,
}

/// The offset in a memory of `len` bytes of bank `index`, in banks of `unit`
/// bytes. An index from zero up is the number of a bank, counted round the
/// banks: with N banks, index V stands for bank V mod N. A negative index
/// counts from the end: -1 is the last bank.
pub open spec fn bank_offset(index: int, len: nat, unit: nat) -> nat {
    let banks = len / unit;
    if banks == 0 {
        0
    } else if index >= 0 {
        ((index % (banks as int)) * unit) as nat
    } else {
        let r = (-index) % (banks as int);
        if r == 0 {
            0
        } else {
            (len - r * unit) as nat
        }
    }
}

/// Which part of the mapper a write at `addr`, from 0x8000 up, reaches.
pub enum Mapper4Port {
    BankSelect,
    BankData,
    Mirror,
    Protect,
    IrqLatch,
    IrqReload,
    IrqDisable,
    IrqEnable,
}

/// The port at bus address `addr`, from 0x8000 up: each quarter of the range
/// has one port at its even and one at its odd addresses.
pub open spec fn port_at(addr: Addr) -> Mapper4Port {
    if addr < 0xA000 {
        if addr % 2 == 0 {
            Mapper4Port::BankSelect
        } else {
            Mapper4Port::BankData
        }
    } else if addr < 0xC000 {
        if addr % 2 == 0 {
            Mapper4Port::Mirror
        } else {
            Mapper4Port::Protect
        }
    } else if addr < 0xE000 {
        if addr % 2 == 0 {
            Mapper4Port::IrqLatch
        } else {
            Mapper4Port::IrqReload
        }
    } else {
        if addr % 2 == 0 {
            Mapper4Port::IrqDisable
        } else {
            Mapper4Port::IrqEnable
        }
    }
}

impl Mapper4State {
    /// The bank register, or the fixed bank, that program window `slot` shows.
    /// In program mode 0 the first window is switched by register 6 and the
    /// third shows the second-to-last bank; in mode 1 the two change places.
    pub open spec fn prg_bank(self, slot: int) -> int {
        if slot == 0 {
            if self.prg_mode {
                -2
            } else {
                self.registers[6] as int
            }
        } else if slot == 1 {
            self.registers[7] as int
        } else if slot == 2 {
            if self.prg_mode {
                self.registers[6] as int
            } else {
                -2
            }
        } else {
            -1
        }
    }

    /// The offset in program memory at which program window `slot` starts.
    pub open spec fn prg_offset(self, slot: int) -> nat {
        bank_offset(self.prg_bank(slot), self.prg_len, 0x2000)
    }

    /// The bank that pattern window `bank` shows. Registers 0 and 1 each switch
    /// a pair of windows, registers 2 to 5 one window each; the pattern mode
    /// says which half of pattern space the pairs lie in.
    pub open spec fn chr_bank(self, bank: int) -> int {
        let b = if self.chr_mode {
            (bank + 4) % 8
        } else {
            bank
        };
        if b == 0 {
            (self.registers[0] & 0xFE) as int
        } else if b == 1 {
            (self.registers[0] | 0x01) as int
        } else if b == 2 {
            (self.registers[1] & 0xFE) as int
        } else if b == 3 {
            (self.registers[1] | 0x01) as int
        } else {
            self.registers[b - 2] as int
        }
    }

    /// The offset in pattern memory at which pattern window `bank` starts.
    pub open spec fn chr_offset(self, bank: int) -> nat {
        bank_offset(self.chr_bank(bank), self.chr_len, 0x0400)
    }

    /// The offset in pattern memory of pattern address `addr`.
    pub open spec fn cram_index(self, addr: Addr) -> nat {
        self.chr_offset(addr as int / 0x0400) + (addr % 0x0400) as nat
    }

    /// The offset in program memory of bus address `addr`, from 0x8000 up.
    pub open spec fn prg_index(self, addr: Addr) -> nat {
        self.prg_offset((addr - 0x8000) / 0x2000) + ((addr - 0x8000) % 0x2000) as nat
    }

    /// What a read of `addr` returns.
    pub open spec fn read_result(self, addr: Addr, rom: Seq<Data>, sram: Seq<Data>) -> Result<
        Data,
        Fault,
    > {
        if addr < 0x6000 {
            Err(Fault::MapperFault(addr))
        } else if addr < 0x8000 {
            sram_read_result(sram, addr)
        } else {
            prg_read_result(rom, self.prg_index(addr) as int, addr)
        }
    }

    /// The mapper after a write of `data` to the port at `addr`, from 0x8000
    /// up.
    pub open spec fn after_register_write(self, addr: Addr, data: Data) -> Mapper4State {
        match port_at(addr) {
            Mapper4Port::BankSelect => Mapper4State {
                prg_mode: (data / 0x40) % 2 == 1,
                chr_mode: data >= 0x80,
                register: data % 8,
                ..self
            },
            Mapper4Port::BankData => Mapper4State {
                registers: self.registers.update(self.register as int, data),
                ..self
            },
            Mapper4Port::Mirror => self,
            Mapper4Port::Protect => self,
            Mapper4Port::IrqLatch => Mapper4State { reload: data, ..self },
            Mapper4Port::IrqReload => Mapper4State { counter: 0, ..self },
            Mapper4Port::IrqDisable => Mapper4State { irq_enabled: false, ..self },
            Mapper4Port::IrqEnable => Mapper4State { irq_enabled: true, ..self },
        }
    }

    /// The mapper after the tick of one visible scanline: a counter at zero is
    /// set to `reload`, any other goes one down.
    pub open spec fn after_scan_line(self) -> Mapper4State {
        if self.counter == 0 {
            Mapper4State { counter: self.reload, ..self }
        } else {
            Mapper4State { counter: (self.counter - 1) as Data, ..self }
        }
    }

    /// Whether that tick raises an interrupt: the counter goes from one to zero
    /// while interrupts are enabled.
    pub open spec fn scan_line_interrupts(self) -> bool {
        self.counter == 1 && self.irq_enabled
    }
}

/// The mirroring after a write of `data` at `addr` to a mapper of this kind:
/// the mirror port takes it from bit 0.
pub open spec fn mirror_after_write(addr: Addr, data: Data, mirror: bool) -> bool {
    if addr >= 0x8000 && port_at(addr) == Mapper4Port::Mirror {
        data % 2 == 1
    } else {
        mirror
    }
}

/// Whether the scanline counter ticks at this position of the picture unit:
/// once per visible line and on the pre-render line, at dot 280, while
/// rendering is on.
pub open spec fn scan_line_ticks(cycle: usize, line: usize, rendering: bool) -> bool {
    cycle == 280 && !(239 < line < 261) && rendering
}

impl View for Mapper4 {
    type V = Mapper4State;

    open spec fn view(&self) -> Mapper4State {
        Mapper4State {
            register: self.register,
            registers: self.registers@,
            prg_mode: self.prg_mode,
            chr_mode: self.chr_mode,
            reload: self.reload,
            counter: self.counter,
            irq_enabled: self.irq_enabled,
            prg_len: self.PRG_ROM_LEN as nat,
            chr_len: self.CHR_RAM_LEN as nat,
        }
    }
}

impl Mapper4 {
    /// The registers are eight and the offset tables have their lengths.
    pub open spec fn shaped(&self) -> bool {
        &&& self.register < 8
        &&& self.registers@.len() == 8
        &&& self.prg_offsets@.len() == 4
        &&& self.chr_offsets@.len() == 8
    }

    /// The mapper is shaped and its offset tables are up to date.
    pub open spec fn wf(&self) -> bool {
        &&& self.shaped()
        &&& self.prg_offsets@[0] == self@.prg_offset(0)
        &&& self.prg_offsets@[1] == self@.prg_offset(1)
        &&& self.prg_offsets@[2] == self@.prg_offset(2)
        &&& self.prg_offsets@[3] == self@.prg_offset(3)
        &&& self.chr_offsets@[0] == self@.chr_offset(0)
        &&& self.chr_offsets@[1] == self@.chr_offset(1)
        &&& self.chr_offsets@[2] == self@.chr_offset(2)
        &&& self.chr_offsets@[3] == self@.chr_offset(3)
        &&& self.chr_offsets@[4] == self@.chr_offset(4)
        &&& self.chr_offsets@[5] == self@.chr_offset(5)
        &&& self.chr_offsets@[6] == self@.chr_offset(6)
        &&& self.chr_offsets@[7] == self@.chr_offset(7)
    }

    /// A mapper for program memory of `prg_rom_len` and pattern memory of
    /// `chr_ram_len` bytes, all registers zero.
    pub fn new(prg_rom_len: usize, chr_ram_len: usize) -> (m: Self)
        ensures
            m.wf(),
            m@ == (Mapper4State {
                register: 0,
                registers: Seq::new(8, |i: int| 0u8),
                prg_mode: false,
                chr_mode: false,
                reload: 0,
                counter: 0,
                irq_enabled: false,
                prg_len: prg_rom_len as nat,
                chr_len: chr_ram_len as nat,
            }),
    {
        let mut m = Mapper4 {
            register: 0,
            registers: vec![0u8; 8],
            prg_mode: false,
            chr_mode: false,
            prg_offsets: vec![0usize; 0x4],
            chr_offsets: vec![0usize; 0x8],
            reload: 0,
            counter: 0,
            irq_enabled: false,
            PRG_ROM_LEN: prg_rom_len,
            CHR_RAM_LEN: chr_ram_len,
        };
        assert(m.registers@ =~= Seq::new(8, |i: int| 0u8));
        m.update_offsets();
        m
    }

    /// Serves a write to the port at `addr`.
    pub fn write_register(&mut self, addr: Addr, data: Data, ppu_cfg: &mut PpuConfig)
        requires
            old(self).wf(),
            addr >= 0x8000,
        ensures
            final(self).wf(),
            final(self)@ == old(self)@.after_register_write(addr, data),
            final(ppu_cfg).is_horizontal_mirror == mirror_after_write(
                addr,
                data,
                old(ppu_cfg).is_horizontal_mirror,
            ),
    {
        if addr < 0xA000 {
            if addr % 2 == 0 {
                self.write_bank_select(data);
            } else {
                self.write_bank_data(data);
            }
        } else if addr < 0xC000 {
            if addr % 2 == 0 {
                self.write_mirror(data, ppu_cfg);
            } else {
                self.write_protect();
            }
        } else if addr < 0xE000 {
            if addr % 2 == 0 {
                self.write_irq_latch(data);
            } else {
                self.write_irq_reload();
            }
        } else {
            if addr % 2 == 0 {
                self.write_irq_disable();
            } else {
                self.write_irq_enable();
            }
        }
    }

    /// Takes the two modes and the number of the register to fill next.
    pub fn write_bank_select(&mut self, data: Data)
        requires
            old(self).wf(),
        ensures
            final(self).wf(),
            final(self)@ == (Mapper4State {
                prg_mode: (data / 0x40) % 2 == 1,
                chr_mode: data >= 0x80,
                register: data % 8,
                ..old(self)@
            }),
    {
        self.prg_mode = (data / 0x40) % 2 == 1;
        self.chr_mode = data >= 0x80;
        self.register = data % 8;
        self.update_offsets();
    }

    /// Fills the selected bank register.
    pub fn write_bank_data(&mut self, data: Data)
        requires
            old(self).wf(),
        ensures
            final(self).wf(),
            final(self)@ == (Mapper4State {
                registers: old(self)@.registers.update(old(self)@.register as int, data),
                ..old(self)@
            }),
    {
        let index = index8(self.register);
        self.registers[index] = data;
        self.update_offsets();
    }

    /// Brings the offset tables up to date with the registers and modes.
    pub fn update_offsets(&mut self)
        requires
            old(self).shaped(),
        ensures
            final(self).wf(),
            final(self)@ == old(self)@,
    {
        let r0 = self.registers[0];
        let r1 = self.registers[1];
        let r2 = self.registers[2];
        let r3 = self.registers[3];
        let r4 = self.registers[4];
        let r5 = self.registers[5];
        let r6 = self.registers[6];
        let r7 = self.registers[7];
        let second_last = self.prg_bank_offset(-2);
        let last = self.prg_bank_offset(-1);
        let p6 = self.prg_bank_offset(r6 as i16);
        let p7 = self.prg_bank_offset(r7 as i16);
        if self.prg_mode {
            self.prg_offsets[0] = second_last;
            self.prg_offsets[1] = p7;
            self.prg_offsets[2] = p6;
            self.prg_offsets[3] = last;
        } else {
            self.prg_offsets[0] = p6;
            self.prg_offsets[1] = p7;
            self.prg_offsets[2] = second_last;
            self.prg_offsets[3] = last;
        }
        let c0 = self.chr_bank_offset((r0 & 0xFE) as i16);
        let c1 = self.chr_bank_offset((r0 | 0x01) as i16);
        let c2 = self.chr_bank_offset((r1 & 0xFE) as i16);
        let c3 = self.chr_bank_offset((r1 | 0x01) as i16);
        let c4 = self.chr_bank_offset(r2 as i16);
        let c5 = self.chr_bank_offset(r3 as i16);
        let c6 = self.chr_bank_offset(r4 as i16);
        let c7 = self.chr_bank_offset(r5 as i16);
        if self.chr_mode {
            self.chr_offsets[0] = c4;
            self.chr_offsets[1] = c5;
            self.chr_offsets[2] = c6;
            self.chr_offsets[3] = c7;
            self.chr_offsets[4] = c0;
            self.chr_offsets[5] = c1;
            self.chr_offsets[6] = c2;
            self.chr_offsets[7] = c3;
        } else {
            self.chr_offsets[0] = c0;
            self.chr_offsets[1] = c1;
            self.chr_offsets[2] = c2;
            self.chr_offsets[3] = c3;
            self.chr_offsets[4] = c4;
            self.chr_offsets[5] = c5;
            self.chr_offsets[6] = c6;
            self.chr_offsets[7] = c7;
        }
    }

    /// The offset in program memory of 8 KiB bank `index`.
    pub fn prg_bank_offset(&self, index: i16) -> (r: usize)
        ensures
            r == bank_offset(index as int, self@.prg_len, 0x2000),
    {
        offset_of(index, self.PRG_ROM_LEN, 0x2000)
    }

    /// The offset in pattern memory of 1 KiB bank `index`.
    pub fn chr_bank_offset(&self, index: i16) -> (r: usize)
        ensures
            r == bank_offset(index as int, self@.chr_len, 0x0400),
    {
        offset_of(index, self.CHR_RAM_LEN, 0x0400)
    }

    /// Takes the mirroring from bit 0 of `data`.
    pub fn write_mirror(&mut self, data: Data, ppu_cfg: &mut PpuConfig)
        ensures
            *final(self) == *old(self),
            final(ppu_cfg).is_horizontal_mirror == (data % 2 == 1),
    {
        ppu_cfg.is_horizontal_mirror = data % 2 == 1;
    }

    /// Save memory is never protected: nothing changes.
    pub fn write_protect(&self) {
    }

    pub fn write_irq_latch(&mut self, data: Data)
        requires
            old(self).wf(),
        ensures
            final(self).wf(),
            final(self)@ == (Mapper4State { reload: data, ..old(self)@ }),
    {
        self.reload = data;
    }

    pub fn write_irq_reload(&mut self)
        requires
            old(self).wf(),
        ensures
            final(self).wf(),
            final(self)@ == (Mapper4State { counter: 0, ..old(self)@ }),
    {
        self.counter = 0;
    }

    pub fn write_irq_disable(&mut self)
        requires
            old(self).wf(),
        ensures
            final(self).wf(),
            final(self)@ == (Mapper4State { irq_enabled: false, ..old(self)@ }),
    {
        self.irq_enabled = false;
    }

    pub fn write_irq_enable(&mut self)
        requires
            old(self).wf(),
        ensures
            final(self).wf(),
            final(self)@ == (Mapper4State { irq_enabled: true, ..old(self)@ }),
    {
        self.irq_enabled = true;
    }

    /// The tick of one visible scanline.
    pub fn handle_scan_line(&mut self, cpu_register: &mut Register)
        requires
            old(self).wf(),
        ensures
            final(self).wf(),
            final(self)@ == old(self)@.after_scan_line(),
            final(cpu_register)@ == (if old(self)@.scan_line_interrupts() {
                raise_irq(old(cpu_register)@)
            } else {
                old(cpu_register)@
            }),
    {
        if self.counter == 0 {
            self.counter = self.reload
        } else {
            self.counter = self.counter - 1;
            if self.counter == 0 && self.irq_enabled {
                cpu_register.set_interrupt_irq();
            }
        }
    }

    /// The offset in pattern memory of pattern address `addr`.
    pub fn get_cram_index(&self, addr: Addr) -> (r: usize)
        requires
            self.wf(),
            addr < 0x2000,
        ensures
            r == self@.cram_index(addr),
    {
        let bank = index16(addr / 0x0400);
        let offset = index16(addr % 0x0400);
        proof {
            lemma_bank_offset_bound(self@.chr_bank(bank as int), self@.chr_len, 0x0400);
        }
        self.chr_offsets[bank] + offset
    }

    /// Serves a read of the processor at `addr`.
    pub fn read(&self, addr: Addr, prg_rom: &Rom, sram: &Ram) -> (r: Result<Data, Fault>)
        requires
            self.wf(),
        ensures
            r == self@.read_result(addr, prg_rom@, sram@),
    {
        if addr < 0x6000 {
            Err(Fault::MapperFault(addr))
        } else if addr < 0x8000 {
            read_sram(sram, addr)
        } else {
            let address = addr - 0x8000;
            let bank = index16(address / 0x2000);
            let offset = index16(address % 0x2000);
            proof {
                lemma_bank_offset_bound(self@.prg_bank(bank as int), self@.prg_len, 0x2000);
            }
            read_prg(prg_rom, self.prg_offsets[bank] + offset, addr)
        }
    }

    /// Serves a write of the processor at `addr`.
    pub fn write(&mut self, addr: Addr, data: Data, sram: &mut Ram, ppu_cfg: &mut PpuConfig) -> (r:
        Result<(), Fault>)
        requires
            old(self).wf(),
        ensures
            final(self).wf(),
            final(self)@ == (if addr >= 0x8000 {
                old(self)@.after_register_write(addr, data)
            } else {
                old(self)@
            }),
            final(ppu_cfg).is_horizontal_mirror == mirror_after_write(
                addr,
                data,
                old(ppu_cfg).is_horizontal_mirror,
            ),
            r == (if addr < 0x6000 {
                Err(Fault::MapperFault(addr))
            } else if addr < 0x8000 {
                sram_write_result(old(sram)@, addr)
            } else {
                Ok(())
            }),
            final(sram)@ == (if 0x6000 <= addr < 0x8000 {
                sram_after_write(old(sram)@, addr, data)
            } else {
                old(sram)@
            }),
    {
        if addr < 0x6000 {
            Err(Fault::MapperFault(addr))
        } else if addr < 0x8000 {
            write_sram(sram, addr, data)
        } else {
            self.write_register(addr, data, ppu_cfg);
            Ok(())
        }
    }

    /// Ticks the scanline counter where the position of the picture unit calls
    /// for it.
    pub fn step(&mut self, ppu: &Ppu, cpu_register: &mut Register)
        requires
            old(self).wf(),
        ensures
            final(self).wf(),
            final(self)@ == (if scan_line_ticks(ppu.cycle, ppu.line, ppu.rendering()) {
                old(self)@.after_scan_line()
            } else {
                old(self)@
            }),
            final(cpu_register)@ == (if scan_line_ticks(ppu.cycle, ppu.line, ppu.rendering())
                && old(self)@.scan_line_interrupts() {
                raise_irq(old(cpu_register)@)
            } else {
                old(cpu_register)@
            }),
    {
        if ppu.cycle != 280 {
            return ;
        }
        if 239 < ppu.line && ppu.line < 261 {
            return ;
        }
        if !ppu.is_background_enabled() && !ppu.is_sprite_enabled() {
            return ;
        }
        self.handle_scan_line(cpu_register)
    }
}

/// A bank offset lies inside the memory, a whole unit before its end, or is
/// zero.
pub proof fn lemma_bank_offset_bound(index: int, len: nat, unit: nat)
    requires
        unit > 0,
    ensures
        bank_offset(index, len, unit) == 0 || bank_offset(index, len, unit) + unit <= len,
{
    let i = index;
    let banks = (len / unit) as int;
    if banks > 0 {
        assert(banks * unit <= len) by (nonlinear_arith)
            requires
                banks == (len / unit) as int,
                unit > 0,
        ;
        if i >= 0 {
            let r = i % banks;
            assert((r + 1) * unit <= banks * unit) by (nonlinear_arith)
                requires
                    0 <= r < banks,
                    unit > 0,
            ;
            assert((r + 1) * unit == r * unit + unit) by (nonlinear_arith);
        } else {
            let r = (-i) % banks;
            assert(r * unit <= banks * unit) by (nonlinear_arith)
                requires
                    0 <= r < banks,
                    unit > 0,
            ;
            if r > 0 {
                assert(r * unit >= unit) by (nonlinear_arith)
                    requires
                        r >= 1,
                        unit > 0,
                ;
            }
        }
    }
}

/// The offset of bank `index` in a memory of `len` bytes, in banks of `unit`
/// bytes.
fn offset_of(index: i16, len: usize, unit: usize) -> (r: usize)
    requires
        unit == 0x2000 || unit == 0x0400,
    ensures
        r == bank_offset(index as int, len as nat, unit as nat),
{
    let i: i32 = index as i32;
    let banks = len / unit;
    proof {
        lemma_bank_offset_bound(index as int, len as nat, unit as nat);
    }
    if banks == 0 {
        0
    } else if i >= 0 {
        ((i as usize) % banks) * unit
    } else {
        let r = ((-i) as usize) % banks;
        if r == 0 {
            0
        } else {
            len - r * unit
        }
    }
}

} // verus!

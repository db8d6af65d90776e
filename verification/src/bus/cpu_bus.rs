use crate::apu::{run_cycles, Apu, ApuRun, Sample};
use crate::cpu_register::{raise_irq, CpuRegister, Register};
use crate::dma::Dma;
use crate::fault::Fault;
use crate::keypad::Keypad;
use crate::mapper::{sram_after, write_result, Mapper, MapperState};
use crate::ppu::{Ppu, PpuConfig, PpuState};
use crate::ram::Ram;
use crate::rom::Rom;
use crate::types::{add16, make_word, widen, word, word_of, Addr, Data, Word};
use vstd::prelude::*;

verus! {

/// The byte that a read of `addr` returns in state `b`.
pub open spec fn read_value(b: BusState, addr: Addr) -> Data {
    b.read(addr).1
}

/// The word that a word read of `addr` returns in state `b`.
pub open spec fn word_value(b: BusState, addr: Addr) -> Word {
    b.read_word(addr).1
}

/// The state after `addr` has been read.
pub open spec fn after_read(b: BusState, addr: Addr) -> BusState {
    b.read(addr).0
}

/// The state after a word has been read at `addr`.
pub open spec fn after_read_word(b: BusState, addr: Addr) -> BusState {
    b.read_word(addr).0
}

/// The state after `data` has been written to `addr`.
pub open spec fn after_write(b: BusState, addr: Addr, data: Data) -> BusState {
    b.write(addr, data)
}

/// The bus as the processor sees it. Every access succeeds.
///
/// The contracts are those of the bus of the console: a bus for which `inv`
/// holds stands for a console in the state that `state` gives, and every access
/// acts on that state as the bus of the console does. A bus of another kind,
/// such as plain memory set up for an experiment, can implement the three
/// accesses alone: nothing is then promised of it.
pub trait CpuBus {
    /// The state of the console behind this bus. It means something only
    /// where `inv` holds.
    open spec fn state(&self) -> BusState {
        arbitrary()
    }

    /// Whether this bus is the bus of a console, in a state fit to serve an
    /// access. Every access keeps it. A bus that does not say so is none.
    open spec fn inv(&self) -> bool {
        false
    }

    /// Reads the byte at `addr`.
    fn read(&mut self, addr: Addr) -> (d: Data)
        requires
            old(self).inv(),
        ensures
            final(self).inv(),
            d == read_value(old(self).state(), addr),
            final(self).state() == after_read(old(self).state(), addr),
    ;

    /// Reads the word at `addr`, low byte first.
    fn read_word(&mut self, addr: Addr) -> (w: Word)
        requires
            old(self).inv(),
        ensures
            final(self).inv(),
            w == word_value(old(self).state(), addr),
            final(self).state() == after_read_word(old(self).state(), addr),
    ;

    /// Writes `data` to `addr`.
    fn write(&mut self, addr: Addr, data: Data)
        requires
            old(self).inv(),
        ensures
            final(self).inv(),
            final(self).state() == after_write(old(self).state(), addr, data),
    ;
}

/// The bus of the console, with all that hangs on it: work memory, the
/// picture unit, the sound unit, the sprite transfer port, the controller port
/// and the cartridge with its mapper.
#[derive(Debug)]
pub struct Bus {
    pub apu: Apu,
    pub program_rom: Rom,
    pub work_ram: Ram,
    pub sram: Ram,
    pub ppu: Ppu,
    pub dma: Dma,
    pub keypad: Keypad,
    pub mapper: Mapper,
    /// The first fault met so far.
    pub fault: Option<Fault>,
}

/// What the bus and all that hangs on it hold.
pub ghost struct BusState {
    pub apu: Apu,
    pub rom: Seq<Data>,
    pub ram: Seq<Data>,
    pub sram: Seq<Data>,
    pub ppu: PpuState,
    pub dma: Dma,
    pub keypad: Keypad,
    pub mapper: MapperState,
    /// The first fault met so far.
    pub fault: Option<Fault>,
}

impl BusState {
    /// The state with fault `f` recorded, unless one was recorded before.
    pub open spec fn with_fault(self, f: Fault) -> BusState {
        BusState {
            fault: if self.fault is Some {
                self.fault
            } else {
                Some(f)
            },
            ..self
        }
    }

    /// The state after a read of `addr`, and the byte read.
    ///
    /// | range         | what answers                                  |
    /// |---------------|-----------------------------------------------|
    /// | 0x0000-0x1FFF | work memory, 2 KiB repeated                   |
    /// | 0x2000-0x3FFF | the registers of the picture unit             |
    /// | 0x4016        | the controller port                           |
    /// | 0x4017        | nothing: reads 0                              |
    /// | 0x4000-0x4015 | the registers of the sound unit               |
    /// | 0x4018-0x401F | nothing: a fault                              |
    /// | 0x4020-0xFFFF | the cartridge, through its mapper             |
    ///
    /// A read that faults returns 0.
    #[verifier::opaque]
    pub open spec fn read(self, addr: Addr) -> (BusState, Data) {
        if addr < 0x2000 {
            (self, self.ram[(addr % 0x0800) as int])
        } else if addr < 0x4000 {
            (
                BusState { ppu: self.ppu.after_read((addr - 0x2000) as Addr), ..self },
                self.ppu.read_value((addr - 0x2000) as Addr),
            )
        } else if addr == 0x4016 {
            (BusState { keypad: self.keypad.after_read(), ..self }, self.keypad.read_value())
        } else if addr == 0x4017 {
            (self, 0)
        } else if addr < 0x4018 {
            (
                BusState { apu: self.apu.after_read((addr - 0x4000) as Addr), ..self },
                self.apu.read_value((addr - 0x4000) as Addr),
            )
        } else if addr < 0x4020 {
            (self.with_fault(Fault::IllegalBusAccess(addr)), 0)
        } else {
            match self.mapper.read_result(addr, self.rom, self.sram) {
                Ok(d) => (self, d),
                Err(f) => (self.with_fault(f), 0),
            }
        }
    }

    /// The state after a read of the word at `addr`, low byte first, and the
    /// word read.
    pub open spec fn read_word(self, addr: Addr) -> (BusState, Word) {
        let (s1, lower) = self.read(addr);
        let (s2, upper) = s1.read(word_of(addr + 1));
        (s2, make_word(lower, upper))
    }

    /// The state after `data` is written to `addr`. The ranges are those of a
    /// read, but 0x4014 is the sprite transfer port and 0x4017 the frame
    /// counter of the sound unit.
    #[verifier::opaque]
    pub open spec fn write(self, addr: Addr, data: Data) -> BusState {
        if addr < 0x2000 {
            BusState { ram: self.ram.update((addr % 0x0800) as int, data), ..self }
        } else if addr < 0x4000 {
            BusState { ppu: self.ppu.after_write((addr - 0x2000) as Addr, data), ..self }
        } else if addr == 0x4014 {
            BusState { dma: Dma { start_addr_top: data, should_run: true }, ..self }
        } else if addr == 0x4016 {
            BusState { keypad: self.keypad.after_write(data), ..self }
        } else if addr < 0x4018 {
            BusState { apu: self.apu.after_write((addr - 0x4000) as Addr, data), ..self }
        } else if addr < 0x4020 {
            self.with_fault(Fault::IllegalBusAccess(addr))
        } else {
            let written = BusState {
                mapper: self.mapper.after_write(addr, data),
                sram: sram_after(self.sram, addr, data),
                ppu: PpuState {
                    config: PpuConfig {
                        is_horizontal_mirror: self.mapper.mirror_after_write(
                            addr,
                            data,
                            self.ppu.config.is_horizontal_mirror,
                        ),
                    },
                    ..self.ppu
                },
                ..self
            };
            match write_result(self.sram, addr) {
                Ok(_) => written,
                Err(f) => written.with_fault(f),
            }
        }
    }

    /// Whether the picture unit draws anything.
    pub open spec fn rendering(self) -> bool {
        self.ppu.background_enabled() || self.ppu.sprite_enabled()
    }

    /// The state one dot of the picture unit later: the picture unit moves,
    /// then the mapper sees where it stands.
    pub open spec fn after_dot(self) -> BusState {
        let ppu = self.ppu.after_dot(self.mapper);
        BusState {
            ppu,
            mapper: self.mapper.after_step(
                ppu.cycle,
                ppu.line,
                ppu.background_enabled() || ppu.sprite_enabled(),
            ),
            ..self
        }
    }

    /// Whether the mapper raises an interrupt at that dot.
    pub open spec fn dot_interrupts(self) -> bool {
        let ppu = self.ppu.after_dot(self.mapper);
        self.mapper.step_interrupts(
            ppu.cycle,
            ppu.line,
            ppu.background_enabled() || ppu.sprite_enabled(),
        )
    }

    /// The state once the first `n` bytes of the pending sprite transfer are
    /// copied. Byte `i` is read over the bus at `page * 256 + i`.
    pub open spec fn transferred(self, n: nat) -> BusState
        decreases n,
    {
        if n == 0 {
            self
        } else {
            let before = self.transferred((n - 1) as nat);
            let (read, byte) = before.read((self.dma.start_addr_top * 0x100 + (n - 1)) as Addr);
            BusState { ppu: read.ppu.after_transfer((n - 1) as Addr, byte), ..read }
        }
    }

    /// The state after the pending sprite transfer.
    pub open spec fn after_dma(self) -> BusState {
        let copied = self.transferred(0x100);
        BusState { dma: Dma { should_run: false, ..copied.dma }, ..copied }
    }
}

impl View for Bus {
    type V = BusState;

    open spec fn view(&self) -> BusState {
        BusState {
            apu: self.apu,
            rom: self.program_rom@,
            ram: self.work_ram@,
            sram: self.sram@,
            ppu: self.ppu@,
            dma: self.dma,
            keypad: self.keypad,
            mapper: self.mapper@,
            fault: self.fault,
        }
    }
}

impl Bus {
    /// Work memory holds its 2 KiB, and the picture unit and the mapper are
    /// well formed.
    pub open spec fn wf(&self) -> bool {
        &&& self.work_ram@.len() >= 0x0800
        &&& self.ppu.wf()
        &&& self.mapper.wf()
    }

    /// Wires the parts together. Work memory must hold at least 2 KiB.
    pub fn new(
        apu: Apu,
        program_rom: Rom,
        work_ram: Ram,
        sram: Ram,
        ppu: Ppu,
        dma: Dma,
        keypad: Keypad,
        mapper: Mapper,
    ) -> (bus: Bus)
        requires
            work_ram@.len() >= 0x0800,
            ppu.wf(),
            mapper.wf(),
        ensures
            bus.wf(),
            bus@ == (BusState {
                apu: apu,
                rom: program_rom@,
                ram: work_ram@,
                sram: sram@,
                ppu: ppu@,
                dma: dma,
                keypad: keypad,
                mapper: mapper@,
                fault: None,
            }),
    {
        Bus { apu, program_rom, work_ram, sram, ppu, dma, keypad, mapper, fault: None }
    }

    /// Records a fault, unless one was recorded before.
    fn record(&mut self, f: Fault)
        requires
            old(self).wf(),
        ensures
            final(self).wf(),
            final(self)@ == old(self)@.with_fault(f),
    {
        if self.fault.is_none() {
            self.fault = Some(f);
        }
    }

    /// The first fault met so far.
    pub fn fault(&self) -> (f: Option<Fault>)
        ensures
            f == self@.fault,
    {
        self.fault
    }

    /// Hands the state of the buttons to the controller port.
    pub fn update_keypad(&mut self, data: Data)
        requires
            old(self).wf(),
        ensures
            final(self).wf(),
            final(self)@ == (BusState {
                keypad: Keypad { buffer: data, ..old(self)@.keypad },
                ..old(self)@
            }),
    {
        self.keypad.update(data);
    }

    /// Whether a sprite transfer waits to be run.
    pub fn is_dma_pending(&self) -> (r: bool)
        ensures
            r == self@.dma.should_run,
    {
        self.dma.is_should_run()
    }

    /// Runs the pending sprite transfer: 256 reads over the bus, each byte
    /// handed to the picture unit.
    pub fn run_dma(&mut self)
        requires
            old(self).wf(),
        ensures
            final(self)@ == old(self)@.after_dma(),
            final(self).wf(),
    {
        let addr = widen(self.dma.start_addr_top) * 0x100;
        let mut i: Addr = 0;
        while i < 0x100
            invariant
                self.wf(),
                i <= 0x100,
                addr == old(self)@.dma.start_addr_top * 0x100,
                self@ == old(self)@.transferred(i as nat),
            decreases 0x100 - i,
        {
            let byte = self.read(add16(addr, i));
            self.ppu.transfer_sprite(i, byte);
            i = i + 1;
        }
        self.dma.should_run = false;
    }

    /// Runs the sound unit for `cycle` processor cycles.
    pub fn run_apu<T: CpuRegister>(
        &mut self,
        cycle: u16,
        register: &mut T,
        stall: &mut u8,
        samples: &mut Vec<Sample>,
    ) -> (r: Result<(), Fault>)
        requires
            old(self).wf(),
        ensures
            final(self).wf(),
            final(self)@ == (BusState { apu: final(self)@.apu, ..old(self)@ }),
            (ApuRun {
                apu: final(self)@.apu,
                reg: final(register)@,
                stall: *final(stall),
                samples: final(samples)@,
                fault: match r {
                    Ok(_) => None,
                    Err(e) => Some(e),
                },
            }) == run_cycles(
                ApuRun {
                    apu: old(self)@.apu,
                    reg: old(register)@,
                    stall: *old(stall),
                    samples: old(samples)@,
                    fault: None,
                },
                old(self)@.mapper,
                old(self)@.rom,
                old(self)@.sram,
                cycle as nat,
            ),
    {
        self.apu.run(cycle, register, &self.mapper, &self.sram, &self.program_rom, stall, samples)
    }

    /// Moves the picture unit one dot on and lets the mapper see where it
    /// stands. Says whether that ended the frame.
    pub fn step_ppu(&mut self, nmi: &mut bool, cpu_register: &mut Register) -> (ready: bool)
        requires
            old(self).wf(),
        ensures
            final(self)@ == old(self)@.after_dot(),
            final(self).wf(),
            *final(nmi) == old(self)@.ppu.nmi_after_dot(*old(nmi)),
            final(cpu_register)@ == (if old(self)@.dot_interrupts() {
                raise_irq(old(cpu_register)@)
            } else {
                old(cpu_register)@
            }),
            ready == old(self)@.ppu.ends_frame(),
    {
        let ready = self.ppu.step_dot(nmi, &self.mapper);
        self.mapper.step(&self.ppu, cpu_register);
        ready
    }
}

impl CpuBus for Bus {
    open spec fn state(&self) -> BusState {
        self@
    }

    open spec fn inv(&self) -> bool {
        self.wf()
    }

    fn read(&mut self, addr: Addr) -> (d: Data) {
        reveal(BusState::read);
        if addr < 0x2000 {
            self.work_ram.read(addr % 0x0800)
        } else if addr < 0x4000 {
            self.ppu.read(addr - 0x2000, &self.mapper)
        } else if addr == 0x4016 {
            self.keypad.read()
        } else if addr == 0x4017 {
            0
        } else if addr < 0x4018 {
            self.apu.read(addr - 0x4000)
        } else if addr < 0x4020 {
            self.record(Fault::IllegalBusAccess(addr));
            0
        } else {
            match self.mapper.read(addr, &self.program_rom, &self.sram) {
                Ok(d) => d,
                Err(f) => {
                    self.record(f);
                    0
                },
            }
        }
    }

    fn read_word(&mut self, addr: Addr) -> (w: Word) {
        let lower = self.read(addr);
        let upper = self.read(add16(addr, 1));
        word(lower, upper)
    }

    fn write(&mut self, addr: Addr, data: Data) {
        reveal(BusState::write);
        if addr < 0x2000 {
            self.work_ram.write(addr % 0x0800, data)
        } else if addr < 0x4000 {
            self.ppu.write(addr - 0x2000, data, &mut self.mapper)
        } else if addr == 0x4014 {
            self.dma.write(data)
        } else if addr == 0x4016 {
            self.keypad.write(data)
        } else if addr < 0x4018 {
            self.apu.write(addr - 0x4000, data)
        } else if addr < 0x4020 {
            self.record(Fault::IllegalBusAccess(addr));
        } else {
            match self.mapper.write(addr, data, &mut self.sram, &mut self.ppu.config) {
                Ok(()) => {},
                Err(f) => {
                    self.record(f);
                },
            }
        }
    }
}

} // verus!

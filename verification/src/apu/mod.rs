use self::constants::{CPU_CLOCK, DIVIDE_COUNT_FOR_240HZ, SAMPLE_RATE};
use self::dmc::{stalled, DMC};
use self::noise::Noise;
use self::square::Square;
use self::triangle::Triangle;
use crate::cpu_register::{raise_irq, CpuRegister, RegisterState};
use crate::fault::Fault;
use crate::mapper::{Mapper, MapperState};
use crate::ram::Ram;
use crate::rom::Rom;
use crate::types::{Addr, Data};
use vstd::prelude::*;

pub mod constants;
pub mod dmc;
pub mod laws;
pub mod noise;
pub mod square;
pub mod triangle;

verus! {

/// The sound unit: two pulse channels, a triangle, a noise and a sample
/// channel, paced by a frame sequencer.
#[derive(Debug, Clone, Copy)]
pub struct Apu {
    pub squares: (Square, Square),
    pub triangle: Triangle,
    pub noise: Noise,
    pub dmc: DMC,
    /// The processor cycles counted so far; the count wraps at 16 bits.
    pub cycle: u16,
    /// The step of the frame sequencer.
    pub step: u8,
    /// Whether the sequencer has five steps, not four.
    pub sequencer_mode: bool,
    pub enable_irq: bool,
    /// The frame interrupt flag.
    pub frame_irq: bool,
}

/// What the mixer is fed for one sample: the sum of the two pulse levels, 0 to
/// 30, and three times the triangle plus twice the noise plus the sample
/// level, 0 to 202. The host looks the two up in its mixing tables.
#[derive(Debug, Clone, Copy, PartialEq, Eq, Structural)]
pub struct Sample {
    pub pulse: u8,
    pub tnd: u8,
}

/// A run of the sound unit as the contracts see it: the unit, the registers of
/// the processor that it may interrupt, the stall counter, the samples put
/// out, and the fault that stopped the run, if one did.
pub ghost struct ApuRun {
    pub apu: Apu,
    pub reg: RegisterState,
    pub stall: u8,
    pub samples: Seq<Sample>,
    pub fault: Option<Fault>,
}

/// The number of the sample that is due at processor cycle `cycle`.
pub open spec fn sample_index(cycle: u16) -> int {
    cycle * SAMPLE_RATE / CPU_CLOCK as int
}

impl Apu {
    /// The sound unit after power-on.
    pub open spec fn initial() -> Apu {
        Apu {
            squares: (Square::initial(0), Square::initial(1)),
            triangle: Triangle::initial(2),
            noise: Noise::initial(),
            dmc: DMC::initial(3),
            cycle: 0,
            step: 0,
            sequencer_mode: false,
            enable_irq: false,
            frame_irq: false,
        }
    }

    /// The unit after a clock of the envelopes and of the linear counter.
    pub open spec fn after_envelopes(self) -> Apu {
        Apu {
            squares: (self.squares.0.after_envelope(), self.squares.1.after_envelope()),
            triangle: self.triangle.after_counter(),
            noise: self.noise.after_envelope(),
            ..self
        }
    }

    /// The unit after a clock of the sweep units.
    pub open spec fn after_sweeps(self) -> Apu {
        Apu { squares: (self.squares.0.after_sweep(), self.squares.1.after_sweep()), ..self }
    }

    /// The unit after a clock of the length counters.
    pub open spec fn after_lengths(self) -> Apu {
        Apu {
            squares: (self.squares.0.after_length(), self.squares.1.after_length()),
            triangle: self.triangle.after_length(),
            noise: self.noise.after_length(),
            ..self
        }
    }

    /// The step that the sequencer moves to.
    pub open spec fn next_step(self) -> u8 {
        if self.sequencer_mode {
            ((self.step % 5 + 1) % 5) as u8
        } else {
            ((self.step % 4 + 1) % 4) as u8
        }
    }

    /// Whether a step of the sequencer raises the frame interrupt: it moves to
    /// step 3 of four while the interrupt is enabled.
    pub open spec fn frame_step_interrupts(self) -> bool {
        !self.sequencer_mode && self.next_step() == 3 && self.enable_irq
    }

    /// The unit after one step of the frame sequencer. Steps 0 and 2 clock the
    /// envelopes and the linear counter; steps 1 and 3 clock the sweeps and the
    /// length counters too; step 4 of five clocks nothing.
    pub open spec fn after_frame_step(self) -> Apu {
        let step = self.next_step();
        let moved = Apu {
            step,
            frame_irq: self.frame_irq || self.frame_step_interrupts(),
            ..self
        };
        if step == 4 {
            moved
        } else if step == 1 || step == 3 {
            moved.after_envelopes().after_sweeps().after_lengths()
        } else {
            moved.after_envelopes()
        }
    }

    /// The status byte: bits 0 to 4 say which channels still have length left,
    /// bit 6 is the frame interrupt flag.
    pub open spec fn status(self) -> Data {
        ((if self.squares.0.length_value == 0 {
            0int
        } else {
            0x01int
        }) + (if self.squares.1.length_value == 0 {
            0int
        } else {
            0x02int
        }) + (if self.triangle.length_value == 0 {
            0int
        } else {
            0x04int
        }) + (if self.noise.length_value == 0 {
            0int
        } else {
            0x08int
        }) + (if self.dmc.current_length == 0 {
            0int
        } else {
            0x10int
        }) + (if self.frame_irq {
            0x40int
        } else {
            0int
        })) as Data
    }

    /// What a read of register `addr` returns: the status at 0x15, 0 elsewhere.
    pub open spec fn read_value(self, addr: Addr) -> Data {
        if addr == 0x15 {
            self.status()
        } else {
            0
        }
    }

    /// The unit after a read of register `addr`: a read of the status clears
    /// the frame interrupt flag.
    pub open spec fn after_read(self, addr: Addr) -> Apu {
        if addr == 0x15 {
            Apu { frame_irq: false, ..self }
        } else {
            self
        }
    }

    /// The unit after the channels are switched by the bits of `data`: bit 0
    /// to bit 4 turn a pulse, the other pulse, the triangle, the noise and the
    /// sample channel on or off.
    pub open spec fn after_enable_write(self, data: Data) -> Apu {
        Apu {
            squares: (
                self.squares.0.switched(data % 2 == 1),
                self.squares.1.switched((data / 2) % 2 == 1),
            ),
            triangle: self.triangle.switched((data / 4) % 2 == 1),
            noise: self.noise.switched((data / 8) % 2 == 1),
            dmc: self.dmc.switched((data / 16) % 2 == 1),
            ..self
        }
    }

    /// The unit after `data` is written to the frame counter: bit 7 picks the
    /// five-step mode, bit 6 disables the frame interrupt and clears its flag.
    /// A switch to five steps clocks all units at once.
    pub open spec fn after_frame_write(self, data: Data) -> Apu {
        let set = Apu {
            sequencer_mode: data >= 0x80,
            enable_irq: (data / 64) % 2 == 0,
            frame_irq: self.frame_irq && (data / 64) % 2 == 0,
            ..self
        };
        if set.sequencer_mode {
            set.after_envelopes().after_sweeps().after_lengths()
        } else {
            set
        }
    }

    /// The unit after `data` is written to register `addr`, 0x00 to 0x17.
    pub open spec fn after_write(self, addr: Addr, data: Data) -> Apu {
        if addr <= 0x03 {
            Apu { squares: (self.squares.0.after_write(addr, data), self.squares.1), ..self }
        } else if addr <= 0x07 {
            Apu {
                squares: (self.squares.0, self.squares.1.after_write((addr - 0x04) as Addr, data)),
                ..self
            }
        } else if addr <= 0x0b {
            Apu { triangle: self.triangle.after_write((addr - 0x08) as Addr, data), ..self }
        } else if addr <= 0x0f {
            Apu { noise: self.noise.after_write((addr - 0x0c) as Addr, data), ..self }
        } else if addr <= 0x13 {
            Apu { dmc: self.dmc.after_write((addr - 0x10) as Addr, data), ..self }
        } else if addr == 0x15 {
            self.after_enable_write(data)
        } else if addr == 0x17 {
            self.after_frame_write(data)
        } else {
            self
        }
    }

    /// What the mixer is fed now.
    pub open spec fn mixer_input(self) -> Sample {
        Sample {
            pulse: (self.squares.0.level() + self.squares.1.level()) as u8,
            tnd: (3 * self.triangle.level() + 2 * self.noise.level() + self.dmc.level()) as u8,
        }
    }

    /// The cycle count one cycle on.
    pub open spec fn next_cycle(self) -> u16 {
        ((self.cycle + 1) % 0x10000) as u16
    }

    /// Whether the next cycle ends in a fault, given what the cartridge returns
    /// for the address of the sample channel: the timers of that channel run on
    /// even cycles.
    pub open spec fn cycle_faults(self, fetched: Result<Data, Fault>) -> bool {
        self.next_cycle() % 2 == 0 && self.dmc.timer_faults(fetched)
    }

    /// Whether the next cycle fetches a byte of the sample.
    pub open spec fn cycle_fetches(self, fetched: Result<Data, Fault>) -> bool {
        self.next_cycle() % 2 == 0 && self.dmc.timer_fetches(fetched)
    }

    /// Whether the next cycle steps the frame sequencer: it does once every
    /// 7457 cycles.
    pub open spec fn cycle_steps_frame(self) -> bool {
        self.cycle / DIVIDE_COUNT_FOR_240HZ != self.next_cycle() / DIVIDE_COUNT_FOR_240HZ
    }

    /// Whether the next cycle puts out a sample.
    pub open spec fn cycle_samples(self) -> bool {
        sample_index(self.cycle) != sample_index(self.next_cycle())
    }

    /// The unit after the timers of the next cycle. The triangle is clocked
    /// every cycle, the other channels every second one.
    pub open spec fn after_timers(self, fetched: Result<Data, Fault>) -> Apu {
        let counted = Apu { cycle: self.next_cycle(), ..self };
        if counted.cycle % 2 == 0 {
            Apu {
                squares: (self.squares.0.after_timer(), self.squares.1.after_timer()),
                noise: self.noise.after_timer(),
                dmc: self.dmc.after_timer(fetched),
                triangle: self.triangle.after_timer(),
                ..counted
            }
        } else {
            Apu { triangle: self.triangle.after_timer(), ..counted }
        }
    }

    /// The unit after a cycle that does not fault.
    pub open spec fn after_cycle(self, fetched: Result<Data, Fault>) -> Apu {
        let timed = self.after_timers(fetched);
        if self.cycle_steps_frame() {
            timed.after_frame_step()
        } else {
            timed
        }
    }

    /// Whether the next cycle raises the frame interrupt.
    pub open spec fn cycle_interrupts(self, fetched: Result<Data, Fault>) -> bool {
        self.cycle_steps_frame() && self.after_timers(fetched).frame_step_interrupts()
    }

    #[verifier::when_used_as_spec(initial)]
    pub fn new() -> (a: Self)
        ensures
            a == Self::initial(),
    {
        Apu {
            squares: (Square::new(0), Square::new(1)),
            triangle: Triangle::new(2),
            noise: Noise::new(),
            dmc: DMC::new(3),
            cycle: 0,
            step: 0,
            sequencer_mode: false,
            enable_irq: false,
            frame_irq: false,
        }
    }

    /// Runs the unit for one processor cycle.
    pub fn step<T: CpuRegister>(
        &mut self,
        register: &mut T,
        mapper: &Mapper,
        sram: &Ram,
        prg_rom: &Rom,
        stall: &mut u8,
        samples: &mut Vec<Sample>,
    ) -> (r: Result<(), Fault>)
        requires
            mapper.wf(),
        ensures
            (ApuRun {
                apu: *final(self),
                reg: final(register)@,
                stall: *final(stall),
                samples: final(samples)@,
                fault: match r {
                    Ok(_) => None,
                    Err(e) => Some(e),
                },
            }) == run_cycle(
                ApuRun {
                    apu: *old(self),
                    reg: old(register)@,
                    stall: *old(stall),
                    samples: old(samples)@,
                    fault: None,
                },
                mapper@,
                prg_rom@,
                sram@,
            ),
    {
        let cycle1 = self.cycle;
        let cycle2 = if cycle1 == 0xFFFF {
            0
        } else {
            cycle1 + 1
        };
        match self.step_timers(cycle2, mapper, sram, prg_rom, stall) {
            Err(e) => {
                return Err(e);
            },
            Ok(()) => {},
        }
        self.cycle = cycle2;
        let f1 = cycle1 / DIVIDE_COUNT_FOR_240HZ;
        let f2 = cycle2 / DIVIDE_COUNT_FOR_240HZ;
        if f1 != f2 {
            self.step_frame_counter(register);
        }
        let s1 = (cycle1 as u32) * SAMPLE_RATE / CPU_CLOCK;
        let s2 = (cycle2 as u32) * SAMPLE_RATE / CPU_CLOCK;
        if s1 != s2 {
            samples.push(self.output());
        }
        Ok(())
    }

    /// Runs the unit for `cycle` processor cycles. It may raise an interrupt
    /// in `register`, stall the processor through `stall` and put samples out
    /// to `samples`. It stops at the first fault.
    pub fn run<T: CpuRegister>(
        &mut self,
        cycle: u16,
        register: &mut T,
        mapper: &Mapper,
        sram: &Ram,
        prg_rom: &Rom,
        stall: &mut u8,
        samples: &mut Vec<Sample>,
    ) -> (r: Result<(), Fault>)
        requires
            mapper.wf(),
        ensures
            (ApuRun {
                apu: *final(self),
                reg: final(register)@,
                stall: *final(stall),
                samples: final(samples)@,
                fault: match r {
                    Ok(_) => None,
                    Err(e) => Some(e),
                },
            }) == run_cycles(
                ApuRun {
                    apu: *old(self),
                    reg: old(register)@,
                    stall: *old(stall),
                    samples: old(samples)@,
                    fault: None,
                },
                mapper@,
                prg_rom@,
                sram@,
                cycle as nat,
            ),
    {
        let ghost wanted = run_cycles(
            ApuRun {
                apu: *old(self),
                reg: old(register)@,
                stall: *old(stall),
                samples: old(samples)@,
                fault: None,
            },
            mapper@,
            prg_rom@,
            sram@,
            cycle as nat,
        );
        let mut left = cycle;
        while left > 0
            invariant
                mapper.wf(),
                wanted == run_cycles(
                    ApuRun {
                        apu: *old(self),
                        reg: old(register)@,
                        stall: *old(stall),
                        samples: old(samples)@,
                        fault: None,
                    },
                    mapper@,
                    prg_rom@,
                    sram@,
                    cycle as nat,
                ),
                run_cycles(
                    ApuRun {
                        apu: *self,
                        reg: register@,
                        stall: *stall,
                        samples: samples@,
                        fault: None,
                    },
                    mapper@,
                    prg_rom@,
                    sram@,
                    left as nat,
                ) == wanted,
            decreases left,
        {
            let ghost before = ApuRun {
                apu: *self,
                reg: register@,
                stall: *stall,
                samples: samples@,
                fault: None,
            };
            match self.step(register, mapper, sram, prg_rom, stall, samples) {
                Err(e) => {
                    proof {
                        let after = run_cycle(before, mapper@, prg_rom@, sram@);
                        lemma_fault_ends_run(after, mapper@, prg_rom@, sram@, (left - 1) as nat);
                        assert(run_cycles(before, mapper@, prg_rom@, sram@, left as nat) == after);
                    }
                    return Err(e);
                },
                Ok(()) => {},
            }
            left = left - 1;
        }
        Ok(())
    }

    /// One step of the frame sequencer.
    pub fn step_frame_counter<T: CpuRegister>(&mut self, register: &mut T)
        ensures
            *final(self) == old(self).after_frame_step(),
            final(register)@ == (if old(self).frame_step_interrupts() {
                raise_irq(old(register)@)
            } else {
                old(register)@
            }),
    {
        if !self.sequencer_mode {
            self.step = (self.step % 4 + 1) % 4;
            match self.step {
                0 | 2 => {
                    self.step_envelope();
                },
                1 => {
                    self.step_envelope();
                    self.step_sweep();
                    self.step_length();
                },
                _ => {
                    if self.enable_irq {
                        self.frame_irq = true;
                        register.set_interrupt_irq();
                    }
                    self.step_envelope();
                    self.step_sweep();
                    self.step_length();
                },
            }
        } else {
            self.step = (self.step % 5 + 1) % 5;
            match self.step {
                0 | 2 => {
                    self.step_envelope();
                },
                1 | 3 => {
                    self.step_envelope();
                    self.step_sweep();
                    self.step_length();
                },
                _ => {},
            }
        }
    }

    /// What the mixer is fed now.
    pub fn output(&self) -> (s: Sample)
        ensures
            s == self.mixer_input(),
            s.pulse <= 30,
            s.tnd <= 202,
    {
        let p1 = self.squares.0.output();
        let p2 = self.squares.1.output();
        let t = self.triangle.output();
        let n = self.noise.output();
        let d = self.dmc.output();
        Sample { pulse: p1 + p2, tnd: 3 * t + 2 * n + d }
    }

    pub fn step_envelope(&mut self)
        ensures
            *final(self) == old(self).after_envelopes(),
    {
        self.squares.0.step_envelope();
        self.squares.1.step_envelope();
        self.triangle.step_counter();
        self.noise.step_envelope();
    }

    pub fn step_sweep(&mut self)
        ensures
            *final(self) == old(self).after_sweeps(),
    {
        self.squares.0.step_sweep();
        self.squares.1.step_sweep();
    }

    pub fn step_length(&mut self)
        ensures
            *final(self) == old(self).after_lengths(),
    {
        self.squares.0.step_length();
        self.squares.1.step_length();
        self.triangle.step_length();
        self.noise.step_length();
    }

    /// The timers of the cycle that brings the count to `cycle`. The count
    /// itself is left for the caller to set.
    fn step_timers(
        &mut self,
        cycle: u16,
        mapper: &Mapper,
        sram: &Ram,
        prg_rom: &Rom,
        stall: &mut u8,
    ) -> (r: Result<(), Fault>)
        requires
            mapper.wf(),
            cycle == old(self).next_cycle(),
        ensures
            ({
                let fetched = mapper@.read_result(old(self).dmc.current_address, prg_rom@, sram@);
                &&& r is Err <==> old(self).cycle_faults(fetched)
                &&& r is Err ==> r->Err_0 == fetched->Err_0 && *final(self) == *old(self)
                    && *final(stall) == *old(stall)
                &&& r is Ok ==> *final(self) == (Apu {
                    cycle: old(self).cycle,
                    ..old(self).after_timers(fetched)
                }) && *final(stall) == (if old(self).cycle_fetches(fetched) {
                    stalled(*old(stall), 4)
                } else {
                    *old(stall)
                })
            }),
    {
        if cycle % 2 == 0 {
            match self.dmc.step_timer(mapper, sram, prg_rom, stall) {
                Err(e) => {
                    return Err(e);
                },
                Ok(()) => {},
            }
            self.squares.0.step_timer();
            self.squares.1.step_timer();
            self.noise.step_timer();
        }
        self.triangle.step_timer();
        Ok(())
    }

    /// Reads register `addr`, 0x00 to 0x17.
    pub fn read(&mut self, addr: Addr) -> (d: Data)
        ensures
            d == old(self).read_value(addr),
            *final(self) == old(self).after_read(addr),
    {
        match addr {
            0x15 => {
                let s0: u8 = if self.squares.0.has_count_end() {
                    0x00
                } else {
                    0x01
                };
                let s1: u8 = if self.squares.1.has_count_end() {
                    0x00
                } else {
                    0x02
                };
                let t: u8 = if self.triangle.has_count_end() {
                    0x00
                } else {
                    0x04
                };
                let n: u8 = if self.noise.has_count_end() {
                    0x00
                } else {
                    0x08
                };
                let d: u8 = if self.dmc.has_count_end() {
                    0x00
                } else {
                    0x10
                };
                let f: u8 = if self.frame_irq {
                    0x40
                } else {
                    0x00
                };
                self.frame_irq = false;
                s0 + s1 + t + n + d + f
            },
            _ => 0,
        }
    }

    /// Switches the channels on and off by the bits of `data`.
    fn write_enable(&mut self, data: Data)
        ensures
            *final(self) == old(self).after_enable_write(data),
    {
        self.squares.0.switch(data % 2 == 1);
        self.squares.1.switch((data / 2) % 2 == 1);
        self.triangle.switch((data / 4) % 2 == 1);
        self.noise.switch((data / 8) % 2 == 1);
        self.dmc.switch((data / 16) % 2 == 1);
    }

    /// Takes a write to the frame counter.
    fn write_frame_counter(&mut self, data: Data)
        ensures
            *final(self) == old(self).after_frame_write(data),
    {
        self.sequencer_mode = data >= 0x80;
        self.enable_irq = (data / 64) % 2 == 0;
        if !self.enable_irq {
            self.frame_irq = false;
        }
        if self.sequencer_mode {
            self.step_envelope();
            self.step_sweep();
            self.step_length();
        }
    }

    /// Writes `data` to register `addr`, 0x00 to 0x17.
    pub fn write(&mut self, addr: Addr, data: Data)
        ensures
            *final(self) == old(self).after_write(addr, data),
    {
        match addr {
            0x00..=0x03 => {
                self.squares.0.write(addr, data);
            },
            0x04..=0x07 => {
                self.squares.1.write(addr - 0x04, data);
            },
            0x08..=0x0b => {
                self.triangle.write(addr - 0x08, data);
            },
            0x0c..=0x0f => {
                self.noise.write(addr - 0x0c, data);
            },
            0x10..=0x13 => {
                self.dmc.write(addr - 0x10, data);
            },
            0x15 => {
                self.write_enable(data);
            },
            0x17 => {
                self.write_frame_counter(data);
            },
            _ => (),
        }
    }
}

/// One cycle of a run. A run that has faulted stands still; a cycle that
/// faults changes nothing but records the fault.
pub open spec fn run_cycle(
    s: ApuRun,
    mapper: MapperState,
    rom: Seq<Data>,
    sram: Seq<Data>,
) -> ApuRun {
    let fetched = mapper.read_result(s.apu.dmc.current_address, rom, sram);
    if s.fault is Some {
        s
    } else if s.apu.cycle_faults(fetched) {
        ApuRun { fault: Some(fetched->Err_0), ..s }
    } else {
        let apu = s.apu.after_cycle(fetched);
        ApuRun {
            apu,
            reg: if s.apu.cycle_interrupts(fetched) {
                raise_irq(s.reg)
            } else {
                s.reg
            },
            stall: if s.apu.cycle_fetches(fetched) {
                stalled(s.stall, 4)
            } else {
                s.stall
            },
            samples: if s.apu.cycle_samples() {
                s.samples.push(apu.mixer_input())
            } else {
                s.samples
            },
            fault: None,
        }
    }
}

/// `n` cycles of a run.
pub open spec fn run_cycles(
    s: ApuRun,
    mapper: MapperState,
    rom: Seq<Data>,
    sram: Seq<Data>,
    n: nat,
) -> ApuRun
    decreases n,
{
    if n == 0 {
        s
    } else {
        run_cycles(run_cycle(s, mapper, rom, sram), mapper, rom, sram, (n - 1) as nat)
    }
}

/// A run that has faulted stands still, however many cycles follow.
pub proof fn lemma_fault_ends_run(
    s: ApuRun,
    mapper: MapperState,
    rom: Seq<Data>,
    sram: Seq<Data>,
    n: nat,
)
    requires
        s.fault is Some,
    ensures
        run_cycles(s, mapper, rom, sram, n) == s,
    decreases n,
{
    if n > 0 {
        lemma_fault_ends_run(s, mapper, rom, sram, (n - 1) as nat);
    }
}

} // verus!

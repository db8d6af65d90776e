use super::constants::{dmc_period, dmc_period_at};
use crate::fault::Fault;
use crate::mapper::Mapper;
use crate::ram::Ram;
use crate::rom::Rom;
use crate::types::{Addr, Data};
use vstd::prelude::*;

verus! {

/// The sample channel. It plays one-bit deltas that it fetches from
/// cartridge memory, and every fetch stalls the processor for four cycles.
#[derive(Debug, Clone, Copy)]
pub struct DMC {
    pub index: usize,
    pub is_irq_enabled: bool,
    pub is_loop: bool,
    pub tick_period: u16,
    /// The level put out, 0 to 127.
    pub volume: Data,
    pub sample_address: Addr,
    pub sample_length: Addr,
    pub tick_value: u16,
    pub current_address: Addr,
    pub current_length: Addr,
    /// The bits of the fetched byte that are still to play.
    pub bit_count: u8,
    pub shift_register: Data,
    pub is_enabled: bool,
}

/// A stall counter with `n` more cycles on it. It stops at 255.
pub open spec fn stalled(stall: u8, n: int) -> u8 {
    if stall + n > 255 {
        255
    } else {
        (stall + n) as u8
    }
}

impl DMC {
    /// A silent channel.
    pub open spec fn initial(index: usize) -> DMC {
        DMC {
            index,
            is_irq_enabled: false,
            is_loop: false,
            tick_period: 0,
            volume: 0,
            sample_address: 0,
            sample_length: 0,
            tick_value: 0,
            current_address: 0,
            current_length: 0,
            bit_count: 0,
            shift_register: 0,
            is_enabled: false,
        }
    }

    /// The channel after `data` is written to its register `addr`, 0 to 3.
    /// Register 2 gives the sample address as 0xC000 + data * 64, register 3
    /// the sample length as data * 16 + 1.
    pub open spec fn after_write(self, addr: Addr, data: Data) -> DMC {
        if addr == 0 {
            DMC {
                is_irq_enabled: data >= 0x80,
                is_loop: (data / 64) % 2 == 1,
                tick_period: dmc_period(data % 16),
                ..self
            }
        } else if addr == 1 {
            DMC { volume: data % 128, ..self }
        } else if addr == 2 {
            DMC { sample_address: (0xC000 + data * 64) as Addr, ..self }
        } else if addr == 3 {
            DMC { sample_length: (data * 16 + 1) as Addr, ..self }
        } else {
            self
        }
    }

    /// The channel set back to the start of its sample.
    pub open spec fn restarted(self) -> DMC {
        DMC { current_address: self.sample_address, current_length: self.sample_length, ..self }
    }

    /// The channel turned on: a sample that has run out starts over.
    pub open spec fn after_enable(self) -> DMC {
        let on = DMC { is_enabled: true, ..self };
        if self.current_length == 0 {
            on.restarted()
        } else {
            on
        }
    }

    /// Whether the channel fetches a byte at its next step: some of the sample
    /// is left and no bit of the last byte is.
    pub open spec fn needs_byte(self) -> bool {
        self.current_length > 0 && self.bit_count == 0
    }

    /// The channel after it has fetched `byte`. The address moves one on, from
    /// 0xFFFF round to 0x8000; a sample that ends starts over if it loops.
    pub open spec fn after_fetch(self, byte: Data) -> DMC {
        let next = DMC {
            shift_register: byte,
            bit_count: 8,
            current_address: if self.current_address == 0xFFFF {
                0x8000
            } else {
                (self.current_address + 1) as Addr
            },
            current_length: (self.current_length - 1) as Addr,
            ..self
        };
        if next.current_length == 0 && self.is_loop {
            next.restarted()
        } else {
            next
        }
    }

    /// The channel after its reader has run, given what the cartridge returns
    /// for the current address. A fetch that faults changes nothing.
    pub open spec fn after_reader(self, fetched: Result<Data, Fault>) -> DMC {
        if self.needs_byte() && fetched is Ok {
            self.after_fetch(fetched->Ok_0)
        } else {
            self
        }
    }

    /// The channel after its shifter has played one bit: a 1 takes the level
    /// two up, a 0 two down, inside 0 to 127.
    pub open spec fn after_shifter(self) -> DMC {
        if self.bit_count == 0 {
            self
        } else {
            DMC {
                volume: if self.shift_register % 2 == 1 {
                    if self.volume <= 125 {
                        (self.volume + 2) as Data
                    } else {
                        self.volume
                    }
                } else {
                    if self.volume >= 2 {
                        (self.volume - 2) as Data
                    } else {
                        self.volume
                    }
                },
                shift_register: self.shift_register / 2,
                bit_count: (self.bit_count - 1) as u8,
                ..self
            }
        }
    }

    /// Whether a step of the timer ends in a fault: the channel is on, is due
    /// to fetch, and the cartridge faults.
    pub open spec fn timer_faults(self, fetched: Result<Data, Fault>) -> bool {
        self.is_enabled && self.needs_byte() && fetched is Err
    }

    /// The channel after one step of its timer, given what the cartridge
    /// returns for the current address.
    pub open spec fn after_timer(self, fetched: Result<Data, Fault>) -> DMC {
        if !self.is_enabled || self.timer_faults(fetched) {
            self
        } else {
            let read = self.after_reader(fetched);
            if read.tick_value == 0 {
                DMC { tick_value: read.tick_period, ..read }.after_shifter()
            } else {
                DMC { tick_value: (read.tick_value - 1) as u16, ..read }
            }
        }
    }

    /// What the channel puts out, 0 to 127. It is silent while it is disabled.
    pub open spec fn level(self) -> u8 {
        if !self.is_enabled {
            0
        } else {
            self.volume % 128
        }
    }

    /// Whether a step of the timer fetches a byte.
    pub open spec fn timer_fetches(self, fetched: Result<Data, Fault>) -> bool {
        self.is_enabled && self.needs_byte() && fetched is Ok
    }

    /// The channel turned on or off. Turning it off empties its length
    /// counter.
    pub open spec fn switched(self, on: bool) -> DMC {
        if on {
            self.after_enable()
        } else {
            DMC { is_enabled: false, current_length: 0, ..self }
        }
    }

    #[verifier::when_used_as_spec(initial)]
    pub fn new(index: usize) -> (d: Self)
        ensures
            d == Self::initial(index),
    {
        DMC {
            index,
            is_irq_enabled: false,
            is_loop: false,
            tick_period: 0x0,
            volume: 0x0,
            sample_address: 0x0,
            sample_length: 0x0,
            tick_value: 0x0,
            current_address: 0x0,
            current_length: 0x0,
            bit_count: 0x0,
            shift_register: 0x0,
            is_enabled: false,
        }
    }

    pub fn write(&mut self, addr: Addr, data: Data)
        ensures
            *final(self) == old(self).after_write(addr, data),
    {
        match addr {
            0x00 => {
                self.is_irq_enabled = data >= 0x80;
                self.is_loop = (data / 64) % 2 == 1;
                self.tick_period = dmc_period_at(data % 16);
            },
            0x01 => {
                self.volume = data % 128;
            },
            0x02 => {
                self.sample_address = 0xC000 + (data as Addr) * 64
            },
            0x03 => {
                self.sample_length = (data as Addr) * 16 + 1;
            },
            _ => (),
        }
    }

    /// Turns the channel on or off.
    pub fn switch(&mut self, on: bool)
        ensures
            *final(self) == old(self).switched(on),
    {
        if on {
            self.enable();
        } else {
            self.disable();
        }
    }

    pub fn enable(&mut self)
        ensures
            *final(self) == old(self).after_enable(),
    {
        self.is_enabled = true;
        if self.current_length == 0 {
            self.restart();
        }
    }

    /// Turns the channel off and drops what is left of the sample.
    pub fn disable(&mut self)
        ensures
            *final(self) == (DMC { is_enabled: false, current_length: 0, ..*old(self) }),
    {
        self.is_enabled = false;
        self.current_length = 0;
    }

    /// One step of the timer: the reader runs, then the shifter whenever the
    /// timer runs out. Fails, and changes nothing, when the fetch faults.
    pub fn step_timer(&mut self, mapper: &Mapper, sram: &Ram, prg_rom: &Rom, stall: &mut u8) -> (r:
        Result<(), Fault>)
        requires
            mapper.wf(),
        ensures
            ({
                let fetched = mapper@.read_result(old(self).current_address, prg_rom@, sram@);
                &&& *final(self) == old(self).after_timer(fetched)
                &&& r is Err <==> old(self).timer_faults(fetched)
                &&& r is Err ==> r->Err_0 == fetched->Err_0
                &&& *final(stall) == (if old(self).timer_fetches(fetched) {
                    stalled(*old(stall), 4)
                } else {
                    *old(stall)
                })
            }),
    {
        if !self.is_enabled {
            return Ok(());
        }
        match self.step_reader(mapper, sram, prg_rom, stall) {
            Err(e) => {
                return Err(e);
            },
            Ok(()) => {},
        }
        if self.tick_value == 0 {
            self.tick_value = self.tick_period;
            self.step_shifter();
        } else {
            self.tick_value -= 1;
        }
        Ok(())
    }

    /// Fetches the next byte of the sample where one is due, and charges the
    /// four cycles of the fetch to `stall`.
    pub fn step_reader(&mut self, mapper: &Mapper, sram: &Ram, prg_rom: &Rom, stall: &mut u8) -> (r:
        Result<(), Fault>)
        requires
            mapper.wf(),
        ensures
            ({
                let fetched = mapper@.read_result(old(self).current_address, prg_rom@, sram@);
                &&& *final(self) == old(self).after_reader(fetched)
                &&& r is Err <==> old(self).needs_byte() && fetched is Err
                &&& r is Err ==> r->Err_0 == fetched->Err_0
                &&& *final(stall) == (if old(self).needs_byte() && fetched is Ok {
                    stalled(*old(stall), 4)
                } else {
                    *old(stall)
                })
            }),
    {
        if self.current_length > 0 && self.bit_count == 0 {
            let byte = match mapper.read(self.current_address, prg_rom, sram) {
                Ok(b) => b,
                Err(e) => {
                    return Err(e);
                },
            };
            *stall = if *stall > 251 {
                255
            } else {
                *stall + 4
            };
            self.shift_register = byte;
            self.bit_count = 8;
            self.current_address = if self.current_address == 0xFFFF {
                0x8000
            } else {
                self.current_address + 1
            };
            self.current_length -= 1;
            if self.current_length == 0 && self.is_loop {
                self.restart();
            }
        }
        Ok(())
    }

    pub fn step_shifter(&mut self)
        ensures
            *final(self) == old(self).after_shifter(),
    {
        if self.bit_count == 0 {
            return ;
        }
        if self.shift_register % 2 == 1 {
            if self.volume <= 125 {
                self.volume += 2;
            }
        } else {
            if self.volume >= 2 {
                self.volume -= 2
            }
        }
        self.shift_register = self.shift_register / 2;
        self.bit_count -= 1;
    }

    /// Sets the channel back to the start of its sample.
    pub fn restart(&mut self)
        ensures
            *final(self) == old(self).restarted(),
    {
        self.current_address = self.sample_address;
        self.current_length = self.sample_length;
    }

    /// Whether the sample has run out.
    pub fn has_count_end(&self) -> (r: bool)
        ensures
            r == (self.current_length == 0),
    {
        self.current_length == 0
    }

    /// What the channel puts out, 0 to 127. It is silent while it is disabled.
    pub fn output(&self) -> (r: u8)
        ensures
            r == self.level(),
            r <= 127,
    {
        if !self.is_enabled {
            0
        } else {
            self.volume % 128
        }
    }
}

} // verus!

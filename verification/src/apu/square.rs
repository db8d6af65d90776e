use super::constants::{duty_level, duty_level_at, length_table, length_table_at};
use crate::types::{Addr, Data};
use vstd::prelude::*;

verus! {

/// A pulse channel.
#[derive(Debug, Clone, Copy)]
pub struct Square {
    /// Which of the two pulse channels this is: 0 or 1.
    pub index: usize,
    /// The duty pattern, 0 to 3.
    pub duty: u8,
    pub is_length_enabled: bool,
    pub is_envelope_loop_enabled: bool,
    /// Whether the envelope gives the volume. Otherwise the volume is constant.
    pub is_envelope_enabled: bool,
    pub envelope_period: u8,
    pub constant_volume: u8,
    pub envelope_start: bool,
    pub is_sweep_enabled: bool,
    pub sweep_period: u8,
    pub is_sweep_negate: bool,
    pub sweep_shift_amount: u8,
    pub is_sweep_reload: bool,
    /// The period of the timer, of which eleven bits are written by the program.
    pub timer_period: u16,
    pub length_value: u8,
    /// The step in the duty pattern, 0 to 7.
    pub duty_value: u8,
    pub timer_value: u16,
    pub envelope_volume: u8,
    pub envelope_value: u8,
    pub sweep_value: u8,
    pub enabled: bool,
}

impl Square {
    /// A silent channel.
    pub open spec fn initial(index: usize) -> Square {
        Square {
            index,
            duty: 0,
            is_length_enabled: false,
            is_envelope_loop_enabled: false,
            is_envelope_enabled: false,
            envelope_period: 0,
            constant_volume: 0,
            envelope_start: false,
            is_sweep_enabled: false,
            sweep_period: 0,
            is_sweep_negate: false,
            sweep_shift_amount: 0,
            is_sweep_reload: false,
            timer_period: 0,
            length_value: 0,
            duty_value: 0,
            timer_value: 0,
            envelope_volume: 0,
            envelope_value: 0,
            sweep_value: 0,
            enabled: false,
        }
    }

    /// The channel after `data` is written to its register `addr`, 0 to 3.
    ///
    /// Register 0 holds the duty in bits 7 and 6, the length-halt bit in bit 5,
    /// which also makes the envelope loop, the constant-volume bit in bit 4 and
    /// the volume or envelope period in the low four bits. Register 1 holds the
    /// sweep: enable, period, negate, shift. Registers 2 and 3 hold the timer
    /// period; the top five bits of register 3 pick the length from the length
    /// table.
    pub open spec fn after_write(self, addr: Addr, data: Data) -> Square {
        if addr == 0 {
            Square {
                duty: data / 64,
                is_length_enabled: (data / 32) % 2 == 0,
                is_envelope_loop_enabled: (data / 32) % 2 == 1,
                is_envelope_enabled: (data / 16) % 2 == 0,
                envelope_period: data % 16,
                constant_volume: data % 16,
                envelope_start: true,
                ..self
            }
        } else if addr == 1 {
            Square {
                is_sweep_enabled: data >= 0x80,
                sweep_period: ((data / 16) % 8 + 1) as u8,
                is_sweep_negate: (data / 8) % 2 == 1,
                sweep_shift_amount: data % 8,
                is_sweep_reload: true,
                ..self
            }
        } else if addr == 2 {
            Square { timer_period: (((self.timer_period / 256) % 8) * 256 + data) as u16, ..self }
        } else if addr == 3 {
            Square {
                length_value: length_table(data / 8),
                timer_period: (self.timer_period % 256 + (data % 8) * 256) as u16,
                envelope_start: true,
                duty_value: 0,
                ..self
            }
        } else {
            self
        }
    }

    /// The channel after one tick of its timer: at zero the timer is reloaded
    /// and the duty pattern moves one step on.
    pub open spec fn after_timer(self) -> Square {
        if self.timer_value == 0 {
            Square {
                timer_value: self.timer_period,
                duty_value: ((self.duty_value % 8 + 1) % 8) as u8,
                ..self
            }
        } else {
            Square { timer_value: (self.timer_value - 1) as u16, ..self }
        }
    }

    /// The channel after one clock of its envelope.
    pub open spec fn after_envelope(self) -> Square {
        if self.envelope_start {
            Square {
                envelope_volume: 15,
                envelope_value: self.envelope_period,
                envelope_start: false,
                ..self
            }
        } else if self.envelope_value > 0 {
            Square { envelope_value: (self.envelope_value - 1) as u8, ..self }
        } else {
            Square {
                envelope_volume: if self.envelope_volume > 0 {
                    (self.envelope_volume - 1) as u8
                } else if self.is_envelope_loop_enabled {
                    15
                } else {
                    self.envelope_volume
                },
                envelope_value: self.envelope_period,
                ..self
            }
        }
    }

    /// The timer period after one sweep: it is moved by itself shifted right.
    /// A sweep down takes one more from the second channel. The period is a
    /// 16-bit value and wraps.
    pub open spec fn swept_period(self) -> u16 {
        let delta = self.timer_period >> (self.sweep_shift_amount % 8);
        if self.is_sweep_negate {
            if self.index == 1 {
                ((self.timer_period - delta - 1) % 0x10000) as u16
            } else {
                (self.timer_period - delta) as u16
            }
        } else {
            ((self.timer_period + delta) % 0x10000) as u16
        }
    }

    /// The channel after one clock of its sweep unit.
    pub open spec fn after_sweep(self) -> Square {
        if self.is_sweep_reload {
            Square {
                timer_period: if self.is_sweep_enabled && self.sweep_value == 0 {
                    self.swept_period()
                } else {
                    self.timer_period
                },
                sweep_value: self.sweep_period,
                is_sweep_reload: false,
                ..self
            }
        } else if self.sweep_value > 0 {
            Square { sweep_value: (self.sweep_value - 1) as u8, ..self }
        } else {
            Square {
                timer_period: if self.is_sweep_enabled {
                    self.swept_period()
                } else {
                    self.timer_period
                },
                sweep_value: self.sweep_period,
                ..self
            }
        }
    }

    /// The channel after one clock of its length counter.
    pub open spec fn after_length(self) -> Square {
        if self.is_length_enabled && self.length_value > 0 {
            Square { length_value: (self.length_value - 1) as u8, ..self }
        } else {
            self
        }
    }

    /// What the channel puts out, 0 to 15. It is silent while it is disabled,
    /// its length counter is zero, the duty pattern is low, or the timer
    /// period is under 8 or over 0x7FF.
    pub open spec fn level(self) -> u8 {
        if !self.enabled || self.length_value == 0 || duty_level(
            ((self.duty % 4) * 8 + self.duty_value % 8) as u8,
        ) == 0 || self.timer_period < 8 || self.timer_period > 0x7FF {
            0
        } else if self.is_envelope_enabled {
            self.envelope_volume % 16
        } else {
            self.constant_volume % 16
        }
    }

    /// The channel turned on or off. Turning it off empties its length
    /// counter.
    pub open spec fn switched(self, on: bool) -> Square {
        if on {
            Square { enabled: true, ..self }
        } else {
            Square { enabled: false, length_value: 0, ..self }
        }
    }

    #[verifier::when_used_as_spec(initial)]
    pub fn new(index: usize) -> (s: Self)
        ensures
            s == Self::initial(index),
    {
        Square {
            index,
            duty: 0,
            is_length_enabled: false,
            is_envelope_loop_enabled: false,
            is_envelope_enabled: false,
            envelope_period: 0,
            constant_volume: 0,
            envelope_start: false,
            is_sweep_enabled: false,
            sweep_period: 0,
            is_sweep_negate: false,
            sweep_shift_amount: 0,
            is_sweep_reload: false,
            timer_period: 0,
            length_value: 0,
            duty_value: 0,
            timer_value: 0,
            envelope_volume: 0,
            envelope_value: 0,
            sweep_value: 0,
            enabled: false,
        }
    }

    pub fn write(&mut self, addr: Addr, data: Data)
        ensures
            *final(self) == old(self).after_write(addr, data),
    {
        match addr {
            0x00 => {
                self.duty = data / 64;
                self.is_length_enabled = (data / 32) % 2 == 0;
                self.is_envelope_loop_enabled = !self.is_length_enabled;
                self.is_envelope_enabled = (data / 16) % 2 == 0;
                self.envelope_period = data % 16;
                self.constant_volume = data % 16;
                self.envelope_start = true;
            },
            0x01 => {
                self.is_sweep_enabled = data >= 0x80;
                self.sweep_period = ((data / 16) % 8) + 1;
                self.is_sweep_negate = (data / 8) % 2 == 1;
                self.sweep_shift_amount = data % 8;
                self.is_sweep_reload = true;
            },
            0x02 => {
                self.timer_period = ((self.timer_period / 256) % 8) * 256 + data as u16;
            },
            0x03 => {
                self.length_value = length_table_at(data / 8);
                self.timer_period = self.timer_period % 256 + ((data % 8) as u16) * 256;
                self.envelope_start = true;
                self.duty_value = 0;
            },
            _ => (),
        }
    }

    /// Turns the channel on or off.
    pub fn switch(&mut self, on: bool)
        ensures
            *final(self) == old(self).switched(on),
    {
        if on {
            self.enable();
        } else {
            self.disable();
        }
    }

    pub fn enable(&mut self)
        ensures
            *final(self) == (Square { enabled: true, ..*old(self) }),
    {
        self.enabled = true;
    }

    /// Turns the channel off and empties its length counter.
    pub fn disable(&mut self)
        ensures
            *final(self) == (Square { enabled: false, length_value: 0, ..*old(self) }),
    {
        self.enabled = false;
        self.length_value = 0;
    }

    /// Whether the length counter has run out.
    pub fn has_count_end(&self) -> (r: bool)
        ensures
            r == (self.length_value == 0),
    {
        self.length_value == 0
    }

    pub fn step_timer(&mut self)
        ensures
            *final(self) == old(self).after_timer(),
    {
        if self.timer_value == 0 {
            self.timer_value = self.timer_period;
            self.duty_value = (self.duty_value % 8 + 1) % 8;
        } else {
            self.timer_value -= 1;
        }
    }

    pub fn step_envelope(&mut self)
        ensures
            *final(self) == old(self).after_envelope(),
    {
        if self.envelope_start {
            self.envelope_volume = 15;
            self.envelope_value = self.envelope_period;
            self.envelope_start = false;
        } else if self.envelope_value > 0 {
            self.envelope_value -= 1;
        } else {
            if self.envelope_volume > 0 {
                self.envelope_volume -= 1;
            } else if self.is_envelope_loop_enabled {
                self.envelope_volume = 15;
            }
            self.envelope_value = self.envelope_period;
        }
    }

    pub fn step_sweep(&mut self)
        ensures
            *final(self) == old(self).after_sweep(),
    {
        if self.is_sweep_reload {
            if self.is_sweep_enabled && self.sweep_value == 0 {
                self.sweep();
            }
            self.sweep_value = self.sweep_period;
            self.is_sweep_reload = false;
        } else if self.sweep_value > 0 {
            self.sweep_value -= 1;
        } else {
            if self.is_sweep_enabled {
                self.sweep();
            }
            self.sweep_value = self.sweep_period;
        }
    }

    /// Moves the timer period by one sweep.
    pub fn sweep(&mut self)
        ensures
            *final(self) == (Square { timer_period: old(self).swept_period(), ..*old(self) }),
    {
        let period = self.timer_period;
        let shift = self.sweep_shift_amount % 8;
        let delta = period >> shift;
        assert(period >> shift <= period) by (bit_vector);
        if self.is_sweep_negate {
            self.timer_period = self.timer_period - delta;
            if self.index == 1 {
                self.timer_period = if self.timer_period == 0 {
                    0xFFFF
                } else {
                    self.timer_period - 1
                };
            }
        } else {
            self.timer_period = ((self.timer_period as u32 + delta as u32) % 0x10000) as u16;
        }
    }

    pub fn step_length(&mut self)
        ensures
            *final(self) == old(self).after_length(),
    {
        if self.is_length_enabled && self.length_value > 0 {
            self.length_value -= 1;
        }
    }

    pub fn output(&self) -> (r: u8)
        ensures
            r == self.level(),
            r <= 15,
    {
        if !self.enabled || self.length_value == 0 || duty_level_at(
            (self.duty % 4) * 8 + self.duty_value % 8,
        ) == 0 || self.timer_period < 8 || self.timer_period > 0x7FF {
            0
        } else if self.is_envelope_enabled {
            self.envelope_volume % 16
        } else {
            self.constant_volume % 16
        }
    }
}

} // verus!

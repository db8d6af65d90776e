use super::constants::{length_table, length_table_at, noise_period, noise_period_at};
use crate::types::{Addr, Data};
use vstd::prelude::*;

verus! {

/// The noise channel.
#[derive(Debug, Clone, Copy)]
pub struct Noise {
    pub enabled: bool,
    /// Whether the feedback is taken from bit 6, which makes the noise short
    /// and tonal, or from bit 1.
    pub mode: bool,
    /// The 15-bit shift register.
    pub shift_register: u16,
    pub is_length_enabled: bool,
    pub length_value: u8,
    pub timer_period: u16,
    pub timer_value: u16,
    pub is_envelope_enabled: bool,
    pub is_envelope_loop_enabled: bool,
    pub envelope_start: bool,
    pub envelope_period: u8,
    pub envelope_value: u8,
    pub envelope_volume: u8,
    pub constant_volume: u8,
}

impl Noise {
    /// A silent channel, its shift register at 1.
    pub open spec fn initial() -> Noise {
        Noise {
            enabled: false,
            mode: false,
            shift_register: 1,
            is_length_enabled: false,
            length_value: 0,
            timer_period: 0,
            timer_value: 0,
            is_envelope_enabled: false,
            is_envelope_loop_enabled: false,
            envelope_start: false,
            envelope_period: 0,
            envelope_value: 0,
            envelope_volume: 0,
            constant_volume: 0,
        }
    }

    /// The channel after `data` is written to its register `addr`, 0 to 3.
    pub open spec fn after_write(self, addr: Addr, data: Data) -> Noise {
        if addr == 0 {
            Noise {
                is_length_enabled: (data / 32) % 2 == 0,
                is_envelope_loop_enabled: (data / 32) % 2 == 1,
                is_envelope_enabled: (data / 16) % 2 == 0,
                envelope_period: data % 16,
                constant_volume: data % 16,
                envelope_start: true,
                ..self
            }
        } else if addr == 2 {
            Noise { mode: data >= 0x80, timer_period: noise_period(data % 16), ..self }
        } else if addr == 3 {
            Noise { length_value: length_table(data / 8), envelope_start: true, ..self }
        } else {
            self
        }
    }

    /// The shift register one step on: it moves one bit right, and the
    /// exclusive OR of bit 0 and the tap comes in as bit 14.
    pub open spec fn shifted_register(self) -> u16 {
        let tap = if self.mode {
            (self.shift_register / 64) % 2
        } else {
            (self.shift_register / 2) % 2
        };
        let feedback: int = if self.shift_register % 2 != tap {
            0x4000
        } else {
            0
        };
        ((self.shift_register / 2) % 0x4000 + feedback) as u16
    }

    /// The channel after one tick of its timer.
    pub open spec fn after_timer(self) -> Noise {
        if self.timer_value == 0 {
            Noise {
                timer_value: self.timer_period,
                shift_register: self.shifted_register(),
                ..self
            }
        } else {
            Noise { timer_value: (self.timer_value - 1) as u16, ..self }
        }
    }

    /// The channel after one clock of its envelope.
    pub open spec fn after_envelope(self) -> Noise {
        if self.envelope_start {
            Noise {
                envelope_volume: 15,
                envelope_value: self.envelope_period,
                envelope_start: false,
                ..self
            }
        } else if self.envelope_value > 0 {
            Noise { envelope_value: (self.envelope_value - 1) as u8, ..self }
        } else {
            Noise {
                envelope_volume: if self.envelope_volume > 0 {
                    (self.envelope_volume - 1) as u8
                } else if self.is_envelope_loop_enabled {
                    15
                } else {
                    self.envelope_volume
                },
                envelope_value: self.envelope_period,
                ..self
            }
        }
    }

    /// The channel after one clock of its length counter.
    pub open spec fn after_length(self) -> Noise {
        if self.is_length_enabled && self.length_value > 0 {
            Noise { length_value: (self.length_value - 1) as u8, ..self }
        } else {
            self
        }
    }

    /// What the channel puts out, 0 to 15. It is silent while it is disabled,
    /// its length counter is zero or bit 0 of the shift register is set.
    pub open spec fn level(self) -> u8 {
        if !self.enabled || self.length_value == 0 || self.shift_register % 2 == 1 {
            0
        } else if self.is_envelope_enabled {
            self.envelope_volume % 16
        } else {
            self.constant_volume % 16
        }
    }

    /// The channel turned on or off. Turning it off empties its length
    /// counter.
    pub open spec fn switched(self, on: bool) -> Noise {
        if on {
            Noise { enabled: true, ..self }
        } else {
            Noise { enabled: false, length_value: 0, ..self }
        }
    }

    #[verifier::when_used_as_spec(initial)]
    pub fn new() -> (n: Self)
        ensures
            n == Self::initial(),
    {
        Noise {
            enabled: false,
            mode: false,
            shift_register: 1,
            is_length_enabled: false,
            length_value: 0,
            timer_period: 0,
            timer_value: 0,
            is_envelope_enabled: false,
            is_envelope_loop_enabled: false,
            envelope_start: false,
            envelope_period: 0,
            envelope_value: 0,
            envelope_volume: 0,
            constant_volume: 0,
        }
    }

    pub fn write(&mut self, addr: Addr, data: Data)
        ensures
            *final(self) == old(self).after_write(addr, data),
    {
        match addr {
            0x00 => {
                self.is_length_enabled = (data / 32) % 2 == 0;
                self.is_envelope_loop_enabled = !self.is_length_enabled;
                self.is_envelope_enabled = (data / 16) % 2 == 0;
                self.envelope_period = data % 16;
                self.constant_volume = data % 16;
                self.envelope_start = true;
            },
            0x02 => {
                self.mode = data >= 0x80;
                self.timer_period = noise_period_at(data % 16);
            },
            0x03 => {
                self.length_value = length_table_at(data / 8);
                self.envelope_start = true;
            },
            _ => (),
        }
    }

    /// Turns the channel on or off.
    pub fn switch(&mut self, on: bool)
        ensures
            *final(self) == old(self).switched(on),
    {
        if on {
            self.enable();
        } else {
            self.disable();
        }
    }

    pub fn enable(&mut self)
        ensures
            *final(self) == (Noise { enabled: true, ..*old(self) }),
    {
        self.enabled = true;
    }

    /// Turns the channel off and empties its length counter.
    pub fn disable(&mut self)
        ensures
            *final(self) == (Noise { enabled: false, length_value: 0, ..*old(self) }),
    {
        self.enabled = false;
        self.length_value = 0;
    }

    /// Whether the length counter has run out.
    pub fn has_count_end(&self) -> (r: bool)
        ensures
            r == (self.length_value == 0),
    {
        self.length_value == 0
    }

    pub fn step_timer(&mut self)
        ensures
            *final(self) == old(self).after_timer(),
    {
        if self.timer_value == 0 {
            self.timer_value = self.timer_period;
            let tap = if self.mode {
                (self.shift_register / 64) % 2
            } else {
                (self.shift_register / 2) % 2
            };
            let feedback: u16 = if self.shift_register % 2 != tap {
                0x4000
            } else {
                0
            };
            self.shift_register = (self.shift_register / 2) % 0x4000 + feedback;
        } else {
            self.timer_value -= 1;
        }
    }

    pub fn step_envelope(&mut self)
        ensures
            *final(self) == old(self).after_envelope(),
    {
        if self.envelope_start {
            self.envelope_volume = 15;
            self.envelope_value = self.envelope_period;
            self.envelope_start = false;
        } else if self.envelope_value > 0 {
            self.envelope_value -= 1;
        } else {
            if self.envelope_volume > 0 {
                self.envelope_volume -= 1;
            } else if self.is_envelope_loop_enabled {
                self.envelope_volume = 15;
            }
            self.envelope_value = self.envelope_period;
        }
    }

    pub fn step_length(&mut self)
        ensures
            *final(self) == old(self).after_length(),
    {
        if self.is_length_enabled && self.length_value > 0 {
            self.length_value -= 1;
        }
    }

    pub fn output(&self) -> (r: u8)
        ensures
            r == self.level(),
            r <= 15,
    {
        if !self.enabled || self.length_value == 0 || self.shift_register % 2 == 1 {
            0
        } else if self.is_envelope_enabled {
            self.envelope_volume % 16
        } else {
            self.constant_volume % 16
        }
    }
}

} // verus!

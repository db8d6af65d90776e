use super::constants::{length_table, length_table_at, triangle_level, triangle_level_at};
use crate::types::{Addr, Data};
use vstd::prelude::*;

verus! {

/// The triangle channel.
#[derive(Debug, Clone, Copy)]
pub struct Triangle {
    pub index: usize,
    pub is_length_enabled: bool,
    /// What the linear counter is reloaded with.
    pub counter_period: u8,
    pub timer_period: u16,
    pub length_value: u8,
    pub timer_value: u16,
    pub counter_reload: bool,
    /// The step in the triangle wave, 0 to 31.
    pub duty: u8,
    /// The linear counter.
    pub counter_value: u8,
    pub enabled: bool,
}

impl Triangle {
    /// A silent channel.
    pub open spec fn initial(index: usize) -> Triangle {
        Triangle {
            index,
            is_length_enabled: false,
            counter_period: 0,
            timer_period: 0,
            length_value: 0,
            timer_value: 0,
            counter_reload: false,
            duty: 0,
            counter_value: 0,
            enabled: false,
        }
    }

    /// The channel after `data` is written to its register `addr`, 0 to 3.
    pub open spec fn after_write(self, addr: Addr, data: Data) -> Triangle {
        if addr == 0 {
            Triangle { is_length_enabled: data < 0x80, counter_period: data % 128, ..self }
        } else if addr == 2 {
            Triangle { timer_period: (((self.timer_period / 256) % 8) * 256 + data) as u16, ..self }
        } else if addr == 3 {
            let period = (self.timer_period % 256 + (data % 8) * 256) as u16;
            Triangle {
                timer_period: period,
                length_value: length_table(data / 8),
                timer_value: period,
                counter_reload: true,
                ..self
            }
        } else {
            self
        }
    }

    /// The channel after one tick of its timer: at zero the timer is reloaded,
    /// and the wave moves one step on while both counters are running.
    pub open spec fn after_timer(self) -> Triangle {
        if self.timer_value == 0 {
            Triangle {
                timer_value: self.timer_period,
                duty: if self.length_value > 0 && self.counter_value > 0 {
                    ((self.duty % 32 + 1) % 32) as u8
                } else {
                    self.duty
                },
                ..self
            }
        } else {
            Triangle { timer_value: (self.timer_value - 1) as u16, ..self }
        }
    }

    /// The channel after one clock of its length counter.
    pub open spec fn after_length(self) -> Triangle {
        if self.is_length_enabled && self.length_value > 0 {
            Triangle { length_value: (self.length_value - 1) as u8, ..self }
        } else {
            self
        }
    }

    /// The channel after one clock of its linear counter.
    pub open spec fn after_counter(self) -> Triangle {
        Triangle {
            counter_value: if self.counter_reload {
                self.counter_period
            } else if self.counter_value > 0 {
                (self.counter_value - 1) as u8
            } else {
                self.counter_value
            },
            counter_reload: self.counter_reload && !self.is_length_enabled,
            ..self
        }
    }

    /// What the channel puts out, 0 to 15. It is silent while it is disabled
    /// or one of its counters is zero.
    pub open spec fn level(self) -> u8 {
        if !self.enabled || self.length_value == 0 || self.counter_value == 0 {
            0
        } else {
            triangle_level(self.duty)
        }
    }

    /// The channel turned on or off. Turning it off empties its length
    /// counter.
    pub open spec fn switched(self, on: bool) -> Triangle {
        if on {
            Triangle { enabled: true, ..self }
        } else {
            Triangle { enabled: false, length_value: 0, ..self }
        }
    }

    #[verifier::when_used_as_spec(initial)]
    pub fn new(index: usize) -> (t: Self)
        ensures
            t == Self::initial(index),
    {
        Triangle {
            index,
            is_length_enabled: false,
            counter_period: 0,
            timer_period: 0,
            length_value: 0,
            timer_value: 0,
            counter_reload: false,
            duty: 0,
            counter_value: 0,
            enabled: false,
        }
    }

    pub fn write(&mut self, addr: Addr, data: Data)
        ensures
            *final(self) == old(self).after_write(addr, data),
    {
        match addr {
            0x00 => {
                self.is_length_enabled = data < 0x80;
                self.counter_period = data % 128;
            },
            0x02 => {
                self.timer_period = ((self.timer_period / 256) % 8) * 256 + data as u16;
            },
            0x03 => {
                self.timer_period = self.timer_period % 256 + ((data % 8) as u16) * 256;
                self.length_value = length_table_at(data / 8);
                self.timer_value = self.timer_period;
                self.counter_reload = true
            },
            _ => (),
        }
    }

    pub fn step_timer(&mut self)
        ensures
            *final(self) == old(self).after_timer(),
    {
        if self.timer_value == 0 {
            self.timer_value = self.timer_period;
            if self.length_value > 0 && self.counter_value > 0 {
                self.duty = (self.duty % 32 + 1) % 32;
            }
        } else {
            self.timer_value -= 1;
        }
    }

    pub fn step_length(&mut self)
        ensures
            *final(self) == old(self).after_length(),
    {
        if self.is_length_enabled && self.length_value > 0 {
            self.length_value -= 1;
        }
    }

    pub fn step_counter(&mut self)
        ensures
            *final(self) == old(self).after_counter(),
    {
        if self.counter_reload {
            self.counter_value = self.counter_period;
        } else if self.counter_value > 0 {
            self.counter_value -= 1;
        }
        if self.is_length_enabled {
            self.counter_reload = false;
        }
    }

    pub fn output(&self) -> (r: u8)
        ensures
            r == self.level(),
            r <= 15,
    {
        if !self.enabled || self.length_value == 0 || self.counter_value == 0 {
            0
        } else {
            triangle_level_at(self.duty)
        }
    }

    /// Whether the length counter has run out.
    pub fn has_count_end(&self) -> (r: bool)
        ensures
            r == (self.length_value == 0),
    {
        self.length_value == 0
    }

    /// Turns the channel on or off.
    pub fn switch(&mut self, on: bool)
        ensures
            *final(self) == old(self).switched(on),
    {
        if on {
            self.enable();
        } else {
            self.disable();
        }
    }

    pub fn enable(&mut self)
        ensures
            *final(self) == (Triangle { enabled: true, ..*old(self) }),
    {
        self.enabled = true;
    }

    /// Turns the channel off and empties its length counter.
    pub fn disable(&mut self)
        ensures
            *final(self) == (Triangle { enabled: false, length_value: 0, ..*old(self) }),
    {
        self.enabled = false;
        self.length_value = 0;
    }
}

} // verus!

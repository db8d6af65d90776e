use crate::types::Data;
use vstd::prelude::*;

verus! {

/// The first controller port. The host hands in the state of the eight
/// buttons, the program latches it with a strobe and then reads it out one
/// button per read.
#[derive(Debug, Clone, Copy)]
pub struct Keypad {
    /// The number of the button that the next read returns; 8 when all are out.
    pub addr: u8,
    /// Whether the strobe is high.
    pub reset: bool,
    /// The buttons as latched by the last strobe.
    pub register: u8,
    /// The buttons as the host last gave them.
    pub buffer: Data,
}

/// Button `n` of the latched mask `register`.
pub open spec fn button(register: u8, n: u8) -> Data {
    (register >> n) & 1
}

impl Keypad {
    /// What a read returns: the next button, or 0 once all eight are out.
    pub open spec fn read_value(self) -> Data {
        if self.addr < 8 {
            button(self.register, self.addr)
        } else {
            0
        }
    }

    /// The port after a read.
    pub open spec fn after_read(self) -> Keypad {
        if self.addr < 8 {
            Keypad { addr: (self.addr + 1) as u8, ..self }
        } else {
            self
        }
    }

    /// The port after the program writes `data`: bit 0 high raises the strobe;
    /// bit 0 low after a high strobe latches the buttons and starts the
    /// read-out over.
    pub open spec fn after_write(self, data: Data) -> Keypad {
        if data % 2 == 1 {
            Keypad { reset: true, ..self }
        } else if self.reset {
            Keypad { reset: false, addr: 0, register: self.buffer, ..self }
        } else {
            self
        }
    }

    pub fn new() -> (k: Self)
        ensures
            k == (Keypad { addr: 0, reset: false, register: 0, buffer: 0 }),
    {
        Keypad { addr: 0, reset: false, register: 0, buffer: 0 }
    }

    /// Takes the state of the buttons from the host.
    pub fn update(&mut self, data: Data)
        ensures
            *final(self) == (Keypad { buffer: data, ..*old(self) }),
    {
        self.buffer = data;
    }

    /// Reads the next button.
    pub fn read(&mut self) -> (d: Data)
        ensures
            d == old(self).read_value(),
            *final(self) == old(self).after_read(),
    {
        if self.addr < 8 {
            let ret = (self.register >> self.addr) & 1;
            self.addr = self.addr + 1;
            ret
        } else {
            0
        }
    }

    /// Takes a write of the program to the port.
    pub fn write(&mut self, data: Data)
        ensures
            *final(self) == old(self).after_write(data),
    {
        if data % 2 == 1 {
            self.reset = true;
        } else if self.reset {
            self.reset = false;
            self.addr = 0;
            self.register = self.buffer;
        }
    }
}

} // verus!

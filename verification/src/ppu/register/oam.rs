use crate::ram::Ram;
use crate::types::{widen, Addr, Data};
use vstd::prelude::*;

verus! {

/// The address port of sprite memory.
#[derive(Debug, Clone, Copy)]
pub struct Oam {
    pub addr: Data,
}

impl Oam {
    pub fn new() -> (r: Self)
        ensures
            r.addr == 0,
    {
        Oam { addr: 0 }
    }

    pub fn get_addr(&mut self) -> (r: Addr)
        ensures
            r == old(self).addr,
            *final(self) == *old(self),
    {
        widen(self.addr)
    }

    pub fn write_addr(&mut self, data: Data)
        ensures
            final(self).addr == data,
    {
        self.addr = data
    }

    /// Stores `data` at the current address and moves the address one on, from
    /// 0xFF round to 0.
    pub fn write_data(&mut self, oam_ram: &mut Ram, data: Data)
        requires
            old(oam_ram)@.len() >= 0x100,
        ensures
            final(oam_ram)@ == old(oam_ram)@.update(old(self).addr as int, data),
            final(self).addr == (old(self).addr + 1) % 0x100,
    {
        oam_ram.write(widen(self.addr), data);
        self.addr = if self.addr == 0xFF {
            0
        } else {
            self.addr + 1
        }
    }

    /// The byte at the current address.
    pub fn read_data(&self, oam_ram: &Ram) -> (d: Data)
        requires
            oam_ram@.len() >= 0x100,
        ensures
            d == oam_ram@[self.addr as int],
    {
        oam_ram.read(widen(self.addr))
    }
}

} // verus!

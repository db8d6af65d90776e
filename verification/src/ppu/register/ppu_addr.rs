use crate::types::{add16, widen, word_of, Addr, Data};
use vstd::prelude::*;

verus! {

/// The address register of video memory, written in two steps.
#[derive(Debug, Clone, Copy)]
pub struct PpuAddr {
    pub addr: Addr,
    /// Whether the next write gives the low byte.
    pub is_lower_addr: bool,
}

impl PpuAddr {
    /// The register after a write of `data`: the first write gives the high
    /// byte and clears the low one, the second adds the low byte.
    pub open spec fn after_write(self, data: Data) -> PpuAddr {
        if self.is_lower_addr {
            PpuAddr { addr: word_of(self.addr + data), is_lower_addr: false }
        } else {
            PpuAddr { addr: (data * 256) as Addr, is_lower_addr: true }
        }
    }

    pub fn new() -> (r: Self)
        ensures
            r == (PpuAddr { addr: 0, is_lower_addr: false }),
    {
        PpuAddr { addr: 0, is_lower_addr: false }
    }

    pub fn get(&self) -> (r: Addr)
        ensures
            r == self.addr,
    {
        self.addr
    }

    /// Makes the next write the first of two.
    pub fn reset_latch(&mut self)
        ensures
            *final(self) == (PpuAddr { is_lower_addr: false, ..*old(self) }),
    {
        self.is_lower_addr = false
    }

    /// Moves the address `offset` on; it wraps at 16 bits.
    pub fn update(&mut self, offset: Addr)
        ensures
            *final(self) == (PpuAddr { addr: word_of(old(self).addr + offset), ..*old(self) }),
    {
        self.addr = add16(self.addr, offset)
    }

    pub fn write(&mut self, data: Data)
        ensures
            *final(self) == old(self).after_write(data),
    {
        if self.is_lower_addr {
            self.addr = add16(self.addr, widen(data));
            self.is_lower_addr = false;
        } else {
            self.addr = widen(data) * 256;
            self.is_lower_addr = true
        }
    }
}

} // verus!

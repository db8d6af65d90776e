use crate::types::{index16, Addr, Data};
use vstd::prelude::*;

verus! {

/// A block of writable memory.
#[derive(Debug)]
pub struct Ram {
    pub field: Vec<Data>,
}

impl View for Ram {
    type V = Seq<Data>;

    open spec fn view(&self) -> Seq<Data> {
        self.field@
    }
}

impl Ram {
    pub fn new(buf: Vec<Data>) -> (r: Ram)
        ensures
            r@ == buf@,
    {
        Ram { field: buf }
    }

    /// The byte at `addr`.
    pub fn read(&self, addr: Addr) -> (d: Data)
        requires
            addr < self@.len(),
        ensures
            d == self@[addr as int],
    {
        self.field[index16(addr)]
    }

    /// Stores `data` at `addr`.
    pub fn write(&mut self, addr: Addr, data: Data)
        requires
            addr < old(self)@.len(),
        ensures
            final(self)@ == old(self)@.update(addr as int, data),
    {
        self.field[index16(addr)] = data;
    }

    pub fn size(&self) -> (n: usize)
        ensures
            n == self@.len(),
    {
        self.field.len()
    }
}

} // verus!

use crate::types::Data;
use vstd::prelude::*;

verus! {

/// A block of memory that is read only.
#[derive(Debug)]
pub struct Rom {
    vec: Vec<Data>,
}

impl View for Rom {
    type V = Seq<Data>;

    closed spec fn view(&self) -> Seq<Data> {
        self.vec@
    }
}

impl Rom {
    pub fn new(buf: Vec<Data>) -> (r: Rom)
        ensures
            r@ == buf@,
    {
        Rom { vec: buf }
    }

    /// The byte at `addr`.
    pub fn read(&self, addr: usize) -> (d: Data)
        requires
            addr < self@.len(),
        ensures
            d == self@[addr as int],
    {
        self.vec[addr]
    }

    pub fn size(&self) -> (n: usize)
        ensures
            n == self@.len(),
    {
        self.vec.len()
    }
}

} // verus!

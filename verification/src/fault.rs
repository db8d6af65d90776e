use crate::types::{Addr, Data};
use vstd::prelude::*;

verus! {

/// What ends emulation. None of these is recovered from.
#[derive(Debug, Clone, Copy, PartialEq, Eq, Structural)]
pub enum Fault {
    /// The cartridge image has a wrong signature or is cut short.
    BadCartridge,
    /// The processor met an opcode byte that it does not implement.
    UnknownOpcode(Data),
    /// The processor touched an address that nothing on the bus decodes.
    IllegalBusAccess(Addr),
    /// The mapper was handed an address that it cannot serve.
    MapperFault(Addr),
}

} // verus!

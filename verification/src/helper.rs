use vstd::prelude::*;

verus! {

/// The bit that stands for a flag: 1 when it is set, 0 when it is clear.
pub open spec fn flag_bit(b: bool) -> u8 {
    if b {
        1
    } else {
        0
    }
}

/// Converts a flag to the bit that stands for it.
pub fn bool2u8(b: bool) -> (r: u8)
    ensures
        r == flag_bit(b),
{
    if b {
        1
    } else {
        0
    }
}

} // verus!

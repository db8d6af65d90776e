use vstd::prelude::*;

verus! {

/// One byte on the data bus.
pub type Data = u8;

/// A 16-bit bus address.
pub type Addr = u16;

/// A 16-bit quantity.
pub type Word = u16;

/// The byte that an integer leaves when only its low eight bits are kept.
pub open spec fn byte_of(i: int) -> u8 {
    (i % 256) as u8
}

/// The word that an integer leaves when only its low sixteen bits are kept.
pub open spec fn word_of(i: int) -> u16 {
    (i % 65536) as u16
}

/// The low byte of a word.
pub open spec fn low_byte(w: u16) -> u8 {
    (w % 256) as u8
}

/// The high byte of a word.
pub open spec fn high_byte(w: u16) -> u8 {
    (w / 256) as u8
}

/// The word with the given low and high bytes.
pub open spec fn make_word(low: u8, high: u8) -> u16 {
    (high * 256 + low) as u16
}

pub fn lo(w: u16) -> (r: u8)
    ensures
        r == low_byte(w),
{
    (w % 256) as u8
}

pub fn hi(w: u16) -> (r: u8)
    ensures
        r == high_byte(w),
{
    (w / 256) as u8
}

pub fn word(low: u8, high: u8) -> (r: u16)
    ensures
        r == make_word(low, high),
{
    (high as u16) * 256 + (low as u16)
}

/// Widens a byte to a word.
pub fn widen(v: u8) -> (r: u16)
    ensures
        r == v,
{
    v as u16
}

/// Widens a byte to an index.
pub fn index8(v: u8) -> (r: usize)
    ensures
        r == v,
{
    v as usize
}

/// Widens a word to an index.
pub fn index16(v: u16) -> (r: usize)
    ensures
        r == v,
{
    v as usize
}

/// Eight-bit addition that wraps.
pub fn add8(a: u8, b: u8) -> (r: u8)
    ensures
        r == byte_of(a + b),
{
    (((a as u16) + (b as u16)) % 256) as u8
}

/// Eight-bit subtraction that wraps.
pub fn sub8(a: u8, b: u8) -> (r: u8)
    ensures
        r == byte_of(a - b),
{
    (((a as u16) + 256 - (b as u16)) % 256) as u8
}

/// Sixteen-bit addition that wraps.
pub fn add16(a: u16, b: u16) -> (r: u16)
    ensures
        r == word_of(a + b),
{
    (((a as u32) + (b as u32)) % 65536) as u16
}

/// Sixteen-bit subtraction that wraps.
pub fn sub16(a: u16, b: u16) -> (r: u16)
    ensures
        r == word_of(a - b),
{
    (((a as u32) + 65536 - (b as u32)) % 65536) as u16
}

} // verus!

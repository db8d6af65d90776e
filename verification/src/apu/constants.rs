use vstd::prelude::*;

verus! {

/// The clock of the processor in cycles per second.
pub const CPU_CLOCK: u32 = 1789772;

/// The processor cycles between two steps of the frame sequencer.
pub const DIVIDE_COUNT_FOR_240HZ: u16 = 7457;

/// The samples per second that the host plays.
pub const SAMPLE_RATE: u32 = 44100;

/// The length that each of the 32 length indices loads into a length counter.
pub open spec fn length_table(index: u8) -> u8 {
    match index % 32 {
        0 => 0x0A,
        1 => 0xFE,
        2 => 0x14,
        3 => 0x02,
        4 => 0x28,
        5 => 0x04,
        6 => 0x50,
        7 => 0x06,
        8 => 0xA0,
        9 => 0x08,
        10 => 0x3C,
        11 => 0x0A,
        12 => 0x0E,
        13 => 0x0C,
        14 => 0x1A,
        15 => 0x0E,
        16 => 0x0C,
        17 => 0x10,
        18 => 0x18,
        19 => 0x12,
        20 => 0x30,
        21 => 0x14,
        22 => 0x60,
        23 => 0x16,
        24 => 0xC0,
        25 => 0x18,
        26 => 0x48,
        27 => 0x1A,
        28 => 0x10,
        29 => 0x1C,
        30 => 0x20,
        _ => 0x1E,
    }
}

/// The length that each of the 32 length indices loads into a length counter.
pub fn length_table_at(index: u8) -> (r: u8)
    ensures
        r == length_table(index),
{
    match index % 32 {
        0 => 0x0A,
        1 => 0xFE,
        2 => 0x14,
        3 => 0x02,
        4 => 0x28,
        5 => 0x04,
        6 => 0x50,
        7 => 0x06,
        8 => 0xA0,
        9 => 0x08,
        10 => 0x3C,
        11 => 0x0A,
        12 => 0x0E,
        13 => 0x0C,
        14 => 0x1A,
        15 => 0x0E,
        16 => 0x0C,
        17 => 0x10,
        18 => 0x18,
        19 => 0x12,
        20 => 0x30,
        21 => 0x14,
        22 => 0x60,
        23 => 0x16,
        24 => 0xC0,
        25 => 0x18,
        26 => 0x48,
        27 => 0x1A,
        28 => 0x10,
        29 => 0x1C,
        30 => 0x20,
        _ => 0x1E,
    }
}

/// The timer period of each of the 16 period indices of the noise channel.
pub open spec fn noise_period(index: u8) -> u16 {
    match index % 16 {
        0 => 0x004,
        1 => 0x008,
        2 => 0x010,
        3 => 0x020,
        4 => 0x040,
        5 => 0x060,
        6 => 0x080,
        7 => 0x0A0,
        8 => 0x0CA,
        9 => 0x0FE,
        10 => 0x17C,
        11 => 0x1FC,
        12 => 0x2FA,
        13 => 0x3F8,
        14 => 0x7F2,
        _ => 0xFE4,
    }
}

/// The timer period of each of the 16 period indices of the noise channel.
pub fn noise_period_at(index: u8) -> (r: u16)
    ensures
        r == noise_period(index),
{
    match index % 16 {
        0 => 0x004,
        1 => 0x008,
        2 => 0x010,
        3 => 0x020,
        4 => 0x040,
        5 => 0x060,
        6 => 0x080,
        7 => 0x0A0,
        8 => 0x0CA,
        9 => 0x0FE,
        10 => 0x17C,
        11 => 0x1FC,
        12 => 0x2FA,
        13 => 0x3F8,
        14 => 0x7F2,
        _ => 0xFE4,
    }
}

/// The timer period of each of the 16 rate indices of the sample channel.
pub open spec fn dmc_period(index: u8) -> u16 {
    match index % 16 {
        0 => 214,
        1 => 190,
        2 => 170,
        3 => 160,
        4 => 143,
        5 => 127,
        6 => 113,
        7 => 107,
        8 => 95,
        9 => 80,
        10 => 71,
        11 => 64,
        12 => 53,
        13 => 42,
        14 => 36,
        _ => 27,
    }
}

/// The timer period of each of the 16 rate indices of the sample channel.
pub fn dmc_period_at(index: u8) -> (r: u16)
    ensures
        r == dmc_period(index),
{
    match index % 16 {
        0 => 214,
        1 => 190,
        2 => 170,
        3 => 160,
        4 => 143,
        5 => 127,
        6 => 113,
        7 => 107,
        8 => 95,
        9 => 80,
        10 => 71,
        11 => 64,
        12 => 53,
        13 => 42,
        14 => 36,
        _ => 27,
    }
}

/// The level of the triangle wave at each of its 32 steps.
pub open spec fn triangle_level(index: u8) -> u8 {
    match index % 32 {
        0 => 15,
        1 => 14,
        2 => 13,
        3 => 12,
        4 => 11,
        5 => 10,
        6 => 9,
        7 => 8,
        8 => 7,
        9 => 6,
        10 => 5,
        11 => 4,
        12 => 3,
        13 => 2,
        14 => 1,
        15 => 0,
        16 => 0,
        17 => 1,
        18 => 2,
        19 => 3,
        20 => 4,
        21 => 5,
        22 => 6,
        23 => 7,
        24 => 8,
        25 => 9,
        26 => 10,
        27 => 11,
        28 => 12,
        29 => 13,
        30 => 14,
        _ => 15,
    }
}

/// The level of the triangle wave at each of its 32 steps.
pub fn triangle_level_at(index: u8) -> (r: u8)
    ensures
        r == triangle_level(index),
{
    match index % 32 {
        0 => 15,
        1 => 14,
        2 => 13,
        3 => 12,
        4 => 11,
        5 => 10,
        6 => 9,
        7 => 8,
        8 => 7,
        9 => 6,
        10 => 5,
        11 => 4,
        12 => 3,
        13 => 2,
        14 => 1,
        15 => 0,
        16 => 0,
        17 => 1,
        18 => 2,
        19 => 3,
        20 => 4,
        21 => 5,
        22 => 6,
        23 => 7,
        24 => 8,
        25 => 9,
        26 => 10,
        27 => 11,
        28 => 12,
        29 => 13,
        30 => 14,
        _ => 15,
    }
}

/// The level, 0 or 1, of a pulse wave: entry `duty * 8 + step` is that of
/// step `step` of duty pattern `duty`.
pub open spec fn duty_level(index: u8) -> u8 {
    match index % 32 {
        0 => 0,
        1 => 1,
        2 => 0,
        3 => 0,
        4 => 0,
        5 => 0,
        6 => 0,
        7 => 0,
        8 => 0,
        9 => 1,
        10 => 1,
        11 => 0,
        12 => 0,
        13 => 0,
        14 => 0,
        15 => 0,
        16 => 0,
        17 => 1,
        18 => 1,
        19 => 1,
        20 => 1,
        21 => 0,
        22 => 0,
        23 => 0,
        24 => 1,
        25 => 0,
        26 => 0,
        27 => 1,
        28 => 1,
        29 => 1,
        30 => 1,
        _ => 1,
    }
}

/// The level, 0 or 1, of a pulse wave: entry `duty * 8 + step` is that of
/// step `step` of duty pattern `duty`.
pub fn duty_level_at(index: u8) -> (r: u8)
    ensures
        r == duty_level(index),
{
    match index % 32 {
        0 => 0,
        1 => 1,
        2 => 0,
        3 => 0,
        4 => 0,
        5 => 0,
        6 => 0,
        7 => 0,
        8 => 0,
        9 => 1,
        10 => 1,
        11 => 0,
        12 => 0,
        13 => 0,
        14 => 0,
        15 => 0,
        16 => 0,
        17 => 1,
        18 => 1,
        19 => 1,
        20 => 1,
        21 => 0,
        22 => 0,
        23 => 0,
        24 => 1,
        25 => 0,
        26 => 0,
        27 => 1,
        28 => 1,
        29 => 1,
        30 => 1,
        _ => 1,
    }
}

} // verus!

use crate::fault::Fault;
use crate::types::Data;
use vstd::prelude::*;
use vstd::slice::{slice_subrange, slice_to_vec};

verus! {

pub const NES_HEADER_SIZE: usize = 0x0010;

pub const PROGRAM_ROM_SIZE: usize = 0x4000;

pub const CHARACTER_ROM_SIZE: usize = 0x2000;

/// What a cartridge image holds.
#[derive(Debug)]
pub struct Cassette {
    pub is_horizontal_mirror: bool,
    pub character_ram: Vec<Data>,
    pub program_rom: Vec<Data>,
    pub mapper: Data,
}

/// Where program memory ends and pattern memory starts in the image `buf`.
pub open spec fn character_rom_start(buf: Seq<Data>) -> int {
    NES_HEADER_SIZE + buf[4] * PROGRAM_ROM_SIZE
}

/// Where pattern memory ends in the image `buf`.
pub open spec fn character_rom_end(buf: Seq<Data>) -> int {
    character_rom_start(buf) + buf[5] * CHARACTER_ROM_SIZE
}

/// Whether `buf` is a whole image: a header of 16 bytes that starts with the
/// letters NES and the byte 0x1A, followed by all the pages that the header
/// announces.
pub open spec fn is_image(buf: Seq<Data>) -> bool {
    &&& buf.len() >= NES_HEADER_SIZE
    &&& buf[0] == 0x4E
    &&& buf[1] == 0x45
    &&& buf[2] == 0x53
    &&& buf[3] == 0x1A
    &&& buf.len() >= character_rom_end(buf)
}

/// The number of the mapper: its low half from the high half of byte 6, its
/// high half from the high half of byte 7.
pub open spec fn mapper_number(buf: Seq<Data>) -> Data {
    (buf[6] / 16 + (buf[7] / 16) * 16) as Data
}

/// The pattern memory of the image `buf`: the pages that follow program
/// memory, or 8 KiB of zeros where the image has none.
pub open spec fn character_memory(buf: Seq<Data>) -> Seq<Data> {
    if buf[5] == 0 {
        Seq::new(CHARACTER_ROM_SIZE as nat, |i: int| 0u8)
    } else {
        buf.subrange(character_rom_start(buf), character_rom_end(buf))
    }
}

/// Takes a cartridge image apart. An image that is no whole image is refused
/// as a bad cartridge.
pub fn parse(buf: &[Data]) -> (r: Result<Cassette, Fault>)
    ensures
        r is Ok <==> is_image(buf@),
        r matches Err(e) ==> e == Fault::BadCartridge,
        r matches Ok(c) ==> {
            &&& c.is_horizontal_mirror == (buf@[6] % 2 == 0)
            &&& c.mapper == mapper_number(buf@)
            &&& c.program_rom@ == buf@.subrange(
                NES_HEADER_SIZE as int,
                character_rom_start(buf@),
            )
            &&& c.character_ram@ == character_memory(buf@)
        },
{
    if buf.len() < NES_HEADER_SIZE {
        return Err(Fault::BadCartridge);
    }
    if buf[0] != 0x4E || buf[1] != 0x45 || buf[2] != 0x53 || buf[3] != 0x1A {
        return Err(Fault::BadCartridge);
    }
    let program_rom_pages = buf[4] as usize;
    let character_rom_pages = buf[5] as usize;
    let is_horizontal_mirror = buf[6] % 2 == 0;
    let mapper = buf[6] / 16 + (buf[7] / 16) * 16;
    let character_rom_start = NES_HEADER_SIZE + program_rom_pages * PROGRAM_ROM_SIZE;
    let character_rom_end = character_rom_start + character_rom_pages * CHARACTER_ROM_SIZE;
    if buf.len() < character_rom_end {
        return Err(Fault::BadCartridge);
    }
    let c_ram = if character_rom_start != character_rom_end {
        slice_to_vec(slice_subrange(buf, character_rom_start, character_rom_end))
    } else {
        let zeros = vec![0u8; CHARACTER_ROM_SIZE];
        assert(zeros@ =~= Seq::new(CHARACTER_ROM_SIZE as nat, |i: int| 0u8));
        zeros
    };
    Ok(
        Cassette {
            is_horizontal_mirror,
            program_rom: slice_to_vec(slice_subrange(buf, NES_HEADER_SIZE, character_rom_start)),
            character_ram: c_ram,
            mapper,
        },
    )
}

} // verus!

use crate::mapper::{Mapper, MapperState};
use crate::ram::Ram;
use crate::types::{widen, Addr, Data, Word};
use vstd::prelude::*;

verus! {

/// A pattern as rows of pixels, each pixel a colour number from 0 to 3.
pub type Sprite = Vec<Vec<Data>>;

/// A position as (x, y).
pub type SpritePosition = (Data, Data);

/// Where the picture unit finds the tables it draws from.
#[derive(Debug)]
pub struct SpriteConfig {
    pub offset_addr_by_name_table: Option<Word>,
    pub offset_addr_by_background_table: Word,
    pub offset_addr_by_sprite_table: Word,
    pub is_horizontal_mirror: bool,
    pub is_background_enable: bool,
}

/// The rows of a pattern as sequences.
pub open spec fn bitmap(s: Seq<Vec<Data>>) -> Seq<Seq<Data>> {
    Seq::new(s.len(), |i: int| s[i]@)
}

/// Which quarter of its 4x4 attribute block the tile at `pos` lies in: 0 top
/// left, 1 top right, 2 bottom left, 3 bottom right.
pub open spec fn block_id(pos: SpritePosition) -> Data {
    (((pos.0 % 4) / 2) + (((pos.1 % 4) / 2) * 2)) as Data
}

/// The cell of name-table memory that stands for `addr` under the given
/// mirroring. With vertical mirroring the lower two tables repeat the upper
/// two; with horizontal mirroring the second and the fourth repeat the table
/// before them.
pub open spec fn mirror_down(addr: Addr, is_horizontal_mirror: bool) -> Addr {
    if !is_horizontal_mirror {
        if 0x0800 <= addr < 0x1000 {
            (addr - 0x0800) as Addr
        } else {
            addr
        }
    } else {
        if (0x0400 <= addr < 0x0800) || addr >= 0x0C00 {
            (addr - 0x0400) as Addr
        } else {
            addr
        }
    }
}

/// The address in name-table space of the number of the tile at `pos` in the
/// table at `table`.
pub open spec fn tile_addr(pos: SpritePosition, table: Word) -> int {
    pos.1 * 32 + pos.0 + table
}

/// The address in name-table space of the attribute byte of the tile at `pos`
/// in the table at `table`.
pub open spec fn attribute_addr(pos: SpritePosition, table: Word) -> int {
    table + 0x03C0 + pos.0 / 4 + (pos.1 / 4) * 8
}

/// The byte of pattern memory at pattern address `addr`, as the mapper places
/// it. An address that the mapper sends past the end of pattern memory reads 0.
pub open spec fn chr_byte(cram: Seq<Data>, mapper: MapperState, addr: Addr) -> Data {
    let index = mapper.cram_index(addr);
    if 0 <= index < cram.len() {
        cram[index]
    } else {
        0
    }
}

/// Whether the bit of column `col` is set in a byte of a pattern plane. Column
/// 0 is the most significant bit.
pub open spec fn pattern_bit(data: Data, col: u8) -> bool {
    data & (0x80u8 >> col) != 0
}

/// The pixel at (`col`, `row`) of the pattern of tile `tile_id` in the pattern
/// table at `offset`. Each tile takes 16 bytes: eight rows of the low plane,
/// then eight rows of the high plane. Rows from 8 on belong to the next tile.
pub open spec fn pattern_pixel(
    cram: Seq<Data>,
    mapper: MapperState,
    tile_id: Data,
    offset: Addr,
    row: int,
    col: int,
) -> Data {
    let base = (tile_id + row / 8) * 16 + row % 8 + offset;
    let low: Data = if pattern_bit(chr_byte(cram, mapper, base as Addr), col as u8) {
        1
    } else {
        0
    };
    let high: Data = if pattern_bit(chr_byte(cram, mapper, (base + 8) as Addr), col as u8) {
        2
    } else {
        0
    };
    (low + high) as Data
}

/// The pattern of tile `tile_id`: 8 rows of 8 pixels, or 16 rows where
/// `is_8x8` is false.
pub open spec fn pattern(
    cram: Seq<Data>,
    mapper: MapperState,
    tile_id: Data,
    offset: Addr,
    is_8x8: bool,
) -> Seq<Seq<Data>> {
    Seq::new(
        if is_8x8 {
            8
        } else {
            16
        },
        |row: int| Seq::new(8, |col: int| pattern_pixel(cram, mapper, tile_id, offset, row, col)),
    )
}

pub fn get_block_id(pos: &SpritePosition) -> (r: Data)
    ensures
        r == block_id(*pos),
        r <= 3,
{
    ((pos.0 % 4) / 2) + (((pos.1 % 4) / 2) * 2)
}

/// The number of the tile at `pos`, from the name table that `config` names.
pub fn get_tile_id(vram: &Ram, pos: &SpritePosition, config: &SpriteConfig) -> (r: Data)
    requires
        config.offset_addr_by_name_table is Some,
        tile_addr(*pos, config.offset_addr_by_name_table->0) <= 0xFFFF,
        mirror_down(
            tile_addr(*pos, config.offset_addr_by_name_table->0) as Addr,
            config.is_horizontal_mirror,
        ) < vram@.len(),
    ensures
        r == vram@[mirror_down(
            tile_addr(*pos, config.offset_addr_by_name_table->0) as Addr,
            config.is_horizontal_mirror,
        ) as int],
{
    let tile_number = widen(pos.1) * 32 + widen(pos.0);
    let addr = tile_number + config.offset_addr_by_name_table.unwrap();
    let addr = mirror_down_sprite_addr(addr, config.is_horizontal_mirror);
    vram.read(addr)
}

/// The attribute byte of the tile at `pos`, from the name table that `config`
/// names.
pub fn get_attribute(vram: &Ram, pos: &SpritePosition, config: &SpriteConfig) -> (r: Data)
    requires
        config.offset_addr_by_name_table is Some,
        attribute_addr(*pos, config.offset_addr_by_name_table->0) <= 0xFFFF,
        mirror_down(
            attribute_addr(*pos, config.offset_addr_by_name_table->0) as Addr,
            config.is_horizontal_mirror,
        ) < vram@.len(),
    ensures
        r == vram@[mirror_down(
            attribute_addr(*pos, config.offset_addr_by_name_table->0) as Addr,
            config.is_horizontal_mirror,
        ) as int],
{
    let addr = config.offset_addr_by_name_table.unwrap() + 0x03C0 + (widen(pos.0 / 4) + widen(
        pos.1 / 4,
    ) * 8);
    vram.read(mirror_down_sprite_addr(addr, config.is_horizontal_mirror))
}

pub fn mirror_down_sprite_addr(addr: Addr, is_horizontal_mirror: bool) -> (r: Addr)
    ensures
        r == mirror_down(addr, is_horizontal_mirror),
        r <= addr,
{
    if !is_horizontal_mirror {
        if 0x0800 <= addr && addr < 0x1000 {
            return addr - 0x0800;
        }
        return addr;
    } else {
        if (0x0400 <= addr && addr < 0x0800) || addr >= 0x0C00 {
            return addr - 0x400;
        }
        return addr
    }
}

/// Reads pattern memory at pattern address `addr`, as the mapper places it.
pub fn read_chr(cram: &Ram, mapper: &Mapper, addr: Addr) -> (d: Data)
    requires
        mapper.wf(),
        addr < 0x2000,
    ensures
        d == chr_byte(cram@, mapper@, addr),
{
    let index = mapper.get_cram_index(addr);
    if index < cram.size() {
        cram.field[index]
    } else {
        0
    }
}

/// One row of a pattern.
fn build_row(cram: &Ram, tile_id: Data, offset: Addr, row: u16, mapper: &Mapper) -> (r: Vec<Data>)
    requires
        mapper.wf(),
        row < 16,
        offset + (tile_id + row / 8 + 1) * 16 <= 0x2000,
    ensures
        r@ == Seq::new(
            8,
            |col: int| pattern_pixel(cram@, mapper@, tile_id, offset, row as int, col),
        ),
{
    let base: Addr = (widen(tile_id) + row / 8) * 16 + row % 8 + offset;
    let low = read_chr(cram, mapper, base);
    let high = read_chr(cram, mapper, base + 8);
    let mut line: Vec<Data> = Vec::new();
    let mut j: u8 = 0;
    while j < 8
        invariant
            j <= 8,
            line@.len() == j,
            base == (tile_id + row / 8) * 16 + row % 8 + offset,
            low == chr_byte(cram@, mapper@, base),
            high == chr_byte(cram@, mapper@, (base + 8) as Addr),
            forall|col: int|
                0 <= col < j ==> line@[col] == pattern_pixel(
                    cram@,
                    mapper@,
                    tile_id,
                    offset,
                    row as int,
                    col,
                ),
        decreases 8 - j,
    {
        let mut v: Data = 0;
        if low & (0x80u8 >> j) != 0 {
            v = v + 1;
        }
        if high & (0x80u8 >> j) != 0 {
            v = v + 2;
        }
        line.push(v);
        j = j + 1;
    }
    assert(line@ =~= Seq::new(
        8,
        |col: int| pattern_pixel(cram@, mapper@, tile_id, offset, row as int, col),
    ));
    line
}

/// Expands the pattern of tile `tile_id` in the pattern table at `offset`.
pub fn build(cram: &Ram, tile_id: Data, offset: Addr, is_8x8: bool, mapper: &Mapper) -> (sprite:
    Sprite)
    requires
        mapper.wf(),
        offset + (tile_id + (if is_8x8 {
            1int
        } else {
            2int
        })) * 16 <= 0x2000,
    ensures
        bitmap(sprite@) == pattern(cram@, mapper@, tile_id, offset, is_8x8),
{
    let h: u16 = if is_8x8 {
        8
    } else {
        16
    };
    let mut sprite: Sprite = Vec::new();
    let mut row: u16 = 0;
    while row < h
        invariant
            mapper.wf(),
            h == 8 || h == 16,
            row <= h,
            offset + (tile_id + h / 8) * 16 <= 0x2000,
            sprite@.len() == row,
            forall|i: int|
                0 <= i < row ==> (#[trigger] sprite@[i])@ == Seq::new(
                    8,
                    |col: int| pattern_pixel(cram@, mapper@, tile_id, offset, i, col),
                ),
        decreases h - row,
    {
        let line = build_row(cram, tile_id, offset, row, mapper);
        sprite.push(line);
        row = row + 1;
    }
    assert(bitmap(sprite@) =~= pattern(cram@, mapper@, tile_id, offset, is_8x8));
    sprite
}

} // verus!

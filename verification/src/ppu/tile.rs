use super::palette::{palette_colors, Palette, PaletteList, PaletteType};
use super::sprite_utils::{
    attribute_addr, bitmap, block_id, build, get_attribute, get_block_id, get_tile_id,
    mirror_down, pattern, tile_addr, Sprite, SpriteConfig, SpritePosition,
};
use crate::mapper::{Mapper, MapperState};
use crate::ram::Ram;
use crate::types::{Addr, Data, Word};
use vstd::prelude::*;

verus! {

/// One background tile, ready to draw: its pattern and its four colours.
#[derive(Debug)]
pub struct Tile {
    pub sprite: Sprite,
    pub palette: PaletteList,
}

/// What a tile holds.
pub ghost struct TileState {
    pub pixels: Seq<Seq<Data>>,
    pub palette: Seq<Data>,
}

impl View for Tile {
    type V = TileState;

    open spec fn view(&self) -> TileState {
        TileState { pixels: bitmap(self.sprite@), palette: self.palette@ }
    }
}

/// The number of the palette of the tile at `pos`: two bits of its attribute
/// byte, picked by the quarter of the attribute block that the tile lies in.
pub open spec fn tile_palette_id(attr: Data, pos: SpritePosition) -> Data {
    (attr >> ((block_id(pos) * 2) as Data)) & 0x03
}

/// The tile at `pos` of the name table at `table`.
pub open spec fn tile_at(
    vram: Seq<Data>,
    cram: Seq<Data>,
    palette: Seq<Data>,
    mapper: MapperState,
    pos: SpritePosition,
    table: Word,
    pattern_table: Word,
    is_horizontal_mirror: bool,
) -> TileState {
    let tile_id = vram[mirror_down(tile_addr(pos, table) as Addr, is_horizontal_mirror) as int];
    let attr = vram[mirror_down(attribute_addr(pos, table) as Addr, is_horizontal_mirror) as int];
    TileState {
        pixels: pattern(cram, mapper, tile_id, pattern_table, true),
        palette: palette_colors(palette, tile_palette_id(attr, pos), PaletteType::Background),
    }
}

impl Tile {
    /// Builds the tile at `pos` of the name table that `config` names.
    pub fn new(
        vram: &Ram,
        cram: &Ram,
        palette: &Palette,
        pos: &SpritePosition,
        config: &SpriteConfig,
        mapper: &Mapper,
    ) -> (t: Self)
        requires
            mapper.wf(),
            palette.wf(),
            pos.0 < 32,
            pos.1 < 30,
            config.offset_addr_by_name_table is Some,
            config.offset_addr_by_name_table->0 <= 0x0C00,
            config.offset_addr_by_background_table <= 0x1000,
            vram@.len() >= 0x1000,
        ensures
            t@ == tile_at(
                vram@,
                cram@,
                palette@,
                mapper@,
                *pos,
                config.offset_addr_by_name_table->0,
                config.offset_addr_by_background_table,
                config.is_horizontal_mirror,
            ),
    {
        let block_id = get_block_id(pos);
        let tile_id = get_tile_id(vram, pos, config);
        let attr = get_attribute(vram, pos, config);
        let palette_id = (attr >> (block_id * 2)) & 0x03;
        let sprite = build(cram, tile_id, config.offset_addr_by_background_table, true, mapper);
        Tile { sprite, palette: palette.get(palette_id, PaletteType::Background) }
    }
}

} // verus!

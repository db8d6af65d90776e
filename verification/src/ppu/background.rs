use super::palette::Palette;
use super::sprite_utils::{SpriteConfig, SpritePosition};
use super::tile::{tile_at, Tile, TileState};
use crate::mapper::{Mapper, MapperState};
use crate::ram::Ram;
use crate::types::{widen, Data, Word};
use vstd::prelude::*;

verus! {

/// One background tile with what the renderer needs to place it.
#[derive(Debug)]
pub struct BackgroundCtx {
    pub tile: Tile,
    pub scroll_x: Data,
    pub scroll_y: Data,
    pub is_enabled: bool,
}

/// What a background tile holds.
pub ghost struct BackgroundTile {
    pub tile: TileState,
    pub scroll_x: Data,
    pub scroll_y: Data,
    pub is_enabled: bool,
}

impl View for BackgroundCtx {
    type V = BackgroundTile;

    open spec fn view(&self) -> BackgroundTile {
        BackgroundTile {
            tile: self.tile@,
            scroll_x: self.scroll_x,
            scroll_y: self.scroll_y,
            is_enabled: self.is_enabled,
        }
    }
}

pub type BackgroundField = Vec<BackgroundCtx>;

/// The tiles of a field, in order.
pub open spec fn field_tiles(field: Seq<BackgroundCtx>) -> Seq<BackgroundTile> {
    Seq::new(field.len(), |i: int| field[i]@)
}

/// The background of one frame: strips of 33 tiles, top strip first.
#[derive(Debug)]
pub struct Background(pub BackgroundField);

impl View for Background {
    type V = Seq<BackgroundTile>;

    open spec fn view(&self) -> Seq<BackgroundTile> {
        field_tiles(self.0@)
    }
}

pub const TILE_PER_LINE: Data = 32;

/// The name table, as an offset into name-table space, that column `tile_x`
/// of tile row `tile_y` falls in. The four tables lie two by two; a column past
/// 31 is in the table to the right, a row past 29 in the table below.
pub open spec fn name_table_of(tile_x: int, tile_y: int) -> Word {
    ((((tile_x / 32) % 2) + (if (tile_y / 30) % 2 == 0 {
        0int
    } else {
        2int
    })) * 0x400) as Word
}

/// Tile `x` of the strip that starts at column `tile.0` of tile row `tile.1`.
pub open spec fn strip_tile(
    vram: Seq<Data>,
    cram: Seq<Data>,
    palette: Seq<Data>,
    mapper: MapperState,
    tile: (Data, Data),
    scroll: (Data, Data),
    config: SpriteConfig,
    x: int,
) -> BackgroundTile {
    BackgroundTile {
        tile: tile_at(
            vram,
            cram,
            palette,
            mapper,
            (((x + tile.0) % 32) as Data, (tile.1 % 30) as Data),
            name_table_of(x + tile.0, tile.1 as int),
            config.offset_addr_by_background_table,
            config.is_horizontal_mirror,
        ),
        scroll_x: scroll.0,
        scroll_y: scroll.1,
        is_enabled: config.is_background_enable,
    }
}

/// The strip of 33 tiles that starts at column `tile.0` of tile row `tile.1`:
/// one tile more than the screen is wide, for scrolling.
pub open spec fn strip(
    vram: Seq<Data>,
    cram: Seq<Data>,
    palette: Seq<Data>,
    mapper: MapperState,
    tile: (Data, Data),
    scroll: (Data, Data),
    config: SpriteConfig,
) -> Seq<BackgroundTile> {
    Seq::new(33, |x: int| strip_tile(vram, cram, palette, mapper, tile, scroll, config, x))
}

impl Background {
    pub fn new() -> (b: Self)
        ensures
            b@ == Seq::<BackgroundTile>::empty(),
    {
        let b = Background(Vec::new());
        assert(b@ =~= Seq::<BackgroundTile>::empty());
        b
    }

    pub fn clear(&mut self)
        ensures
            final(self)@ == Seq::<BackgroundTile>::empty(),
    {
        self.0 = Vec::new();
        assert(self@ =~= Seq::<BackgroundTile>::empty());
    }

    /// Adds the strip of 33 tiles that starts at column `tile.0` of tile row
    /// `tile.1`. `config` is left naming the name table of the last tile.
    pub fn build_line(
        &mut self,
        vram: &Ram,
        cram: &Ram,
        palette: &Palette,
        tile: (Data, Data),
        scroll: (Data, Data),
        config: &mut SpriteConfig,
        mapper: &Mapper,
    )
        requires
            mapper.wf(),
            palette.wf(),
            vram@.len() >= 0x1000,
            old(config).offset_addr_by_background_table <= 0x1000,
        ensures
            final(self)@ == old(self)@ + strip(
                vram@,
                cram@,
                palette@,
                mapper@,
                tile,
                scroll,
                *old(config),
            ),
            *final(config) == (SpriteConfig {
                offset_addr_by_name_table: Some(name_table_of(32 + tile.0, tile.1 as int)),
                ..*old(config)
            }),
    {
        let clamped_tile_y = tile.1 % 30;
        let table_id_offset: Word = if (tile.1 / 30) % 2 == 0 {
            0
        } else {
            2
        };
        let ghost before = self@;
        let ghost wanted = strip(vram@, cram@, palette@, mapper@, tile, scroll, *old(config));
        let mut x: Word = 0;
        while x < widen(TILE_PER_LINE) + 1
            invariant
                mapper.wf(),
                palette.wf(),
                vram@.len() >= 0x1000,
                x <= 33,
                clamped_tile_y == tile.1 % 30,
                table_id_offset == (if (tile.1 / 30) % 2 == 0 {
                    0int
                } else {
                    2int
                }),
                wanted == strip(vram@, cram@, palette@, mapper@, tile, scroll, *old(config)),
                config.offset_addr_by_background_table == old(
                    config,
                ).offset_addr_by_background_table,
                config.offset_addr_by_sprite_table == old(config).offset_addr_by_sprite_table,
                config.is_horizontal_mirror == old(config).is_horizontal_mirror,
                config.is_background_enable == old(config).is_background_enable,
                config.offset_addr_by_background_table <= 0x1000,
                x > 0 ==> config.offset_addr_by_name_table == Some(
                    name_table_of(x - 1 + tile.0, tile.1 as int),
                ),
                self@.len() == before.len() + x,
                forall|i: int| 0 <= i < before.len() ==> self@[i] == before[i],
                forall|i: int| 0 <= i < x ==> self@[before.len() + i] == wanted[i],
            decreases 33 - x,
        {
            let tile_x = x + widen(tile.0);
            let clamped_tile_x = tile_x % widen(TILE_PER_LINE);
            let name_table_id = ((tile_x / widen(TILE_PER_LINE)) % 2) + table_id_offset;
            config.offset_addr_by_name_table = Some(name_table_id * 0x400);
            let position: SpritePosition = (clamped_tile_x as u8, clamped_tile_y);
            let ghost prev = self@;
            let t = Tile::new(vram, cram, palette, &position, config, mapper);
            self.0.push(
                BackgroundCtx {
                    tile: t,
                    scroll_x: scroll.0,
                    scroll_y: scroll.1,
                    is_enabled: config.is_background_enable,
                },
            );
            assert(forall|i: int| 0 <= i < prev.len() ==> self@[i] == prev[i]);
            x = x + 1;
        }
        assert(self@ =~= before + wanted);
    }
}

} // verus!

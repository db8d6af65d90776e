use super::palette::{palette_colors, Palette, PaletteList, PaletteType};
use super::sprite_utils::{bitmap, build, pattern, Sprite, SpritePosition};
use crate::mapper::{Mapper, MapperState};
use crate::ram::Ram;
use crate::types::{Addr, Data};
use vstd::prelude::*;

verus! {

/// The number of bytes of sprite memory.
pub const OAM_RAM_CAPACITY: u16 = 0x100;

pub type SpritesWithCtx = Vec<SpriteWithCtx>;

/// One sprite, ready to draw.
#[derive(Debug)]
pub struct SpriteWithCtx {
    pub sprite: Sprite,
    pub position: SpritePosition,
    pub attr: Data,
    pub palette: PaletteList,
}

/// What a sprite holds.
pub ghost struct SpriteState {
    pub pixels: Seq<Seq<Data>>,
    pub position: SpritePosition,
    pub attr: Data,
    pub palette: Seq<Data>,
}

impl View for SpriteWithCtx {
    type V = SpriteState;

    open spec fn view(&self) -> SpriteState {
        SpriteState {
            pixels: bitmap(self.sprite@),
            position: self.position,
            attr: self.attr,
            palette: self.palette@,
        }
    }
}

/// The sprites of a list, in order.
pub open spec fn sprite_states(sprites: Seq<SpriteWithCtx>) -> Seq<SpriteState> {
    Seq::new(sprites.len(), |i: int| sprites[i]@)
}

/// Whether entry `i` of sprite memory is drawn: its y lies from 8 to 243.
pub open spec fn sprite_listed(oam: Seq<Data>, i: int) -> bool {
    8 <= oam[i * 4] < 244
}

/// The sprite of entry `i` of sprite memory. Its four bytes are y, tile
/// number, attributes and x. A sprite of 16 rows takes its pattern table from
/// bit 0 of the tile number and its tiles from the rest. The position is
/// eight lines up, as the first eight lines are never shown.
pub open spec fn sprite_at(
    cram: Seq<Data>,
    oam: Seq<Data>,
    palette: Seq<Data>,
    mapper: MapperState,
    offset: Addr,
    is_8x8: bool,
    i: int,
) -> SpriteState {
    let y = oam[i * 4];
    let id = oam[i * 4 + 1];
    let attr = oam[i * 4 + 2];
    let x = oam[i * 4 + 3];
    SpriteState {
        pixels: if is_8x8 {
            pattern(cram, mapper, id, offset, true)
        } else {
            pattern(cram, mapper, ((id / 2) * 2) as Data, (0x1000 * (id % 2)) as Addr, false)
        },
        position: (x, (y - 8) as Data),
        attr: attr,
        palette: palette_colors(palette, attr % 4, PaletteType::Sprite),
    }
}

/// The sprites of the first `n` entries of sprite memory that are drawn, in
/// the order of the entries.
pub open spec fn sprites_of(
    cram: Seq<Data>,
    oam: Seq<Data>,
    palette: Seq<Data>,
    mapper: MapperState,
    offset: Addr,
    is_8x8: bool,
    n: int,
) -> Seq<SpriteState>
    decreases n,
{
    if n <= 0 {
        Seq::empty()
    } else {
        let before = sprites_of(cram, oam, palette, mapper, offset, is_8x8, n - 1);
        if sprite_listed(oam, n - 1) {
            before.push(sprite_at(cram, oam, palette, mapper, offset, is_8x8, n - 1))
        } else {
            before
        }
    }
}

/// Builds the sprites of all 64 entries of sprite memory that are drawn.
pub fn build_sprites(
    cram: &Ram,
    oam_ram: &Ram,
    palette: &Palette,
    offset: Addr,
    is_8x8: bool,
    mapper: &Mapper,
) -> (sprites: SpritesWithCtx)
    requires
        mapper.wf(),
        palette.wf(),
        oam_ram@.len() >= 0x100,
        offset <= 0x1000,
    ensures
        sprite_states(sprites@) == sprites_of(
            cram@,
            oam_ram@,
            palette@,
            mapper@,
            offset,
            is_8x8,
            64,
        ),
{
    let mut buf: SpritesWithCtx = Vec::new();
    let mut i: u16 = 0;
    assert(sprite_states(buf@) =~= sprites_of(
        cram@,
        oam_ram@,
        palette@,
        mapper@,
        offset,
        is_8x8,
        0,
    ));
    while i < OAM_RAM_CAPACITY / 4
        invariant
            mapper.wf(),
            palette.wf(),
            oam_ram@.len() >= 0x100,
            offset <= 0x1000,
            i <= 64,
            sprite_states(buf@) == sprites_of(
                cram@,
                oam_ram@,
                palette@,
                mapper@,
                offset,
                is_8x8,
                i as int,
            ),
        decreases 64 - i,
    {
        let base = i * 4;
        let y = oam_ram.read(base);
        if 8 <= y && y < 244 {
            let sprite_id = oam_ram.read(base + 1);
            let attr = oam_ram.read(base + 2);
            let (table, sprite_id) = if is_8x8 {
                (offset, sprite_id)
            } else {
                (0x1000u16 * ((sprite_id % 2) as u16), (sprite_id / 2) * 2)
            };
            let x = oam_ram.read(base + 3);
            let sprite = build(cram, sprite_id, table, is_8x8, mapper);
            let position: SpritePosition = (x, y - 8);
            let palette_id = attr % 4;
            let ghost prev = sprite_states(buf@);
            buf.push(
                SpriteWithCtx {
                    sprite,
                    position,
                    attr,
                    palette: palette.get(palette_id, PaletteType::Sprite),
                },
            );
            assert(sprite_states(buf@) =~= prev.push(
                sprite_at(cram@, oam_ram@, palette@, mapper@, offset, is_8x8, i as int),
            ));
        }
        i = i + 1;
    }
    buf
}

} // verus!

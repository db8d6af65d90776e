use self::color::{color, color_of, Color};
use super::background::{field_tiles, BackgroundCtx, BackgroundField, BackgroundTile};
use super::sprite::{sprite_states, SpriteState, SpriteWithCtx, SpritesWithCtx};
use crate::types::{index8, Data};
use vstd::prelude::*;

pub mod color;

verus! {

/// The width of the picture in pixels.
pub const WIDTH: usize = 256;

/// The height of the picture in pixels.
pub const HEIGHT: usize = 240;

/// Turns the tiles and sprites of a frame into a picture of 256 by 240
/// pixels, four bytes each: red, green, blue and alpha.
#[derive(Debug)]
pub struct Renderer {
    buf: Vec<Data>,
}

impl View for Renderer {
    type V = Seq<Data>;

    closed spec fn view(&self) -> Seq<Data> {
        self.buf@
    }
}

/// Whether a pattern has `rows` rows of at least 8 pixels, each pixel a colour
/// number from 0 to 3.
pub open spec fn pixels_ok(pixels: Seq<Seq<Data>>, rows: int) -> bool {
    &&& pixels.len() == rows
    &&& forall|i: int, j: int|
        0 <= i < rows && 0 <= j < 8 ==> pixels[i].len() >= 8 && #[trigger] pixels[i][j] < 4
}

/// Whether a background tile can be drawn: 8 rows and a palette of four.
pub open spec fn tile_ok(t: BackgroundTile) -> bool {
    pixels_ok(t.tile.pixels, 8) && t.tile.palette.len() == 4
}

/// Whether a sprite can be drawn: 8 or 16 rows and a palette of four.
pub open spec fn sprite_ok(s: SpriteState) -> bool {
    (pixels_ok(s.pixels, 8) || pixels_ok(s.pixels, 16)) && s.palette.len() == 4
}

/// Whether every tile of a background can be drawn.
pub open spec fn background_ok(background: Seq<BackgroundTile>) -> bool {
    forall|i: int| 0 <= i < background.len() ==> tile_ok(#[trigger] background[i])
}

/// Whether every sprite of a list can be drawn.
pub open spec fn sprites_ok(sprites: Seq<SpriteState>) -> bool {
    forall|i: int| 0 <= i < sprites.len() ==> sprite_ok(#[trigger] sprites[i])
}

/// The picture with the pixel at (`x`, `y`) set to colour `c`. Where `clip` is
/// set, a pixel in the first eight columns is made transparent.
pub open spec fn plot(buf: Seq<Data>, x: int, y: int, c: Color, clip: bool) -> Seq<Data> {
    let index = (x + y * 0x100) * 4;
    let drawn = buf.update(index, c.0).update(index + 1, c.1).update(index + 2, c.2);
    if clip && x < 8 {
        drawn.update(index + 3, 0)
    } else {
        drawn
    }
}

/// The picture with pixel `n` of a background tile drawn, the pixels counted
/// row by row. The tile stands at (`x0`, `y0`), moved left and up by the fine
/// scroll. Pixels off the screen are left out.
pub open spec fn tile_pixel_drawn(
    buf: Seq<Data>,
    t: BackgroundTile,
    x0: int,
    y0: int,
    clip: bool,
    n: int,
) -> Seq<Data> {
    let i = n / 8;
    let j = n % 8;
    let x = x0 + j - t.scroll_x % 8;
    let y = y0 + i - t.scroll_y % 8;
    if 0 <= x < WIDTH && 0 <= y < HEIGHT {
        plot(buf, x, y, color_of(t.tile.palette[t.tile.pixels[i][j] as int]), clip)
    } else {
        buf
    }
}

/// The picture with the first `n` pixels of a background tile drawn.
pub open spec fn tile_drawn(
    buf: Seq<Data>,
    t: BackgroundTile,
    x0: int,
    y0: int,
    clip: bool,
    n: int,
) -> Seq<Data>
    decreases n,
{
    if n <= 0 {
        buf
    } else {
        tile_pixel_drawn(tile_drawn(buf, t, x0, y0, clip, n - 1), t, x0, y0, clip, n - 1)
    }
}

/// The picture with the first `n` tiles of a background drawn. Tile `i` stands
/// in column `i % 33` of row `i / 33`; tiles that are not enabled are left
/// out.
pub open spec fn background_drawn(
    buf: Seq<Data>,
    background: Seq<BackgroundTile>,
    clip: bool,
    n: int,
) -> Seq<Data>
    decreases n,
{
    if n <= 0 {
        buf
    } else {
        let before = background_drawn(buf, background, clip, n - 1);
        let t = background[n - 1];
        if t.is_enabled {
            tile_drawn(before, t, ((n - 1) % 33) * 8, ((n - 1) / 33) * 8, clip, 64)
        } else {
            before
        }
    }
}

/// Whether the background hides a sprite of low priority at (`x`, `y`): the
/// tile of the background that stands there has a colour other than 0 at that
/// pixel.
pub open spec fn pixel_hidden(background: Seq<BackgroundTile>, x: int, y: int) -> bool {
    let index = (y / 8) * 33 + x / 8;
    index < background.len() && background[index].tile.pixels[y % 8][x % 8] % 4 != 0
}

/// The picture with pixel `n` of a sprite drawn, the pixels counted row by
/// row. Bits 7 and 6 of the attributes flip the sprite top to bottom and left
/// to right; bit 5 puts it behind the background. Colour 0 is transparent.
pub open spec fn sprite_pixel_drawn(
    buf: Seq<Data>,
    s: SpriteState,
    background: Seq<BackgroundTile>,
    clip: bool,
    n: int,
) -> Seq<Data> {
    let i = n / 8;
    let j = n % 8;
    let h = s.pixels.len() as int;
    let y = s.position.1 + (if s.attr >= 0x80 {
        h - 1 - i
    } else {
        i
    });
    let x = s.position.0 + (if (s.attr / 0x40) % 2 == 1 {
        7 - j
    } else {
        j
    });
    if y >= HEIGHT || x >= WIDTH {
        buf
    } else if (s.attr / 0x20) % 2 == 1 && pixel_hidden(background, x, y) {
        buf
    } else if s.pixels[i][j] != 0 {
        plot(buf, x, y, color_of(s.palette[s.pixels[i][j] as int]), clip)
    } else {
        buf
    }
}

/// The picture with the first `n` pixels of a sprite drawn.
pub open spec fn sprite_drawn(
    buf: Seq<Data>,
    s: SpriteState,
    background: Seq<BackgroundTile>,
    clip: bool,
    n: int,
) -> Seq<Data>
    decreases n,
{
    if n <= 0 {
        buf
    } else {
        sprite_pixel_drawn(
            sprite_drawn(buf, s, background, clip, n - 1),
            s,
            background,
            clip,
            n - 1,
        )
    }
}

/// The picture with the first `n` sprites of a list drawn, each over those
/// before it.
pub open spec fn sprites_drawn(
    buf: Seq<Data>,
    sprites: Seq<SpriteState>,
    background: Seq<BackgroundTile>,
    clip: bool,
    n: int,
) -> Seq<Data>
    decreases n,
{
    if n <= 0 {
        buf
    } else {
        let before = sprites_drawn(buf, sprites, background, clip, n - 1);
        sprite_drawn(
            before,
            sprites[n - 1],
            background,
            clip,
            (sprites[n - 1].pixels.len() * 8) as int,
        )
    }
}

/// The picture of a frame: the background drawn over what was there, then
/// the sprites.
pub open spec fn rendered(
    buf: Seq<Data>,
    background: Seq<BackgroundTile>,
    sprites: Seq<SpriteState>,
    bg_clip: bool,
    sprite_clip: bool,
) -> Seq<Data> {
    sprites_drawn(
        background_drawn(buf, background, bg_clip, background.len() as int),
        sprites,
        background,
        sprite_clip,
        sprites.len() as int,
    )
}

impl Renderer {
    /// The picture has its 256 by 240 pixels.
    pub open spec fn wf(&self) -> bool {
        self@.len() == WIDTH * HEIGHT * 4
    }

    /// A renderer with a picture that is white and opaque all over.
    pub fn new() -> (r: Self)
        ensures
            r.wf(),
            r@ == Seq::new((WIDTH * HEIGHT * 4) as nat, |i: int| 0xFFu8),
    {
        let r = Renderer { buf: vec![0xFFu8; 256 * 240 * 4] };
        assert(r@ =~= Seq::new((WIDTH * HEIGHT * 4) as nat, |i: int| 0xFFu8));
        r
    }

    /// Draws a frame over the picture: the background, then the sprites.
    pub fn render(
        &mut self,
        background: &BackgroundField,
        sprites: &SpritesWithCtx,
        bg_clip: bool,
        sprite_clip: bool,
    )
        requires
            old(self).wf(),
            background_ok(field_tiles(background@)),
            sprites_ok(sprite_states(sprites@)),
        ensures
            final(self).wf(),
            final(self)@ == rendered(
                old(self)@,
                field_tiles(background@),
                sprite_states(sprites@),
                bg_clip,
                sprite_clip,
            ),
    {
        self.render_background(background, bg_clip);
        self.render_sprites(sprites, background, sprite_clip);
    }

    /// Sets the pixel at (`x`, `y`).
    fn plot(&mut self, x: usize, y: usize, c: Color, clip: bool)
        requires
            old(self).wf(),
            x < WIDTH,
            y < HEIGHT,
        ensures
            final(self).wf(),
            final(self)@ == plot(old(self)@, x as int, y as int, c, clip),
    {
        let index = (x + (y * 0x100)) * 4;
        self.buf[index] = c.0;
        self.buf[index + 1] = c.1;
        self.buf[index + 2] = c.2;
        if clip && x < 8 {
            self.buf[index + 3] = 0;
        }
    }

    fn render_background(&mut self, background: &BackgroundField, clip: bool)
        requires
            old(self).wf(),
            background_ok(field_tiles(background@)),
        ensures
            final(self).wf(),
            final(self)@ == background_drawn(
                old(self)@,
                field_tiles(background@),
                clip,
                background@.len() as int,
            ),
    {
        let mut i: usize = 0;
        while i < background.len()
            invariant
                self.wf(),
                i <= background@.len(),
                background_ok(field_tiles(background@)),
                self@ == background_drawn(old(self)@, field_tiles(background@), clip, i as int),
            decreases background@.len() - i,
        {
            let bg = &background[i];
            assert(field_tiles(background@)[i as int] == bg@);
            if bg.is_enabled {
                let x = (i % 33) * 8;
                let y = (i / 33) * 8;
                self.render_tile(bg, x, y, clip);
            }
            i = i + 1;
        }
    }

    fn render_tile(&mut self, bg: &BackgroundCtx, x: usize, y: usize, clip: bool)
        requires
            old(self).wf(),
            tile_ok(bg@),
            x <= 33 * 8,
        ensures
            final(self).wf(),
            final(self)@ == tile_drawn(old(self)@, bg@, x as int, y as int, clip, 64),
    {
        let offset_x = index8(bg.scroll_x % 8);
        let offset_y = index8(bg.scroll_y % 8);
        let mut n: usize = 0;
        while n < 64
            invariant
                self.wf(),
                tile_ok(bg@),
                n <= 64,
                x <= 33 * 8,
                offset_x == bg.scroll_x % 8,
                offset_y == bg.scroll_y % 8,
                self@ == tile_drawn(old(self)@, bg@, x as int, y as int, clip, n as int),
            decreases 64 - n,
        {
            let i = n / 8;
            let j = n % 8;
            assert(bg@.tile.pixels[i as int] == bg.tile.sprite@[i as int]@);
            assert(bg@.tile.pixels[i as int][j as int] < 4);
            if x + j >= offset_x && x + j - offset_x < WIDTH && y < HEIGHT + 8 && y + i >= offset_y
                && y + i - offset_y < HEIGHT {
                let color_id = bg.tile.palette[index8(bg.tile.sprite[i][j])];
                self.plot(x + j - offset_x, y + i - offset_y, color(color_id), clip);
            }
            n = n + 1;
        }
    }

    fn render_sprites(
        &mut self,
        sprites: &SpritesWithCtx,
        background: &BackgroundField,
        clip: bool,
    )
        requires
            old(self).wf(),
            background_ok(field_tiles(background@)),
            sprites_ok(sprite_states(sprites@)),
        ensures
            final(self).wf(),
            final(self)@ == sprites_drawn(
                old(self)@,
                sprite_states(sprites@),
                field_tiles(background@),
                clip,
                sprites@.len() as int,
            ),
    {
        let mut k: usize = 0;
        while k < sprites.len()
            invariant
                self.wf(),
                k <= sprites@.len(),
                background_ok(field_tiles(background@)),
                sprites_ok(sprite_states(sprites@)),
                self@ == sprites_drawn(
                    old(self)@,
                    sprite_states(sprites@),
                    field_tiles(background@),
                    clip,
                    k as int,
                ),
            decreases sprites@.len() - k,
        {
            let sprite = &sprites[k];
            assert(sprite_states(sprites@)[k as int] == sprite@);
            self.render_sprite(sprite, background, clip);
            k = k + 1;
        }
    }

    fn render_sprite(&mut self, sprite: &SpriteWithCtx, background: &BackgroundField, clip: bool)
        requires
            old(self).wf(),
            background_ok(field_tiles(background@)),
            sprite_ok(sprite@),
        ensures
            final(self).wf(),
            final(self)@ == sprite_drawn(
                old(self)@,
                sprite@,
                field_tiles(background@),
                clip,
                (sprite@.pixels.len() * 8) as int,
            ),
    {
        let is_vertical_reverse = sprite.attr >= 0x80;
        let is_horizontal_reverse = (sprite.attr / 0x40) % 2 == 1;
        let is_low_priority = (sprite.attr / 0x20) % 2 == 1;
        let h = sprite.sprite.len();
        let mut n: usize = 0;
        while n < h * 8
            invariant
                self.wf(),
                background_ok(field_tiles(background@)),
                sprite_ok(sprite@),
                h == sprite@.pixels.len(),
                h == 8 || h == 16,
                n <= h * 8,
                is_vertical_reverse == (sprite.attr >= 0x80),
                is_horizontal_reverse == ((sprite.attr / 0x40) % 2 == 1),
                is_low_priority == ((sprite.attr / 0x20) % 2 == 1),
                self@ == sprite_drawn(
                    old(self)@,
                    sprite@,
                    field_tiles(background@),
                    clip,
                    n as int,
                ),
            decreases h * 8 - n,
        {
            let i = n / 8;
            let j = n % 8;
            assert(sprite@.pixels[i as int] == sprite.sprite@[i as int]@);
            assert(sprite@.pixels[i as int][j as int] < 4);
            let y = index8(sprite.position.1) + if is_vertical_reverse {
                h - 1 - i
            } else {
                i
            };
            let x = index8(sprite.position.0) + if is_horizontal_reverse {
                7 - j
            } else {
                j
            };
            if y < HEIGHT && x < WIDTH {
                if !(is_low_priority && Self::should_pixel_hide(x, y, background)) {
                    let pixel = sprite.sprite[i][j];
                    if pixel != 0 {
                        let color_id = sprite.palette[index8(pixel)];
                        self.plot(x, y, color(color_id), clip);
                    }
                }
            }
            n = n + 1;
        }
    }

    /// Whether the background hides a sprite of low priority at (`x`, `y`).
    fn should_pixel_hide(x: usize, y: usize, background: &BackgroundField) -> (r: bool)
        requires
            background_ok(field_tiles(background@)),
            x < WIDTH,
            y < HEIGHT,
        ensures
            r == pixel_hidden(field_tiles(background@), x as int, y as int),
    {
        let tile_x = x / 8;
        let tile_y = y / 8;
        let background_index = tile_y * 33 + tile_x;
        if background_index >= background.len() {
            return false;
        }
        let sprite = &background[background_index];
        assert(field_tiles(background@)[background_index as int] == sprite@);
        assert(sprite@.tile.pixels[(y % 8) as int] == sprite.tile.sprite@[(y % 8) as int]@);
        assert(sprite@.tile.pixels[(y % 8) as int][(x % 8) as int] < 4);
        sprite.tile.sprite[y % 8][x % 8] % 4 != 0
    }

    /// The picture.
    pub fn get_buf(&self) -> (buf: &Vec<u8>)
        ensures
            buf@ == self@,
    {
        &self.buf
    }
}

} // verus!

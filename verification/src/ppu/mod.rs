use self::background::{strip, Background, BackgroundTile};
use self::palette::Palette;
use self::register::{PpuRegister, Register};
use self::renderer::{background_ok, pixels_ok, sprite_ok, sprites_ok, tile_ok};
use self::sprite::{
    build_sprites, sprite_at, sprite_states, sprites_of, SpriteState, SpritesWithCtx,
};
use self::sprite_utils::{pattern, SpriteConfig};
use crate::mapper::{Mapper, MapperState};
use crate::ram::Ram;
use crate::types::{index8, Addr, Data};
use vstd::prelude::*;

pub mod background;
pub mod laws;
pub mod palette;
pub mod register;
pub mod renderer;
pub mod sprite;
pub mod sprite_utils;
pub mod tile;

verus! {

/// The dots of one scanline.
pub const CYCLES_PER_LINE: usize = 341;

/// The scanlines of one frame.
pub const LINES_PER_FRAME: usize = 262;

/// The memories of the picture unit.
#[derive(Debug)]
pub struct PpuCtx {
    pub palette: Palette,
    pub vram: Ram,
    pub cram: Ram,
    pub oam_ram: Ram,
}

/// What the memories of the picture unit hold.
pub ghost struct PpuMem {
    pub vram: Seq<Data>,
    pub cram: Seq<Data>,
    pub oam: Seq<Data>,
    pub palette: Seq<Data>,
}

impl View for PpuCtx {
    type V = PpuMem;

    open spec fn view(&self) -> PpuMem {
        PpuMem {
            vram: self.vram@,
            cram: self.cram@,
            oam: self.oam_ram@,
            palette: self.palette@,
        }
    }
}

impl PpuCtx {
    /// The memories have the sizes that the picture unit counts on: name-table
    /// space of 4 KiB, pattern memory of at least 8 KiB, 256 bytes of sprite
    /// memory and 32 of palette.
    pub open spec fn wf(&self) -> bool {
        &&& self.vram@.len() >= 0x1000
        &&& self.cram@.len() >= 0x2000
        &&& self.oam_ram@.len() >= 0x100
        &&& self.palette.wf()
    }
}

/// How the name tables are mirrored.
#[derive(Debug, Clone, Copy)]
pub struct PpuConfig {
    pub is_horizontal_mirror: bool,
}

/// The picture unit.
#[derive(Debug)]
pub struct Ppu {
    /// The dot in the scanline, 0 to 340.
    pub cycle: usize,
    /// The scanline, 0 to 261.
    pub line: usize,
    pub register: Register,
    pub ctx: PpuCtx,
    pub sprites: SpritesWithCtx,
    pub background: Background,
    pub config: PpuConfig,
}

/// What the picture unit holds.
pub ghost struct PpuState {
    pub cycle: usize,
    pub line: usize,
    pub register: Register,
    pub mem: PpuMem,
    pub sprites: Seq<SpriteState>,
    pub background: Seq<BackgroundTile>,
    pub config: PpuConfig,
}

impl View for Ppu {
    type V = PpuState;

    open spec fn view(&self) -> PpuState {
        PpuState {
            cycle: self.cycle,
            line: self.line,
            register: self.register,
            mem: self.ctx@,
            sprites: sprite_states(self.sprites@),
            background: self.background@,
            config: self.config,
        }
    }
}

impl PpuState {
    /// The dots since the start of the frame.
    pub open spec fn position(self) -> int {
        self.line * CYCLES_PER_LINE + self.cycle
    }

    pub open spec fn background_enabled(self) -> bool {
        self.register.ppu_ctrl2 & 0x08 == 0x08
    }

    pub open spec fn sprite_enabled(self) -> bool {
        self.register.ppu_ctrl2 & 0x10 == 0x10
    }

    /// What a read of a register of the picture unit returns. The eight
    /// registers repeat every eight addresses.
    pub open spec fn read_value(self, addr: Addr) -> Data {
        self.register.read_value(self.mem, addr % 8)
    }

    /// The picture unit after such a read.
    pub open spec fn after_read(self, addr: Addr) -> PpuState {
        PpuState { register: self.register.after_read(self.mem, addr % 8), ..self }
    }

    /// The picture unit after `data` is written to one of its registers.
    pub open spec fn after_write(self, addr: Addr, data: Data) -> PpuState {
        PpuState {
            register: self.register.after_write(addr % 8, data),
            mem: self.register.memory_after_write(self.mem, addr % 8, data),
            ..self
        }
    }

    /// The picture unit after byte `addr` of a sprite transfer: it lands in
    /// sprite memory at `addr` past the sprite address, round the end.
    pub open spec fn after_transfer(self, addr: Addr, data: Data) -> PpuState {
        PpuState {
            mem: PpuMem {
                oam: self.mem.oam.update((addr + self.register.oam.addr) % 0x100, data),
                ..self.mem
            },
            ..self
        }
    }

    /// Whether the beam, at dot `cycle` of this line, has reached the first
    /// sprite while sprites are drawn: the line is the sprite's y and the dot is
    /// at or past its x.
    pub open spec fn sprite_hit(self, cycle: int) -> bool {
        self.sprite_enabled() && self.mem.oam[0] == self.line && self.mem.oam[3] <= cycle
    }

    /// The status register after the dot that brings the beam to dot `cycle` of
    /// this line: the sprite-hit bit is set once the beam has reached the first
    /// sprite.
    pub open spec fn status_after_hit(self, cycle: int) -> Data {
        if self.sprite_hit(cycle) {
            self.register.ppu_status | 0x40
        } else {
            self.register.ppu_status
        }
    }

    /// The column of the tile at the left edge of the screen.
    pub open spec fn scroll_tile_x(self) -> Data {
        ((self.register.ppu_scroll.x + (self.register.ppu_ctrl1 % 2) * 256) / 8) as Data
    }

    /// The row of the tiles at scanline `line` of the screen.
    pub open spec fn scroll_tile_y(self, line: int) -> Data {
        ((self.register.ppu_scroll.y + line + ((self.register.ppu_ctrl1 % 4) / 2) * 240)
            / 8) as Data
    }

    /// Where the picture unit finds its tables.
    pub open spec fn sprite_config(self) -> SpriteConfig {
        SpriteConfig {
            offset_addr_by_name_table: None,
            offset_addr_by_background_table: if self.register.ppu_ctrl1 & 0x10 == 0x10 {
                0x1000
            } else {
                0x0000
            },
            offset_addr_by_sprite_table: if self.register.ppu_ctrl1 & 0x08 == 0x08 {
                0x1000
            } else {
                0x0000
            },
            is_horizontal_mirror: self.config.is_horizontal_mirror,
            is_background_enable: self.background_enabled(),
        }
    }

    /// Whether a strip of background tiles is built when the beam enters
    /// scanline `line`: every eighth line down to 240, while the background is
    /// drawn.
    pub open spec fn builds_strip(self, line: int) -> bool {
        line <= 240 && line % 8 == 0 && self.background_enabled()
    }

    /// The background once the beam has left this line for line `line`. It is
    /// emptied on leaving line 0, and a strip is added where one is due.
    pub open spec fn background_after_line(self, mapper: MapperState, line: int) -> Seq<
        BackgroundTile,
    > {
        let kept = if self.line == 0 {
            Seq::empty()
        } else {
            self.background
        };
        if self.builds_strip(line) {
            kept + strip(
                self.mem.vram,
                self.mem.cram,
                self.mem.palette,
                mapper,
                (self.scroll_tile_x(), self.scroll_tile_y(line)),
                (self.register.ppu_scroll.x, self.register.ppu_scroll.y),
                self.sprite_config(),
            )
        } else {
            kept
        }
    }

    /// The status register once the beam has entered line `line`, given the
    /// status `status` at the end of the line before: vertical blank starts at
    /// line 241; at the end of the frame it ends and the sprite-hit bit is
    /// cleared.
    pub open spec fn status_after_line(status: Data, line: int) -> Data {
        if line == 241 {
            status | 0x80
        } else if line >= 262 {
            (status & 0x7F) & 0xBF
        } else {
            status
        }
    }

    /// Whether this dot is the last of its scanline.
    pub open spec fn ends_line(self) -> bool {
        self.cycle + 1 >= CYCLES_PER_LINE
    }

    /// Whether this dot is the last of the frame.
    pub open spec fn ends_frame(self) -> bool {
        self.ends_line() && self.line + 1 >= LINES_PER_FRAME
    }

    /// The picture unit one dot later.
    pub open spec fn after_dot(self, mapper: MapperState) -> PpuState {
        let status = self.status_after_hit(self.cycle + 1);
        if !self.ends_line() {
            PpuState {
                cycle: (self.cycle + 1) as usize,
                register: Register { ppu_status: status, ..self.register },
                ..self
            }
        } else {
            let line = self.line + 1;
            PpuState {
                cycle: 0,
                line: if line >= 262 {
                    0
                } else {
                    line as usize
                },
                register: Register {
                    ppu_status: Self::status_after_line(status, line),
                    ..self.register
                },
                background: self.background_after_line(mapper, line),
                sprites: if line >= 262 {
                    sprites_of(
                        self.mem.cram,
                        self.mem.oam,
                        self.mem.palette,
                        mapper,
                        self.sprite_config().offset_addr_by_sprite_table,
                        self.register.ppu_ctrl1 & 0x20 != 0x20,
                        64,
                    )
                } else {
                    self.sprites
                },
                ..self
            }
        }
    }

    /// The latch of the non-maskable interrupt one dot later: it is raised on
    /// entry to line 241 if the control register asks for it, and dropped at the
    /// end of the frame.
    pub open spec fn nmi_after_dot(self, nmi: bool) -> bool {
        if !self.ends_line() {
            nmi
        } else if self.line + 1 == 241 {
            nmi || self.register.ppu_ctrl1 >= 0x80
        } else if self.line + 1 >= 262 {
            false
        } else {
            nmi
        }
    }

    /// The picture unit `n` dots later.
    pub open spec fn after_dots(self, mapper: MapperState, n: nat) -> PpuState
        decreases n,
    {
        if n == 0 {
            self
        } else {
            self.after_dot(mapper).after_dots(mapper, (n - 1) as nat)
        }
    }

    /// The latch of the non-maskable interrupt `n` dots later.
    pub open spec fn nmi_after_dots(self, mapper: MapperState, nmi: bool, n: nat) -> bool
        decreases n,
    {
        if n == 0 {
            nmi
        } else {
            self.after_dot(mapper).nmi_after_dots(mapper, self.nmi_after_dot(nmi), (n - 1) as nat)
        }
    }

    /// Whether a frame ends within the next `n` dots.
    pub open spec fn frame_ends_within(self, mapper: MapperState, n: nat) -> bool
        decreases n,
    {
        if n == 0 {
            false
        } else {
            self.ends_frame() || self.after_dot(mapper).frame_ends_within(mapper, (n - 1) as nat)
        }
    }
}

impl Ppu {
    /// The beam is inside the frame, the memories have their sizes, and the
    /// tiles and sprites built can be drawn.
    pub open spec fn wf(&self) -> bool {
        &&& self.cycle < CYCLES_PER_LINE
        &&& self.line < LINES_PER_FRAME
        &&& self.ctx.wf()
        &&& background_ok(self@.background)
        &&& sprites_ok(self@.sprites)
    }

    /// Whether the picture unit draws anything.
    pub open spec fn rendering(&self) -> bool {
        self@.background_enabled() || self@.sprite_enabled()
    }

    /// A picture unit at the start of a frame, with the given pattern memory,
    /// which must hold at least 8 KiB.
    pub fn new(character_ram: Vec<Data>, config: PpuConfig) -> (p: Ppu)
        requires
            character_ram@.len() >= 0x2000,
        ensures
            p.wf(),
            p.cycle == 0,
            p.line == 0,
            p.register == Register::new_spec(),
            p.ctx.cram@ == character_ram@,
            p.ctx.vram@ == Seq::new(0x2000, |i: int| 0u8),
            p.ctx.oam_ram@ == Seq::new(0x100, |i: int| 0u8),
            p.ctx.palette@ == Seq::new(0x20, |i: int| 0u8),
            p@.sprites == Seq::<SpriteState>::empty(),
            p@.background == Seq::<BackgroundTile>::empty(),
            p.config == config,
    {
        let vram = vec![0u8; 0x2000];
        let oam = vec![0u8; 0x0100];
        assert(vram@ =~= Seq::new(0x2000, |i: int| 0u8));
        assert(oam@ =~= Seq::new(0x100, |i: int| 0u8));
        let p = Ppu {
            cycle: 0,
            line: 0,
            register: Register::new(),
            ctx: PpuCtx {
                palette: Palette::new(),
                vram: Ram::new(vram),
                cram: Ram::new(character_ram),
                oam_ram: Ram::new(oam),
            },
            sprites: Vec::new(),
            background: Background::new(),
            config,
        };
        assert(p@.sprites =~= Seq::<SpriteState>::empty());
        p
    }

    /// Reads one of the registers. The eight registers repeat every eight
    /// addresses.
    pub fn read(&mut self, addr: Addr, mapper: &Mapper) -> (data: Data)
        requires
            old(self).wf(),
        ensures
            final(self).wf(),
            data == old(self)@.read_value(addr),
            final(self)@ == old(self)@.after_read(addr),
    {
        self.register.read(addr % 8, &self.ctx)
    }

    /// Writes `data` to one of the registers.
    pub fn write(&mut self, addr: Addr, data: Data, mapper: &mut Mapper)
        requires
            old(self).wf(),
        ensures
            final(self).wf(),
            final(self)@ == old(self)@.after_write(addr, data),
            *final(mapper) == *old(mapper),
    {
        self.register.write(addr % 8, data, &mut self.ctx)
    }

    /// Moves the beam one dot on. Says whether that ended the frame.
    pub fn step_dot(&mut self, nmi: &mut bool, mapper: &Mapper) -> (ready: bool)
        requires
            old(self).wf(),
            mapper.wf(),
        ensures
            final(self).wf(),
            final(self)@ == old(self)@.after_dot(mapper@),
            *final(nmi) == old(self)@.nmi_after_dot(*old(nmi)),
            ready == old(self)@.ends_frame(),
    {
        proof {
            lemma_strip_ok(
                self@.mem.vram,
                self@.mem.cram,
                self@.mem.palette,
                mapper@,
                (self@.scroll_tile_x(), self@.scroll_tile_y(self.line + 1)),
                (self.register.ppu_scroll.x, self.register.ppu_scroll.y),
                self@.sprite_config(),
            );
            lemma_sprites_ok(
                self@.mem.cram,
                self@.mem.oam,
                self@.mem.palette,
                mapper@,
                self@.sprite_config().offset_addr_by_sprite_table,
                self.register.ppu_ctrl1 & 0x20 != 0x20,
                64,
            );
        }
        let cycle = self.cycle + 1;
        if self.has_sprite_hit(cycle) {
            self.register.set_sprite_hit();
        }
        if cycle < CYCLES_PER_LINE {
            self.cycle = cycle;
            return false;
        }
        if self.line == 0 {
            self.background.clear();
        }
        self.cycle = cycle - CYCLES_PER_LINE;
        self.line = self.line + 1;
        if self.line <= 240 && self.line % 8 == 0 && self.register.is_background_enable() {
            let scroll_x = self.register.get_scroll_x();
            let scroll_y = self.register.get_scroll_y();
            let mut config = SpriteConfig {
                offset_addr_by_name_table: None,
                offset_addr_by_background_table: self.register.get_background_table_offset(),
                offset_addr_by_sprite_table: self.register.get_sprite_table_offset(),
                is_horizontal_mirror: self.config.is_horizontal_mirror,
                is_background_enable: self.register.is_background_enable(),
            };
            let tile_x = ((index8(scroll_x) + index8(self.register.get_name_table_id() % 2) * 256)
                / 8) as Data;
            let tile_y = self.get_scroll_tile_y();
            self.background.build_line(
                &self.ctx.vram,
                &self.ctx.cram,
                &self.ctx.palette,
                (tile_x, tile_y),
                (scroll_x, scroll_y),
                &mut config,
                mapper,
            );
        }
        if self.line == 241 {
            self.register.set_vblank();
            if self.register.is_irq_enable() {
                *nmi = true;
            }
        }
        if self.line >= 262 {
            self.register.clear_vblank();
            self.register.clear_sprite_hit();
            *nmi = false;
            self.line = 0;
            self.sprites = build_sprites(
                &self.ctx.cram,
                &self.ctx.oam_ram,
                &self.ctx.palette,
                self.register.get_sprite_table_offset(),
                self.register.is_sprite_8x8(),
                mapper,
            );
            return true
        }
        false
    }

    /// Moves the beam `cycle` dots on. Says whether a frame ended on the way.
    pub fn run(&mut self, cycle: usize, nmi: &mut bool, mapper: &Mapper) -> (ready: bool)
        requires
            old(self).wf(),
            mapper.wf(),
        ensures
            final(self).wf(),
            final(self)@ == old(self)@.after_dots(mapper@, cycle as nat),
            *final(nmi) == old(self)@.nmi_after_dots(mapper@, *old(nmi), cycle as nat),
            ready == old(self)@.frame_ends_within(mapper@, cycle as nat),
    {
        let mut ready = false;
        let mut left = cycle;
        while left > 0
            invariant
                self.wf(),
                mapper.wf(),
                self@.after_dots(mapper@, left as nat) == old(self)@.after_dots(
                    mapper@,
                    cycle as nat,
                ),
                self@.nmi_after_dots(mapper@, *nmi, left as nat) == old(self)@.nmi_after_dots(
                    mapper@,
                    *old(nmi),
                    cycle as nat,
                ),
                (ready || self@.frame_ends_within(mapper@, left as nat)) == old(
                    self,
                )@.frame_ends_within(mapper@, cycle as nat),
            decreases left,
        {
            let ended = self.step_dot(nmi, mapper);
            ready = ready || ended;
            left = left - 1;
        }
        ready
    }

    /// Takes byte `addr` of a sprite transfer.
    pub fn transfer_sprite(&mut self, addr: Addr, data: Data)
        requires
            old(self).wf(),
        ensures
            final(self).wf(),
            final(self)@ == old(self)@.after_transfer(addr, data),
    {
        let target = (addr % 0x100 + self.register.oam.get_addr()) % 0x100;
        self.ctx.oam_ram.write(target, data);
    }

    fn get_scroll_tile_y(&self) -> (r: Data)
        requires
            self.line <= 262,
        ensures
            r == self@.scroll_tile_y(self.line as int),
    {
        ((index8(self.register.get_scroll_y()) + self.line + (index8(
            self.register.get_name_table_id() / 2,
        ) * 240)) / 8) as Data
    }

    pub fn is_background_enabled(&self) -> (r: bool)
        ensures
            r == self@.background_enabled(),
    {
        self.register.is_background_enable()
    }

    pub fn is_sprite_enabled(&self) -> (r: bool)
        ensures
            r == self@.sprite_enabled(),
    {
        self.register.is_sprite_enable()
    }

    /// Whether the beam, once at dot `cycle` of this line, has reached the
    /// first sprite.
    pub fn has_sprite_hit(&self, cycle: usize) -> (r: bool)
        requires
            self.wf(),
        ensures
            r == self@.sprite_hit(cycle as int),
    {
        let y = index8(self.ctx.oam_ram.read(0));
        let x = index8(self.ctx.oam_ram.read(3));
        self.register.is_sprite_enable() && (y == self.line) && x <= cycle
    }
}

/// Every pattern can be drawn: its rows are 8 pixels of colour numbers from
/// 0 to 3.
pub proof fn lemma_pattern_ok(
    cram: Seq<Data>,
    mapper: MapperState,
    tile_id: Data,
    offset: Addr,
    is_8x8: bool,
)
    ensures
        pixels_ok(
            pattern(cram, mapper, tile_id, offset, is_8x8),
            if is_8x8 {
                8
            } else {
                16
            },
        ),
{
}

/// Every tile of a strip can be drawn.
pub proof fn lemma_strip_ok(
    vram: Seq<Data>,
    cram: Seq<Data>,
    palette: Seq<Data>,
    mapper: MapperState,
    tile: (Data, Data),
    scroll: (Data, Data),
    config: SpriteConfig,
)
    ensures
        background_ok(strip(vram, cram, palette, mapper, tile, scroll, config)),
{
    let s = strip(vram, cram, palette, mapper, tile, scroll, config);
    assert forall|i: int| 0 <= i < s.len() implies tile_ok(#[trigger] s[i]) by {
        let t = s[i].tile;
        assert(exists|id: Data| t.pixels == pattern(
            cram,
            mapper,
            id,
            config.offset_addr_by_background_table,
            true,
        ));
        let id = choose|id: Data| t.pixels == pattern(
            cram,
            mapper,
            id,
            config.offset_addr_by_background_table,
            true,
        );
        lemma_pattern_ok(cram, mapper, id, config.offset_addr_by_background_table, true);
    }
}

/// Every sprite built from sprite memory can be drawn.
pub proof fn lemma_sprites_ok(
    cram: Seq<Data>,
    oam: Seq<Data>,
    palette: Seq<Data>,
    mapper: MapperState,
    offset: Addr,
    is_8x8: bool,
    n: int,
)
    ensures
        sprites_ok(sprites_of(cram, oam, palette, mapper, offset, is_8x8, n)),
    decreases n,
{
    if n > 0 {
        lemma_sprites_ok(cram, oam, palette, mapper, offset, is_8x8, n - 1);
        let id = oam[(n - 1) * 4 + 1];
        lemma_pattern_ok(cram, mapper, id, offset, true);
        lemma_pattern_ok(cram, mapper, ((id / 2) * 2) as Data, (0x1000 * (id % 2)) as Addr, false);
        assert(sprite_ok(sprite_at(cram, oam, palette, mapper, offset, is_8x8, n - 1)));
    }
}

} // verus!

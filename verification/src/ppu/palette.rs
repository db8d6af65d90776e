use crate::types::{index16, Addr, Data};
use vstd::prelude::*;

verus! {

/// The four colours of one palette.
pub type PaletteList = Vec<Data>;

/// Which half of palette memory a palette is taken from.
#[derive(Debug, Clone, Copy, PartialEq, Eq, Structural)]
pub enum PaletteType {
    Sprite,
    Background,
}

/// The cell of palette memory that address `addr` stands for. Addresses repeat
/// every 32 bytes, and 0x10, 0x14, 0x18 and 0x1C stand for 0x00, 0x04, 0x08 and
/// 0x0C.
pub open spec fn palette_index(addr: Addr) -> int {
    let a = addr % 0x20;
    if a == 0x10 || a == 0x14 || a == 0x18 || a == 0x1C {
        a - 0x10
    } else {
        a as int
    }
}

/// The four colours of palette `palette_id` in palette memory `ram`.
pub open spec fn palette_colors(ram: Seq<Data>, palette_id: Data, palette_type: PaletteType) -> Seq<
    Data,
> {
    let start = (palette_id % 4) * 4 + (if palette_type == PaletteType::Sprite {
        0x10int
    } else {
        0x00int
    });
    Seq::new(4, |i: int| ram[palette_index((start + i) as Addr)])
}

/// The 32 bytes of palette memory.
#[derive(Debug)]
pub struct Palette(pub Vec<Data>);

impl View for Palette {
    type V = Seq<Data>;

    open spec fn view(&self) -> Seq<Data> {
        self.0@
    }
}

impl Palette {
    /// Whether the memory has its 32 bytes.
    pub open spec fn wf(&self) -> bool {
        self@.len() == 0x20
    }

    pub fn new() -> (p: Self)
        ensures
            p.wf(),
            p@ == Seq::new(0x20, |i: int| 0u8),
    {
        let p = Palette(vec![0u8; 0x20]);
        assert(p@ =~= Seq::new(0x20, |i: int| 0u8));
        p
    }

    fn get_palette_addr(addr: Addr) -> (r: usize)
        ensures
            r == palette_index(addr),
            r < 0x20,
    {
        let a = addr % 0x20;
        if a == 0x10 || a == 0x14 || a == 0x18 || a == 0x1C {
            index16(a - 0x10)
        } else {
            index16(a)
        }
    }

    /// The four colours of palette `palette_id`, of which only the low two bits
    /// count.
    pub fn get(&self, palette_id: Data, palette_type: PaletteType) -> (list: PaletteList)
        requires
            self.wf(),
        ensures
            list@ == palette_colors(self@, palette_id, palette_type),
    {
        let offset: Addr = match palette_type {
            PaletteType::Sprite => 0x10,
            PaletteType::Background => 0x00,
        };
        let start: Addr = ((palette_id % 4) as Addr) * 4 + offset;
        let list = vec![
            self.0[Self::get_palette_addr(start)],
            self.0[Self::get_palette_addr(start + 1)],
            self.0[Self::get_palette_addr(start + 2)],
            self.0[Self::get_palette_addr(start + 3)],
        ];
        assert(list@ =~= palette_colors(self@, palette_id, palette_type));
        list
    }

    /// The byte of the cell that `addr` stands for.
    pub fn read(&self, addr: Addr) -> (d: Data)
        requires
            self.wf(),
        ensures
            d == self@[palette_index(addr)],
    {
        self.0[Self::get_palette_addr(addr)]
    }

    /// Stores `data` in the cell that `addr` stands for.
    pub fn write(&mut self, addr: Addr, data: Data)
        requires
            old(self).wf(),
        ensures
            final(self).wf(),
            final(self)@ == old(self)@.update(palette_index(addr), data),
    {
        let index = Self::get_palette_addr(addr);
        self.0[index] = data;
    }
}

} // verus!

use crate::ppu::palette::{palette_index, Palette};
use crate::ram::Ram;
use crate::types::{Addr, Data};
use vstd::prelude::*;

verus! {

/// The data port of video memory, with its one-byte read buffer.
#[derive(Debug, Clone, Copy)]
pub struct PpuData {
    pub buf: Data,
}

/// The cell of name-table memory that video address `addr` stands for, for
/// `addr` from 0x2000 to 0x3FFF: 0x3000 and above repeat what lies 0x1000 below.
pub open spec fn name_table_index(addr: Addr) -> int {
    if addr >= 0x3000 {
        addr - 0x3000
    } else {
        addr - 0x2000
    }
}

/// The byte that a read of video address `addr` returns. Pattern and
/// name-table memory answer one read late, from the buffer; palette memory
/// answers at once. Addresses repeat every 0x4000.
pub open spec fn data_read_value(buf: Data, palette: Seq<Data>, addr: Addr) -> Data {
    if addr % 0x4000 >= 0x3F00 {
        palette[palette_index((addr % 0x4000 - 0x3F00) as Addr)]
    } else {
        buf
    }
}

/// What the buffer holds after a read of video address `addr`: the byte of
/// pattern or name-table memory there; for a palette address, the name-table
/// byte that lies under it.
pub open spec fn data_read_buffer(vram: Seq<Data>, cram: Seq<Data>, addr: Addr) -> Data {
    let a = (addr % 0x4000) as Addr;
    if a >= 0x2000 {
        vram[name_table_index(a)]
    } else {
        cram[a as int]
    }
}

/// Name-table memory after `data` is written to video address `addr`.
pub open spec fn data_write_vram(vram: Seq<Data>, addr: Addr, data: Data) -> Seq<Data> {
    let a = (addr % 0x4000) as Addr;
    if 0x2000 <= a < 0x3F00 {
        vram.update(name_table_index(a), data)
    } else {
        vram
    }
}

/// Pattern memory after `data` is written to video address `addr`.
pub open spec fn data_write_cram(cram: Seq<Data>, addr: Addr, data: Data) -> Seq<Data> {
    let a = (addr % 0x4000) as Addr;
    if a < 0x2000 {
        cram.update(a as int, data)
    } else {
        cram
    }
}

/// Palette memory after `data` is written to video address `addr`.
pub open spec fn data_write_palette(palette: Seq<Data>, addr: Addr, data: Data) -> Seq<Data> {
    let a = (addr % 0x4000) as Addr;
    if a >= 0x3F00 {
        palette.update(palette_index((a - 0x3F00) as Addr), data)
    } else {
        palette
    }
}

impl PpuData {
    pub fn new() -> (r: Self)
        ensures
            r.buf == 0,
    {
        PpuData { buf: 0 }
    }

    /// Reads video memory at `addr`.
    pub fn read(&mut self, vram: &Ram, cram: &Ram, addr: Addr, palette: &Palette) -> (d: Data)
        requires
            vram@.len() >= 0x1000,
            cram@.len() >= 0x2000,
            palette.wf(),
        ensures
            d == data_read_value(old(self).buf, palette@, addr),
            final(self).buf == data_read_buffer(vram@, cram@, addr),
    {
        let buf = self.buf;
        let addr = addr % 0x4000;
        if addr >= 0x2000 {
            if addr >= 0x3F00 {
                self.buf = vram.read(addr - 0x3000);
                return palette.read(addr - 0x3F00);
            }
            let addr = Self::calc_addr(addr);
            self.buf = vram.read(addr);
        } else {
            self.buf = cram.read(addr);
        }
        buf
    }

    /// Writes `data` to video memory at `addr`.
    pub fn write(
        &mut self,
        vram: &mut Ram,
        cram: &mut Ram,
        addr: Addr,
        data: Data,
        palette: &mut Palette,
    )
        requires
            old(vram)@.len() >= 0x1000,
            old(cram)@.len() >= 0x2000,
            old(palette).wf(),
        ensures
            *final(self) == *old(self),
            final(palette).wf(),
            final(vram)@ == data_write_vram(old(vram)@, addr, data),
            final(cram)@ == data_write_cram(old(cram)@, addr, data),
            final(palette)@ == data_write_palette(old(palette)@, addr, data),
    {
        let addr = addr % 0x4000;
        if addr >= 0x2000 {
            if addr >= 0x3F00 {
                palette.write(addr - 0x3F00, data);
            } else {
                let addr = Self::calc_addr(addr);
                vram.write(addr, data);
            }
        } else {
            cram.write(addr, data);
        }
    }

    fn calc_addr(addr: Addr) -> (r: Addr)
        requires
            0x2000 <= addr < 0x3F00,
        ensures
            r == name_table_index(addr),
            r < 0x1000,
    {
        if addr >= 0x3000 {
            addr - 0x3000
        } else {
            addr - 0x2000
        }
    }
}

} // verus!

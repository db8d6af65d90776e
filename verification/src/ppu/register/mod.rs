use self::oam::Oam;
use self::ppu_addr::PpuAddr;
use self::ppu_data::{
    data_read_buffer, data_read_value, data_write_cram, data_write_palette, data_write_vram,
    PpuData,
};
use self::ppu_scroll::{Enable, PpuScroll};
use super::{PpuCtx, PpuMem};
use crate::ram::Ram;
use crate::types::{word_of, Addr, Data};
use vstd::prelude::*;

pub mod oam;
pub mod ppu_addr;
pub mod ppu_data;
pub mod ppu_scroll;

verus! {

/// The registers of the picture unit.
///
/// | address       | what lies there      |
/// |---------------|----------------------|
/// | 0x0000-0x1FFF | pattern tables       |
/// | 0x2000-0x2FFF | four name tables     |
/// | 0x3000-0x3EFF | the name tables again|
/// | 0x3F00-0x3FFF | palettes             |
#[derive(Debug, Clone, Copy)]
pub struct Register {
    pub ppu_ctrl1: Data,
    pub ppu_ctrl2: Data,
    pub ppu_status: Data,
    pub oam: Oam,
    pub ppu_addr: PpuAddr,
    pub ppu_data: PpuData,
    pub ppu_scroll: PpuScroll,
}

impl Register {
    /// How far the video address moves after each access of the data port.
    pub open spec fn increment(self) -> Addr {
        if self.ppu_ctrl1 & 0x04 == 0x04 {
            32
        } else {
            1
        }
    }

    /// The registers after the status is read: the vertical-blank bit is
    /// cleared, and the next writes to the scroll and address registers are
    /// first writes again.
    pub open spec fn after_status_read(self) -> Register {
        Register {
            ppu_status: self.ppu_status & 0x7F,
            ppu_scroll: PpuScroll { enable: Enable::X, ..self.ppu_scroll },
            ppu_addr: PpuAddr { is_lower_addr: false, ..self.ppu_addr },
            ..self
        }
    }

    /// The registers after the data port is accessed: the video address has
    /// moved on.
    pub open spec fn after_data_access(self) -> Register {
        Register {
            ppu_addr: PpuAddr {
                addr: word_of(self.ppu_addr.addr + self.increment()),
                ..self.ppu_addr
            },
            ..self
        }
    }

    /// What a read of register `addr`, 0 to 7, returns.
    pub open spec fn read_value(self, mem: PpuMem, addr: Addr) -> Data {
        if addr == 2 {
            self.ppu_status
        } else if addr == 4 {
            mem.oam[self.oam.addr as int]
        } else if addr == 7 {
            data_read_value(self.ppu_data.buf, mem.palette, self.ppu_addr.addr)
        } else {
            0
        }
    }

    /// The registers after a read of register `addr`.
    pub open spec fn after_read(self, mem: PpuMem, addr: Addr) -> Register {
        if addr == 2 {
            self.after_status_read()
        } else if addr == 7 {
            Register {
                ppu_data: PpuData { buf: data_read_buffer(mem.vram, mem.cram, self.ppu_addr.addr) },
                ..self
            }.after_data_access()
        } else {
            self
        }
    }

    /// The registers after `data` is written to register `addr`.
    pub open spec fn after_write(self, addr: Addr, data: Data) -> Register {
        if addr == 0 {
            Register { ppu_ctrl1: data, ..self }
        } else if addr == 1 {
            Register { ppu_ctrl2: data, ..self }
        } else if addr == 3 {
            Register { oam: Oam { addr: data }, ..self }
        } else if addr == 4 {
            Register { oam: Oam { addr: ((self.oam.addr + 1) % 0x100) as Data }, ..self }
        } else if addr == 5 {
            Register { ppu_scroll: self.ppu_scroll.after_write(data), ..self }
        } else if addr == 6 {
            Register { ppu_addr: self.ppu_addr.after_write(data), ..self }
        } else if addr == 7 {
            self.after_data_access()
        } else {
            self
        }
    }

    /// The memories of the picture unit after `data` is written to register
    /// `addr`.
    pub open spec fn memory_after_write(self, mem: PpuMem, addr: Addr, data: Data) -> PpuMem {
        if addr == 4 {
            PpuMem { oam: mem.oam.update(self.oam.addr as int, data), ..mem }
        } else if addr == 7 {
            PpuMem {
                vram: data_write_vram(mem.vram, self.ppu_addr.addr, data),
                cram: data_write_cram(mem.cram, self.ppu_addr.addr, data),
                palette: data_write_palette(mem.palette, self.ppu_addr.addr, data),
                ..mem
            }
        } else {
            mem
        }
    }

    /// The registers after power-on: all zero.
    pub open spec fn new_spec() -> Register {
        Register {
            ppu_ctrl1: 0,
            ppu_ctrl2: 0,
            ppu_status: 0,
            oam: Oam { addr: 0 },
            ppu_addr: PpuAddr { addr: 0, is_lower_addr: false },
            ppu_data: PpuData { buf: 0 },
            ppu_scroll: PpuScroll { x: 0, y: 0, enable: Enable::X },
        }
    }

    #[verifier::when_used_as_spec(new_spec)]
    pub fn new() -> (r: Self)
        ensures
            r == Self::new_spec(),
    {
        Register {
            ppu_ctrl1: 0,
            ppu_ctrl2: 0,
            ppu_status: 0,
            oam: Oam::new(),
            ppu_addr: PpuAddr::new(),
            ppu_data: PpuData::new(),
            ppu_scroll: PpuScroll::new(),
        }
    }

    /// Reads the status and resets the write latches.
    pub fn read_status(&mut self) -> (data: Data)
        ensures
            data == old(self).ppu_status,
            *final(self) == old(self).after_status_read(),
    {
        let data = self.ppu_status;
        self.ppu_scroll.enable_x();
        self.clear_vblank();
        self.ppu_addr.reset_latch();
        data
    }

    /// Sets the address of sprite memory.
    pub fn write_oam_addr(&mut self, data: Data)
        ensures
            *final(self) == old(self).after_write(3, data),
    {
        self.oam.write_addr(data)
    }

    /// Writes sprite memory at its address, which moves one on.
    pub fn write_oam_data(&mut self, data: Data, oam_ram: &mut Ram)
        requires
            old(oam_ram)@.len() >= 0x100,
        ensures
            *final(self) == old(self).after_write(4, data),
            final(oam_ram)@ == old(oam_ram)@.update(old(self).oam.addr as int, data),
    {
        self.oam.write_data(oam_ram, data)
    }

    /// Takes one of the two bytes of the video address.
    pub fn write_ppu_addr(&mut self, data: Data)
        ensures
            *final(self) == old(self).after_write(6, data),
    {
        self.ppu_addr.write(data)
    }

    /// Reads video memory through the data port.
    pub fn read_ppu_data(&mut self, ctx: &PpuCtx) -> (data: Data)
        requires
            ctx.wf(),
        ensures
            data == old(self).read_value(ctx@, 7),
            *final(self) == old(self).after_read(ctx@, 7),
    {
        let addr = self.ppu_addr.get();
        let data = self.ppu_data.read(&ctx.vram, &ctx.cram, addr, &ctx.palette);
        let v = self.get_ppu_addr_increment_value();
        self.ppu_addr.update(v);
        data
    }

    /// Writes video memory through the data port.
    pub fn write_ppu_data(&mut self, data: Data, ctx: &mut PpuCtx)
        requires
            old(ctx).wf(),
        ensures
            final(ctx).wf(),
            *final(self) == old(self).after_write(7, data),
            final(ctx)@ == old(self).memory_after_write(old(ctx)@, 7, data),
    {
        let addr = self.ppu_addr.get();
        self.ppu_data.write(&mut ctx.vram, &mut ctx.cram, addr, data, &mut ctx.palette);
        let v = self.get_ppu_addr_increment_value();
        self.ppu_addr.update(v);
    }
















}

/// What the picture unit asks of its registers.
pub trait PpuRegister {
    /// The registers, as plain values.
    spec fn registers(&self) -> Register;

    /// Reads register `addr`, 0 to 7. The registers that are write-only read 0.
    fn read(&mut self, addr: Addr, ctx: &PpuCtx) -> (data: Data)
        requires
            ctx.wf(),
        ensures
            data == old(self).registers().read_value(ctx@, addr),
            final(self).registers() == old(self).registers().after_read(ctx@, addr),
    ;

    /// Writes `data` to register `addr`, 0 to 7. The status register ignores
    /// writes.
    fn write(&mut self, addr: Addr, data: Data, ctx: &mut PpuCtx)
        requires
            old(ctx).wf(),
        ensures
            final(ctx).wf(),
            final(self).registers() == old(self).registers().after_write(addr, data),
            final(ctx)@ == old(self).registers().memory_after_write(old(ctx)@, addr, data),
    ;

    /// Clears the vertical-blank bit of the status.
    fn clear_vblank(&mut self)
        ensures
            final(self).registers() == (Register {
                ppu_status: old(self).registers().ppu_status & 0x7F,
                ..old(self).registers()
            }),
    ;

    /// Clears the sprite-hit bit of the status.
    fn clear_sprite_hit(&mut self)
        ensures
            final(self).registers() == (Register {
                ppu_status: old(self).registers().ppu_status & 0xBF,
                ..old(self).registers()
            }),
    ;

    /// Sets the vertical-blank bit of the status.
    fn set_vblank(&mut self)
        ensures
            final(self).registers() == (Register {
                ppu_status: old(self).registers().ppu_status | 0x80,
                ..old(self).registers()
            }),
    ;

    /// Sets the sprite-hit bit of the status.
    fn set_sprite_hit(&mut self)
        ensures
            final(self).registers() == (Register {
                ppu_status: old(self).registers().ppu_status | 0x40,
                ..old(self).registers()
            }),
    ;

    /// Whether the background is drawn.
    fn is_background_enable(&self) -> (r: bool)
        ensures
            r == (self.registers().ppu_ctrl2 & 0x08 == 0x08),
    ;

    /// Whether sprites are drawn.
    fn is_sprite_enable(&self) -> (r: bool)
        ensures
            r == (self.registers().ppu_ctrl2 & 0x10 == 0x10),
    ;

    /// Whether the start of vertical blank raises the non-maskable interrupt.
    fn is_irq_enable(&self) -> (r: bool)
        ensures
            r == (self.registers().ppu_ctrl1 >= 0x80),
    ;

    /// Whether sprites are 8 rows high, not 16.
    fn is_sprite_8x8(&self) -> (r: bool)
        ensures
            r == (self.registers().ppu_ctrl1 & 0x20 != 0x20),
    ;

    /// How far the video address moves after each access of the data port.
    fn get_ppu_addr_increment_value(&self) -> (r: Addr)
        ensures
            r == self.registers().increment(),
    ;

    /// The pattern table of the background.
    fn get_background_table_offset(&self) -> (r: Addr)
        ensures
            r == (if self.registers().ppu_ctrl1 & 0x10 == 0x10 {
                0x1000u16
            } else {
                0x0000u16
            }),
    ;

    /// The number of the name table at the top left of the screen.
    fn get_name_table_id(&self) -> (r: Data)
        ensures
            r == self.registers().ppu_ctrl1 % 4,
    ;

    /// The pattern table of sprites of 8 rows.
    fn get_sprite_table_offset(&self) -> (r: Addr)
        ensures
            r == (if self.registers().ppu_ctrl1 & 0x08 == 0x08 {
                0x1000u16
            } else {
                0x0000u16
            }),
    ;

    /// The horizontal scroll.
    fn get_scroll_x(&self) -> (r: Data)
        ensures
            r == self.registers().ppu_scroll.x,
    ;

    /// The vertical scroll.
    fn get_scroll_y(&self) -> (r: Data)
        ensures
            r == self.registers().ppu_scroll.y,
    ;
}

impl PpuRegister for Register {
    open spec fn registers(&self) -> Register {
        *self
    }

    fn read(&mut self, addr: Addr, ctx: &PpuCtx) -> (data: Data) {
        match addr {
            0x0002 => self.read_status(),
            0x0004 => self.oam.read_data(&ctx.oam_ram),
            0x0007 => self.read_ppu_data(ctx),
            _ => 0,
        }
    }

    fn write(&mut self, addr: Addr, data: Data, ctx: &mut PpuCtx) {
        match addr {
            0x0000 => self.ppu_ctrl1 = data,
            0x0001 => self.ppu_ctrl2 = data,
            0x0003 => self.write_oam_addr(data),
            0x0004 => self.write_oam_data(data, &mut ctx.oam_ram),
            0x0005 => self.ppu_scroll.write(data),
            0x0006 => self.write_ppu_addr(data),
            0x0007 => self.write_ppu_data(data, ctx),
            _ => (),
        }
    }

    fn clear_vblank(&mut self) {
        self.ppu_status = self.ppu_status & 0x7F
    }

    fn clear_sprite_hit(&mut self) {
        self.ppu_status = self.ppu_status & 0xBF
    }

    fn set_vblank(&mut self) {
        self.ppu_status = self.ppu_status | 0x80;
    }

    fn set_sprite_hit(&mut self) {
        self.ppu_status = self.ppu_status | 0x40
    }

    fn is_background_enable(&self) -> (r: bool) {
        self.ppu_ctrl2 & 0x08 == 0x08
    }

    fn is_sprite_enable(&self) -> (r: bool) {
        self.ppu_ctrl2 & 0x10 == 0x10
    }

    fn is_irq_enable(&self) -> (r: bool) {
        self.ppu_ctrl1 >= 0x80
    }

    fn is_sprite_8x8(&self) -> (r: bool) {
        self.ppu_ctrl1 & 0x20 != 0x20
    }

    fn get_ppu_addr_increment_value(&self) -> (r: Addr) {
        if self.ppu_ctrl1 & 0x04 == 0x04 {
            32
        } else {
            1
        }
    }

    fn get_background_table_offset(&self) -> (r: Addr) {
        if self.ppu_ctrl1 & 0x10 == 0x10 {
            0x1000
        } else {
            0x0000
        }
    }

    fn get_name_table_id(&self) -> (r: Data) {
        self.ppu_ctrl1 % 4
    }

    fn get_sprite_table_offset(&self) -> (r: Addr) {
        if self.ppu_ctrl1 & 0x08 == 0x08 {
            0x1000
        } else {
            0x0000
        }
    }

    fn get_scroll_x(&self) -> (r: Data) {
        self.ppu_scroll.get_x()
    }

    fn get_scroll_y(&self) -> (r: Data) {
        self.ppu_scroll.get_y()
    }
}

} // verus!

use super::register::ppu_data::{data_read_value, data_write_palette};
use super::register::ppu_scroll::Enable;
use super::register::Register;
use super::{PpuMem, PpuState, CYCLES_PER_LINE, LINES_PER_FRAME};
use crate::mapper::MapperState;
use crate::types::{Addr, Data};
use vstd::prelude::*;

verus! {

/// The dots of one frame: 262 scanlines of 341 dots.
pub open spec fn frame_dots() -> int {
    89342
}

/// One dot moves the beam one place on, and from the last place of the frame
/// to the first. The dot ends the frame exactly when the beam stood at the
/// last place.
pub proof fn lemma_dot_moves_beam(s: PpuState, mapper: MapperState)
    requires
        s.cycle < CYCLES_PER_LINE,
        s.line < LINES_PER_FRAME,
    ensures
        s.after_dot(mapper).cycle < CYCLES_PER_LINE,
        s.after_dot(mapper).line < LINES_PER_FRAME,
        s.after_dot(mapper).position() == (s.position() + 1) % frame_dots(),
        s.ends_frame() <==> s.position() + 1 == frame_dots(),
{
    assert(0 <= s.position() < frame_dots());
}

/// A frame ends within the next `n` dots exactly when the beam is within `n`
/// places of the end of the frame, and after `n` dots the beam stands `n`
/// places on, counted round the frame.
pub proof fn lemma_frame_length(s: PpuState, mapper: MapperState, n: nat)
    requires
        s.cycle < CYCLES_PER_LINE,
        s.line < LINES_PER_FRAME,
    ensures
        s.frame_ends_within(mapper, n) <==> s.position() + n >= frame_dots(),
        s.after_dots(mapper, n).position() == (s.position() + n) % frame_dots(),
    decreases n,
{
    assert(0 <= s.position() < frame_dots());
    if n > 0 {
        lemma_dot_moves_beam(s, mapper);
        lemma_frame_length(s.after_dot(mapper), mapper, (n - 1) as nat);
    }
}

/// Exactly 262 times 341 dots lie between the end of one frame and the end of
/// the next: once a dot has ended a frame, no frame ends within the next
/// 262 * 341 - 1 dots, and one ends with the dot after them.
pub proof fn lemma_frames_are_apart(s: PpuState, mapper: MapperState)
    requires
        s.cycle < CYCLES_PER_LINE,
        s.line < LINES_PER_FRAME,
        s.ends_frame(),
    ensures
        !s.after_dot(mapper).frame_ends_within(mapper, (frame_dots() - 1) as nat),
        s.after_dot(mapper).frame_ends_within(mapper, frame_dots() as nat),
{
    lemma_dot_moves_beam(s, mapper);
    lemma_frame_length(s.after_dot(mapper), mapper, (frame_dots() - 1) as nat);
    lemma_frame_length(s.after_dot(mapper), mapper, frame_dots() as nat);
}

/// A read of the status register returns the status, clears the
/// vertical-blank bit and makes the next writes to the scroll and address
/// registers first writes, whatever the registers held.
pub proof fn lemma_status_read(r: Register, mem: PpuMem)
    ensures
        r.read_value(mem, 2) == r.ppu_status,
        r.after_read(mem, 2).ppu_status & 0x80 == 0,
        !r.after_read(mem, 2).ppu_addr.is_lower_addr,
        r.after_read(mem, 2).ppu_scroll.enable == Enable::X,
{
    let s = r.ppu_status;
    assert((s & 0x7F) & 0x80 == 0) by (bit_vector);
}

/// After a read of the status register, two writes to the address register
/// set the video address to the first byte as its high half and the second as
/// its low half, whatever the address and the latch were before.
pub proof fn lemma_address_writes(r: Register, mem: PpuMem, high: Data, low: Data)
    ensures
        r.after_read(mem, 2).after_write(6, high).after_write(6, low).ppu_addr.addr == high * 256
            + low,
{
}

/// The palette cells at 0x3F10, 0x3F14, 0x3F18 and 0x3F1C are those at
/// 0x3F00, 0x3F04, 0x3F08 and 0x3F0C: a byte written through one of the former
/// is read through the latter, and the other way round.
pub proof fn lemma_palette_mirror(palette: Seq<Data>, k: int, data: Data, buf: Data)
    requires
        palette.len() == 0x20,
        0 <= k < 4,
    ensures
        data_read_value(
            buf,
            data_write_palette(palette, (0x3F10 + 4 * k) as Addr, data),
            (0x3F00 + 4 * k) as Addr,
        ) == data,
        data_read_value(
            buf,
            data_write_palette(palette, (0x3F00 + 4 * k) as Addr, data),
            (0x3F10 + 4 * k) as Addr,
        ) == data,
{
}

/// The sprite-hit bit is set after a dot exactly when it was set before or the
/// beam has reached the first sprite: sprites are drawn, the scanline is the
/// sprite's y, and the dot is at or past its x. This holds of every dot but the
/// last of the frame, which clears the bit.
pub proof fn lemma_sprite_hit(s: PpuState, mapper: MapperState)
    requires
        !s.ends_frame(),
    ensures
        (s.after_dot(mapper).register.ppu_status & 0x40 == 0x40) <==> (s.register.ppu_status & 0x40
            == 0x40 || (s.sprite_enabled() && s.mem.oam[0] == s.line && s.mem.oam[3] <= s.cycle
            + 1)),
{
    let status = s.register.ppu_status;
    assert((status | 0x40) & 0x40 == 0x40) by (bit_vector);
    assert((status | 0x80) & 0x40 == status & 0x40) by (bit_vector);
    assert(((status | 0x40) | 0x80) & 0x40 == 0x40) by (bit_vector);
}

/// The last dot of the frame clears the vertical-blank bit and the sprite-hit
/// bit.
pub proof fn lemma_frame_end_clears(s: PpuState, mapper: MapperState)
    requires
        s.ends_frame(),
    ensures
        s.after_dot(mapper).register.ppu_status & 0xC0 == 0,
{
    let status = s.register.ppu_status;
    assert(((status & 0x7F) & 0xBF) & 0xC0 == 0) by (bit_vector);
    assert((((status | 0x40) & 0x7F) & 0xBF) & 0xC0 == 0) by (bit_vector);
}

} // verus!

use super::cpu_bus::BusState;
use crate::dma::{oam_after_transfer, Dma};
use crate::ppu::{PpuMem, PpuState};
use crate::types::{Addr, Data};
use vstd::prelude::*;

verus! {

/// The page of work memory that a sprite transfer from page `top` copies:
/// 256 bytes, read where work memory repeats.
pub open spec fn work_page(ram: Seq<Data>, top: Data) -> Seq<Data> {
    Seq::new(0x100, |i: int| ram[(top * 0x100 + i) % 0x0800])
}

/// The state `b` with sprite memory replaced by `oam`.
pub open spec fn with_oam(b: BusState, oam: Seq<Data>) -> BusState {
    BusState { ppu: PpuState { mem: PpuMem { oam: oam, ..b.ppu.mem }, ..b.ppu }, ..b }
}

/// A read of work memory returns the byte where work memory repeats, and
/// changes nothing.
pub proof fn lemma_read_work_memory(b: BusState, addr: Addr)
    requires
        addr < 0x2000,
    ensures
        b.read(addr).0 == b,
        b.read(addr).1 == b.ram[(addr % 0x0800) as int],
{
    reveal(BusState::read);
}

/// The state once the first `n` bytes of a sprite transfer from work memory
/// are copied: the bytes stand in sprite memory in order, from the sprite
/// address on and round its end, and nothing else has changed.
proof fn lemma_transferred(b: BusState, n: nat)
    requires
        b.ppu.mem.oam.len() >= 0x100,
        b.dma.start_addr_top < 0x20,
        n <= 0x100,
    ensures
        b.transferred(n) == with_oam(
            b,
            oam_after_transfer(
                b.ppu.mem.oam,
                b.ppu.register.oam.addr,
                work_page(b.ram, b.dma.start_addr_top),
                n as int,
            ),
        ),
    decreases n,
{
    let start = b.ppu.register.oam.addr;
    let page = work_page(b.ram, b.dma.start_addr_top);
    if n == 0 {
        assert(b.ppu.mem.oam =~= oam_after_transfer(b.ppu.mem.oam, start, page, 0));
    } else {
        lemma_transferred(b, (n - 1) as nat);
        let before = b.transferred((n - 1) as nat);
        let old_oam = oam_after_transfer(b.ppu.mem.oam, start, page, n - 1);
        let addr = (b.dma.start_addr_top * 0x100 + (n - 1)) as Addr;
        lemma_read_work_memory(before, addr);
        let byte = page[n - 1];
        assert(before.read(addr).1 == byte);
        let new_oam = old_oam.update((((n - 1) as Addr) + start) % 0x100, byte);
        assert(new_oam =~= oam_after_transfer(b.ppu.mem.oam, start, page, n as int));
        assert(before.ppu.after_transfer((n - 1) as Addr, byte).mem.oam == new_oam);
    }
}

/// A sprite transfer from a page of work memory leaves the 256 bytes of the
/// page in sprite memory in order, from the sprite address on and round its
/// end; with the sprite address at zero, sprite memory starts with the page.
/// The request is withdrawn and nothing else changes.
pub proof fn lemma_transfer_from_work_memory(b: BusState)
    requires
        b.ppu.mem.oam.len() >= 0x100,
        b.dma.start_addr_top < 0x20,
    ensures
        b.after_dma() == (BusState {
            dma: Dma { should_run: false, ..b.dma },
            ..with_oam(
                b,
                oam_after_transfer(
                    b.ppu.mem.oam,
                    b.ppu.register.oam.addr,
                    work_page(b.ram, b.dma.start_addr_top),
                    0x100,
                ),
            )
        }),
        b.ppu.register.oam.addr == 0 ==> forall|k: int|
            0 <= k < 0x100 ==> #[trigger] b.after_dma().ppu.mem.oam[k] == work_page(
                b.ram,
                b.dma.start_addr_top,
            )[k],
{
    lemma_transferred(b, 0x100);
}

} // verus!

use crate::ppu::{Ppu, PpuMem, PpuState};
use crate::ram::Ram;
use crate::types::{widen, Addr, Data};
use vstd::prelude::*;

verus! {

/// The port that starts a transfer of one page of memory to sprite memory.
#[derive(Debug, Clone, Copy)]
pub struct Dma {
    /// The number of the page to copy.
    pub start_addr_top: Data,
    /// Whether a transfer waits to be run.
    pub should_run: bool,
}

/// Sprite memory after the first `n` of the 256 bytes `bytes` have gone to it,
/// starting at sprite address `start` and going round its end: the cell `k`
/// places past `start` holds byte `k`.
pub open spec fn oam_after_transfer(oam: Seq<Data>, start: Data, bytes: Seq<Data>, n: int) -> Seq<
    Data,
> {
    Seq::new(
        oam.len(),
        |k: int|
            if k < 0x100 && (k + 0x100 - start) % 0x100 < n {
                bytes[(k + 0x100 - start) % 0x100]
            } else {
                oam[k]
            },
    )
}

/// The picture unit after a whole transfer of `bytes`.
pub open spec fn after_transfer(ppu: PpuState, bytes: Seq<Data>) -> PpuState {
    PpuState {
        mem: PpuMem {
            oam: oam_after_transfer(ppu.mem.oam, ppu.register.oam.addr, bytes, 0x100),
            ..ppu.mem
        },
        ..ppu
    }
}

impl Dma {
    pub fn new() -> (d: Self)
        ensures
            d == (Dma { start_addr_top: 0, should_run: false }),
    {
        Dma { start_addr_top: 0, should_run: false }
    }

    /// Takes the number of the page to copy and asks for the transfer.
    pub fn write(&mut self, addr_top: Data)
        ensures
            *final(self) == (Dma { start_addr_top: addr_top, should_run: true }),
    {
        self.start_addr_top = addr_top;
        self.should_run = true;
    }

    pub fn is_should_run(&self) -> (r: bool)
        ensures
            r == self.should_run,
    {
        self.should_run
    }

    /// Copies the page out of `ram` into sprite memory, starting at the sprite
    /// address. The page must lie inside `ram`.
    pub fn run(&mut self, ram: &Ram, ppu: &mut Ppu)
        requires
            old(ppu).wf(),
            old(self).start_addr_top * 0x100 + 0x100 <= ram@.len(),
        ensures
            final(ppu).wf(),
            *final(self) == (Dma { should_run: false, ..*old(self) }),
            final(ppu)@ == after_transfer(
                old(ppu)@,
                ram@.subrange(
                    old(self).start_addr_top * 0x100,
                    old(self).start_addr_top * 0x100 + 0x100,
                ),
            ),
    {
        let addr = widen(self.start_addr_top) * 0x100;
        let ghost bytes = ram@.subrange(addr as int, addr + 0x100);
        let ghost start = ppu@;
        let mut i: Addr = 0;
        assert(start.mem.oam =~= oam_after_transfer(
            start.mem.oam,
            start.register.oam.addr,
            bytes,
            0,
        ));
        while i < 0x100
            invariant
                ppu.wf(),
                i <= 0x100,
                addr == self.start_addr_top * 0x100,
                addr + 0x100 <= ram@.len(),
                bytes == ram@.subrange(addr as int, addr + 0x100),
                start.mem.oam.len() >= 0x100,
                ppu@ == (PpuState {
                    mem: PpuMem {
                        oam: oam_after_transfer(
                            start.mem.oam,
                            start.register.oam.addr,
                            bytes,
                            i as int,
                        ),
                        ..start.mem
                    },
                    ..start
                }),
            decreases 0x100 - i,
        {
            ppu.transfer_sprite(i, ram.read(addr + i));
            assert(ppu@.mem.oam =~= oam_after_transfer(
                start.mem.oam,
                start.register.oam.addr,
                bytes,
                i + 1,
            ));
            i = i + 1;
        }
        self.should_run = false;
    }
}

} // verus!

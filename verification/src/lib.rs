use crate::apu::{run_cycles, Apu, ApuRun, Sample};
use crate::bus::cpu_bus::{Bus, BusState};
use crate::cassette_parser::{
    character_memory, character_rom_start, is_image, mapper_number, parse, NES_HEADER_SIZE,
};
use crate::cpu::laws::{beam, lemma_access_keeps_beam, lemma_step_bounds};
use crate::cpu::{sem_reset, sem_run};
use crate::cpu_register::{
    power_on_state, raise_irq, CpuRegister, Register, RegisterState,
};
use crate::dma::Dma;
use crate::fault::Fault;
use crate::keypad::Keypad;
use crate::mapper::{initial_mapper, Mapper};
use crate::ppu::register::Register as PpuRegisters;
use crate::ppu::renderer::{rendered, Renderer, HEIGHT, WIDTH};
use crate::ppu::{Ppu, PpuConfig, PpuMem, PpuState, CYCLES_PER_LINE, LINES_PER_FRAME};
use crate::ram::Ram;
use crate::rom::Rom;
use crate::types::{Data, Word};
use vstd::prelude::*;

pub mod apu;
pub mod bus;
pub mod cassette_parser;
pub mod cpu;
pub mod cpu_register;
pub mod dma;
pub mod fault;
pub mod helper;
pub mod keypad;
pub mod mapper;
pub mod ppu;
pub mod ram;
pub mod rom;
pub mod types;

verus! {

/// The processor cycles that a sprite transfer takes.
pub const DMA_CYCLES: u16 = 514;

/// The console: the processor, the bus with all that hangs on it, the latch of
/// the non-maskable interrupt and the renderer.
#[derive(Debug)]
pub struct Context {
    pub cpu_register: Register,
    pub bus: Bus,
    pub nmi: bool,
    pub renderer: Renderer,
}

/// The console while it runs, without its picture: the registers of the
/// processor, what the bus holds, the interrupt latch, the cycles that the
/// processor still has to wait, and the samples put out.
pub ghost struct Machine {
    pub reg: RegisterState,
    pub bus: BusState,
    pub nmi: bool,
    pub stall: u8,
    pub samples: Seq<Sample>,
}

/// How a round of the frame loop ends.
pub ghost struct Round {
    pub machine: Machine,
    /// Whether the round ended the frame.
    pub ready: bool,
    /// The fault that ended the round, if one did.
    pub fault: Option<Fault>,
}

impl Machine {
    /// The machine one dot of the picture unit later. The picture unit may
    /// raise or drop the interrupt latch, the mapper may raise an interrupt.
    pub open spec fn after_dot(self) -> Machine {
        Machine {
            bus: self.bus.after_dot(),
            nmi: self.bus.ppu.nmi_after_dot(self.nmi),
            reg: if self.bus.dot_interrupts() {
                raise_irq(self.reg)
            } else {
                self.reg
            },
            ..self
        }
    }

    /// The machine `n` dots of the picture unit later.
    pub open spec fn after_dots(self, n: nat) -> Machine
        decreases n,
    {
        if n == 0 {
            self
        } else {
            self.after_dot().after_dots((n - 1) as nat)
        }
    }

    /// Whether a frame ends within the next `n` dots.
    pub open spec fn frame_ends_within(self, n: nat) -> bool
        decreases n,
    {
        if n == 0 {
            false
        } else {
            self.bus.ppu.ends_frame() || self.after_dot().frame_ends_within((n - 1) as nat)
        }
    }

    /// The first part of a round, and the cycles it takes. A pending sprite
    /// transfer is run and takes 514 cycles. Failing that, a stalled processor
    /// waits one cycle. Failing that, the processor runs one step. The part
    /// ends in a fault if the processor meets an opcode that it does not
    /// implement or if the bus holds a fault.
    #[verifier::opaque]
    pub open spec fn processor_part(self) -> (Machine, Result<Word, Fault>) {
        let (next, cycles) = if self.bus.dma.should_run {
            (Machine { bus: self.bus.after_dma(), ..self }, Ok::<Word, Fault>(DMA_CYCLES))
        } else if self.stall > 0 {
            (Machine { stall: (self.stall - 1) as u8, ..self }, Ok::<Word, Fault>(1))
        } else {
            let out = sem_run(self.reg, self.bus, self.nmi);
            (
                Machine { reg: out.cpu.reg, bus: out.cpu.bus, nmi: false, ..self },
                match out.result {
                    Ok(c) => Ok::<Word, Fault>(c as Word),
                    Err(f) => Err::<Word, Fault>(f),
                },
            )
        };
        (
            next,
            if cycles is Ok && next.bus.fault is Some {
                Err(next.bus.fault->0)
            } else {
                cycles
            },
        )
    }

    /// One round of the frame loop: the processor part, then the sound unit
    /// for as many cycles, then the picture unit for three dots per cycle. A
    /// fault ends the round where it is met.
    #[verifier::opaque]
    pub open spec fn round(self) -> Round {
        let (m1, cycles) = self.processor_part();
        match cycles {
            Err(f) => Round { machine: m1, ready: false, fault: Some(f) },
            Ok(c) => {
                let sound = run_cycles(
                    ApuRun {
                        apu: m1.bus.apu,
                        reg: m1.reg,
                        stall: m1.stall,
                        samples: m1.samples,
                        fault: None,
                    },
                    m1.bus.mapper,
                    m1.bus.rom,
                    m1.bus.sram,
                    c as nat,
                );
                let m2 = Machine {
                    reg: sound.reg,
                    bus: BusState { apu: sound.apu, ..m1.bus },
                    stall: sound.stall,
                    samples: sound.samples,
                    ..m1
                };
                if sound.fault is Some {
                    Round { machine: m2, ready: false, fault: sound.fault }
                } else {
                    Round {
                        machine: m2.after_dots((c * 3) as nat),
                        ready: m2.frame_ends_within((c * 3) as nat),
                        fault: None,
                    }
                }
            },
        }
    }

    /// The machine after up to `n` rounds: the rounds stop once one ends the
    /// frame or meets a fault.
    pub open spec fn rounds(self, n: nat) -> Round
        decreases n,
    {
        if n == 0 {
            Round { machine: self, ready: false, fault: None }
        } else {
            let before = self.rounds((n - 1) as nat);
            if before.ready || before.fault is Some {
                before
            } else {
                before.machine.round()
            }
        }
    }
}

/// The machine as a frame starts: the controller port has been handed the
/// state of the buttons.
pub open spec fn frame_start(m: Machine, key_state: Data) -> Machine {
    Machine { bus: BusState { keypad: Keypad { buffer: key_state, ..m.bus.keypad }, ..m.bus }, ..m }
}

impl Round {
    /// Whether this round ends a run that leaves the machine `last` and the
    /// picture `picture`, and returns `res`. The run ends with the round that
    /// ends the frame or meets a fault. A frame that ended with a background is
    /// drawn over the picture `before`: the low bits 1 and 2 of the mask
    /// register, where clear, clip the background and the sprites at the left
    /// edge.
    pub open spec fn ends_frame(
        self,
        last: Machine,
        res: Result<(), Fault>,
        before: Seq<Data>,
        picture: Seq<Data>,
    ) -> bool {
        &&& self.ready || self.fault is Some
        &&& last == (Machine { stall: 0, ..self.machine })
        &&& res == (match self.fault {
            Some(f) => Err::<(), Fault>(f),
            None => Ok::<(), Fault>(()),
        })
        &&& picture == (if self.ready && self.machine.bus.ppu.background.len() != 0 {
            rendered(
                before,
                self.machine.bus.ppu.background,
                self.machine.bus.ppu.sprites,
                self.machine.bus.ppu.register.ppu_ctrl2 & 0x02 == 0,
                self.machine.bus.ppu.register.ppu_ctrl2 & 0x04 == 0,
            )
        } else {
            before
        })
    }
}

/// What the bus holds when a console is built from the whole image `buf` and
/// the save memory `sram`: the memories of the cartridge, 8 KiB of zeroed work
/// memory, and every unit in its power-on state.
pub open spec fn power_on_bus(buf: Seq<Data>, sram: Seq<Data>) -> BusState {
    let rom = buf.subrange(NES_HEADER_SIZE as int, character_rom_start(buf));
    BusState {
        apu: Apu::initial(),
        rom: rom,
        ram: Seq::new(0x2000, |i: int| 0u8),
        sram: sram,
        ppu: PpuState {
            cycle: 0,
            line: 0,
            register: PpuRegisters::new_spec(),
            mem: PpuMem {
                vram: Seq::new(0x2000, |i: int| 0u8),
                cram: character_memory(buf),
                oam: Seq::new(0x100, |i: int| 0u8),
                palette: Seq::new(0x20, |i: int| 0u8),
            },
            sprites: Seq::empty(),
            background: Seq::empty(),
            config: PpuConfig { is_horizontal_mirror: buf[6] % 2 == 0 },
        },
        dma: Dma { start_addr_top: 0, should_run: false },
        keypad: Keypad { addr: 0, reset: false, register: 0, buffer: 0 },
        mapper: initial_mapper(mapper_number(buf), rom.len(), character_memory(buf).len()),
        fault: None,
    }
}

impl Context {
    /// The bus is well formed and the picture has its size.
    pub open spec fn wf(&self) -> bool {
        &&& self.bus.wf()
        &&& self.renderer.wf()
    }

    /// The console as a machine, with `stall` cycles for the processor to wait
    /// and the samples `samples` put out.
    pub open spec fn machine(&self, stall: u8, samples: Seq<Sample>) -> Machine {
        Machine { reg: self.cpu_register@, bus: self.bus@, nmi: self.nmi, stall, samples }
    }

    /// Builds a console from a cartridge image and the content of save memory.
    /// An image that is no whole image is refused as a bad cartridge.
    pub fn new(buf: &[Data], sram: Vec<Data>) -> (r: Result<Context, Fault>)
        ensures
            r is Ok <==> is_image(buf@),
            r matches Err(e) ==> e == Fault::BadCartridge,
            r matches Ok(ctx) ==> {
                &&& ctx.wf()
                &&& ctx.cpu_register@ == power_on_state()
                &&& !ctx.nmi
                &&& ctx.bus@ == power_on_bus(buf@, sram@)
                &&& ctx.renderer@ == Seq::new((WIDTH * HEIGHT * 4) as nat, |i: int| 0xFFu8)
            },
    {
        let cassette = match parse(buf) {
            Ok(c) => c,
            Err(e) => {
                return Err(e);
            },
        };
        let mapper = Mapper::new(&cassette);
        let work = vec![0u8; 0x2000];
        assert(work@ =~= Seq::new(0x2000, |i: int| 0u8));
        let ppu = Ppu::new(
            cassette.character_ram,
            PpuConfig { is_horizontal_mirror: cassette.is_horizontal_mirror },
        );
        let bus = Bus::new(
            Apu::new(),
            Rom::new(cassette.program_rom),
            Ram::new(work),
            Ram::new(sram),
            ppu,
            Dma::new(),
            Keypad::new(),
            mapper,
        );
        Ok(
            Context {
                cpu_register: Register::new(),
                bus,
                nmi: false,
                renderer: Renderer::new(),
            },
        )
    }
}

/// Resets the processor: it starts over at the address that the cartridge
/// holds at 0xFFFC.
pub fn reset(ctx: &mut Context)
    requires
        old(ctx).wf(),
    ensures
        final(ctx).wf(),
        final(ctx).cpu_register@ == sem_reset(old(ctx).cpu_register@, old(ctx).bus@).reg,
        final(ctx).bus@ == sem_reset(old(ctx).cpu_register@, old(ctx).bus@).bus,
        final(ctx).nmi == old(ctx).nmi,
        final(ctx).renderer@ == old(ctx).renderer@,
{
    crate::cpu::reset(&mut ctx.cpu_register, &mut ctx.bus);
}

/// Runs the picture unit for `dots` dots, the mapper watching. Says whether a
/// frame ended on the way.
fn run_dots(ctx: &mut Context, dots: u16, Ghost(stall): Ghost<u8>, Ghost(samples): Ghost<
    Seq<Sample>,
>) -> (ready: bool)
    requires
        old(ctx).wf(),
    ensures
        final(ctx).wf(),
        final(ctx).renderer@ == old(ctx).renderer@,
        final(ctx).machine(stall, samples) == old(ctx).machine(stall, samples).after_dots(
            dots as nat,
        ),
        ready == old(ctx).machine(stall, samples).frame_ends_within(dots as nat),
        !ready ==> final(ctx).bus@.ppu.position() == old(ctx).bus@.ppu.position() + dots,
{
    let mut is_ready = false;
    let mut left = dots;
    let ghost start = ctx.machine(stall, samples);
    while left > 0
        invariant
            ctx.wf(),
            left <= dots,
            ctx.renderer@ == old(ctx).renderer@,
            start == old(ctx).machine(stall, samples),
            ctx.machine(stall, samples).after_dots(left as nat) == start.after_dots(dots as nat),
            (is_ready || ctx.machine(stall, samples).frame_ends_within(left as nat))
                == start.frame_ends_within(dots as nat),
            !is_ready ==> ctx.bus@.ppu.position() == start.bus.ppu.position() + (dots - left),
        decreases left,
    {
        let ended = ctx.bus.step_ppu(&mut ctx.nmi, &mut ctx.cpu_register);
        is_ready = is_ready || ended;
        left = left - 1;
    }
    is_ready
}

/// The first part of a round: a sprite transfer, a cycle of waiting or a step
/// of the processor.
fn processor_part(ctx: &mut Context, stall: &mut u8, Ghost(samples): Ghost<Seq<Sample>>) -> (res:
    Result<Word, Fault>)
    requires
        old(ctx).wf(),
    ensures
        final(ctx).bus.wf(),
        final(ctx).renderer@ == old(ctx).renderer@,
        final(ctx).machine(*final(stall), samples) == old(ctx).machine(
            *old(stall),
            samples,
        ).processor_part().0,
        res == old(ctx).machine(*old(stall), samples).processor_part().1,
        res matches Ok(cycles) ==> 1 <= cycles <= DMA_CYCLES,
        final(ctx).bus@.ppu.position() == old(ctx).bus@.ppu.position(),
{
    let ghost before = ctx.machine(*stall, samples);
    proof {
        reveal(Machine::processor_part);
        lemma_step_bounds(before.reg, before.bus, before.nmi);
        lemma_dma_keeps_beam(before.bus, 0x100);
    }
    let cycle: Word = if ctx.bus.is_dma_pending() {
        ctx.bus.run_dma();
        DMA_CYCLES
    } else if *stall > 0 {
        *stall = *stall - 1;
        1
    } else {
        match crate::cpu::run(&mut ctx.cpu_register, &mut ctx.bus, &mut ctx.nmi) {
            Ok(c) => c as Word,
            Err(f) => {
                return Err(f);
            },
        }
    };
    match ctx.bus.fault() {
        Some(f) => Err(f),
        None => Ok(cycle),
    }
}

/// Runs one round of the frame loop: a sprite transfer, a cycle of waiting or
/// a step of the processor; then the sound unit for as many cycles; then the
/// picture unit for three dots per cycle. Says whether the round ended the
/// frame, or gives the fault that ended the round.
pub fn round(ctx: &mut Context, stall: &mut u8, samples: &mut Vec<Sample>) -> (res: Result<
    bool,
    Fault,
>)
    requires
        old(ctx).wf(),
    ensures
        final(ctx).wf(),
        final(ctx).renderer@ == old(ctx).renderer@,
        old(ctx).machine(*old(stall), old(samples)@).round() == (Round {
            machine: final(ctx).machine(*final(stall), final(samples)@),
            ready: res == Ok::<bool, Fault>(true),
            fault: match res {
                Ok(_) => None,
                Err(f) => Some(f),
            },
        }),
        res == Ok::<bool, Fault>(false) ==> final(ctx).bus@.ppu.position() >= old(
            ctx,
        ).bus@.ppu.position() + 3,
{
    proof {
        reveal(Machine::round);
    }
    let cycle = match processor_part(ctx, stall, Ghost(samples@)) {
        Ok(c) => c,
        Err(f) => {
            return Err(f);
        },
    };
    match ctx.bus.run_apu(cycle, &mut ctx.cpu_register, stall, samples) {
        Err(f) => {
            return Err(f);
        },
        Ok(()) => {},
    }
    Ok(run_dots(ctx, cycle * 3, Ghost(*stall), Ghost(samples@)))
}

/// Runs the console until the picture unit has ended a frame, then draws the
/// frame. `key_state` is the state of the buttons; the samples of the sound
/// unit are added to `samples`. Fails with the first fault met: an opcode that
/// is not implemented, or an address that nothing serves.
pub fn run(ctx: &mut Context, key_state: Data, samples: &mut Vec<Sample>) -> (res: Result<
    (),
    Fault,
>)
    requires
        old(ctx).wf(),
    ensures
        final(ctx).wf(),
        exists|n: nat| #[trigger]
            frame_start(old(ctx).machine(0, old(samples)@), key_state).rounds(n).ends_frame(
                final(ctx).machine(0, final(samples)@),
                res,
                old(ctx).renderer@,
                final(ctx).renderer@,
            ),
{
    ctx.bus.update_keypad(key_state);
    let mut stall: u8 = 0;
    let ghost start = ctx.machine(0, samples@);
    let ghost mut n: nat = 0;
    loop
        invariant
            ctx.wf(),
            ctx.renderer@ == old(ctx).renderer@,
            start == frame_start(old(ctx).machine(0, old(samples)@), key_state),
            start.rounds(n) == (Round {
                machine: ctx.machine(stall, samples@),
                ready: false,
                fault: None,
            }),
        decreases LINES_PER_FRAME * CYCLES_PER_LINE - ctx.bus@.ppu.position(),
    {
        let ghost before = ctx.machine(stall, samples@);
        proof {
            n = n + 1;
            assert(start.rounds(n) == before.round());
        }
        match round(ctx, &mut stall, samples) {
            Err(f) => {
                proof {
                    assert(start.rounds(n).ends_frame(
                        ctx.machine(0, samples@),
                        Err(f),
                        old(ctx).renderer@,
                        ctx.renderer@,
                    ));
                }
                return Err(f);
            },
            Ok(true) => {
                if ctx.bus.ppu.background.0.len() != 0 {
                    let mask = ctx.bus.ppu.register.ppu_ctrl2;
                    ctx.renderer.render(
                        &ctx.bus.ppu.background.0,
                        &ctx.bus.ppu.sprites,
                        mask & 0x02 == 0,
                        mask & 0x04 == 0,
                    );
                }
                proof {
                    assert(start.rounds(n).ends_frame(
                        ctx.machine(0, samples@),
                        Ok(()),
                        old(ctx).renderer@,
                        ctx.renderer@,
                    ));
                }
                return Ok(());
            },
            Ok(false) => {},
        }
    }
}

/// A sprite transfer leaves the beam of the picture unit where it is.
pub proof fn lemma_dma_keeps_beam(b: BusState, n: nat)
    ensures
        beam(b.transferred(n)) == beam(b),
    decreases n,
{
    lemma_access_keeps_beam();
    if n > 0 {
        lemma_dma_keeps_beam(b, (n - 1) as nat);
    }
}

/// The picture unit and the mapper are all that a dot changes on the bus.
pub proof fn lemma_dots_keep_the_rest(m: Machine, n: nat)
    ensures
        m.after_dots(n).bus == (BusState {
            ppu: m.after_dots(n).bus.ppu,
            mapper: m.after_dots(n).bus.mapper,
            ..m.bus
        }),
        m.after_dots(n).stall == m.stall,
        m.after_dots(n).samples == m.samples,
    decreases n,
{
    if n > 0 {
        lemma_dots_keep_the_rest(m.after_dot(), (n - 1) as nat);
    }
}

/// A round with a sprite transfer pending runs the transfer and no
/// instruction: the registers of the processor and the interrupt latch go into
/// the sound unit as they were. The round charges 514 cycles: the sound unit
/// runs for 514 cycles and the picture unit for 1542 dots. The request is
/// withdrawn, so the next round is no transfer. The round meets a fault
/// exactly when the transfer leaves one on the bus or the sound unit meets
/// one; otherwise it ends as said.
pub proof fn lemma_transfer_round(m: Machine)
    requires
        m.bus.dma.should_run,
    ensures
        ({
            let copied = m.bus.after_dma();
            let sound = run_cycles(
                ApuRun {
                    apu: copied.apu,
                    reg: m.reg,
                    stall: m.stall,
                    samples: m.samples,
                    fault: None,
                },
                copied.mapper,
                copied.rom,
                copied.sram,
                514,
            );
            let before_dots = Machine {
                reg: sound.reg,
                bus: BusState { apu: sound.apu, ..copied },
                nmi: m.nmi,
                stall: sound.stall,
                samples: sound.samples,
            };
            &&& m.round().fault is Some <==> copied.fault is Some || sound.fault is Some
            &&& m.round().fault is None ==> m.round() == (Round {
                machine: before_dots.after_dots(1542),
                ready: before_dots.frame_ends_within(1542),
                fault: None,
            }) && !m.round().machine.bus.dma.should_run
        }),
{
    reveal(Machine::processor_part);
    reveal(Machine::round);
    let copied = m.bus.after_dma();
    let sound = run_cycles(
        ApuRun { apu: copied.apu, reg: m.reg, stall: m.stall, samples: m.samples, fault: None },
        copied.mapper,
        copied.rom,
        copied.sram,
        514,
    );
    let before_dots = Machine {
        reg: sound.reg,
        bus: BusState { apu: sound.apu, ..copied },
        nmi: m.nmi,
        stall: sound.stall,
        samples: sound.samples,
    };
    lemma_dots_keep_the_rest(before_dots, 1542);
}

/// The picture that the renderer holds.
pub fn get_render_buf(ctx: &Context) -> (buf: &Vec<u8>)
    ensures
        buf@ == ctx.renderer@,
{
    ctx.renderer.get_buf()
}

} // verus!

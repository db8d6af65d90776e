#![allow(non_snake_case)]
use nes_core::apu::Sample;
use nes_core::bus::cpu_bus::CpuBus;
use nes_core::cpu;
use nes_core::cpu_register::{CpuRegister, InterruptType};
use nes_core::fault::Fault;
use nes_core::{get_render_buf, reset, run, Context, DMA_CYCLES};

/// An image with one 16 KiB page of program memory. `code` lands at 0x8000,
/// the three vectors point at `nmi`, `start` and `irq`.
fn image(mapper: u8, prg_pages: u8, chr_pages: u8, code: &[u8], nmi: u16, start: u16, irq: u16) -> Vec<u8> {
    let prg_len = prg_pages as usize * 0x4000;
    let mut buf = vec![0u8; 16 + prg_len + chr_pages as usize * 0x2000];
    buf[0] = 0x4E;
    buf[1] = 0x45;
    buf[2] = 0x53;
    buf[3] = 0x1A;
    buf[4] = prg_pages;
    buf[5] = chr_pages;
    buf[6] = (mapper & 0x0F) << 4;
    buf[7] = mapper & 0xF0;
    for (i, b) in code.iter().enumerate() {
        buf[16 + i] = *b;
    }
    let vectors = 16 + prg_len - 6;
    buf[vectors] = nmi as u8;
    buf[vectors + 1] = (nmi >> 8) as u8;
    buf[vectors + 2] = start as u8;
    buf[vectors + 3] = (start >> 8) as u8;
    buf[vectors + 4] = irq as u8;
    buf[vectors + 5] = (irq >> 8) as u8;
    buf
}

fn console(code: &[u8]) -> Context {
    let buf = image(0, 1, 1, code, 0x9000, 0x8000, 0xA000);
    let mut ctx = Context::new(&buf, vec![0u8; 0x2000]).unwrap();
    reset(&mut ctx);
    ctx
}

#[test]
fn reset_vector_then_two_steps_store_the_accumulator() {
    let mut ctx = console(&[0xA9, 0x42, 0x85, 0x00, 0x00]);
    assert_eq!(ctx.cpu_register.get_PC(), 0x8000);
    assert_eq!(cpu::run(&mut ctx.cpu_register, &mut ctx.bus, &mut ctx.nmi), Ok(2));
    assert_eq!(cpu::run(&mut ctx.cpu_register, &mut ctx.bus, &mut ctx.nmi), Ok(3));
    assert_eq!(ctx.cpu_register.get_A(), 0x42);
    assert_eq!(ctx.bus.work_ram.field[0x0000], 0x42);
}

#[test]
fn reset_sets_stack_pointer_and_interrupt_disable() {
    let ctx = console(&[0xEA]);
    assert_eq!(ctx.cpu_register.get_S(), 0xFD);
    assert!(ctx.cpu_register.get_status_interrupt());
}

#[test]
fn nmi_is_raised_at_line_241_and_served_by_the_next_step() {
    let buf = image(0, 1, 1, &[0xEA; 0x1001], 0x9000, 0x8000, 0xA000);
    let mut ctx = Context::new(&buf, vec![0u8; 0x2000]).unwrap();
    reset(&mut ctx);
    ctx.bus.write(0x2000, 0x80);
    while !(ctx.bus.ppu.line == 241 && ctx.bus.ppu.cycle == 0) {
        assert!(!ctx.nmi);
        ctx.bus.step_ppu(&mut ctx.nmi, &mut ctx.cpu_register);
    }
    assert!(ctx.nmi);
    assert_eq!(ctx.bus.ppu.register.ppu_status & 0x80, 0x80);
    ctx.cpu_register.set_status_interrupt(false);
    let cycles = cpu::run(&mut ctx.cpu_register, &mut ctx.bus, &mut ctx.nmi);
    // the step is the entry alone
    assert_eq!(cycles, Ok(7));
    assert!(!ctx.nmi);
    assert_eq!(ctx.cpu_register.get_PC(), 0x9000);
    assert_eq!(ctx.cpu_register.get_S(), 0xFD - 3);
    assert!(ctx.cpu_register.get_status_interrupt());
    // the program counter and the flags with the break flag clear are on the stack
    assert_eq!(ctx.bus.work_ram.field[0x01FD], 0x80);
    assert_eq!(ctx.bus.work_ram.field[0x01FC], 0x00);
    assert_eq!(ctx.bus.work_ram.field[0x01FB] & 0x10, 0x00);
    assert_eq!(ctx.bus.work_ram.field[0x01FB] & 0x20, 0x20);
    // the handler starts with the step after
    assert_eq!(cpu::run(&mut ctx.cpu_register, &mut ctx.bus, &mut ctx.nmi), Ok(2));
    assert_eq!(ctx.cpu_register.get_PC(), 0x9001);
    assert_eq!(ctx.cpu_register.get_S(), 0xFD - 3);
}

#[test]
fn nmi_is_not_raised_without_the_enable_bit() {
    let mut ctx = console(&[0xEA]);
    for _ in 0..(242 * 341) {
        ctx.bus.step_ppu(&mut ctx.nmi, &mut ctx.cpu_register);
    }
    assert!(!ctx.nmi);
}

#[test]
fn sprite_transfer_copies_a_page_in_order() {
    let mut ctx = console(&[0xEA]);
    for i in 0..0x100u16 {
        ctx.bus.write(0x0200 + i, (i as u8) ^ 0x5A);
    }
    ctx.bus.write(0x2003, 0x00);
    assert!(!ctx.bus.is_dma_pending());
    ctx.bus.write(0x4014, 0x02);
    assert!(ctx.bus.is_dma_pending());
    ctx.bus.run_dma();
    assert!(!ctx.bus.is_dma_pending());
    for i in 0..0x100usize {
        assert_eq!(ctx.bus.ppu.ctx.oam_ram.field[i], (i as u8) ^ 0x5A);
    }
    assert_eq!(DMA_CYCLES, 514);
}

#[test]
fn sprite_transfer_starts_at_the_sprite_address_and_wraps() {
    let mut ctx = console(&[0xEA]);
    for i in 0..0x100u16 {
        ctx.bus.write(0x0300 + i, i as u8);
    }
    ctx.bus.write(0x2003, 0xF0);
    ctx.bus.write(0x4014, 0x03);
    ctx.bus.run_dma();
    assert_eq!(ctx.bus.ppu.ctx.oam_ram.field[0xF0], 0x00);
    assert_eq!(ctx.bus.ppu.ctx.oam_ram.field[0xFF], 0x0F);
    assert_eq!(ctx.bus.ppu.ctx.oam_ram.field[0x00], 0x10);
    assert_eq!(ctx.bus.ppu.ctx.oam_ram.field[0xEF], 0xFF);
}

#[test]
fn a_frame_charges_a_pending_transfer_514_cycles() {
    // JMP 0x8000 for ever
    let mut ctx = console(&[0x4C, 0x00, 0x80]);
    ctx.bus.write(0x4014, 0x02);
    let mut samples: Vec<Sample> = Vec::new();
    assert_eq!(run(&mut ctx, 0, &mut samples), Ok(()));
    assert!(!ctx.bus.is_dma_pending());
    // 514 cycles of transfer, then jumps of three cycles each, to the end of the frame
    let dots = 262 * 341;
    let rest = dots - 514 * 3;
    let jumps = (rest + 8) / 9;
    assert_eq!(ctx.bus.ppu.line * 341 + ctx.bus.ppu.cycle, jumps * 9 - rest);
}

#[test]
fn sprite_zero_hit_sets_when_the_beam_reaches_the_sprite() {
    let mut ctx = console(&[0xEA]);
    ctx.bus.write(0x2003, 0x00);
    for b in [0x10u8, 0x00, 0x00, 0x20] {
        ctx.bus.write(0x2004, b);
    }
    ctx.bus.write(0x2001, 0x18);
    while !(ctx.bus.ppu.line == 0x10 && ctx.bus.ppu.cycle == 0x1F) {
        ctx.bus.step_ppu(&mut ctx.nmi, &mut ctx.cpu_register);
        assert_eq!(ctx.bus.ppu.register.ppu_status & 0x40, 0x00);
    }
    ctx.bus.step_ppu(&mut ctx.nmi, &mut ctx.cpu_register);
    assert_eq!(ctx.bus.ppu.line, 0x10);
    assert_eq!(ctx.bus.ppu.cycle, 0x20);
    assert_eq!(ctx.bus.ppu.register.ppu_status & 0x40, 0x40);
}

#[test]
fn sprite_zero_hit_needs_sprites_enabled() {
    let mut ctx = console(&[0xEA]);
    ctx.bus.write(0x2003, 0x00);
    for b in [0x10u8, 0x00, 0x00, 0x20] {
        ctx.bus.write(0x2004, b);
    }
    ctx.bus.write(0x2001, 0x08);
    for _ in 0..(0x12 * 341) {
        ctx.bus.step_ppu(&mut ctx.nmi, &mut ctx.cpu_register);
    }
    assert_eq!(ctx.bus.ppu.register.ppu_status & 0x40, 0x00);
}

#[test]
fn mmc3_counter_interrupts_on_the_fourth_scanline() {
    let buf = image(4, 2, 1, &[0xEA], 0x9000, 0x8000, 0xA000);
    let mut ctx = Context::new(&buf, vec![0u8; 0x2000]).unwrap();
    reset(&mut ctx);
    assert_eq!(ctx.cpu_register.get_PC(), 0x8000);
    ctx.cpu_register.set_status_interrupt(false);
    ctx.bus.write(0xC000, 3);
    ctx.bus.write(0xC001, 0);
    ctx.bus.write(0xE001, 0);
    ctx.bus.write(0x2001, 0x18);
    for line in 0..4 {
        for _ in 0..341 {
            assert!(!ctx.cpu_register.is_interrupt_irq_enabled());
            ctx.bus.step_ppu(&mut ctx.nmi, &mut ctx.cpu_register);
            if ctx.bus.ppu.cycle == 280 && line == 3 {
                break;
            }
        }
    }
    assert!(ctx.cpu_register.is_interrupt_irq_enabled());
    assert_eq!(cpu::run(&mut ctx.cpu_register, &mut ctx.bus, &mut ctx.nmi), Ok(7));
    assert_eq!(ctx.cpu_register.get_PC(), 0xA000);
    assert_eq!(ctx.cpu_register.get_S(), 0xFD - 3);
    assert!(ctx.cpu_register.get_status_interrupt());
    assert!(!ctx.cpu_register.is_interrupt_irq_enabled());
}

#[test]
fn mmc3_counter_is_silent_while_disabled() {
    let buf = image(4, 2, 1, &[0xEA], 0x9000, 0x8000, 0xA000);
    let mut ctx = Context::new(&buf, vec![0u8; 0x2000]).unwrap();
    reset(&mut ctx);
    ctx.cpu_register.set_status_interrupt(false);
    ctx.bus.write(0xC000, 3);
    ctx.bus.write(0xC001, 0);
    ctx.bus.write(0xE000, 0);
    ctx.bus.write(0x2001, 0x18);
    for _ in 0..(8 * 341) {
        ctx.bus.step_ppu(&mut ctx.nmi, &mut ctx.cpu_register);
    }
    assert!(!ctx.cpu_register.is_interrupt_irq_enabled());
}

#[test]
fn frame_interrupt_sets_after_four_steps_and_clears_on_read() {
    let mut ctx = console(&[0xEA]);
    ctx.cpu_register.set_status_interrupt(false);
    ctx.bus.write(0x4017, 0x00);
    let mut stall = 0u8;
    let mut samples: Vec<Sample> = Vec::new();
    assert_eq!(ctx.bus.run_apu(3 * 7457 - 1, &mut ctx.cpu_register, &mut stall, &mut samples), Ok(()));
    assert!(!ctx.bus.apu.frame_irq);
    assert_eq!(ctx.bus.run_apu(7457 + 1, &mut ctx.cpu_register, &mut stall, &mut samples), Ok(()));
    assert!(ctx.bus.apu.frame_irq);
    assert!(ctx.cpu_register.is_interrupt_irq_enabled());
    assert_eq!(ctx.bus.read(0x4015) & 0x40, 0x40);
    assert!(!ctx.bus.apu.frame_irq);
    assert_eq!(ctx.bus.read(0x4015) & 0x40, 0x00);
}

#[test]
fn frame_interrupt_is_cleared_by_the_disable_bit() {
    let mut ctx = console(&[0xEA]);
    ctx.bus.write(0x4017, 0x00);
    let mut stall = 0u8;
    let mut samples: Vec<Sample> = Vec::new();
    assert_eq!(ctx.bus.run_apu(4 * 7457, &mut ctx.cpu_register, &mut stall, &mut samples), Ok(()));
    assert!(ctx.bus.apu.frame_irq);
    ctx.bus.write(0x4017, 0x40);
    assert!(!ctx.bus.apu.frame_irq);
}

#[test]
fn a_frame_ends_after_262_lines_and_puts_samples_out() {
    let mut ctx = console(&[0x4C, 0x00, 0x80]);
    let mut samples: Vec<Sample> = Vec::new();
    assert_eq!(run(&mut ctx, 0, &mut samples), Ok(()));
    // 9927 jumps of nine dots fill the 89342 dots of the frame and one more
    assert_eq!(ctx.bus.ppu.line, 0);
    assert_eq!(ctx.bus.ppu.cycle, 1);
    // 9927 jumps of three cycles each
    assert_eq!(ctx.bus.apu.cycle, 29781);
    // 29781 cycles at 44100 samples to 1789772 cycles
    assert_eq!(samples.len(), 733);
    assert!(samples.iter().all(|s| *s == Sample { pulse: 0, tnd: 0 }));
    assert_eq!(get_render_buf(&ctx).len(), 256 * 240 * 4);
}

#[test]
fn a_frame_stops_at_an_opcode_that_is_not_implemented() {
    let mut ctx = console(&[0xEA, 0x0B]);
    let mut samples: Vec<Sample> = Vec::new();
    assert_eq!(run(&mut ctx, 0, &mut samples), Err(Fault::UnknownOpcode(0x0B)));
}

#[test]
fn a_frame_stops_at_an_address_that_nothing_serves() {
    // LDA 0x4018
    let mut ctx = console(&[0xAD, 0x18, 0x40]);
    let mut samples: Vec<Sample> = Vec::new();
    assert_eq!(run(&mut ctx, 0, &mut samples), Err(Fault::IllegalBusAccess(0x4018)));
}

#[test]
fn a_frame_stops_at_an_address_that_the_mapper_cannot_serve() {
    // STA 0x5000
    let mut ctx = console(&[0x8D, 0x00, 0x50]);
    let mut samples: Vec<Sample> = Vec::new();
    assert_eq!(run(&mut ctx, 0, &mut samples), Err(Fault::MapperFault(0x5000)));
}

#[test]
fn a_bad_image_is_refused() {
    let mut buf = image(0, 1, 1, &[0xEA], 0, 0x8000, 0);
    buf[3] = 0x00;
    assert_eq!(Context::new(&buf, vec![0u8; 0x2000]).err(), Some(Fault::BadCartridge));
    let mut buf = image(0, 1, 1, &[0xEA], 0, 0x8000, 0);
    buf.pop();
    assert_eq!(Context::new(&buf, vec![0u8; 0x2000]).err(), Some(Fault::BadCartridge));
    assert_eq!(Context::new(&[0x4E, 0x45, 0x53], vec![]).err(), Some(Fault::BadCartridge));
}

#[test]
fn the_buttons_are_latched_by_the_strobe_and_read_one_by_one() {
    let mut ctx = console(&[0x4C, 0x00, 0x80]);
    let mut samples: Vec<Sample> = Vec::new();
    assert_eq!(run(&mut ctx, 0b1000_0101, &mut samples), Ok(()));
    ctx.bus.write(0x4016, 1);
    ctx.bus.write(0x4016, 0);
    let bits: Vec<u8> = (0..10).map(|_| ctx.bus.read(0x4016)).collect();
    assert_eq!(bits, vec![1, 0, 1, 0, 0, 0, 0, 1, 0, 0]);
    assert_eq!(ctx.bus.read(0x4017), 0);
}

#[test]
fn work_memory_repeats_every_two_kib() {
    let mut ctx = console(&[0xEA]);
    ctx.bus.write(0x0001, 0x77);
    assert_eq!(ctx.bus.read(0x0801), 0x77);
    assert_eq!(ctx.bus.read(0x1801), 0x77);
    ctx.bus.write(0x1FFF, 0x33);
    assert_eq!(ctx.bus.read(0x07FF), 0x33);
}

#[test]
fn sixteen_kib_of_program_memory_appear_twice() {
    let mut ctx = console(&[0xA9, 0x42]);
    assert_eq!(ctx.bus.read(0x8000), 0xA9);
    assert_eq!(ctx.bus.read(0xC001), 0x42);
    assert_eq!(ctx.bus.read_word(0xFFFC), 0x8000);
}

#[test]
fn save_memory_is_read_and_written_through_the_mapper() {
    let mut ctx = console(&[0xEA]);
    ctx.bus.write(0x6000, 0x12);
    ctx.bus.write(0x7FFF, 0x34);
    assert_eq!(ctx.bus.read(0x6000), 0x12);
    assert_eq!(ctx.bus.sram.field[0x1FFF], 0x34);
    assert_eq!(ctx.bus.fault(), None);
}

#[test]
fn the_first_fault_is_kept() {
    let mut ctx = console(&[0xEA]);
    assert_eq!(ctx.bus.read(0x4018), 0);
    assert_eq!(ctx.bus.read(0x5000), 0);
    assert_eq!(ctx.bus.fault(), Some(Fault::IllegalBusAccess(0x4018)));
}

#[test]
fn registers_of_the_picture_unit_repeat_every_eight() {
    let mut ctx = console(&[0xEA]);
    ctx.bus.write(0x2008, 0x80);
    assert_eq!(ctx.bus.ppu.register.ppu_ctrl1, 0x80);
    ctx.bus.write(0x3FF9, 0x1E);
    assert_eq!(ctx.bus.ppu.register.ppu_ctrl2, 0x1E);
}

#[test]
fn a_pending_interrupt_waits_while_it_is_masked() {
    // SEI, NOP
    let mut ctx = console(&[0x78, 0xEA]);
    ctx.cpu_register.set_status_interrupt(false);
    ctx.cpu_register.set_interrupt_irq();
    assert!(matches!(ctx.cpu_register.get_interrupt_type(), InterruptType::INTERRUPT_IRQ));
    ctx.cpu_register.set_status_interrupt(true);
    assert_eq!(cpu::run(&mut ctx.cpu_register, &mut ctx.bus, &mut ctx.nmi), Ok(2));
    assert_eq!(ctx.cpu_register.get_PC(), 0x8001);
    assert!(ctx.cpu_register.is_interrupt_irq_enabled());
}

#[test]
fn a_round_with_a_transfer_pending_charges_514_cycles() {
    let mut ctx = console(&[0xA9, 0x42]);
    for i in 0..0x100u16 {
        ctx.bus.write(0x0200 + i, i as u8);
    }
    ctx.bus.write(0x4014, 0x02);
    let pc = ctx.cpu_register.get_PC();
    let mut stall = 0u8;
    let mut samples: Vec<Sample> = Vec::new();
    assert_eq!(nes_core::round(&mut ctx, &mut stall, &mut samples), Ok(false));
    // no instruction ran
    assert_eq!(ctx.cpu_register.get_PC(), pc);
    assert_eq!(ctx.cpu_register.get_A(), 0x00);
    // the sound unit ran 514 cycles, the picture unit 1542 dots
    assert_eq!(ctx.bus.apu.cycle, 514);
    assert_eq!(ctx.bus.ppu.line * 341 + ctx.bus.ppu.cycle, 1542);
    assert_eq!(ctx.bus.ppu.ctx.oam_ram.field[0x7F], 0x7F);
    assert!(!ctx.bus.is_dma_pending());
    // the next round is a step of the processor
    assert_eq!(nes_core::round(&mut ctx, &mut stall, &mut samples), Ok(false));
    assert_eq!(ctx.cpu_register.get_A(), 0x42);
    assert_eq!(ctx.bus.apu.cycle, 516);
    assert_eq!(ctx.bus.ppu.line * 341 + ctx.bus.ppu.cycle, 1548);
}

#[test]
fn a_round_of_a_stalled_processor_waits_one_cycle() {
    let mut ctx = console(&[0xA9, 0x42]);
    let mut stall = 2u8;
    let mut samples: Vec<Sample> = Vec::new();
    assert_eq!(nes_core::round(&mut ctx, &mut stall, &mut samples), Ok(false));
    assert_eq!(stall, 1);
    assert_eq!(ctx.cpu_register.get_PC(), 0x8000);
    assert_eq!(ctx.bus.apu.cycle, 1);
    assert_eq!(ctx.bus.ppu.cycle, 3);
}

#[test]
fn the_hit_test_wants_sprites_on_and_the_beam_at_the_sprite() {
    let mut ctx = console(&[0xEA]);
    ctx.bus.write(0x2003, 0x00);
    for b in [0x10u8, 0x00, 0x00, 0x20] {
        ctx.bus.write(0x2004, b);
    }
    ctx.bus.ppu.line = 0x10;
    assert!(!ctx.bus.ppu.has_sprite_hit(0x20));
    ctx.bus.write(0x2001, 0x10);
    assert!(ctx.bus.ppu.has_sprite_hit(0x20));
    assert!(ctx.bus.ppu.has_sprite_hit(341));
    assert!(!ctx.bus.ppu.has_sprite_hit(0x1F));
    ctx.bus.ppu.line = 0x11;
    assert!(!ctx.bus.ppu.has_sprite_hit(0x20));
}

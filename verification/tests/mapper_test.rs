use nes_core::cassette_parser::{parse, Cassette};
use nes_core::cpu_register::{CpuRegister, Register};
use nes_core::dma::Dma;
use nes_core::fault::Fault;
use nes_core::keypad::Keypad;
use nes_core::mapper::mapper::{read_prg, read_sram, write_sram};
use nes_core::mapper::mapper0::Mapper0;
use nes_core::mapper::mapper3::Mapper3;
use nes_core::mapper::mapper4::Mapper4;
use nes_core::mapper::Mapper;
use nes_core::ppu::{Ppu, PpuConfig};
use nes_core::ram::Ram;
use nes_core::rom::Rom;

fn rom(len: usize) -> Rom {
    Rom::new((0..len).map(|i| (i / 0x2000) as u8 * 16 + (i % 16) as u8).collect())
}

#[test]
fn nrom_mirrors_sixteen_kib() {
    let m = Mapper0::new();
    let sram = Ram::new(vec![0x5A; 0x2000]);
    let small = rom(0x4000);
    assert_eq!(m.read(0x8001, &small, &sram), Ok(0x01));
    assert_eq!(m.read(0xC001, &small, &sram), Ok(0x01));
    assert_eq!(m.read(0xFFFF, &small, &sram), Ok(0x1F));
    let big = rom(0x8000);
    assert_eq!(m.read(0xA000, &big, &sram), Ok(0x10));
    assert_eq!(m.read(0xC001, &big, &sram), Ok(0x21));
    assert_eq!(m.read(0xFFFF, &big, &sram), Ok(0x3F));
    assert_eq!(m.read(0x6000, &big, &sram), Ok(0x5A));
    assert_eq!(m.read(0x5FFF, &big, &sram), Err(Fault::MapperFault(0x5FFF)));
    assert_eq!(m.read(0x8000, &Rom::new(vec![]), &sram), Err(Fault::MapperFault(0x8000)));
    assert_eq!(m.get_cram_index(0x1234), 0x1234);
    let mut m = Mapper0::new();
    let mut sram = Ram::new(vec![0; 0x2000]);
    assert_eq!(m.write(0x8000, 1, &mut sram), Ok(()));
    assert_eq!(m.write(0x6001, 7, &mut sram), Ok(()));
    assert_eq!(sram.field[1], 7);
    assert_eq!(m.write(0x4020, 7, &mut sram), Err(Fault::MapperFault(0x4020)));
}

#[test]
fn save_memory_shorter_than_the_window_faults() {
    let mut sram = Ram::new(vec![0; 0x10]);
    assert_eq!(read_sram(&sram, 0x600F), Ok(0));
    assert_eq!(read_sram(&sram, 0x6010), Err(Fault::MapperFault(0x6010)));
    assert_eq!(write_sram(&mut sram, 0x6010, 1), Err(Fault::MapperFault(0x6010)));
    assert_eq!(write_sram(&mut sram, 0x600F, 1), Ok(()));
    assert_eq!(sram.read(0x0F), 1);
    assert_eq!(sram.size(), 0x10);
    assert_eq!(read_prg(&rom(4), 3, 0x8003), Ok(3));
    assert_eq!(read_prg(&rom(4), 4, 0x8004), Err(Fault::MapperFault(0x8004)));
    assert_eq!(rom(4).size(), 4);
    assert_eq!(rom(4).read(2), 2);
}

#[test]
fn cnrom_switches_the_pattern_bank() {
    let mut m = Mapper3::new(0x8000);
    assert_eq!((m.chrBank, m.prgBank1, m.prgBank2), (0, 0, 1));
    assert_eq!(Mapper3::new(0x4000).prgBank2, 0);
    assert_eq!(Mapper3::new(0x0000).prgBank2, 0);
    let mut sram = Ram::new(vec![0; 0x2000]);
    assert_eq!(m.get_cram_index(0x0010), 0x0010);
    assert_eq!(m.write(0x8000, 0xFE, &mut sram), Ok(()));
    assert_eq!(m.chrBank, 2);
    assert_eq!(m.get_cram_index(0x0010), 0x4010);
    assert_eq!(m.write(0xFFFF, 0x03, &mut sram), Ok(()));
    assert_eq!(m.get_cram_index(0x1FFF), 0x7FFF);
    assert_eq!(m.write(0x6000, 0x44, &mut sram), Ok(()));
    assert_eq!(m.chrBank, 3);
    let big = rom(0x8000);
    assert_eq!(m.read(0x6000, &big, &sram), Ok(0x44));
    assert_eq!(m.read(0x8000, &big, &sram), Ok(0x00));
    assert_eq!(m.read(0xC000, &big, &sram), Ok(0x20));
    assert_eq!(m.read(0x4020, &big, &sram), Err(Fault::MapperFault(0x4020)));
    assert_eq!(m.write(0x4020, 0, &mut sram), Err(Fault::MapperFault(0x4020)));
}

#[test]
fn mmc3_starts_with_the_last_banks_fixed() {
    let m = Mapper4::new(0x10000, 0x8000);
    let sram = Ram::new(vec![0; 0x2000]);
    let prg = rom(0x10000);
    assert_eq!(m.read(0x8000, &prg, &sram), Ok(0x00));
    assert_eq!(m.read(0xA000, &prg, &sram), Ok(0x00));
    assert_eq!(m.read(0xC000, &prg, &sram), Ok(0x60));
    assert_eq!(m.read(0xE000, &prg, &sram), Ok(0x70));
    assert_eq!(m.read(0xFFFF, &prg, &sram), Ok(0x7F));
    assert_eq!(m.prg_bank_offset(-1), 0xE000);
    assert_eq!(m.prg_bank_offset(-2), 0xC000);
    assert_eq!(m.prg_bank_offset(9), 0x2000);
    assert_eq!(m.prg_bank_offset(0xFF), 0xE000);
    assert_eq!(m.chr_bank_offset(33), 0x0400);
    assert_eq!(m.chr_bank_offset(-1), 0x7C00);
    // no banks at all
    let none = Mapper4::new(0x1000, 0);
    assert_eq!(none.prg_bank_offset(5), 0);
    assert_eq!(none.read(0x8000, &rom(0x1000), &sram), Ok(0x00));
    assert_eq!(none.read(0x9000, &rom(0x1000), &sram), Err(Fault::MapperFault(0x9000)));
}

#[test]
fn mmc3_register_6_switches_its_program_window() {
    let mut cfg = PpuConfig { is_horizontal_mirror: false };
    let mut sram = Ram::new(vec![0; 0x2000]);
    let prg = rom(0x10000);
    for v in [0u8, 1, 5, 7, 8, 13, 0x7F, 0x80, 0xFE, 0xFF] {
        let mut m = Mapper4::new(0x10000, 0x8000);
        m.write(0x8000, 0x06, &mut sram, &mut cfg).unwrap();
        m.write(0x8001, v, &mut sram, &mut cfg).unwrap();
        let bank = (v as usize * 0x2000 % 0x10000) / 0x2000;
        assert_eq!(m.read(0x8000, &prg, &sram), Ok(bank as u8 * 16));
        assert_eq!(m.read(0x9FFF, &prg, &sram), Ok(bank as u8 * 16 + 15));
        assert_eq!(m.read(0xC000, &prg, &sram), Ok(0x60));
        // in program mode 1 the window is at 0xC000
        let mut m = Mapper4::new(0x10000, 0x8000);
        m.write(0x8000, 0x46, &mut sram, &mut cfg).unwrap();
        m.write(0x8001, v, &mut sram, &mut cfg).unwrap();
        assert_eq!(m.read(0xC000, &prg, &sram), Ok(bank as u8 * 16));
        assert_eq!(m.read(0x8000, &prg, &sram), Ok(0x60));
    }
    // register 7 switches 0xA000
    let mut m = Mapper4::new(0x10000, 0x8000);
    m.write_bank_select(0x07);
    m.write_bank_data(3);
    assert_eq!(m.read(0xA000, &prg, &sram), Ok(0x30));
    // three banks: the bank number counts round them, whatever its top bit
    let odd = rom(0x6000);
    let mut m = Mapper4::new(0x6000, 0x2000);
    m.write(0x8000, 0x06, &mut sram, &mut cfg).unwrap();
    m.write(0x8001, 4, &mut sram, &mut cfg).unwrap();
    assert_eq!(m.read(0x8000, &odd, &sram), Ok(0x10));
    m.write(0x8001, 0x80, &mut sram, &mut cfg).unwrap();
    assert_eq!(m.read(0x8000, &odd, &sram), Ok(0x20));
    m.write(0x8001, 0xFF, &mut sram, &mut cfg).unwrap();
    assert_eq!(m.read(0x8000, &odd, &sram), Ok(0x00));
    // the fixed windows still show the last two banks
    assert_eq!(m.read(0xC000, &odd, &sram), Ok(0x10));
    assert_eq!(m.read(0xE000, &odd, &sram), Ok(0x20));
    assert_eq!(m.prg_bank_offset(0x80), 0x4000);
    assert_eq!(m.prg_bank_offset(-1), 0x4000);
    assert_eq!(m.prg_bank_offset(-2), 0x2000);
}

#[test]
fn mmc3_pattern_windows_follow_the_mode() {
    let mut cfg = PpuConfig { is_horizontal_mirror: false };
    let mut sram = Ram::new(vec![0; 0x2000]);
    let mut m = Mapper4::new(0x8000, 0x8000);
    for (r, v) in [(0u8, 0x05u8), (1, 0x08), (2, 0x10), (3, 0x11), (4, 0x12), (5, 0x13)] {
        m.write(0x8000, r, &mut sram, &mut cfg).unwrap();
        m.write(0x8001, v, &mut sram, &mut cfg).unwrap();
    }
    assert_eq!(m.get_cram_index(0x0000), 0x04 * 0x400);
    assert_eq!(m.get_cram_index(0x0401), 0x05 * 0x400 + 1);
    assert_eq!(m.get_cram_index(0x0800), 0x08 * 0x400);
    assert_eq!(m.get_cram_index(0x0C00), 0x09 * 0x400);
    assert_eq!(m.get_cram_index(0x1000), 0x10 * 0x400);
    assert_eq!(m.get_cram_index(0x1FFF), 0x13 * 0x400 + 0x3FF);
    m.write(0x8000, 0x80, &mut sram, &mut cfg).unwrap();
    assert_eq!(m.get_cram_index(0x0000), 0x10 * 0x400);
    assert_eq!(m.get_cram_index(0x0C00), 0x13 * 0x400);
    assert_eq!(m.get_cram_index(0x1000), 0x04 * 0x400);
    assert_eq!(m.get_cram_index(0x1C00), 0x09 * 0x400);
    let whole = Mapper::Mmc3(m);
    assert_eq!(whole.get_cram_index(0x1C00), 0x09 * 0x400);
}

#[test]
fn mmc3_mirror_port_sets_the_mirroring() {
    let mut cfg = PpuConfig { is_horizontal_mirror: false };
    let mut sram = Ram::new(vec![0; 0x2000]);
    let mut m = Mapper4::new(0x8000, 0x2000);
    m.write(0xA000, 0x01, &mut sram, &mut cfg).unwrap();
    assert!(cfg.is_horizontal_mirror);
    m.write(0xA001, 0x00, &mut sram, &mut cfg).unwrap();
    assert!(cfg.is_horizontal_mirror);
    m.write(0xBFFE, 0xFE, &mut sram, &mut cfg).unwrap();
    assert!(!cfg.is_horizontal_mirror);
    m.write_mirror(0x03, &mut cfg);
    assert!(cfg.is_horizontal_mirror);
    m.write_protect();
    assert_eq!(m.write(0x7000, 9, &mut sram, &mut cfg), Ok(()));
    assert_eq!(sram.field[0x1000], 9);
    assert_eq!(m.write(0x5000, 9, &mut sram, &mut cfg), Err(Fault::MapperFault(0x5000)));
}

#[test]
fn mmc3_counter_reloads_at_zero_and_interrupts_on_reaching_it() {
    let mut r = Register::new();
    r.set_status_interrupt(false);
    let mut m = Mapper4::new(0x8000, 0x2000);
    m.write_irq_latch(2);
    m.write_irq_reload();
    m.write_irq_enable();
    let mut raised = Vec::new();
    for _ in 0..9 {
        r.set_interrupt_none();
        m.handle_scan_line(&mut r);
        raised.push(r.is_interrupt_irq_enabled());
    }
    // reload, 1, 0 and interrupt, reload, 1, 0 and interrupt, ...
    assert_eq!(raised, vec![false, false, true, false, false, true, false, false, true]);
    m.write_irq_disable();
    r.set_interrupt_none();
    for _ in 0..6 {
        m.handle_scan_line(&mut r);
    }
    assert!(!r.is_interrupt_irq_enabled());
    // a masked interrupt is not latched
    m.write_irq_enable();
    r.set_status_interrupt(true);
    for _ in 0..6 {
        m.handle_scan_line(&mut r);
    }
    assert!(!r.is_interrupt_irq_enabled());
}

#[test]
fn mmc3_counter_ticks_at_dot_280_of_the_visible_lines() {
    let mut r = Register::new();
    r.set_status_interrupt(false);
    let mut m = Mapper4::new(0x8000, 0x2000);
    m.write_register(0xC000, 1, &mut PpuConfig { is_horizontal_mirror: false });
    m.write_irq_reload();
    m.write_irq_enable();
    let mut p = Ppu::new(vec![0u8; 0x2000], PpuConfig { is_horizontal_mirror: false });
    p.cycle = 280;
    p.line = 10;
    m.step(&p, &mut r);
    m.step(&p, &mut r);
    // rendering is off: no tick
    assert!(!r.is_interrupt_irq_enabled());
    p.register.ppu_ctrl2 = 0x10;
    assert!(p.is_sprite_enabled());
    assert!(!p.is_background_enabled());
    p.cycle = 279;
    m.step(&p, &mut r);
    p.cycle = 280;
    p.line = 240;
    m.step(&p, &mut r);
    p.line = 260;
    m.step(&p, &mut r);
    m.step(&p, &mut r);
    assert!(!r.is_interrupt_irq_enabled());
    p.line = 239;
    m.step(&p, &mut r);
    assert!(!r.is_interrupt_irq_enabled());
    p.line = 261;
    m.step(&p, &mut r);
    assert!(r.is_interrupt_irq_enabled());
    let mut other = Mapper::Nrom(Mapper0::new());
    r.set_interrupt_none();
    other.step(&p, &mut r);
    assert!(!r.is_interrupt_irq_enabled());
}

fn cassette(mapper: u8, prg: usize, chr: usize) -> Cassette {
    Cassette {
        is_horizontal_mirror: true,
        character_ram: vec![0; chr],
        program_rom: vec![0; prg],
        mapper,
    }
}

#[test]
fn the_mapper_is_picked_by_its_number() {
    assert!(matches!(Mapper::new(&cassette(0, 0x4000, 0x2000)), Mapper::Nrom(_)));
    assert!(matches!(Mapper::new(&cassette(4, 0x8000, 0x2000)), Mapper::Mmc3(_)));
    assert!(matches!(Mapper::new(&cassette(9, 0x8000, 0x2000)), Mapper::Nrom(_)));
    match Mapper::new(&cassette(3, 0x8000, 0x2000)) {
        Mapper::Cnrom(m) => assert_eq!(m.prgBank2, 1),
        _ => unreachable!(),
    }
    match Mapper::new(&cassette(3, 0x20000, 0x2000)) {
        Mapper::Cnrom(m) => assert_eq!(m.prgBank2, 2),
        _ => unreachable!(),
    }
    let mut m = Mapper::new(&cassette(3, 0x8000, 0x8000));
    let mut sram = Ram::new(vec![0; 0x2000]);
    let mut cfg = PpuConfig { is_horizontal_mirror: true };
    assert_eq!(m.write(0x8000, 2, &mut sram, &mut cfg), Ok(()));
    assert_eq!(m.get_cram_index(1), 0x4001);
    assert!(cfg.is_horizontal_mirror);
    assert_eq!(m.read(0x8000, &rom(0x8000), &sram), Ok(0));
}

#[test]
fn an_image_is_taken_apart() {
    let mut buf = vec![0u8; 16 + 2 * 0x4000 + 0x2000];
    buf[..4].copy_from_slice(&[0x4E, 0x45, 0x53, 0x1A]);
    buf[4] = 2;
    buf[5] = 1;
    buf[6] = 0x41;
    buf[7] = 0x20;
    buf[16] = 0xAA;
    buf[16 + 0x7FFF] = 0xBB;
    buf[16 + 0x8000] = 0xCC;
    let c = parse(&buf).unwrap();
    assert!(!c.is_horizontal_mirror);
    assert_eq!(c.mapper, 0x24);
    assert_eq!(c.program_rom.len(), 0x8000);
    assert_eq!((c.program_rom[0], c.program_rom[0x7FFF]), (0xAA, 0xBB));
    assert_eq!(c.character_ram.len(), 0x2000);
    assert_eq!(c.character_ram[0], 0xCC);
    // no pattern pages: 8 KiB of zeros
    buf[5] = 0;
    buf[6] = 0x00;
    let c = parse(&buf).unwrap();
    assert!(c.is_horizontal_mirror);
    assert_eq!(c.character_ram, vec![0u8; 0x2000]);
    // no pages at all
    let mut bare = vec![0x4E, 0x45, 0x53, 0x1A];
    bare.resize(16, 0);
    let c = parse(&bare).unwrap();
    assert_eq!(c.program_rom.len(), 0);
    // a bad signature, a short header, a short body
    for i in 0..4 {
        let mut bad = buf.clone();
        bad[i] ^= 0xFF;
        assert_eq!(parse(&bad).err(), Some(Fault::BadCartridge));
    }
    assert_eq!(parse(&buf[..15]).err(), Some(Fault::BadCartridge));
    assert_eq!(parse(&buf[..16 + 0x7FFF]).err(), Some(Fault::BadCartridge));
    assert_eq!(parse(&[]).err(), Some(Fault::BadCartridge));
}

#[test]
fn the_controller_port_shifts_out_eight_buttons() {
    let mut k = Keypad::new();
    k.update(0b0110_1001);
    assert_eq!(k.read(), 0);
    k.write(0);
    assert_eq!(k.read(), 0);
    k.write(1);
    k.write(0);
    let bits: Vec<u8> = (0..9).map(|_| k.read()).collect();
    assert_eq!(bits, vec![1, 0, 0, 1, 0, 1, 1, 0, 0]);
    // a change of the buttons shows only after the next strobe
    k.update(0xFF);
    k.write(0);
    assert_eq!(k.read(), 0);
    k.write(3);
    k.write(2);
    assert_eq!(k.read(), 1);
}

#[test]
fn the_transfer_port_copies_from_work_memory() {
    let mut d = Dma::new();
    assert!(!d.is_should_run());
    d.write(0x03);
    assert!(d.is_should_run());
    let ram = Ram::new((0..0x800).map(|i| (i % 256) as u8 ^ (i / 256) as u8).collect());
    let mut p = Ppu::new(vec![0u8; 0x2000], PpuConfig { is_horizontal_mirror: false });
    p.register.oam.write_addr(0x02);
    d.run(&ram, &mut p);
    assert!(!d.is_should_run());
    assert_eq!(p.ctx.oam_ram.field[0x02], 0x03);
    assert_eq!(p.ctx.oam_ram.field[0x03], 0x02);
    assert_eq!(p.ctx.oam_ram.field[0x01], 0xFC);
    assert_eq!(d.start_addr_top, 0x03);
}

#[test]
fn mmc3_offsets_follow_the_registers_when_brought_up_to_date() {
    let mut m = Mapper4::new(0xA000, 0x2000);
    assert_eq!(m.prg_offsets, vec![0x0000, 0x0000, 0x6000, 0x8000]);
    m.registers[6] = 0x83;
    m.registers[7] = 7;
    m.registers[2] = 9;
    m.update_offsets();
    // five banks: 0x83 is bank 131 mod 5 = 1, 7 is bank 2
    assert_eq!(m.prg_offsets, vec![0x2000, 0x4000, 0x6000, 0x8000]);
    assert_eq!(m.chr_offsets[4], 0x0400);
    m.prg_mode = true;
    m.update_offsets();
    assert_eq!(m.prg_offsets, vec![0x6000, 0x4000, 0x2000, 0x8000]);
}

use nes_core::apu::constants::{
    dmc_period_at, duty_level_at, length_table_at, noise_period_at, triangle_level_at,
};
use nes_core::apu::dmc::DMC;
use nes_core::apu::noise::Noise;
use nes_core::apu::square::Square;
use nes_core::apu::triangle::Triangle;
use nes_core::apu::{Apu, Sample};
use nes_core::cpu_register::{CpuRegister, Register};
use nes_core::fault::Fault;
use nes_core::mapper::mapper0::Mapper0;
use nes_core::mapper::Mapper;
use nes_core::ram::Ram;
use nes_core::rom::Rom;

fn parts() -> (Register, Mapper, Ram, Rom) {
    let mut r = Register::new();
    r.set_status_interrupt(false);
    let mut prg = vec![0u8; 0x8000];
    for (i, b) in prg.iter_mut().enumerate() {
        *b = (i % 251) as u8;
    }
    (r, Mapper::Nrom(Mapper0::new()), Ram::new(vec![0u8; 0x2000]), Rom::new(prg))
}

#[test]
fn the_length_counter_is_loaded_by_the_top_five_bits() {
    let table: [u8; 32] = [
        0x0A, 0xFE, 0x14, 0x02, 0x28, 0x04, 0x50, 0x06, 0xA0, 0x08, 0x3C, 0x0A, 0x0E, 0x0C, 0x1A,
        0x0E, 0x0C, 0x10, 0x18, 0x12, 0x30, 0x14, 0x60, 0x16, 0xC0, 0x18, 0x48, 0x1A, 0x10, 0x1C,
        0x20, 0x1E,
    ];
    for data in 0..=255u8 {
        let mut s = Square::new(0);
        s.write(3, data);
        assert_eq!(s.length_value, table[(data >> 3) as usize]);
        assert_eq!(s.timer_period, ((data & 7) as u16) << 8);
        let mut t = Triangle::new(2);
        t.write(3, data);
        assert_eq!(t.length_value, table[(data >> 3) as usize]);
        let mut n = Noise::new();
        n.write(3, data);
        assert_eq!(n.length_value, table[(data >> 3) as usize]);
        assert_eq!(length_table_at(data >> 3), table[(data >> 3) as usize]);
    }
}

#[test]
fn the_tables_have_their_entries() {
    assert_eq!(noise_period_at(0), 0x004);
    assert_eq!(noise_period_at(15), 0xFE4);
    assert_eq!(dmc_period_at(0), 214);
    assert_eq!(dmc_period_at(15), 27);
    assert_eq!(triangle_level_at(0), 15);
    assert_eq!(triangle_level_at(15), 0);
    assert_eq!(triangle_level_at(16), 0);
    assert_eq!(triangle_level_at(31), 15);
    let duty: Vec<u8> = (0..32).map(duty_level_at).collect();
    assert_eq!(
        duty,
        vec![
            0, 1, 0, 0, 0, 0, 0, 0, 0, 1, 1, 0, 0, 0, 0, 0, 0, 1, 1, 1, 1, 0, 0, 0, 1, 0, 0, 1, 1,
            1, 1, 1
        ]
    );
}

#[test]
fn the_frame_interrupt_is_raised_once_in_four_steps() {
    let (mut r, _, _, _) = parts();
    let mut a = Apu::new();
    a.write(0x17, 0x00);
    let mut raised = 0;
    for step in 0..12 {
        r.set_interrupt_none();
        a.frame_irq = false;
        a.step_frame_counter(&mut r);
        if r.is_interrupt_irq_enabled() {
            assert!(a.frame_irq);
            assert_eq!(a.step, 3);
            raised += 1;
        } else {
            assert!(!a.frame_irq);
        }
        assert_eq!(a.step as usize, (step + 1) % 4);
    }
    assert_eq!(raised, 3);
}

#[test]
fn the_five_step_mode_never_raises_the_frame_interrupt() {
    let (mut r, _, _, _) = parts();
    let mut a = Apu::new();
    a.write(0x17, 0x80);
    for step in 0..15 {
        a.step_frame_counter(&mut r);
        assert_eq!(a.step as usize, (step + 1) % 5);
    }
    assert!(!a.frame_irq);
    assert!(!r.is_interrupt_irq_enabled());
    // nor does the four-step mode with the interrupt disabled
    a.write(0x17, 0x40);
    for _ in 0..8 {
        a.step_frame_counter(&mut r);
    }
    assert!(!a.frame_irq);
}

#[test]
fn the_sequencer_clocks_lengths_on_steps_one_and_three() {
    let (mut r, _, _, _) = parts();
    let mut a = Apu::new();
    a.write(0x15, 0x01);
    a.write(0x00, 0x00);
    a.write(0x03, 0x18);
    assert_eq!(a.squares.0.length_value, 0x02);
    a.step_frame_counter(&mut r);
    assert_eq!(a.squares.0.length_value, 0x01);
    a.step_frame_counter(&mut r);
    assert_eq!(a.squares.0.length_value, 0x01);
    a.step_frame_counter(&mut r);
    assert_eq!(a.squares.0.length_value, 0x00);
    // a write of the five-step mode clocks at once
    a.write(0x03, 0x18);
    a.write(0x17, 0x80);
    assert_eq!(a.squares.0.length_value, 0x01);
}

#[test]
fn nothing_is_mixed_while_all_channels_are_disabled() {
    let mut a = Apu::new();
    assert_eq!(a.output(), Sample { pulse: 0, tnd: 0 });
    for reg in 0..0x14u16 {
        a.write(reg, 0xFF);
    }
    a.write(0x15, 0x1F);
    a.write(0x03, 0xFF);
    a.write(0x07, 0xFF);
    a.write(0x0B, 0xFF);
    a.write(0x0F, 0xFF);
    a.triangle.counter_value = 5;
    // step 0 of duty 3 is high
    a.squares.0.duty_value = 0;
    a.squares.1.duty_value = 0;
    a.noise.shift_register = 2;
    assert_eq!(a.output(), Sample { pulse: 30, tnd: 3 * 15 + 2 * 15 + 127 });
    a.write(0x15, 0x00);
    assert_eq!(a.output(), Sample { pulse: 0, tnd: 0 });
}

#[test]
fn the_status_tells_which_lengths_are_left() {
    let mut a = Apu::new();
    assert_eq!(a.read(0x15), 0x00);
    a.write(0x15, 0x1F);
    a.write(0x03, 0x08);
    a.write(0x0B, 0x08);
    assert_eq!(a.read(0x15), 0x05);
    a.write(0x07, 0x08);
    a.write(0x0F, 0x08);
    a.write(0x13, 0x01);
    a.write(0x15, 0x1F);
    assert_eq!(a.read(0x15), 0x1F);
    a.write(0x15, 0x00);
    a.write(0x15, 0x10);
    assert_eq!(a.read(0x15), 0x10);
    assert_eq!(a.read(0x14), 0x00);
    a.write(0x14, 0xFF);
    a.write(0x16, 0xFF);
}

#[test]
fn a_pulse_is_silent_unless_everything_allows_it() {
    let mut s = Square::new(0);
    s.write(0, 0b1011_1001);
    s.write(2, 0x08);
    s.write(3, 0x08);
    s.enable();
    assert_eq!(s.duty, 2);
    assert!(!s.is_length_enabled);
    assert!(!s.is_envelope_enabled);
    // step 0 of duty 2 is low
    assert_eq!(s.output(), 0);
    s.step_timer();
    assert_eq!((s.timer_value, s.duty_value), (8, 1));
    assert_eq!(s.output(), 9);
    // a timer period under 8 is silent
    s.write(2, 0x07);
    assert_eq!(s.output(), 0);
    s.write(2, 0x08);
    s.disable();
    assert!(s.has_count_end());
    assert_eq!(s.output(), 0);
    s.switch(true);
    s.write(3, 0x08);
    s.duty_value = 1;
    assert_eq!(s.output(), 9);
    for _ in 0..9 {
        s.step_timer();
    }
    assert_eq!((s.timer_value, s.duty_value), (8, 2));
}

#[test]
fn the_envelope_decays_and_loops() {
    let mut s = Square::new(0);
    s.write(0, 0b0010_0001);
    assert!(s.is_envelope_enabled);
    assert!(s.is_envelope_loop_enabled);
    s.step_envelope();
    assert_eq!((s.envelope_volume, s.envelope_value), (15, 1));
    s.step_envelope();
    assert_eq!((s.envelope_volume, s.envelope_value), (15, 0));
    s.step_envelope();
    assert_eq!((s.envelope_volume, s.envelope_value), (14, 1));
    s.envelope_volume = 0;
    s.envelope_value = 0;
    s.step_envelope();
    assert_eq!(s.envelope_volume, 15);
    s.is_envelope_loop_enabled = false;
    s.envelope_volume = 0;
    s.envelope_value = 0;
    s.step_envelope();
    assert_eq!(s.envelope_volume, 0);
}

#[test]
fn the_sweep_moves_the_period_and_the_second_channel_one_more() {
    let mut s = Square::new(0);
    s.write(2, 0x00);
    s.write(3, 0x01);
    s.write(1, 0b1000_0001);
    assert_eq!(s.sweep_period, 1);
    s.step_sweep();
    assert_eq!(s.timer_period, 0x180);
    assert!(!s.is_sweep_reload);
    assert_eq!(s.sweep_value, 1);
    s.step_sweep();
    assert_eq!(s.timer_period, 0x180);
    s.step_sweep();
    assert_eq!(s.timer_period, 0x240);
    s.write(1, 0b1000_1001);
    s.sweep();
    assert_eq!(s.timer_period, 0x120);
    let mut t = Square::new(1);
    t.timer_period = 0x120;
    t.write(1, 0b1000_1001);
    t.sweep();
    assert_eq!(t.timer_period, 0x8F);
    t.timer_period = 0;
    t.sweep_shift_amount = 0;
    t.sweep();
    assert_eq!(t.timer_period, 0xFFFF);
    assert_eq!(t.output(), 0);
    t.is_length_enabled = true;
    t.length_value = 1;
    t.step_length();
    t.step_length();
    assert_eq!(t.length_value, 0);
}

#[test]
fn the_triangle_steps_down_and_up() {
    let mut t = Triangle::new(2);
    t.write(0, 0x85);
    t.write(2, 0x00);
    t.write(3, 0x08);
    t.enable();
    assert!(!t.is_length_enabled);
    assert_eq!(t.counter_period, 5);
    assert_eq!(t.output(), 0);
    t.step_counter();
    assert_eq!(t.counter_value, 5);
    assert!(t.counter_reload);
    assert_eq!(t.output(), 15);
    t.step_timer();
    assert_eq!(t.output(), 14);
    for _ in 0..15 {
        t.step_timer();
    }
    assert_eq!(t.output(), 0);
    t.step_timer();
    assert_eq!(t.output(), 1);
    t.write(0, 0x05);
    t.step_counter();
    assert!(!t.counter_reload);
    t.step_counter();
    assert_eq!(t.counter_value, 4);
    t.step_length();
    assert_eq!(t.length_value, 0xFD);
    assert!(!t.has_count_end());
    t.disable();
    assert!(t.has_count_end());
    assert_eq!(t.output(), 0);
}

#[test]
fn the_noise_register_shifts_with_feedback() {
    let mut n = Noise::new();
    assert_eq!(n.shift_register, 1);
    n.write(2, 0x00);
    assert_eq!(n.timer_period, 4);
    n.step_timer();
    // bit 0 was 1, bit 1 was 0: a 1 comes in as bit 14
    assert_eq!(n.shift_register, 0x4000);
    assert_eq!(n.timer_value, 4);
    for _ in 0..4 {
        n.step_timer();
    }
    assert_eq!(n.timer_value, 0);
    n.step_timer();
    assert_eq!(n.shift_register, 0x2000);
    n.write(2, 0x80);
    n.shift_register = 0x0040;
    n.timer_value = 0;
    n.step_timer();
    assert_eq!(n.shift_register, 0x4020);
    n.write(0, 0x1A);
    n.write(3, 0x08);
    n.enable();
    assert_eq!(n.output(), 10);
    n.shift_register = 1;
    assert_eq!(n.output(), 0);
    n.write(0, 0x00);
    n.step_envelope();
    n.shift_register = 2;
    assert_eq!(n.output(), 15);
    n.step_length();
    assert_eq!(n.length_value, 0xFD);
    n.disable();
    assert!(n.has_count_end());
}

#[test]
fn the_sample_channel_fetches_and_stalls_the_processor() {
    let (_, m, sram, rom) = parts();
    let mut d = DMC::new(3);
    d.write(0, 0x4F);
    d.write(1, 0x40);
    d.write(2, 0x01);
    d.write(3, 0x01);
    assert!(d.is_loop);
    assert_eq!(d.tick_period, 27);
    assert_eq!(d.sample_address, 0xC040);
    assert_eq!(d.sample_length, 0x11);
    assert_eq!(d.output(), 0);
    let mut stall = 0u8;
    assert_eq!(d.step_timer(&m, &sram, &rom, &mut stall), Ok(()));
    assert_eq!(stall, 0);
    d.enable();
    assert_eq!((d.current_address, d.current_length), (0xC040, 0x11));
    assert!(!d.has_count_end());
    assert_eq!(d.output(), 0x40);
    assert_eq!(d.step_timer(&m, &sram, &rom, &mut stall), Ok(()));
    assert_eq!(stall, 4);
    // 0x4040 % 251 = 133 = 0b1000_0101: the first bit takes the level two up
    assert_eq!(d.volume, 0x42);
    assert_eq!(d.shift_register, 0x42);
    assert_eq!(d.bit_count, 7);
    assert_eq!((d.current_address, d.current_length), (0xC041, 0x10));
    assert_eq!(d.tick_value, 27);
    for _ in 0..27 {
        d.step_timer(&m, &sram, &rom, &mut stall).unwrap();
    }
    assert_eq!(d.volume, 0x42);
    d.step_timer(&m, &sram, &rom, &mut stall).unwrap();
    assert_eq!(d.volume, 0x40);
    assert_eq!(stall, 4);
    // the level stays inside 0 to 127
    d.volume = 126;
    d.shift_register = 1;
    d.step_shifter();
    assert_eq!(d.volume, 126);
    d.volume = 1;
    d.shift_register = 0;
    d.step_shifter();
    assert_eq!(d.volume, 1);
    // the address wraps to 0x8000 and a looping sample starts over
    d.current_address = 0xFFFF;
    d.current_length = 1;
    d.bit_count = 0;
    stall = 253;
    assert_eq!(d.step_reader(&m, &sram, &rom, &mut stall), Ok(()));
    assert_eq!(stall, 255);
    assert_eq!((d.current_address, d.current_length), (0xC040, 0x11));
    d.is_loop = false;
    d.current_address = 0xFFFF;
    d.current_length = 1;
    d.bit_count = 0;
    d.step_reader(&m, &sram, &rom, &mut stall).unwrap();
    assert_eq!((d.current_address, d.current_length), (0x8000, 0));
    d.disable();
    assert!(d.has_count_end());
    d.restart();
    assert_eq!(d.current_length, 0x11);
}

#[test]
fn a_fetch_that_the_mapper_cannot_serve_is_a_fault() {
    let (mut r, m, sram, _) = parts();
    let short = Rom::new(vec![0u8; 0x10]);
    let mut a = Apu::new();
    a.write(0x12, 0x01);
    a.write(0x13, 0x01);
    a.write(0x15, 0x10);
    let before = a;
    let mut stall = 0u8;
    let mut samples: Vec<Sample> = Vec::new();
    assert_eq!(
        a.run(2, &mut r, &m, &sram, &short, &mut stall, &mut samples),
        Err(Fault::MapperFault(0xC040))
    );
    assert_eq!(a.cycle, 1);
    assert_eq!(a.dmc.current_length, before.dmc.current_length);
    assert_eq!(stall, 0);
}

#[test]
fn samples_come_at_the_rate_of_the_host() {
    let (mut r, m, sram, rom) = parts();
    let mut a = Apu::new();
    let mut stall = 0u8;
    let mut samples: Vec<Sample> = Vec::new();
    a.run(40, &mut r, &m, &sram, &rom, &mut stall, &mut samples).unwrap();
    assert_eq!(samples.len(), 0);
    a.run(1, &mut r, &m, &sram, &rom, &mut stall, &mut samples).unwrap();
    assert_eq!(samples.len(), 1);
    a.run(40, &mut r, &m, &sram, &rom, &mut stall, &mut samples).unwrap();
    assert_eq!(samples.len(), 1);
    a.run(1, &mut r, &m, &sram, &rom, &mut stall, &mut samples).unwrap();
    assert_eq!(samples.len(), 2);
    a.run(1789, &mut r, &m, &sram, &rom, &mut stall, &mut samples).unwrap();
    assert_eq!(a.cycle, 1871);
    assert_eq!(samples.len(), 46);
    // the cycle count wraps at 16 bits
    a.run(0xFFFF, &mut r, &m, &sram, &rom, &mut stall, &mut samples).unwrap();
    assert_eq!(a.cycle, 1870);
}

#[test]
fn the_timers_of_the_pulses_run_on_even_cycles() {
    let (mut r, m, sram, rom) = parts();
    let mut a = Apu::new();
    a.write(0x02, 0x10);
    a.write(0x0A, 0x10);
    a.write(0x0B, 0x00);
    let mut stall = 0u8;
    let mut samples: Vec<Sample> = Vec::new();
    a.step(&mut r, &m, &sram, &rom, &mut stall, &mut samples).unwrap();
    assert_eq!(a.squares.0.timer_value, 0);
    assert_eq!(a.triangle.timer_value, 0x0F);
    a.step(&mut r, &m, &sram, &rom, &mut stall, &mut samples).unwrap();
    assert_eq!(a.squares.0.timer_value, 0x10);
    assert_eq!(a.squares.0.duty_value, 1);
    assert_eq!(a.triangle.timer_value, 0x0E);
}

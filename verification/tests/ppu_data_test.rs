#![allow(unused_mut)]
use nes_core::ppu::palette::Palette;
use nes_core::ppu::register::ppu_data::PpuData;
use nes_core::ram::Ram;

#[test]
fn test_ppu_data() {
  let mut d = PpuData::new();
  let mut cram = Ram::new(vec!(0;20000));
  let mut vram = Ram::new(vec!(0;20000));
  let mut p = Palette::new();
  d.write(&mut vram, &mut cram, 0x1100, 0xFF, &mut p);
  d.read(&vram, &cram, 0x1100,  &p);
  assert_eq!(d.read(&vram, &cram, 0x1100,  &p), 0xFF);

  d.write(&mut vram, &mut cram, 0x2100, 0xFF, &mut p);
  d.read(&vram, &cram, 0x2100,  &p);
  assert_eq!(d.read(&vram, &cram, 0x2100,  &p), 0xFF);

  d.write(&mut vram, &mut cram, 0x3100, 0xFF, &mut p);
  d.read(&vram, &cram, 0x3100,  &p);
  assert_eq!(d.read(&vram, &cram, 0x3100,  &p), 0xFF);

  d.write(&mut vram, &mut cram, 0x3F00, 0xFF, &mut p);
  d.read(&vram, &cram, 0x3F00,  &p);
  assert_eq!(d.read(&vram, &cram, 0x3F00,  &p), 0xFF);
}

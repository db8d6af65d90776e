use nes_core::ppu::register::oam::Oam;

#[test]
fn test_set_addr() {
  let mut reg = Oam::new();
  reg.write_addr(0xFF);
  assert_eq!(reg.get_addr(), 0xFF)
}

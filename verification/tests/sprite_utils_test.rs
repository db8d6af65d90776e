#![allow(unused_imports, unused_must_use, unused_mut)]
use nes_core::ppu::sprite_utils::{get_attribute, get_block_id, get_tile_id, SpriteConfig};
use nes_core::ram::Ram;

#[test]
fn test_get_block_id() {
    let position = (2, 3);
    let id = get_block_id(&position);
    assert_eq!(id, 3);
}

#[test]
fn test_get_tile_id() {
  let mut v = Ram::new(vec!(0;10240));
  v.field[0x462] = 0xFF;
  let c = SpriteConfig {
    offset_addr_by_name_table: Some(0x400),
    offset_addr_by_background_table: 0,
    offset_addr_by_sprite_table: 0,
    is_horizontal_mirror: false,
    is_background_enable: true,
  };
  let pos = (2, 3);
  let id = get_tile_id(&mut v, &pos, &c);
  assert_eq!(id, 0xFF)
}

#[test]
fn test_get_attribute() {
  let mut v = Ram::new(vec!(0;10240));
  v.field[0x7C1] = 0xFF;
  let c = SpriteConfig {
    offset_addr_by_name_table: Some(0x400),
    offset_addr_by_background_table: 0,
    offset_addr_by_sprite_table: 0,
    is_horizontal_mirror: false,
    is_background_enable: true,
  };
  let pos = (4, 3);
  let attr = get_attribute(&mut v, &pos, &c);
  assert_eq!(attr, 0xFF)
}

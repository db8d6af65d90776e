#![allow(unused_imports, unused_must_use, non_snake_case)]
use nes_core::bus::cpu_bus::CpuBus;
use nes_core::cpu::fetch::{
    fetch, fetch_absolute, fetch_absolute_x, fetch_absolute_y, fetch_indirect_x, fetch_indirect_y,
    fetch_relative, fetch_zeropage_x, fetch_zeropage_y,
};
use nes_core::cpu_register::{CpuRegister, Register};
use nes_core::types::{Addr, Data, Word};

struct MockBus {
    pub memory: Vec<Data>,
}

impl MockBus {
    fn new() -> Self {
        MockBus { memory: vec![0; 256] }
    }
}

impl CpuBus for MockBus {
    fn read(&mut self, a: Addr) -> Data {
        self.memory[a as usize]
    }

    fn read_word(&mut self, a: Addr) -> Word {
        let top = self.read(a) as u16;
        let low = self.read(a + 1) as u16;
        (top << 8 | low) as Word
    }

    fn write(&mut self, a: Addr, d: Data) {
        self.memory[a as usize] = d
    }
}
#[test]
  fn test_fetch() {
    let mut b = MockBus::new();
    let mut r = Register::new();
    r.set_PC(0x80);
    b.memory[0x80] = 0xFF;
    let v = fetch(&mut r ,&mut b);
    assert_eq!(r.get_PC(), 0x81);
    assert_eq!(v, 0xFF)
  }

#[test]
  fn test_fetch_relative() {
    let mut b = MockBus::new();
    let mut r = Register::new();
    r.set_PC(0x80);
    b.memory[0x80] = 0x10;
    let addr = fetch_relative(&mut r, &mut b);
    assert_eq!(addr, 0x91);
  }

#[test]
  fn test_fetch_zeropage_x() {
    let mut b = MockBus::new();
    let mut r = Register::new();
    r.set_PC(0x80);
    r.set_X(0x01);
    b.memory[0x80] = 0x90;
    let addr = fetch_zeropage_x(&mut r, &mut b);
    assert_eq!(addr, 0x91);
  }

#[test]
  fn test_fetch_zeropage_y() {
    let mut b = MockBus::new();
    let mut r = Register::new();
    r.set_PC(0x80);
    r.set_Y(0x01);
    b.memory[0x80] = 0x90;
    let addr = fetch_zeropage_y(&mut r, &mut b);
    assert_eq!(addr,0x91)
  }

#[test]
  fn test_fetch_absolute() {
    let mut b = MockBus::new();
    let mut r = Register::new();
    r.set_PC(0x80);
    b.memory[0x80] = 0x11;
    b.memory[0x81] = 0x22;
    let addr = fetch_absolute(&mut r, &mut b);
    assert_eq!(addr, 0x2211)
  }

#[test]
  fn test_fetch_absolute_x() {
    let mut b = MockBus::new();
    let mut r = Register::new();
    r.set_PC(0x80);
    r.set_X(0x01);
    b.memory[0x80] = 0x11;
    b.memory[0x81] = 0x22;
    let addr = fetch_absolute_x(&mut r, &mut b);
    assert_eq!(addr, 0x2212)
  }

#[test]
  fn test_fetch_absolute_y() {
    let mut b = MockBus::new();
    let mut r = Register::new();
    r.set_PC(0x80);
    r.set_Y(0x01);
    b.memory[0x80] = 0x11;
    b.memory[0x81] = 0x22;
    let addr = fetch_absolute_y(&mut r, &mut b);
    assert_eq!(addr, 0x2212)
  }

#[test]
  fn test_fetch_indirect_x() {
    let mut b = MockBus::new();
    let mut r = Register::new();
    r.set_PC(0x80);
    r.set_X(0x01);
    b.memory[0x80] = 0x11;
    b.memory[0x12] = 0xFF;
    b.memory[0x13] = 0xEE;
    let addr = fetch_indirect_x(&mut r, &mut b);
    assert_eq!(addr,0xEEFF)
  }

#[test]
  fn test_fetch_indirect_y() {
    let mut b = MockBus::new();
    let mut r = Register::new();
    r.set_PC(0x80);
    r.set_Y(0x01);
    b.memory[0x80] = 0x10;
    b.memory[0x10] = 0xEE;
    b.memory[0x11] = 0xFF;
    let addr = fetch_indirect_y(&mut r, &mut b);
    assert_eq!(addr, 0xFFEF);
  }

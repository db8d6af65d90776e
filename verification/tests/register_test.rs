#![allow(unused_imports, unused_must_use, non_snake_case)]
use nes_core::cpu_register::{CpuRegister, Register};

#[test]
fn get_s() {
  let r = Register::new();
  let s = r.get_S();
  assert_eq!(s, 0xFD);
}

#[test]
fn set_a() {
  let mut r = Register::new();
  let a = r.set_A(0x01);
  assert_eq!(a.get_A(), 0x01)
}

#[test]
fn test_set_Status() {
  let mut r = Register::new();
  r.set_Status(0xFF);
  assert_eq!(r.get_status_negative(),true);
  assert_eq!(r.get_status_overflow(),true);
  assert_eq!(r.get_status_reserved(),true);
  assert_eq!(r.get_status_break_mode(), true);
  assert_eq!(r.get_status_decimal_mode(), true);
  assert_eq!(r.get_status_interrupt(), true);
  assert_eq!(r.get_status_zero(), true);
  assert_eq!(r.get_status_carry(),true);
}

#[test]
fn test_get_Status() {
  let mut r = Register::new();
  r.set_Status(0xFF);
  assert_eq!(r.get_Status(),0xFF);
}

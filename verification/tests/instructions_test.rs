#![allow(unused_imports, unused_must_use, non_snake_case)]
use nes_core::bus::cpu_bus::CpuBus;
use nes_core::cpu::instructions::{
    adc, adc_imm, and, and_imm, asl, asl_acc, bcc, bcs, bit, cmp, cmp_imm, cpx, cpx_imm, cpy,
    cpy_imm, dec, dex, dey, eor, eor_imm, inc, inx, iny, jmp, jsr, lda, lda_imm, ldx, ldx_imm, ldy,
    ldy_imm, lsr, lsr_acc, ora, ora_imm, pha, php, pla, plp, rol, rol_acc, ror, ror_acc, rti, rts,
    sbc, sbc_imm, sta, stx, sty, tax, tay, tsx, txa, txs, tya,
};
use nes_core::cpu_register::{CpuRegister, Register};
use nes_core::types::{Addr, Data, Word};

struct MockBus {
    pub memory: Vec<Data>,
}

impl MockBus {
    fn new() -> Self {
        MockBus { memory: vec![0; 65535] }
    }
}

impl CpuBus for MockBus {
    fn read(&mut self, a: Addr) -> Data {
        self.memory[a as usize]
    }

    fn read_word(&mut self, a: Addr) -> Word {
        let top = self.read(a) as u16;
        let low = self.read(a + 1) as u16;
        (top << 8 | low) as Word
    }

    fn write(&mut self, a: Addr, d: Data) {
        self.memory[a as usize] = d
    }
}
#[test]
  fn test_lda_imm() {
    let mut r = Register::new();
    lda_imm(0xA9, &mut r);
    assert_eq!(r.get_A(), 0xA9);
  }

#[test]
  fn test_lda() {
    let mut r = Register::new();
    let mut b = MockBus::new();
    b.memory[0xA5] = 0xFF;
    lda(0xA5, &mut r, &mut b);
    assert_eq!(r.get_A(),0xFF);
  }

#[test]
  fn test_ldx_imm() {
    let mut r = Register::new();
    ldx_imm(0xFF, &mut r);
    assert_eq!(r.get_X(), 0xFF)
  }

#[test]
  fn test_ldx() {
    let mut r = Register::new();
    let mut b = MockBus::new();
    b.memory[0xA5] = 0xFF;
    ldx(0xA5, &mut r, &mut b);
    assert_eq!(r.get_X(),0xFF)
  }

#[test]
  fn test_ldy_imm() {
    let mut r = Register::new();
    ldy_imm(0xFF, &mut r);
    assert_eq!(r.get_Y(), 0xFF)
  }

#[test]
  fn test_ldy() {
    let mut r = Register::new();
    let mut b = MockBus::new();
    b.memory[0xA5] = 0xFF;
    ldy(0xA5, &mut r, &mut b);
    assert_eq!(r.get_Y(),0xFF)
  }

#[test]
  fn test_sta() {
    let mut r = Register::new();
    let mut b = MockBus::new();
    r.set_A(0xFF);
    sta(0x11, &mut r, &mut b);
    assert_eq!(b.read(0x11), 0xFF)
  }

#[test]
  fn test_stx() {
    let mut r = Register::new();
    let mut b = MockBus::new();
    r.set_X(0xFF);
    stx(0x11, &mut r, &mut b);
    assert_eq!(b.read(0x11), 0xFF)
  }

#[test]
  fn test_sty() {
    let mut r = Register::new();
    let mut b = MockBus::new();
    r.set_Y(0xFF);
    sty(0x11, &mut r, &mut b);
    assert_eq!(b.read(0x11), 0xFF)
  }

#[test]
  fn test_tax() {
    let mut r = Register::new();
    r.set_A(0xFF);
    tax(&mut r);
    assert_eq!(r.get_X(),0xFF)
  }

#[test]
  fn test_tay() {
    let mut r = Register::new();
    r.set_A(0xFF);
    tay(&mut r);
    assert_eq!(r.get_Y(),0xFF)
  }

#[test]
  fn test_tsx() {
    let mut r = Register::new();
    r.set_S(0xFF);
    tsx(&mut r);
    assert_eq!(r.get_X(),0xFF)
  }

#[test]
  fn test_txa() {
    let mut r = Register::new();
    r.set_X(0xFF);
    txa(&mut r);
    assert_eq!(r.get_A(),0xFF)
  }

#[test]
  fn test_txs() {
    let mut r = Register::new();
    r.set_X(0xFF);
    txs(&mut r);
    assert_eq!(r.get_S(),0xFF)
  }

#[test]
  fn test_tya() {
    let mut r = Register::new();
    r.set_Y(0xFF);
    tya(&mut r);
    assert_eq!(r.get_A(),0xFF)
  }

#[test]
  fn test_adc_imm() {
    let mut r = Register::new();
    r.set_A(0x01);
    adc_imm(0x03, &mut r);
    assert_eq!(r.get_A(),0x04);
    assert_eq!(r.get_status_overflow(), false);

    r.set_A(0x01);
    r.set_status_carry(true);
    adc_imm(0x03, &mut r);
    assert_eq!(r.get_A(),0x05);
    assert_eq!(r.get_status_overflow(), false);

    r.set_A(0x01);
    adc_imm(0x7F, &mut r);
    assert_eq!(r.get_A(),0x80);
    assert_eq!(r.get_status_overflow(), true);

    // Unconfirmed?
    r.set_A(0x01);
    adc_imm(0x80, &mut r);
    assert_eq!(r.get_status_overflow(), false);
    // Unconfirmed?
    r.set_A(0x80);
    adc_imm(0x01, &mut r);
    assert_eq!(r.get_status_overflow(), false);
  }

#[test]
  fn test_adc() {
    let mut r = Register::new();
    let mut b = MockBus::new();
    r.set_A(0x01);
    b.memory[0x11] = 0x03;
    adc(0x11, &mut r, &mut b);
    assert_eq!(r.get_A(),0x04);
    assert_eq!(r.get_status_overflow(), false);

    r.set_A(0x01);
    r.set_status_carry(true);
    b.memory[0x11] = 0x03;
    adc(0x11, &mut r, &mut b);
    assert_eq!(r.get_A(),0x05);
    assert_eq!(r.get_status_overflow(), false);

    r.set_A(0x01);
    b.memory[0x11] = 0x7F;
    adc(0x11, &mut r, &mut b);
    assert_eq!(r.get_A(),0x80);
    assert_eq!(r.get_status_overflow(), true);

    // Unconfirmed?
    r.set_A(0x01);
    b.memory[0x11] = 0x80;
    adc(0x11, &mut r, &mut b);
    assert_eq!(r.get_status_overflow(), false);
    // Unconfirmed?
    r.set_A(0x80);
    b.memory[0x11] = 0x01;
    adc(0x11, &mut r, &mut b);
    assert_eq!(r.get_status_overflow(), false)
  }

#[test]
  fn test_and_imm() {
    let mut r = Register::new();
    r.set_A(0x11);
    and_imm(0x01, &mut r);
    assert_eq!(r.get_A(), 0x01)
  }

#[test]
  fn test_and() {
    let mut r = Register::new();
    let mut b = MockBus::new();
    r.set_A(0x11);
    b.memory[0x80] = 0x01;
    and(0x80, &mut r, &mut b);
    assert_eq!(r.get_A(), 0x01)
  }

#[test]
  fn test_asl_acc() {
    let mut r = Register::new();
    r.set_A(0x01);
    asl_acc(&mut r);
    assert_eq!(r.get_A(), 0x02)
  }

#[test]
  fn test_asl() {
    let mut r = Register::new();
    let mut b = MockBus::new();
    b.memory[0x80] = 0x01;
    asl(0x80, &mut r, &mut b);
    assert_eq!(b.read(0x80), 0x02)
  }

#[test]
  fn test_bit() {
    let mut r = Register::new();
    let mut b = MockBus::new();
    r.set_A(0x40);
    b.memory[0x80] = 0x40;
    bit(0x80, &mut r, &mut b);
    assert_eq!(r.get_status_zero(), false);
    assert_eq!(r.get_status_negative(), false);
    assert_eq!(r.get_status_overflow(), true)
  }

#[test]
  fn test_cmp_imm() {
    let mut r = Register::new();
    r.set_A(0x40);
    cmp_imm(0x50, &mut r);
    assert_eq!(r.get_status_negative(), true);
    assert_eq!(r.get_status_carry(), false)
  }

#[test]
  fn test_cmp() {
    let mut r = Register::new();
    let mut b = MockBus::new();
    r.set_A(0x40);
    b.memory[0x80] = 0x50;
    cmp(0x80, &mut r, &mut b);
    assert_eq!(r.get_status_negative(), true);
    assert_eq!(r.get_status_carry(), false)
  }

#[test]
  fn test_cpx_imm() {
    let mut r = Register::new();
    r.set_X(0x40);
    cpx_imm(0x50, &mut r);
    assert_eq!(r.get_status_negative(), true);
    assert_eq!(r.get_status_carry(), false)
  }

#[test]
  fn test_cpx() {
    let mut r = Register::new();
    let mut b = MockBus::new();
    r.set_X(0x40);
    b.memory[0x80] = 0x50;
    cpx(0x80, &mut r, &mut b);
    assert_eq!(r.get_status_negative(), true);
    assert_eq!(r.get_status_carry(), false)
  }

#[test]
  fn test_cpy_imm() {
    let mut r = Register::new();
    r.set_Y(0x40);
    cpx_imm(0x50, &mut r);
    assert_eq!(r.get_status_negative(), true);
    assert_eq!(r.get_status_carry(), false)
  }

#[test]
  fn test_cpy() {
    let mut r = Register::new();
    let mut b = MockBus::new();
    r.set_Y(0x40);
    b.memory[0x80] = 0x50;
    cpx(0x80, &mut r, &mut b);
    assert_eq!(r.get_status_negative(), true);
    assert_eq!(r.get_status_carry(), false)
  }

#[test]
  fn test_dec() {
    let mut r = Register::new();
    let mut b = MockBus::new();
    b.memory[0x80] = 0x02;
    dec(0x80, &mut r, &mut b);
    assert_eq!(b.memory[0x80], 0x01)
  }

#[test]
  fn test_dex() {
    let mut r = Register::new();
    r.set_X(0x02);
    dex(&mut r);
    assert_eq!(r.get_X(), 0x01)
  }

#[test]
  fn test_dey() {
    let mut r = Register::new();
    r.set_Y(0x02);
    dey(&mut r);
    assert_eq!(r.get_Y(), 0x01)
  }

#[test]
  fn test_eor_imm() {
    let mut r = Register::new();
    r.set_A(0xF0);
    eor_imm(0x0F, &mut r);
    assert_eq!(r.get_A(),0xFF)
  }

#[test]
  fn test_eor() {
    let mut r = Register::new();
    let mut b = MockBus::new();
    r.set_A(0x0F);
    b.memory[0x80] = 0xF0;
    eor(0x80, &mut r, &mut b);
    assert_eq!(r.get_A(), 0xFF)
  }

#[test]
  fn test_inc() {
    let mut r = Register::new();
    let mut b = MockBus::new();
    b.memory[0x80] = 0x02;
    inc(0x80, &mut r, &mut b);
    assert_eq!(b.memory[0x80], 0x03)
  }

#[test]
  fn test_inx() {
    let mut r = Register::new();
    r.set_X(0x02);
    inx(&mut r);
    assert_eq!(r.get_X(), 0x03)
  }

#[test]
  fn test_iny() {
    let mut r = Register::new();
    r.set_Y(0x02);
    iny(&mut r);
    assert_eq!(r.get_Y(), 0x03)
  }

#[test]
  fn test_lsr_acc() {
    let mut r = Register::new();
    r.set_A(0x01);
    lsr_acc(&mut r);
    assert_eq!(r.get_A(), 0x00);
    assert_eq!(r.get_status_carry(), true);

    r.set_A(0x02);
    lsr_acc(&mut r);
    assert_eq!(r.get_A(),0x01);
    assert_eq!(r.get_status_carry(), false)
  }

#[test]
  fn test_lsr() {
    let mut r = Register::new();
    let mut b = MockBus::new();
    b.memory[0x80] = 0x01;
    lsr(0x80, &mut r, &mut b);
    assert_eq!(b.read(0x80), 0x00);
    assert_eq!(r.get_status_carry(), true);

    b.memory[0x80] = 0x02;
    lsr(0x80, &mut r, &mut b);
    assert_eq!(b.read(0x80), 0x01);
    assert_eq!(r.get_status_carry(), false);
  }

#[test]
  fn test_ora_imm() {
    let mut r = Register::new();
    r.set_A(0xF0);
    ora_imm(0x0F, &mut r);
    assert_eq!(r.get_A(), 0xFF)
  }

#[test]
  fn test_ora() {
    let mut r = Register::new();
    let mut b = MockBus::new();
    r.set_A(0xF0);
    b.memory[0x80] = 0xF;
    ora(0x80, &mut r, &mut b);
    assert_eq!(r.get_A(), 0xFF)
  }

#[test]
  fn test_rol_acc() {
    let mut r = Register::new();
    r.set_A(0x01);
    rol_acc(&mut r);
    assert_eq!(r.get_A(), 0x02);

    r.set_A(0x01);
    r.set_status_carry(true);
    rol_acc(&mut r);
    assert_eq!(r.get_A(), 0x03);
  }

#[test]
  fn test_rol() {
    let mut r = Register::new();
    let mut b = MockBus::new();
    b.memory[0x80] = 0x01;
    rol(0x80, &mut r, &mut b);
    assert_eq!(b.memory[0x80], 0x02);

    b.memory[0x80] = 0x01;
    r.set_status_carry(true);
    rol(0x80, &mut r, &mut b);
    assert_eq!(b.memory[0x80], 0x03);
  }

#[test]
  fn test_ror_acc() {
    let mut r = Register::new();
    r.set_A(0x02);
    ror_acc(&mut r);
    assert_eq!(r.get_A(), 0x01);

    r.set_A(0x00);
    r.set_status_carry(true);
    ror_acc(&mut r);
    assert_eq!(r.get_A(), 0x80);
  }

#[test]
  fn test_ror() {
    let mut r = Register::new();
    let mut b = MockBus::new();
    b.memory[0x80] = 0x02;
    ror(0x80, &mut r, &mut b);
    assert_eq!(b.memory[0x80], 0x01);

    b.memory[0x80] = 0x00;
    r.set_status_carry(true);
    ror(0x80, &mut r, &mut b);
    assert_eq!(b.memory[0x80], 0x80);
  }

#[test]
  fn test_sbc_imm() {
    let mut r = Register::new();
    r.set_A(0x03);
    r.set_status_carry(true);
    sbc_imm(0x02, &mut r);
    assert_eq!(r.get_A(),0x01);
    assert_eq!(r.get_status_overflow(), false);

    r.set_A(0x04);
    r.set_status_carry(false);
    sbc_imm(0x03, &mut r);
    assert_eq!(r.get_A(),0x00);
    assert_eq!(r.get_status_overflow(), false);

    r.set_A(0x01);
    r.set_status_carry(true);
    sbc_imm(0x80, &mut r);
    assert_eq!(r.get_status_overflow(), true);
  }

#[test]
  fn test_sbc() {
    let mut r = Register::new();
    let mut b = MockBus::new();
    r.set_A(0x03);
    r.set_status_carry(true);
    b.memory[0x10] = 0x02;
    sbc(0x10, &mut r, &mut b);
    assert_eq!(r.get_A(),0x01);
    assert_eq!(r.get_status_overflow(), false);

    r.set_A(0x04);
    r.set_status_carry(false);
    b.memory[0x10] = 0x03;
    sbc(0x10, &mut r, &mut b);
    assert_eq!(r.get_A(),0x00);
    assert_eq!(r.get_status_overflow(), false);

    r.set_A(0x01);
    r.set_status_carry(true);
    b.memory[0x10] = 0x80;
    sbc(0x10, &mut r, &mut b);
    assert_eq!(r.get_status_overflow(), true);
  }

#[test]
  fn test_pha() {
    let mut r = Register::new();
    let mut b = MockBus::new();
    r.set_A(0xFF);
    r.set_S(0x10);
    pha(&mut r, &mut b);
    assert_eq!(b.memory[0x0110], 0xFF)
  }

#[test]
  fn test_php() {
    let mut r = Register::new();
    let mut b = MockBus::new();
    r.set_Status(0xFF);
    r.set_S(0x10);
    php(&mut r, &mut b);
    assert_eq!(b.memory[0x0110],0xFF)
  }

#[test]
  fn test_pla() {
    let mut r = Register::new();
    let mut b = MockBus::new();
    r.set_S(0x10);
    b.memory[0x0111] = 0xFF;
    pla(&mut r, &mut b);
    assert_eq!(r.get_A(), 0xFF);
  }

#[test]
  fn test_plp() {
    let mut r = Register::new();
    let mut b = MockBus::new();
    r.set_S(0x10);
    b.memory[0x0111] = 0xFF;
    plp(&mut r, &mut b);
    assert_eq!(r.get_Status(), 0xFF);
  }

#[test]
  fn test_jmp() {
    let mut r = Register::new();
    jmp(0x10, &mut r);
    assert_eq!(r.get_PC(), 0x10);
  }

#[test]
  fn test_jsr() {
    let mut r = Register::new();
    let mut b = MockBus::new();
    r.set_PC(0x0204);
    r.set_S(0x30);
    jsr(0x10, &mut r, &mut b);
    assert_eq!(r.get_PC(), 0x10);
    assert_eq!(b.memory[0x0130], 0x02);
    assert_eq!(b.memory[0x012F], 0x03);
  }

#[test]
  fn test_rts() {
    let mut r = Register::new();
    let mut b = MockBus::new();
    r.set_PC(0x0204);
    r.set_S(0x30);
    jsr(0x10, &mut r, &mut b);
    rts(&mut r, &mut b);
    assert_eq!(r.get_PC(), 0x0204);
  }

#[test]
  fn test_rti(){
    let mut r = Register::new();
    let mut b = MockBus::new();
    r.set_S(0x30);
    r.set_Status(0xFF);
    r.set_PC(0x0204);
    jsr(0x10, &mut r, &mut b);
    php(&mut r, &mut b);
    rti(&mut r, &mut b);
    assert_eq!(r.get_PC(), 0x0203);
    assert_eq!(r.get_Status(),0xFF);
  }

#[test]
  fn test_bcc() {
    let mut r = Register::new();
    r.set_status_carry(false);
    bcc(0x10, &mut r);
    assert_eq!(r.get_PC(), 0x10);

    r.set_status_carry(true);
    bcc(0x20, &mut r);
    assert_ne!(r.get_PC(), 0x20);
  }

#[test]
  fn test_bcs() {
    let mut r = Register::new();
    r.set_status_carry(true);
    bcs(0x10, &mut r);
    assert_eq!(r.get_PC(), 0x10);

    r.set_status_carry(false);
    bcs(0x20, &mut r);
    assert_ne!(r.get_PC(), 0x20);
  }

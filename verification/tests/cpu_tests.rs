use gamuboy::config::Config;
use gamuboy::cpu::{Bus, CPU};
use gamuboy::mode::Mode;

struct FakeBus {
    mem: Vec<u8>,
}

impl FakeBus {
    fn new() -> Self {
        Self { mem: vec![0; 0x10000] }
    }
}

impl Bus for FakeBus {
    fn inv(&self) -> bool {
        true
    }

    fn read_byte(&self, address: u16) -> u8 {
        self.mem[address as usize]
    }

    fn write_byte(&mut self, address: u16, value: u8) {
        self.mem[address as usize] = value;
    }

    fn check_interrupts(&mut self, _reset_flag: bool) -> Option<u16> {
        None
    }

    fn switch_speed(&mut self) {}

    fn step_peripherals(&mut self, _cycles: u8) {}
}

fn make_test_cpu() -> CPU<FakeBus> {
    CPU::new(
        &Config {
            mode: Mode::DMG,
            rom: vec![],
            headless_mode: false,
            bootrom: Some(vec![]),
            log_file_path: None,
        },
        FakeBus::new(),
    )
}

#[test]
fn test_cpu_add_nominal() {
    let mut cpu = make_test_cpu();
    cpu.registers.a = 0b1;

    cpu.add(0b101);

    assert_eq!(0b110, cpu.registers.a);
    assert_eq!(false, cpu.registers.f.carry);
    assert_eq!(false, cpu.registers.f.half_carry);
    assert_eq!(false, cpu.registers.f.subtract);
    assert_eq!(false, cpu.registers.f.zero);
}
#[test]
fn test_cpu_add_carry() {
    let mut cpu = make_test_cpu();
    cpu.registers.a = 0b01111111;

    cpu.add(0b11000000);

    assert_eq!(0b00111111, cpu.registers.a);
    assert_eq!(true, cpu.registers.f.carry);
    assert_eq!(false, cpu.registers.f.half_carry);
    assert_eq!(false, cpu.registers.f.subtract);
    assert_eq!(false, cpu.registers.f.zero);
}
#[test]
fn test_cpu_add_half_carry() {
    let mut cpu = make_test_cpu();
    cpu.registers.a = 0b00000111;

    cpu.add(0b00001011);

    assert_eq!(0b00010010, cpu.registers.a);
    assert_eq!(false, cpu.registers.f.carry);
    assert_eq!(true, cpu.registers.f.half_carry);
    assert_eq!(false, cpu.registers.f.subtract);
    assert_eq!(false, cpu.registers.f.zero);
}

#[test]
fn test_cpu_addhl_nominal() {
    let mut cpu = make_test_cpu();
    cpu.registers.set_hl(0x1FF);
    cpu.registers.f.zero = true;

    cpu.addhl(0x001);

    assert_eq!(0x1FF + 0x001, cpu.registers.get_hl());
    assert_eq!(false, cpu.registers.f.carry);
    assert_eq!(false, cpu.registers.f.half_carry);
    assert_eq!(false, cpu.registers.f.subtract);
    assert_eq!(true, cpu.registers.f.zero);
}
#[test]
fn test_cpu_addhl_carry() {
    let mut cpu = make_test_cpu();
    cpu.registers.set_hl(0xEFFF);

    cpu.addhl(0xF000);

    assert_eq!(57343, cpu.registers.get_hl());
    assert_eq!(true, cpu.registers.f.carry);
    assert_eq!(false, cpu.registers.f.half_carry);
    assert_eq!(false, cpu.registers.f.subtract);
    assert_eq!(false, cpu.registers.f.zero);
}
#[test]
fn test_cpu_addhl_half_carry() {
    let mut cpu = make_test_cpu();
    cpu.registers.set_hl(0xEFF);

    cpu.addhl(0xF00);

    assert_eq!(0xEFF + 0xF00, cpu.registers.get_hl());
    assert_eq!(false, cpu.registers.f.carry);
    assert_eq!(true, cpu.registers.f.half_carry);
    assert_eq!(false, cpu.registers.f.subtract);
    assert_eq!(false, cpu.registers.f.zero);
}

#[test]
fn test_cpu_adc_nominal() {
    let mut cpu = make_test_cpu();
    cpu.registers.a = 0b1;
    cpu.registers.f.carry = true;

    cpu.adc(0b10);

    assert_eq!(0b100, cpu.registers.a);
    assert_eq!(false, cpu.registers.f.carry);
    assert_eq!(false, cpu.registers.f.half_carry);
    assert_eq!(false, cpu.registers.f.subtract);
    assert_eq!(false, cpu.registers.f.zero);
}
#[test]
fn test_cpu_adc_no_carry() {
    let mut cpu = make_test_cpu();
    cpu.registers.a = 0b1;

    cpu.adc(0b10);

    assert_eq!(0b11, cpu.registers.a);
    assert_eq!(false, cpu.registers.f.carry);
    assert_eq!(false, cpu.registers.f.half_carry);
    assert_eq!(false, cpu.registers.f.subtract);
    assert_eq!(false, cpu.registers.f.zero);
}
#[test]
fn test_cpu_adc_carry_from_value() {
    let mut cpu = make_test_cpu();
    cpu.registers.a = 0b01111111;

    cpu.adc(0b11000000);

    assert_eq!(0b00111111, cpu.registers.a);
    assert_eq!(true, cpu.registers.f.carry);
    assert_eq!(false, cpu.registers.f.half_carry);
    assert_eq!(false, cpu.registers.f.subtract);
    assert_eq!(false, cpu.registers.f.zero);
}
#[test]
fn test_cpu_adc_carry_from_carry() {
    let mut cpu = make_test_cpu();
    cpu.registers.a = 0xFE;
    cpu.registers.f.carry = true;

    cpu.adc(0b1);

    assert_eq!(0, cpu.registers.a);
    assert_eq!(true, cpu.registers.f.carry);
    assert_eq!(true, cpu.registers.f.half_carry);
    assert_eq!(false, cpu.registers.f.subtract);
    assert_eq!(true, cpu.registers.f.zero);
}
#[test]
fn test_cpu_adc_half_carry_from_value() {
    let mut cpu = make_test_cpu();
    cpu.registers.a = 0xF;
    cpu.registers.f.carry = true;

    cpu.adc(0b1);

    assert_eq!(0x11, cpu.registers.a);
    assert_eq!(false, cpu.registers.f.carry);
    assert_eq!(true, cpu.registers.f.half_carry);
    assert_eq!(false, cpu.registers.f.subtract);
    assert_eq!(false, cpu.registers.f.zero);
}
#[test]
fn test_cpu_adc_half_carry_from_carry() {
    let mut cpu = make_test_cpu();
    cpu.registers.a = 0xE;
    cpu.registers.f.carry = true;

    cpu.adc(0b1);

    assert_eq!(0x10, cpu.registers.a);
    assert_eq!(false, cpu.registers.f.carry);
    assert_eq!(true, cpu.registers.f.half_carry);
    assert_eq!(false, cpu.registers.f.subtract);
    assert_eq!(false, cpu.registers.f.zero);
}

#[test]
fn test_cpu_sub_nominal() {
    let mut cpu = make_test_cpu();
    cpu.registers.a = 0b11;

    cpu.sub(0b1);

    assert_eq!(0b10, cpu.registers.a);
    assert_eq!(false, cpu.registers.f.carry);
    assert_eq!(false, cpu.registers.f.half_carry);
    assert_eq!(true, cpu.registers.f.subtract);
    assert_eq!(false, cpu.registers.f.zero);
}
#[test]
fn test_cpu_sub_carry() {
    let mut cpu = make_test_cpu();
    cpu.registers.a = 0xE0;

    cpu.sub(0xF0);

    assert_eq!(240, cpu.registers.a);
    assert_eq!(true, cpu.registers.f.carry);
    assert_eq!(false, cpu.registers.f.half_carry);
    assert_eq!(true, cpu.registers.f.subtract);
    assert_eq!(false, cpu.registers.f.zero);
}
#[test]
fn test_cpu_sub_half_carry() {
    let mut cpu = make_test_cpu();
    cpu.registers.a = 0x10;

    cpu.sub(0b10);

    assert_eq!(14, cpu.registers.a);
    assert_eq!(false, cpu.registers.f.carry);
    assert_eq!(true, cpu.registers.f.half_carry);
    assert_eq!(true, cpu.registers.f.subtract);
    assert_eq!(false, cpu.registers.f.zero);
}
#[test]
fn test_cpu_sub_carry_and_half_carry() {
    let mut cpu = make_test_cpu();
    cpu.registers.a = 0b1;

    cpu.sub(0b11);

    assert_eq!(254, cpu.registers.a);
    assert_eq!(true, cpu.registers.f.carry);
    assert_eq!(true, cpu.registers.f.half_carry);
    assert_eq!(true, cpu.registers.f.subtract);
    assert_eq!(false, cpu.registers.f.zero);
}

#[test]
fn test_cpu_sbc_nominal() {
    let mut cpu = make_test_cpu();
    cpu.registers.a = 0b100;
    cpu.registers.f.carry = true;

    cpu.sbc(0b1);

    assert_eq!(0b10, cpu.registers.a);
    assert_eq!(false, cpu.registers.f.carry);
    assert_eq!(false, cpu.registers.f.half_carry);
    assert_eq!(true, cpu.registers.f.subtract);
    assert_eq!(false, cpu.registers.f.zero);
}
#[test]
fn test_cpu_sbc_no_carry() {
    let mut cpu = make_test_cpu();
    cpu.registers.a = 0b100;

    cpu.sbc(0b1);

    assert_eq!(0b11, cpu.registers.a);
    assert_eq!(false, cpu.registers.f.carry);
    assert_eq!(false, cpu.registers.f.half_carry);
    assert_eq!(true, cpu.registers.f.subtract);
    assert_eq!(false, cpu.registers.f.zero);
}
#[test]
fn test_cpu_sbc_carry_from_value() {
    let mut cpu = make_test_cpu();
    cpu.registers.a = 0xE0;
    cpu.registers.f.carry = true;

    cpu.sbc(0xF0);

    assert_eq!(239, cpu.registers.a);
    assert_eq!(true, cpu.registers.f.carry);
    assert_eq!(true, cpu.registers.f.half_carry);
    assert_eq!(true, cpu.registers.f.subtract);
    assert_eq!(false, cpu.registers.f.zero);
}
#[test]
fn test_cpu_sbc_carry_from_carry() {
    let mut cpu = make_test_cpu();
    cpu.registers.a = 0xF0;
    cpu.registers.f.carry = true;

    cpu.sbc(0xF0);

    assert_eq!(255, cpu.registers.a);
    assert_eq!(true, cpu.registers.f.carry);
    assert_eq!(true, cpu.registers.f.half_carry);
    assert_eq!(true, cpu.registers.f.subtract);
    assert_eq!(false, cpu.registers.f.zero);
}
#[test]
fn test_cpu_sbc_half_carry_from_value() {
    let mut cpu = make_test_cpu();
    cpu.registers.a = 0b1;
    cpu.registers.f.carry = true;

    cpu.sbc(0b11);

    assert_eq!(253, cpu.registers.a);
    assert_eq!(true, cpu.registers.f.carry);
    assert_eq!(true, cpu.registers.f.half_carry);
    assert_eq!(true, cpu.registers.f.subtract);
    assert_eq!(false, cpu.registers.f.zero);
}
#[test]
fn test_cpu_sbc_half_carry_from_carry() {
    let mut cpu = make_test_cpu();
    cpu.registers.a = 0b11;
    cpu.registers.f.carry = true;

    cpu.sbc(0b11);

    assert_eq!(255, cpu.registers.a);
    assert_eq!(true, cpu.registers.f.carry);
    assert_eq!(true, cpu.registers.f.half_carry);
    assert_eq!(true, cpu.registers.f.subtract);
    assert_eq!(false, cpu.registers.f.zero);
}

#[test]
fn test_cpu_and_nominal() {
    let mut cpu = make_test_cpu();
    cpu.registers.a = 0b101;

    cpu.and(0b1);

    assert_eq!(0b1, cpu.registers.a);
    assert_eq!(false, cpu.registers.f.carry);
    assert_eq!(true, cpu.registers.f.half_carry);
    assert_eq!(false, cpu.registers.f.subtract);
    assert_eq!(false, cpu.registers.f.zero);
}

#[test]
fn test_cpu_or_nominal() {
    let mut cpu = make_test_cpu();
    cpu.registers.a = 0b101;

    cpu.or(0b11);

    assert_eq!(0b111, cpu.registers.a);
    assert_eq!(false, cpu.registers.f.carry);
    assert_eq!(false, cpu.registers.f.half_carry);
    assert_eq!(false, cpu.registers.f.subtract);
    assert_eq!(false, cpu.registers.f.zero);
}

#[test]
fn test_cpu_xor_nominal() {
    let mut cpu = make_test_cpu();
    cpu.registers.a = 0b101;

    cpu.xor(0b11);

    assert_eq!(0b110, cpu.registers.a);
    assert_eq!(false, cpu.registers.f.carry);
    assert_eq!(false, cpu.registers.f.half_carry);
    assert_eq!(false, cpu.registers.f.subtract);
    assert_eq!(false, cpu.registers.f.zero);
}

#[test]
fn test_cpu_inc_nominal() {
    let mut cpu = make_test_cpu();
    cpu.registers.b = 0b110;

    let val = cpu.inc(cpu.registers.b);

    assert_eq!(0b111, val);
    assert_eq!(false, cpu.registers.f.carry);
    assert_eq!(false, cpu.registers.f.half_carry);
    assert_eq!(false, cpu.registers.f.subtract);
    assert_eq!(false, cpu.registers.f.zero);
}
#[test]
fn test_cpu_inc_half_carry() {
    let mut cpu = make_test_cpu();
    cpu.registers.b = 0xF;

    let val = cpu.inc(cpu.registers.b);

    assert_eq!(0x10, val);
    assert_eq!(false, cpu.registers.f.carry);
    assert_eq!(true, cpu.registers.f.half_carry);
    assert_eq!(false, cpu.registers.f.subtract);
    assert_eq!(false, cpu.registers.f.zero);
}

#[test]
fn test_cpu_dec_nominal() {
    let mut cpu = make_test_cpu();
    cpu.registers.b = 0b111;

    let val = cpu.dec(cpu.registers.b);

    assert_eq!(0b110, val);
    assert_eq!(false, cpu.registers.f.carry);
    assert_eq!(false, cpu.registers.f.half_carry);
    assert_eq!(true, cpu.registers.f.subtract);
    assert_eq!(false, cpu.registers.f.zero);
}
#[test]
fn test_cpu_dec_half_carry() {
    let mut cpu = make_test_cpu();
    cpu.registers.b = 0;

    let val = cpu.dec(cpu.registers.b);

    assert_eq!(255, val);
    assert_eq!(false, cpu.registers.f.carry);
    assert_eq!(true, cpu.registers.f.half_carry);
    assert_eq!(true, cpu.registers.f.subtract);
    assert_eq!(false, cpu.registers.f.zero);
}

#[test]
fn test_cpu_ccf_toggle_on() {
    let mut cpu = make_test_cpu();
    cpu.registers.f.carry = false;

    cpu.ccf();

    assert_eq!(true, cpu.registers.f.carry);
    assert_eq!(false, cpu.registers.f.half_carry);
    assert_eq!(false, cpu.registers.f.subtract);
}
#[test]
fn test_cpu_ccf_toggle_off() {
    let mut cpu = make_test_cpu();
    cpu.registers.f.carry = true;

    cpu.ccf();

    assert_eq!(false, cpu.registers.f.carry);
    assert_eq!(false, cpu.registers.f.half_carry);
    assert_eq!(false, cpu.registers.f.subtract);
}

#[test]
fn test_cpu_scf_start_with_true() {
    let mut cpu = make_test_cpu();
    cpu.registers.f.carry = true;

    cpu.scf();

    assert_eq!(true, cpu.registers.f.carry);
    assert_eq!(false, cpu.registers.f.half_carry);
    assert_eq!(false, cpu.registers.f.subtract);
}
#[test]
fn test_cpu_scf_start_with_false() {
    let mut cpu = make_test_cpu();
    cpu.registers.f.carry = false;

    cpu.scf();

    assert_eq!(true, cpu.registers.f.carry);
    assert_eq!(false, cpu.registers.f.half_carry);
    assert_eq!(false, cpu.registers.f.subtract);
}

#[test]
fn test_cpu_rra_with_carry_resulting_with_carry() {
    let mut cpu = make_test_cpu();
    cpu.registers.a = 0b00001001;
    cpu.registers.f.carry = true;

    cpu.rra();

    assert_eq!(0b10000100, cpu.registers.a);
    assert_eq!(true, cpu.registers.f.carry);
    assert_eq!(false, cpu.registers.f.half_carry);
    assert_eq!(false, cpu.registers.f.subtract);
    assert_eq!(false, cpu.registers.f.zero);
}
#[test]
fn test_cpu_rra_with_carry_resulting_with_no_carry() {
    let mut cpu = make_test_cpu();
    cpu.registers.a = 0b00001000;
    cpu.registers.f.carry = true;

    cpu.rra();

    assert_eq!(0b10000100, cpu.registers.a);
    assert_eq!(false, cpu.registers.f.carry);
    assert_eq!(false, cpu.registers.f.half_carry);
    assert_eq!(false, cpu.registers.f.subtract);
    assert_eq!(false, cpu.registers.f.zero);
}
#[test]
fn test_cpu_rra_without_carry_resulting_with_carry() {
    let mut cpu = make_test_cpu();
    cpu.registers.a = 0b00001001;
    cpu.registers.f.carry = false;

    cpu.rra();

    assert_eq!(0b00000100, cpu.registers.a);
    assert_eq!(true, cpu.registers.f.carry);
    assert_eq!(false, cpu.registers.f.half_carry);
    assert_eq!(false, cpu.registers.f.subtract);
    assert_eq!(false, cpu.registers.f.zero);
}
#[test]
fn test_cpu_rra_without_carry_resulting_with_no_carry() {
    let mut cpu = make_test_cpu();
    cpu.registers.a = 0b00001000;
    cpu.registers.f.carry = false;

    cpu.rra();

    assert_eq!(0b00000100, cpu.registers.a);
    assert_eq!(false, cpu.registers.f.carry);
    assert_eq!(false, cpu.registers.f.half_carry);
    assert_eq!(false, cpu.registers.f.subtract);
    assert_eq!(false, cpu.registers.f.zero);
}

#[test]
fn test_cpu_rla_with_carry_resulting_with_carry() {
    let mut cpu = make_test_cpu();
    cpu.registers.a = 0b10001000;
    cpu.registers.f.carry = true;

    cpu.rla();

    assert_eq!(0b00010001, cpu.registers.a);
    assert_eq!(true, cpu.registers.f.carry);
    assert_eq!(false, cpu.registers.f.half_carry);
    assert_eq!(false, cpu.registers.f.subtract);
    assert_eq!(false, cpu.registers.f.zero);
}
#[test]
fn test_cpu_rla_with_carry_resulting_with_no_carry() {
    let mut cpu = make_test_cpu();
    cpu.registers.a = 0b00001000;
    cpu.registers.f.carry = true;

    cpu.rla();

    assert_eq!(0b00010001, cpu.registers.a);
    assert_eq!(false, cpu.registers.f.carry);
    assert_eq!(false, cpu.registers.f.half_carry);
    assert_eq!(false, cpu.registers.f.subtract);
    assert_eq!(false, cpu.registers.f.zero);
}
#[test]
fn test_cpu_rla_without_carry_resulting_with_carry() {
    let mut cpu = make_test_cpu();
    cpu.registers.a = 0b10001000;
    cpu.registers.f.carry = false;

    cpu.rla();

    assert_eq!(0b00010000, cpu.registers.a);
    assert_eq!(true, cpu.registers.f.carry);
    assert_eq!(false, cpu.registers.f.half_carry);
    assert_eq!(false, cpu.registers.f.subtract);
    assert_eq!(false, cpu.registers.f.zero);
}
#[test]
fn test_cpu_rla_without_carry_resulting_with_no_carry() {
    let mut cpu = make_test_cpu();
    cpu.registers.a = 0b00001000;
    cpu.registers.f.carry = false;

    cpu.rla();

    assert_eq!(0b00010000, cpu.registers.a);
    assert_eq!(false, cpu.registers.f.carry);
    assert_eq!(false, cpu.registers.f.half_carry);
    assert_eq!(false, cpu.registers.f.subtract);
    assert_eq!(false, cpu.registers.f.zero);
}

#[test]
fn test_cpu_rrca_resulting_with_carry() {
    let mut cpu = make_test_cpu();
    cpu.registers.a = 0b00001001;
    cpu.registers.f.carry = false;

    cpu.rrca();

    assert_eq!(0b10000100, cpu.registers.a);
    assert_eq!(true, cpu.registers.f.carry);
    assert_eq!(false, cpu.registers.f.half_carry);
    assert_eq!(false, cpu.registers.f.subtract);
    assert_eq!(false, cpu.registers.f.zero);
}
#[test]
fn test_cpu_rrca_resulting_with_no_carry() {
    let mut cpu = make_test_cpu();
    cpu.registers.a = 0b00001000;
    cpu.registers.f.carry = false;

    cpu.rrca();

    assert_eq!(0b00000100, cpu.registers.a);
    assert_eq!(false, cpu.registers.f.carry);
    assert_eq!(false, cpu.registers.f.half_carry);
    assert_eq!(false, cpu.registers.f.subtract);
    assert_eq!(false, cpu.registers.f.zero);
}

#[test]
fn test_cpu_rlca_resulting_with_carry() {
    let mut cpu = make_test_cpu();
    cpu.registers.a = 0b10001000;
    cpu.registers.f.carry = false;

    cpu.rlca();

    assert_eq!(0b00010001, cpu.registers.a);
    assert_eq!(true, cpu.registers.f.carry);
    assert_eq!(false, cpu.registers.f.half_carry);
    assert_eq!(false, cpu.registers.f.subtract);
    assert_eq!(false, cpu.registers.f.zero);
}
#[test]
fn test_cpu_rlca_resulting_with_no_carry() {
    let mut cpu = make_test_cpu();
    cpu.registers.a = 0b00001000;
    cpu.registers.f.carry = false;

    cpu.rlca();

    assert_eq!(0b00010000, cpu.registers.a);
    assert_eq!(false, cpu.registers.f.carry);
    assert_eq!(false, cpu.registers.f.half_carry);
    assert_eq!(false, cpu.registers.f.subtract);
    assert_eq!(false, cpu.registers.f.zero);
}

#[test]
fn test_cpu_cpl_nominal() {
    let mut cpu = make_test_cpu();
    cpu.registers.a = 0b01001000;

    cpu.cpl();

    assert_eq!(0b10110111, cpu.registers.a);
    assert_eq!(true, cpu.registers.f.half_carry);
    assert_eq!(true, cpu.registers.f.subtract);
}

#[test]
fn test_cpu_bit_is_set() {
    let mut cpu = make_test_cpu();
    cpu.registers.b = 0b01001000;

    cpu.bit(cpu.registers.b, 3);

    assert_eq!(false, cpu.registers.f.zero);
    assert_eq!(false, cpu.registers.f.subtract);
    assert_eq!(true, cpu.registers.f.half_carry);
}
#[test]
fn test_cpu_bit_is_not_set() {
    let mut cpu = make_test_cpu();
    cpu.registers.b = 0b01001000;

    cpu.bit(cpu.registers.b, 4);

    assert_eq!(true, cpu.registers.f.zero);
    assert_eq!(false, cpu.registers.f.subtract);
    assert_eq!(true, cpu.registers.f.half_carry);
}

#[test]
fn test_cpu_reset_nominal() {
    let mut cpu = make_test_cpu();
    cpu.registers.b = 0b01001010;

    let val = cpu.reset(cpu.registers.b, 3);

    assert_eq!(0b01000010, val);
}

#[test]
fn test_cpu_set_nominal() {
    let mut cpu = make_test_cpu();
    cpu.registers.b = 0b01000010;

    let val = cpu.set(cpu.registers.b, 3);

    assert_eq!(0b01001010, val);
}

#[test]
fn test_cpu_srl_no_carry() {
    let mut cpu = make_test_cpu();
    cpu.registers.b = 0b01000010;

    let val = cpu.srl(cpu.registers.b);

    assert_eq!(0b00100001, val);
    assert_eq!(false, cpu.registers.f.carry);
    assert_eq!(false, cpu.registers.f.zero);
}
#[test]
fn test_cpu_srl_carry() {
    let mut cpu = make_test_cpu();
    cpu.registers.b = 0b01000011;

    let val = cpu.srl(cpu.registers.b);

    assert_eq!(0b00100001, val);
    assert_eq!(true, cpu.registers.f.carry);
    assert_eq!(false, cpu.registers.f.zero);
}

#[test]
fn test_cpu_rr_with_carry_resulting_with_carry() {
    let mut cpu = make_test_cpu();
    cpu.registers.b = 0b00001001;
    cpu.registers.f.carry = true;

    let val = cpu.rr(cpu.registers.b);

    assert_eq!(0b10000100, val);
    assert_eq!(true, cpu.registers.f.carry);
    assert_eq!(false, cpu.registers.f.half_carry);
    assert_eq!(false, cpu.registers.f.subtract);
    assert_eq!(false, cpu.registers.f.zero);
}
#[test]
fn test_cpu_rr_with_carry_resulting_with_no_carry() {
    let mut cpu = make_test_cpu();
    cpu.registers.b = 0b00001010;
    cpu.registers.f.carry = true;

    let val = cpu.rr(cpu.registers.b);

    assert_eq!(0b10000101, val);
    assert_eq!(false, cpu.registers.f.carry);
    assert_eq!(false, cpu.registers.f.half_carry);
    assert_eq!(false, cpu.registers.f.subtract);
    assert_eq!(false, cpu.registers.f.zero);
}
#[test]
fn test_cpu_rr_without_carry_resulting_with_carry() {
    let mut cpu = make_test_cpu();
    cpu.registers.b = 0b00001001;
    cpu.registers.f.carry = false;

    let val = cpu.rr(cpu.registers.b);

    assert_eq!(0b00000100, val);
    assert_eq!(true, cpu.registers.f.carry);
    assert_eq!(false, cpu.registers.f.half_carry);
    assert_eq!(false, cpu.registers.f.subtract);
    assert_eq!(false, cpu.registers.f.zero);
}
#[test]
fn test_cpu_rr_without_carry_resulting_with_no_carry() {
    let mut cpu = make_test_cpu();
    cpu.registers.b = 0b00001010;
    cpu.registers.f.carry = false;

    let val = cpu.rr(cpu.registers.b);

    assert_eq!(0b00000101, val);
    assert_eq!(false, cpu.registers.f.carry);
    assert_eq!(false, cpu.registers.f.half_carry);
    assert_eq!(false, cpu.registers.f.subtract);
    assert_eq!(false, cpu.registers.f.zero);
}

#[test]
fn test_cpu_rl_with_carry_resulting_with_carry() {
    let mut cpu = make_test_cpu();
    cpu.registers.b = 0b10001000;
    cpu.registers.f.carry = true;

    let val = cpu.rl(cpu.registers.b);

    assert_eq!(0b00010001, val);
    assert_eq!(true, cpu.registers.f.carry);
    assert_eq!(false, cpu.registers.f.half_carry);
    assert_eq!(false, cpu.registers.f.subtract);
    assert_eq!(false, cpu.registers.f.zero);
}
#[test]
fn test_cpu_rl_with_carry_resulting_with_no_carry() {
    let mut cpu = make_test_cpu();
    cpu.registers.b = 0b00101000;
    cpu.registers.f.carry = true;

    let val = cpu.rl(cpu.registers.b);

    assert_eq!(0b01010001, val);
    assert_eq!(false, cpu.registers.f.carry);
    assert_eq!(false, cpu.registers.f.half_carry);
    assert_eq!(false, cpu.registers.f.subtract);
    assert_eq!(false, cpu.registers.f.zero);
}
#[test]
fn test_cpu_rl_without_carry_resulting_with_carry() {
    let mut cpu = make_test_cpu();
    cpu.registers.b = 0b10101000;
    cpu.registers.f.carry = false;

    let val = cpu.rl(cpu.registers.b);

    assert_eq!(0b01010000, val);
    assert_eq!(true, cpu.registers.f.carry);
    assert_eq!(false, cpu.registers.f.half_carry);
    assert_eq!(false, cpu.registers.f.subtract);
    assert_eq!(false, cpu.registers.f.zero);
}
#[test]
fn test_cpu_rl_without_carry_resulting_with_no_carry() {
    let mut cpu = make_test_cpu();
    cpu.registers.b = 0b00101000;
    cpu.registers.f.carry = false;

    let val = cpu.rl(cpu.registers.b);

    assert_eq!(0b01010000, val);
    assert_eq!(false, cpu.registers.f.carry);
    assert_eq!(false, cpu.registers.f.half_carry);
    assert_eq!(false, cpu.registers.f.subtract);
    assert_eq!(false, cpu.registers.f.zero);
}

#[test]
fn test_cpu_rrc_resulting_with_carry() {
    let mut cpu = make_test_cpu();
    cpu.registers.b = 0b00001001;
    cpu.registers.f.carry = false;

    let val = cpu.rrc(cpu.registers.b);

    assert_eq!(0b10000100, val);
    assert_eq!(true, cpu.registers.f.carry);
    assert_eq!(false, cpu.registers.f.half_carry);
    assert_eq!(false, cpu.registers.f.subtract);
    assert_eq!(false, cpu.registers.f.zero);
}
#[test]
fn test_cpu_rrc_resulting_with_no_carry() {
    let mut cpu = make_test_cpu();
    cpu.registers.b = 0b00001000;
    cpu.registers.f.carry = false;

    let val = cpu.rrc(cpu.registers.b);

    assert_eq!(0b00000100, val);
    assert_eq!(false, cpu.registers.f.carry);
    assert_eq!(false, cpu.registers.f.half_carry);
    assert_eq!(false, cpu.registers.f.subtract);
    assert_eq!(false, cpu.registers.f.zero);
}

#[test]
fn test_cpu_rlc_resulting_with_carry() {
    let mut cpu = make_test_cpu();
    cpu.registers.b = 0b10001000;
    cpu.registers.f.carry = false;

    let val = cpu.rlc(cpu.registers.b);

    assert_eq!(0b00010001, val);
    assert_eq!(true, cpu.registers.f.carry);
    assert_eq!(false, cpu.registers.f.half_carry);
    assert_eq!(false, cpu.registers.f.subtract);
    assert_eq!(false, cpu.registers.f.zero);
}
#[test]
fn test_cpu_rlc_resulting_with_no_carry() {
    let mut cpu = make_test_cpu();
    cpu.registers.b = 0b00001000;
    cpu.registers.f.carry = false;

    let val = cpu.rlc(cpu.registers.b);

    assert_eq!(0b00010000, val);
    assert_eq!(false, cpu.registers.f.carry);
    assert_eq!(false, cpu.registers.f.half_carry);
    assert_eq!(false, cpu.registers.f.subtract);
    assert_eq!(false, cpu.registers.f.zero);
}

#[test]
fn test_cpu_sra_carry() {
    let mut cpu = make_test_cpu();
    cpu.registers.b = 0b10001001;

    let val = cpu.sra(cpu.registers.b);

    assert_eq!(0b11000100, val);
    assert_eq!(true, cpu.registers.f.carry);
    assert_eq!(false, cpu.registers.f.half_carry);
    assert_eq!(false, cpu.registers.f.subtract);
    assert_eq!(false, cpu.registers.f.zero);
}
#[test]
fn test_cpu_sra_no_carry() {
    let mut cpu = make_test_cpu();
    cpu.registers.b = 0b10001000;

    let val = cpu.sra(cpu.registers.b);

    assert_eq!(0b11000100, val);
    assert_eq!(false, cpu.registers.f.carry);
    assert_eq!(false, cpu.registers.f.half_carry);
    assert_eq!(false, cpu.registers.f.subtract);
    assert_eq!(false, cpu.registers.f.zero);
}

#[test]
fn test_cpu_sla_carry() {
    let mut cpu = make_test_cpu();
    cpu.registers.b = 0b10001010;

    let val = cpu.sla(cpu.registers.b);

    assert_eq!(0b00010100, val);
    assert_eq!(true, cpu.registers.f.carry);
    assert_eq!(false, cpu.registers.f.half_carry);
    assert_eq!(false, cpu.registers.f.subtract);
    assert_eq!(false, cpu.registers.f.zero);
}
#[test]
fn test_cpu_sla_no_carry() {
    let mut cpu = make_test_cpu();
    cpu.registers.b = 0b00101010;

    let val = cpu.sla(cpu.registers.b);

    assert_eq!(0b01010100, val);
    assert_eq!(false, cpu.registers.f.carry);
    assert_eq!(false, cpu.registers.f.half_carry);
    assert_eq!(false, cpu.registers.f.subtract);
    assert_eq!(false, cpu.registers.f.zero);
}

#[test]
fn test_cpu_swap_nominal() {
    let mut cpu = make_test_cpu();
    cpu.registers.b = 0b00101010;

    let val = cpu.swap(cpu.registers.b);

    assert_eq!(0b10100010, val);
    assert_eq!(false, cpu.registers.f.zero);
    assert_eq!(false, cpu.registers.f.half_carry);
    assert_eq!(false, cpu.registers.f.subtract);
    assert_eq!(false, cpu.registers.f.carry);
}

#[test]
fn test_cpu_daa_add_nominal() {
    let mut cpu = make_test_cpu();
    cpu.registers.a = 0x77;

    cpu.daa();

    assert_eq!(0x77, cpu.registers.a);
    assert_eq!(false, cpu.registers.f.zero);
    assert_eq!(false, cpu.registers.f.half_carry);
    assert_eq!(false, cpu.registers.f.carry);
}
#[test]
fn test_cpu_daa_add_half_carrying() {
    let mut cpu = make_test_cpu();
    cpu.registers.a = 0x6B;

    cpu.daa();

    assert_eq!(0x71, cpu.registers.a);
    assert_eq!(false, cpu.registers.f.zero);
    assert_eq!(false, cpu.registers.f.half_carry);
    assert_eq!(false, cpu.registers.f.carry);
}
#[test]
fn test_cpu_daa_add_carrying() {
    let mut cpu = make_test_cpu();
    cpu.registers.a = 0x9C;

    cpu.daa();

    assert_eq!(0x02, cpu.registers.a);
    assert_eq!(false, cpu.registers.f.zero);
    assert_eq!(false, cpu.registers.f.half_carry);
    assert_eq!(true, cpu.registers.f.carry);
}
#[test]
fn test_cpu_daa_add_having_carry() {
    let mut cpu = make_test_cpu();
    cpu.registers.a = 0x10;
    cpu.registers.f.carry = true;

    cpu.daa();

    assert_eq!(0x70, cpu.registers.a);
    assert_eq!(false, cpu.registers.f.zero);
    assert_eq!(false, cpu.registers.f.half_carry);
    assert_eq!(true, cpu.registers.f.carry);
}
#[test]
fn test_cpu_daa_add_having_half_carry() {
    let mut cpu = make_test_cpu();
    cpu.registers.a = 0x11;
    cpu.registers.f.half_carry = true;

    cpu.daa();

    assert_eq!(0x17, cpu.registers.a);
    assert_eq!(false, cpu.registers.f.zero);
    assert_eq!(false, cpu.registers.f.half_carry);
    assert_eq!(false, cpu.registers.f.carry);
}
#[test]
fn test_cpu_daa_sub_nominal() {
    let mut cpu = make_test_cpu();
    cpu.registers.a = 0x55;
    cpu.registers.f.subtract = true;

    cpu.daa();

    assert_eq!(0x55, cpu.registers.a);
    assert_eq!(false, cpu.registers.f.zero);
    assert_eq!(false, cpu.registers.f.half_carry);
    assert_eq!(false, cpu.registers.f.carry);
}
#[test]
fn test_cpu_daa_sub_having_half_carry() {
    let mut cpu = make_test_cpu();
    cpu.registers.a = 0x0D;
    cpu.registers.f.subtract = true;
    cpu.registers.f.half_carry = true;

    cpu.daa();

    assert_eq!(0x07, cpu.registers.a);
    assert_eq!(false, cpu.registers.f.zero);
    assert_eq!(false, cpu.registers.f.half_carry);
    assert_eq!(false, cpu.registers.f.carry);
}
#[test]
fn test_cpu_daa_sub_having_carry() {
    let mut cpu = make_test_cpu();
    cpu.registers.a = 0xE4;
    cpu.registers.f.subtract = true;
    cpu.registers.f.carry = true;

    cpu.daa();

    assert_eq!(0x84, cpu.registers.a);
    assert_eq!(false, cpu.registers.f.zero);
    assert_eq!(false, cpu.registers.f.half_carry);
    assert_eq!(true, cpu.registers.f.carry);
}

#[test]
fn test_cpu_push_nominal() {
    let mut cpu = make_test_cpu();
    cpu.sp = 128;

    cpu.push(0xEEAA);

    assert_eq!(126, cpu.sp);
    assert_eq!(0xAA, cpu.bus.read_byte(cpu.sp));
    assert_eq!(0xEE, cpu.bus.read_byte(cpu.sp + 1));
}

#[test]
fn test_cpu_pop_nominal() {
    let mut cpu = make_test_cpu();
    cpu.sp = 126;

    cpu.write_two_bytes(126, 0xEEAA);

    let val = cpu.pop();

    assert_eq!(128, cpu.sp);
    assert_eq!(0xEEAA, val);
}

// ADD SP with a negative displacement wraps below zero: from SP = 0x0000,
// adding -1 gives 0xFFFF with Z and N clear and H and C computed on the low
// byte of SP.
#[test]
fn test_cpu_add_sp_minus_one_wraps() {
    let mut cpu = make_test_cpu();
    cpu.sp = 0x0000;
    cpu.bus.write_byte(1, 0xFF); // the displacement byte after the opcode

    let result = cpu.execute(0xE8);

    assert_eq!(Some((2, 16)), result);
    assert_eq!(0xFFFF, cpu.sp);
    assert_eq!(false, cpu.registers.f.zero);
    assert_eq!(false, cpu.registers.f.subtract);
    assert_eq!(false, cpu.registers.f.half_carry);
    assert_eq!(false, cpu.registers.f.carry);
}

// DAA at the decimal boundary: after an addition leaving A = 0x9A and no
// carry, the adjustment wraps A to zero with carry and zero set.
#[test]
fn test_cpu_daa_add_boundary_wraps_to_zero() {
    let mut cpu = make_test_cpu();
    cpu.registers.a = 0x9A;

    cpu.daa();

    assert_eq!(0x00, cpu.registers.a);
    assert_eq!(true, cpu.registers.f.carry);
    assert_eq!(true, cpu.registers.f.zero);
    assert_eq!(false, cpu.registers.f.half_carry);
}

// The illegal opcodes decode to None and the machine runs them as 4-cycle
// no-ops that advance the program counter by one.
#[test]
fn test_cpu_illegal_opcodes_run_as_nop() {
    for op in [0xD3u8, 0xDB, 0xDD, 0xE3, 0xE4, 0xEB, 0xEC, 0xED, 0xF4, 0xFC, 0xFD] {
        let mut cpu = make_test_cpu();
        assert_eq!(None, cpu.execute(op));
        cpu.bus.write_byte(0, op);
        let cycles = cpu.step();
        assert_eq!(4, cycles);
        assert_eq!(1, cpu.pc);
    }
}

// Documented cycle counts, taken versus not taken, reported by the decoder.
#[test]
fn test_cpu_conditional_cycles() {
    // JR NZ taken (Z clear after cold boot).
    let mut cpu = make_test_cpu();
    let r = cpu.execute(0x20).unwrap();
    assert_eq!(12, r.1);
    // JR NZ not taken.
    let mut cpu = make_test_cpu();
    cpu.registers.f.zero = true;
    let r = cpu.execute(0x20).unwrap();
    assert_eq!(8, r.1);
    assert_eq!(2, r.0);
    // CALL taken and RET not taken.
    let mut cpu = make_test_cpu();
    let r = cpu.execute(0xCD).unwrap();
    assert_eq!(24, r.1);
    let mut cpu = make_test_cpu();
    cpu.registers.f.zero = true;
    let r = cpu.execute(0xC0).unwrap();
    assert_eq!(8, r.1);
    // Prefixed: register versus memory operand.
    let mut cpu = make_test_cpu();
    let r = cpu.execute_prefixed(0x00).unwrap();
    assert_eq!(8, r.1);
    let mut cpu = make_test_cpu();
    let r = cpu.execute_prefixed(0x06).unwrap();
    assert_eq!(16, r.1);
    let mut cpu = make_test_cpu();
    let r = cpu.execute_prefixed(0x46).unwrap();
    assert_eq!(12, r.1);
}

// HALT with an enabled pending interrupt but interrupts disabled only
// breaks the halt.
#[test]
fn test_cpu_halt_wakes_without_service() {
    struct PendingBus;
    impl Bus for PendingBus {
        fn inv(&self) -> bool {
            true
        }
        fn read_byte(&self, _address: u16) -> u8 {
            0
        }
        fn write_byte(&mut self, _address: u16, _value: u8) {}
        fn check_interrupts(&mut self, _reset_flag: bool) -> Option<u16> {
            Some(0x40)
        }
        fn switch_speed(&mut self) {}
        fn step_peripherals(&mut self, _cycles: u8) {}
    }
    let cfg = Config {
        mode: Mode::DMG,
        rom: vec![],
        headless_mode: false,
        bootrom: Some(vec![]),
        log_file_path: None,
    };
    let mut cpu = CPU::new(&cfg, PendingBus);
    cpu.is_halted = true;
    let cycles = cpu.step();
    assert_eq!(8, cycles);
    assert_eq!(false, cpu.is_halted);
    assert_eq!(0, cpu.pc);
}

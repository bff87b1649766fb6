use std::cell::RefCell;

use gamuboy::cartridge::{save_title, Cartridge, CartridgeError};
use gamuboy::config::Config;
use gamuboy::gameboy::GameBoy;
use gamuboy::mode::Mode;
use gamuboy::registers::Registers;
use gamuboy::saver::{Fake, GameSave, SaveError};

/// A 32 KiB image with a valid header: the given title, controller code,
/// RAM-size code, and a correct header checksum.
fn make_rom(title: &[u8], mbc_code: u8, ram_size_code: u8) -> Vec<u8> {
    let mut rom = vec![0u8; 0x8000];
    rom[0x134..0x134 + title.len()].copy_from_slice(title);
    rom[0x147] = mbc_code;
    rom[0x148] = 0x00;
    rom[0x149] = ram_size_code;
    let mut checksum: u8 = 0;
    for addr in 0x134..=0x14C {
        checksum = checksum.wrapping_sub(rom[addr]).wrapping_sub(1);
    }
    rom[0x14D] = checksum;
    rom
}

fn make_config(rom: Vec<u8>) -> Config {
    Config { mode: Mode::DMG, rom, headless_mode: true, bootrom: None, log_file_path: None }
}

struct TitleSaver {
    title: RefCell<Vec<u8>>,
}

impl GameSave for TitleSaver {
    fn set_title(&mut self, title: Vec<u8>) {
        self.title.replace(title);
    }

    fn load(&self) -> Result<Vec<u8>, SaveError> {
        Ok(vec![])
    }

    fn save(&self, _ram: &Vec<u8>) -> Result<(), SaveError> {
        Ok(())
    }
}

// The save title is the zero-trimmed cartridge title, a hyphen, and the
// image's checksum in eight hexadecimal digits.
#[test]
fn test_save_title_includes_image_checksum() {
    let rom = make_rom(b"TESTCART", 0x00, 0x00);
    let alg: crc::Crc<u32> = crc::Crc::<u32>::new(&crc::CRC_32_ISO_HDLC);
    let expected_crc = alg.checksum(&rom);

    let title = save_title(&rom);
    let expected = format!("TESTCART-{:08x}", expected_crc);
    assert_eq!(expected.as_bytes(), &title[..]);

    // The same title reaches the save store when the cartridge is built.
    let rom = make_rom(b"TESTCART", 0x03, 0x02);
    let expected_crc = alg.checksum(&rom);
    let expected = format!("TESTCART-{:08x}", expected_crc);
    let saver = TitleSaver { title: RefCell::new(vec![]) };
    let cart = Cartridge::new(&make_config(rom), saver).unwrap();
    match &cart.mbc.target_mbc {
        gamuboy::mbc::MbcKind::One(m) => {
            assert_eq!(expected.as_bytes(), &m.saver.title.borrow()[..]);
        }
        _ => panic!("the header asked for the first controller kind"),
    }
}

// A header asking for an unsupported controller is rejected at startup;
// every supported code is accepted.
#[test]
fn test_unsupported_cartridge_is_rejected() {
    let rom = make_rom(b"X", 0xFF, 0x00);
    let r = Cartridge::new(&make_config(rom), Fake);
    assert!(matches!(r, Err(CartridgeError::UnsupportedCartridge)));
    for code in [0x00u8, 0x01, 0x02, 0x03, 0x05, 0x06, 0x19, 0x1C, 0x1E] {
        let rom = make_rom(b"X", code, 0x02);
        assert!(Cartridge::new(&make_config(rom), Fake).is_ok());
    }
}

// A corrupted header checksum is recorded but never fatal.
#[test]
fn test_header_checksum_warning_is_not_fatal() {
    let mut rom = make_rom(b"X", 0x00, 0x00);
    rom[0x14D] = rom[0x14D].wrapping_add(1);
    let gb = GameBoy::new(&make_config(rom), Fake).unwrap();
    assert_eq!(false, gb.checksum_valid());
    let gb = GameBoy::new(&make_config(make_rom(b"X", 0x00, 0x00)), Fake).unwrap();
    assert_eq!(true, gb.checksum_valid());
}

// A small program runs end to end through the processor and bus: load a
// byte, store it to work RAM, halt.
#[test]
fn test_gameboy_runs_a_small_program() {
    let mut rom = make_rom(b"RUNME", 0x00, 0x00);
    let program: [u8; 6] = [0x3E, 0x42, 0xEA, 0x00, 0xC0, 0x76];
    rom[0x100..0x106].copy_from_slice(&program);
    // Recompute the checksum region untouched by the program bytes.
    let mut gb = GameBoy::new(&make_config(rom), Fake).unwrap();

    let c1 = gb.step(); // LD A, 0x42
    assert_eq!(8, c1);
    assert_eq!(0x42, gb.cpu.registers.a);
    let c2 = gb.step(); // LD (0xC000), A
    assert_eq!(16, c2);
    assert_eq!(0x42, gb.cpu.bus.ram.read_byte(0xC000));
    let c3 = gb.step(); // HALT
    assert_eq!(4, c3);
    assert_eq!(true, gb.cpu.is_halted);
    let c4 = gb.step(); // halted idle: the clock still runs
    assert_eq!(4, c4);
}

// Writing through AF keeps the low four flag bits clear, and every
// register pair reads back what was stored.
#[test]
fn test_register_pairs_round_trip() {
    let mut regs = Registers::new();
    regs.set_af(0x12FF);
    assert_eq!(0x12F0, regs.get_af());
    regs.set_af(0xABCD);
    assert_eq!(0xABC0, regs.get_af());
    assert_eq!(0, regs.get_af() % 16);
    regs.set_bc(0x1234);
    assert_eq!(0x1234, regs.get_bc());
    regs.set_de(0x5678);
    assert_eq!(0x5678, regs.get_de());
    regs.set_hl(0x9ABC);
    assert_eq!(0x9ABC, regs.get_hl());
}

// Button events reach the joypad register through the machine's front door.
#[test]
fn test_gameboy_button_events() {
    let rom = make_rom(b"PAD", 0x00, 0x00);
    let mut gb = GameBoy::new(&make_config(rom), Fake).unwrap();
    gb.update_button(gamuboy::joypad::Button::Start, true);
    gb.cpu.bus.joypad.write_byte(0xFF00, 0x10);
    assert_eq!(0x07, gb.cpu.bus.joypad.read_byte(0xFF00)); // Start: bit 3 low
}

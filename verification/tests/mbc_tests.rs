use std::cell::RefCell;

use gamuboy::mbc::{
    MBC, MBC1, MBC2, MBC5, MBC1_BANKING_MODE_REG_START_ADDR, MBC1_RAM_BANK_NUM_REG_START_ADDR,
    MBC1_RAM_END_ADDR, MBC1_RAM_START_ADDR, MBC1_ROM_BANK_01_7F_END_ADDR,
    MBC1_ROM_BANK_01_7F_START_ADDR, MBC1_ROM_BANK_0_END_ADDR, MBC1_ROM_BANK_0_START_ADDR,
    MBC1_ROM_BANK_NUM_REG_START_ADDR, MbcKind,
};
use gamuboy::saver::{Fake, GameSave, SaveError};

fn new_mbc1() -> MBC1<Fake> {
    MBC1::new(vec![], 0x2000, Fake)
}

#[test]
fn test_mbc1_addressing_bank_0_simple_mode() {
    let mut mbc1 = new_mbc1();

    for addr in MBC1_ROM_BANK_0_START_ADDR..=MBC1_ROM_BANK_0_END_ADDR {
        assert_eq!(addr as usize, mbc1.get_rom_address(addr));
    }

    mbc1.write_byte(MBC1_RAM_BANK_NUM_REG_START_ADDR, 1);

    for addr in MBC1_ROM_BANK_0_START_ADDR..=MBC1_ROM_BANK_0_END_ADDR {
        assert_eq!(addr as usize, mbc1.get_rom_address(addr));
    }
}

#[test]
fn test_mbc1_addressing_bank_0_advanced_mode() {
    let mut mbc1 = new_mbc1();

    mbc1.write_byte(MBC1_BANKING_MODE_REG_START_ADDR, 1);
    mbc1.write_byte(MBC1_RAM_BANK_NUM_REG_START_ADDR, 1);

    for addr in MBC1_ROM_BANK_0_START_ADDR..=MBC1_ROM_BANK_0_END_ADDR {
        assert_eq!((1 << 19) | addr as usize, mbc1.get_rom_address(addr));
    }
}

#[test]
fn test_mbc1_addressing_bank_01_7f_simple_mode() {
    let mut mbc1 = new_mbc1();

    mbc1.write_byte(MBC1_ROM_BANK_NUM_REG_START_ADDR, 1);
    mbc1.write_byte(MBC1_RAM_BANK_NUM_REG_START_ADDR, 1);

    for addr in MBC1_ROM_BANK_01_7F_START_ADDR..=MBC1_ROM_BANK_01_7F_END_ADDR {
        assert_eq!(
            (1 << 19) | (1 << 14) | addr as usize,
            mbc1.get_rom_address(addr)
        );
    }
}

#[test]
fn test_mbc1_addressing_bank_01_7f_advanced_mode() {
    let mut mbc1 = new_mbc1();

    mbc1.write_byte(MBC1_BANKING_MODE_REG_START_ADDR, 1);
    mbc1.write_byte(MBC1_ROM_BANK_NUM_REG_START_ADDR, 1);
    mbc1.write_byte(MBC1_RAM_BANK_NUM_REG_START_ADDR, 1);

    for addr in MBC1_ROM_BANK_01_7F_START_ADDR..=MBC1_ROM_BANK_01_7F_END_ADDR {
        assert_eq!(
            (1 << 19) | (1 << 14) | addr as usize,
            mbc1.get_rom_address(addr)
        );
    }
}

#[test]
fn test_mbc1_addressing_bank_01_7f_0_treated_as_1() {
    let mut mbc1 = new_mbc1();

    mbc1.write_byte(MBC1_ROM_BANK_NUM_REG_START_ADDR, 0);

    for addr in MBC1_ROM_BANK_01_7F_START_ADDR..=MBC1_ROM_BANK_01_7F_END_ADDR {
        assert_eq!((1 << 14) | addr as usize, mbc1.get_rom_address(addr));
    }
}

#[test]
fn test_mbc1_addressing_ram_simple_mode() {
    let mut mbc1 = new_mbc1();

    for addr in MBC1_RAM_START_ADDR..=MBC1_RAM_END_ADDR {
        assert_eq!(
            (addr - MBC1_RAM_START_ADDR) as usize,
            mbc1.get_ram_address(addr)
        );
    }

    mbc1.write_byte(MBC1_RAM_BANK_NUM_REG_START_ADDR, 1);

    for addr in MBC1_RAM_START_ADDR..=MBC1_RAM_END_ADDR {
        assert_eq!(
            (addr - MBC1_RAM_START_ADDR) as usize,
            mbc1.get_ram_address(addr)
        );
    }
}

#[test]
fn test_mbc1_addressing_ram_advanced_mode() {
    let mut mbc1 = new_mbc1();

    mbc1.write_byte(MBC1_BANKING_MODE_REG_START_ADDR, 1);
    mbc1.write_byte(MBC1_RAM_BANK_NUM_REG_START_ADDR, 1);

    for addr in MBC1_RAM_START_ADDR..=MBC1_RAM_END_ADDR {
        assert_eq!(
            (1 << 13) | (addr - MBC1_RAM_START_ADDR) as usize,
            mbc1.get_ram_address(addr)
        );
    }
}

// Cartridge-RAM round trip: enable, store, disable, re-enable, read back.
#[test]
fn test_mbc1_ram_enable_round_trip() {
    let mut mbc1 = MBC1::new(vec![0; 0x8000], 0x2000, Fake);

    mbc1.write_byte(0x0000, 0x0A);
    mbc1.write_byte(0xA123, 0x42);
    mbc1.write_byte(0x0000, 0x00);
    assert_eq!(0xFF, mbc1.read_byte(0xA123)); // disabled RAM reads open bus
    mbc1.write_byte(0x0000, 0x0A);
    assert_eq!(0x42, mbc1.read_byte(0xA123));
}

// An undersized ROM mirrors: the masked offset wraps at the ROM size.
#[test]
fn test_mbc1_rom_mirroring() {
    let mut rom = vec![0u8; 0x8000];
    for (i, b) in rom.iter_mut().enumerate() {
        *b = (i % 251) as u8;
    }
    let mut mbc1 = MBC1::new(rom.clone(), 0, Fake);
    // Select bank 3: the window 0x4000..0x7FFF maps to offsets
    // 0xC000..0xFFFF, mirrored into the 0x8000-byte image.
    mbc1.write_byte(0x2000, 3);
    for addr in [0x4000u16, 0x4567, 0x7FFF] {
        let flat = 3 * 0x4000 + (addr as usize - 0x4000);
        assert_eq!(rom[flat % 0x8000], mbc1.read_byte(addr));
    }
}

// The disable transition hands the RAM image to the save store, once.
struct RecordingSaver {
    saved: RefCell<Vec<Vec<u8>>>,
}

impl GameSave for RecordingSaver {
    fn set_title(&mut self, _title: Vec<u8>) {}

    fn load(&self) -> Result<Vec<u8>, SaveError> {
        Ok(vec![])
    }

    fn save(&self, ram: &Vec<u8>) -> Result<(), SaveError> {
        self.saved.borrow_mut().push(ram.clone());
        Ok(())
    }
}

#[test]
fn test_mbc1_ram_disable_commits_save() {
    let saver = RecordingSaver { saved: RefCell::new(vec![]) };
    let mut mbc1 = MBC1::new(vec![0; 0x8000], 0x2000, saver);

    mbc1.write_byte(0x0000, 0x0A);
    mbc1.write_byte(0xA000, 0x55);
    mbc1.write_byte(0x0000, 0x00);

    let saved = mbc1.saver.saved.borrow();
    assert_eq!(1, saved.len());
    assert_eq!(0x55, saved[0][0]);
}

// MBC2's half-byte RAM mirrors every 512 bytes and reads the high nibble
// as ones.
#[test]
fn test_mbc2_ram_nibbles_and_mirroring() {
    let mut mbc2 = MBC2::new(vec![0; 0x8000], Fake);
    mbc2.write_byte(0x0000, 0x0A); // address bit 8 clear: RAM enable
    mbc2.write_byte(0xA005, 0xA7);
    assert_eq!(0xF7, mbc2.read_byte(0xA005));
    assert_eq!(0xF7, mbc2.read_byte(0xA205)); // mirrored every 512 bytes
    mbc2.write_byte(0x0100, 0x05); // address bit 8 set: ROM bank select
    assert_eq!(5 * 0x4000, mbc2.get_rom_address(0x4000));
}

// MBC5's 9-bit ROM bank and plain RAM banking.
#[test]
fn test_mbc5_banking() {
    let mut mbc5 = MBC5::new(vec![0; 0x8000], 0x20000, Fake);
    mbc5.write_byte(0x2000, 0x12);
    mbc5.write_byte(0x3000, 0x01);
    assert_eq!((0x100 + 0x12) * 0x4000, mbc5.get_rom_address(0x4000));
    mbc5.write_byte(0x4000, 0x03);
    mbc5.write_byte(0x0000, 0x0A);
    mbc5.write_byte(0xA000, 0x99);
    assert_eq!(0x99, mbc5.read_byte(0xA000));
    assert_eq!(3 * 0x2000, mbc5.get_ram_address(0xA000));
}

// The dispatching controller picks the kind the header byte names.
#[test]
fn test_mbc_dispatch_by_code() {
    let rom = vec![0; 0x8000];
    let mbc: MBC<Fake> = MBC::new(0x00, rom.clone(), 0, Fake);
    assert!(matches!(mbc.target_mbc, MbcKind::No(_)));
    let mbc: MBC<Fake> = MBC::new(0x01, rom.clone(), 0x2000, Fake);
    assert!(matches!(mbc.target_mbc, MbcKind::One(_)));
    let mbc: MBC<Fake> = MBC::new(0x06, rom.clone(), 0, Fake);
    assert!(matches!(mbc.target_mbc, MbcKind::Two(_)));
    let mbc: MBC<Fake> = MBC::new(0x19, rom, 0x8000, Fake);
    assert!(matches!(mbc.target_mbc, MbcKind::Five(_)));
}

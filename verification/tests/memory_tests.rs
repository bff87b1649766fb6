use gamuboy::interrupts::InterruptRegisters;
use gamuboy::joypad::{Button, Joypad};
use gamuboy::mode::Mode;
use gamuboy::ram::{RAM, WRAM_BANK1_7_END_ADDR, WRAM_BANK1_7_START_ADDR};
use gamuboy::vram::{BANK_REGISTER, BASE_ADDRESS, END_ADDRESS, VRAM};

#[test]
fn test_cgb_wram_bank_switch() {
    let mut ram = RAM::new(Mode::CGB);

    for i in 0..=7 {
        ram.write_byte(0xFF70, i);
        for addr in WRAM_BANK1_7_START_ADDR..=WRAM_BANK1_7_END_ADDR {
            ram.write_byte(addr, i);
        }
    }

    for i in 0..=7 {
        ram.write_byte(0xFF70, i);
        let expected = if i == 0 { 1 } else { i };
        for addr in WRAM_BANK1_7_START_ADDR..=WRAM_BANK1_7_END_ADDR {
            assert_eq!(expected, ram.read_byte(addr));
        }
    }
}

#[test]
fn test_cgb_bank_switch() {
    let mut vram = VRAM::new(Mode::CGB);

    for i in 0..=1 {
        vram.write_byte(BANK_REGISTER, i);
        for addr in BASE_ADDRESS..=END_ADDRESS {
            vram.write_byte(addr, i);
        }
    }

    for i in 0..=1 {
        vram.write_byte(BANK_REGISTER, i);
        let expected = i;
        for addr in BASE_ADDRESS..=END_ADDRESS {
            assert_eq!(expected, vram.read_byte(addr));
        }
    }
}

// The echo region mirrors work RAM two pages below.
#[test]
fn test_echo_ram_mirrors_wram() {
    let mut ram = RAM::new(Mode::DMG);
    ram.write_byte(0xC123, 0x5A);
    assert_eq!(0x5A, ram.read_byte(0xE123));
    ram.write_byte(0xF234, 0xA5);
    assert_eq!(0xA5, ram.read_byte(0xD234));
}

// IF and IE read back their five low bits with the top three bits set.
#[test]
fn test_interrupt_register_readback() {
    let mut ints = InterruptRegisters::new();
    ints.write_byte(0xFF0F, 0x15);
    assert_eq!(0xF5, ints.read_byte(0xFF0F));
    ints.write_byte(0xFFFF, 0xFF);
    assert_eq!(0xFF, ints.read_byte(0xFFFF));
    ints.write_byte(0xFFFF, 0x00);
    assert_eq!(0xE0, ints.read_byte(0xFFFF));
}

// The arbiter serves the lowest-numbered pending source and clears only
// its flag when asked to.
#[test]
fn test_interrupt_priority_and_ack() {
    let mut ints = InterruptRegisters::new();
    ints.write_byte(0xFFFF, 0x1F);
    ints.request_timer();
    ints.request_vblank();
    assert_eq!(Some(0x40), ints.check(true));
    assert_eq!(false, ints.flag_vblank);
    assert_eq!(true, ints.flag_timer);
    assert_eq!(Some(0x50), ints.check(true));
    assert_eq!(None, ints.check(true));
}

// A fresh press of a selected button raises the joypad interrupt; the
// active-low nibble reads the held buttons.
#[test]
fn test_joypad_edge_and_readback() {
    let mut joypad = Joypad::new();
    let mut ints = InterruptRegisters::new();
    joypad.write_byte(0xFF00, 0x10); // select the button nibble (bit 5 low)
    joypad.update(Button::A, true);
    joypad.check(&mut ints);
    assert_eq!(true, ints.flag_joypad);
    assert_eq!(0x0E, joypad.read_byte(0xFF00)); // A held: bit 0 low

    // Holding the same button produces no further edge.
    ints.flag_joypad = false;
    joypad.check(&mut ints);
    assert_eq!(false, ints.flag_joypad);

    // With nothing selected the register reads open bus.
    joypad.write_byte(0xFF00, 0x30);
    assert_eq!(0xFF, joypad.read_byte(0xFF00));
}

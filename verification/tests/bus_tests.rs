use gamuboy::config::Config;
use gamuboy::cpu::Bus;
use gamuboy::gameboy::GameBoy;
use gamuboy::lcd::{render_ppm, render_text, PIXELS_HEIGHT, PIXELS_WIDTH};
use gamuboy::mode::Mode;
use gamuboy::saver::Fake;

fn make_rom(mbc_code: u8) -> Vec<u8> {
    let mut rom = vec![0u8; 0x8000];
    rom[0x134..0x137].copy_from_slice(b"BUS");
    rom[0x147] = mbc_code;
    let mut checksum: u8 = 0;
    for addr in 0x134..=0x14C {
        checksum = checksum.wrapping_sub(rom[addr]).wrapping_sub(1);
    }
    rom[0x14D] = checksum;
    rom
}

fn make_gb(mode: Mode) -> GameBoy<Fake> {
    GameBoy::new(
        &Config {
            mode,
            rom: make_rom(0x00),
            headless_mode: true,
            bootrom: None,
            log_file_path: None,
        },
        Fake,
    )
    .unwrap()
}

// The decoder routes each region to its owner and gives unmapped
// addresses open-bus reads and dropped writes.
#[test]
fn test_bus_address_decode() {
    let mut gb = make_gb(Mode::DMG);
    let bus = &mut gb.cpu.bus;

    bus.dispatch_write(0xC000, 0x11); // work RAM
    assert_eq!(0x11, bus.dispatch_read(0xC000));
    assert_eq!(0x11, bus.dispatch_read(0xE000)); // echo

    bus.dispatch_write(0xFF80, 0x22); // high RAM
    assert_eq!(0x22, bus.dispatch_read(0xFF80));

    bus.dispatch_write(0x8000, 0x33); // video RAM through the display unit
    assert_eq!(0x33, bus.dispatch_read(0x8000));

    bus.dispatch_write(0xFE00, 0x44); // sprite memory
    assert_eq!(0x44, bus.dispatch_read(0xFE00));

    bus.dispatch_write(0xFF06, 0x55); // timer modulo
    assert_eq!(0x55, bus.dispatch_read(0xFF06));

    assert_eq!(0x00, bus.dispatch_read(0x0000)); // cartridge ROM byte

    bus.dispatch_write(0xFF03, 0x77); // unmapped: dropped
    assert_eq!(0xFF, bus.dispatch_read(0xFF03));
    assert_eq!(0xFF, bus.dispatch_read(0xFEA0)); // prohibited region
}

// Writing a page number to the OAM transfer register copies 160 bytes into
// sprite memory on the next peripheral step.
#[test]
fn test_oam_dma_transfer() {
    let mut gb = make_gb(Mode::DMG);
    let bus = &mut gb.cpu.bus;
    for i in 0..0xA0u16 {
        bus.dispatch_write(0xC000 + i, i as u8 + 1);
    }
    bus.dispatch_write(0xFF46, 0xC0);
    bus.run_peripherals(4);
    for i in 0..0xA0u16 {
        assert_eq!(i as u8 + 1, bus.dispatch_read(0xFE00 + i));
    }
}

// The speed switch flips only when armed, and disarms itself; the register
// reads the active speed in bit 7 and the armed bit in bit 0.
#[test]
fn test_speed_switch() {
    let mut gb = make_gb(Mode::CGB);
    let bus = &mut gb.cpu.bus;
    assert_eq!(0x00, bus.dispatch_read(0xFF4D));
    bus.switch_speed(); // not armed: nothing happens
    assert_eq!(0x00, bus.dispatch_read(0xFF4D));
    bus.dispatch_write(0xFF4D, 0x01);
    assert_eq!(0x01, bus.dispatch_read(0xFF4D));
    bus.switch_speed();
    assert_eq!(0x80, bus.dispatch_read(0xFF4D));
}

// A general VRAM transfer of the color model copies the programmed block
// into video memory as soon as the bus services it.
#[test]
fn test_general_vram_dma() {
    let mut gb = make_gb(Mode::CGB);
    let bus = &mut gb.cpu.bus;
    for i in 0..0x20u16 {
        bus.dispatch_write(0xC100 + i, 0xA0 + i as u8);
    }
    bus.dispatch_write(0xFF51, 0xC1); // source high
    bus.dispatch_write(0xFF52, 0x00); // source low
    bus.dispatch_write(0xFF53, 0x81); // target high
    bus.dispatch_write(0xFF54, 0x00); // target low
    bus.dispatch_write(0xFF55, 0x01); // two blocks, general transfer
    bus.run_peripherals(4);
    for i in 0..0x20u16 {
        assert_eq!(0xA0 + i as u8, bus.dispatch_read(0x8100 + i));
    }
}

// The text projection maps the four monochrome colors onto four glyphs,
// one row of the display per line; the image form carries the raw bytes
// after a fixed header.
#[test]
fn test_frame_projections() {
    let mut frame = vec![(255u8, 255u8, 255u8); PIXELS_HEIGHT * PIXELS_WIDTH];
    frame[0] = (0, 0, 0);
    frame[1] = (85, 85, 85);
    frame[2] = (170, 170, 170);
    let text = render_text(&frame);
    assert_eq!(PIXELS_HEIGHT * (PIXELS_WIDTH + 1), text.len());
    assert_eq!(b"#o. ", &text[0..4]);
    assert_eq!(b'\n', text[PIXELS_WIDTH]);

    let ppm = render_ppm(&frame);
    assert_eq!(b"P6\n160 144\n255\n", &ppm[0..15]);
    assert_eq!(15 + 3 * PIXELS_HEIGHT * PIXELS_WIDTH, ppm.len());
    assert_eq!([0, 0, 0], ppm[15..18]);
    assert_eq!([255, 255, 255], ppm[24..27]);
}

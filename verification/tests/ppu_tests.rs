use gamuboy::config::Config;
use gamuboy::interrupts::InterruptRegisters;
use gamuboy::mode::Mode;
use gamuboy::oam::OAM;
use gamuboy::ppu::{
    get_color_id_from_two_bytes, PpuMode, BG_COLOR_PALETTE_DATA_REG, BG_COLOR_PALETTE_SPEC_REG,
    OBJ_COLOR_PALETTE_DATA_REG, OBJ_COLOR_PALETTE_SPEC_REG, PPU,
};
use gamuboy::vram::VRAM;

const BIT_7: u8 = 1 << 7;

#[test]
fn test_get_color_id_from_two_bytes() {
    struct TestCase {
        bytes: (u8, u8),
        expected: [u8; 8],
    }
    let test_cases = &[
        TestCase {
            bytes: (0x3C, 0x7E),
            expected: [0b00, 0b10, 0b11, 0b11, 0b11, 0b11, 0b10, 0b00],
        },
        TestCase {
            bytes: (0x42, 0x42),
            expected: [0b00, 0b11, 0b00, 0b00, 0b00, 0b00, 0b11, 0b00],
        },
        TestCase {
            bytes: (0x7E, 0x5E),
            expected: [0b00, 0b11, 0b01, 0b11, 0b11, 0b11, 0b11, 0b00],
        },
        TestCase {
            bytes: (0x7E, 0x0A),
            expected: [0b00, 0b01, 0b01, 0b01, 0b11, 0b01, 0b11, 0b00],
        },
        TestCase {
            bytes: (0x7C, 0x56),
            expected: [0b00, 0b11, 0b01, 0b11, 0b01, 0b11, 0b10, 0b00],
        },
        TestCase {
            bytes: (0x38, 0x7C),
            expected: [0b00, 0b10, 0b11, 0b11, 0b11, 0b10, 0b00, 0b00],
        },
    ];
    for tc in test_cases {
        for (i, e) in tc.expected.into_iter().enumerate() {
            let got = get_color_id_from_two_bytes(tc.bytes.0, tc.bytes.1, i as u8);
            assert_eq!(e, got);
        }
    }
}

fn make_cgb_ppu() -> PPU {
    PPU::new(
        &Config {
            mode: Mode::CGB,
            rom: vec![],
            headless_mode: false,
            bootrom: None,
            log_file_path: None,
        },
        VRAM::new(Mode::CGB),
        OAM::new(),
    )
}

fn cgb_color_palette_access_no_auto_inc(spec_reg: u16, data_reg: u16) {
    let mut ppu = make_cgb_ppu();

    for i in 0..64 {
        ppu.write_byte(spec_reg, i);
        ppu.write_byte(data_reg, i);
    }

    for i in 0..64 {
        ppu.write_byte(spec_reg, i);
        let expected = i;
        assert_eq!(expected, ppu.read_byte(data_reg));
    }
}

fn cgb_color_palette_access_with_auto_inc(spec_reg: u16, data_reg: u16) {
    let mut ppu = make_cgb_ppu();

    let auto_inc_bit = BIT_7;
    ppu.write_byte(spec_reg, auto_inc_bit);
    for i in 0..64 {
        ppu.write_byte(data_reg, i);
    }

    let auto_inc_bit = BIT_7;
    ppu.write_byte(spec_reg, auto_inc_bit);
    for i in 0..65 {
        let expected = i % 64;
        assert_eq!(expected, ppu.read_byte(data_reg));
        ppu.write_byte(data_reg, 0); // trigger inc
    }
}

#[test]
fn test_cgb_bg_color_palette_access() {
    cgb_color_palette_access_no_auto_inc(BG_COLOR_PALETTE_SPEC_REG, BG_COLOR_PALETTE_DATA_REG);
    cgb_color_palette_access_with_auto_inc(BG_COLOR_PALETTE_SPEC_REG, BG_COLOR_PALETTE_DATA_REG);
}

#[test]
fn test_cgb_obj_color_palette_access() {
    cgb_color_palette_access_no_auto_inc(OBJ_COLOR_PALETTE_SPEC_REG, OBJ_COLOR_PALETTE_DATA_REG);
    cgb_color_palette_access_with_auto_inc(OBJ_COLOR_PALETTE_SPEC_REG, OBJ_COLOR_PALETTE_DATA_REG);
}

fn make_dmg_ppu() -> PPU {
    PPU::new(
        &Config {
            mode: Mode::DMG,
            rom: vec![],
            headless_mode: false,
            bootrom: None,
            log_file_path: None,
        },
        VRAM::new(Mode::DMG),
        OAM::new(),
    )
}

// The display registers read back what was written: all LCDC bits, the
// four STAT selector bits, and the scroll, compare, window and palette
// registers whole.
#[test]
fn test_ppu_register_readback() {
    let mut ppu = make_dmg_ppu();
    ppu.write_byte(0xFF40, 0xA5);
    assert_eq!(0xA5, ppu.read_byte(0xFF40));
    ppu.write_byte(0xFF41, 0xFF);
    // Selector bits 3..=6 stick; the low bits show mode and comparison.
    assert_eq!(0x78, ppu.read_byte(0xFF41) & 0x78);
    for (reg, v) in [(0xFF42u16, 0x12u8), (0xFF43, 0x34), (0xFF45, 0x56), (0xFF4A, 0x78),
        (0xFF4B, 0x9A), (0xFF47, 0xE4), (0xFF48, 0x1B), (0xFF49, 0xC3)] {
        ppu.write_byte(reg, v);
        assert_eq!(v, ppu.read_byte(reg), "register {:#06x}", reg);
    }
}

// The STAT interrupt fires only on the rising edge of the internal line.
#[test]
fn test_stat_interrupt_rising_edge_only() {
    let mut ppu = make_dmg_ppu();
    let mut ints = InterruptRegisters::new();
    // Display on (post-boot LCDC already has it on), LYC = LY = 0, LYC
    // interrupts selected: the line rises on the first step.
    ppu.write_byte(0xFF45, 0);
    ppu.write_byte(0xFF41, 0x40);
    ppu.step(&mut ints, 4);
    assert_eq!(true, ints.flag_stat);

    // Acknowledge and step again: the line is still high, so no new
    // request appears.
    ints.flag_stat = false;
    ppu.step(&mut ints, 4);
    assert_eq!(false, ints.flag_stat);

    // Drop the line (LYC mismatch) and raise it again: a new request.
    ppu.write_byte(0xFF45, 99);
    ppu.step(&mut ints, 4);
    assert_eq!(false, ints.flag_stat);
    ppu.write_byte(0xFF45, 0);
    ppu.step(&mut ints, 4);
    assert_eq!(true, ints.flag_stat);
}

// One frame's worth of dots walks the scanline machine through all 154
// lines and raises the frame signal; the vertical-blank interrupt is
// requested at line 144.
#[test]
fn test_ppu_frame_walk() {
    let mut ppu = make_dmg_ppu();
    let mut ints = InterruptRegisters::new();
    let mut steps = 0u32;
    while steps < 70224 {
        ppu.step(&mut ints, 4);
        steps += 4;
    }
    assert_eq!(true, ints.flag_vblank);
    assert_eq!(true, ppu.take_frame_ready());
    assert_eq!(false, ppu.take_frame_ready());
    assert!(matches!(ppu.mode, PpuMode::OAMScan | PpuMode::Drawing | PpuMode::HBlank));
    assert_eq!(0, ppu.ly);
}

// Writing the transfer register with bit 7 clear while a per-HBlank
// transfer is armed cancels it without clearing the remaining length; with
// nothing armed the same write starts an immediate transfer.
#[test]
fn test_hblank_dma_cancel_keeps_remaining_length() {
    let mut ppu = make_cgb_ppu();
    ppu.write_byte(0xFF51, 0xC0);
    ppu.write_byte(0xFF52, 0x00);
    ppu.write_byte(0xFF53, 0x80);
    ppu.write_byte(0xFF54, 0x00);
    ppu.write_byte(0xFF55, 0x85); // arm a per-HBlank transfer of six blocks
    assert_eq!(0x05, ppu.vram_dma_transfer_len);
    assert!(ppu.pending_dma_request.is_some());

    ppu.write_byte(0xFF55, 0x03); // bit 7 clear: cancel, length kept
    assert!(ppu.pending_dma_request.is_none());
    assert!(ppu.dma_request.is_none());
    assert_eq!(0x05, ppu.vram_dma_transfer_len);

    ppu.write_byte(0xFF55, 0x01); // nothing armed now: immediate transfer
    assert!(ppu.dma_request.is_some());
}

// The line scan keeps the first ten overlapping sprites in memory order,
// then presents them ordered by ascending x.
#[test]
fn test_oam_scan_takes_first_ten_in_memory_order() {
    let mut ppu = make_dmg_ppu();
    // Twelve sprites all overlapping line 0 (y = 16), x descending.
    for i in 0..12u16 {
        ppu.write_oam(0xFE00 + i * 4, 16); // y
        ppu.write_oam(0xFE00 + i * 4 + 1, (40 - i) as u8); // x
        ppu.write_oam(0xFE00 + i * 4 + 2, i as u8); // tile
        ppu.write_oam(0xFE00 + i * 4 + 3, 0);
    }
    let mut ints = gamuboy::interrupts::InterruptRegisters::new();
    // Step past the object-scan phase of line 0.
    let mut dots = 0;
    while dots < 84 {
        ppu.step(&mut ints, 4);
        dots += 4;
    }
    assert_eq!(10, ppu.line_objects.len());
    // The first ten sprites (x = 40 down to 31) survive, sorted ascending:
    // x = 31..=40, i.e. tiles 9 down to 0.
    for (k, o) in ppu.line_objects.iter().enumerate() {
        assert_eq!(31 + k as u8, o.x_pos);
        assert_eq!(9 - k as u8, o.tile_index);
    }
}

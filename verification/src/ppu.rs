use vstd::prelude::*;

use crate::config::Config;
use crate::interrupts::InterruptRegisters;
use crate::lcd::RGB;
use crate::lcd::PIXELS_HEIGHT;
use crate::lcd::PIXELS_WIDTH;
use crate::mode::Mode;
use crate::oam::OAM;
use crate::vram::VRAM;
use crate::vram::spec_bank_index;
use vstd::wrapping::u16_specs;
use vstd::wrapping::u8_specs;
use vstd::wrapping::u32_specs;

verus! {

pub const OAM_DOTS: u32 = 80;

pub const VRAM_DOTS: u32 = 172;

pub const SCANLINE_DOTS: u32 = 456;

pub const DOTS_PER_FRAME: u32 = 70224;

pub const BG_COLOR_PALETTE_SPEC_REG: u16 = 0xFF68;

pub const BG_COLOR_PALETTE_DATA_REG: u16 = 0xFF69;

pub const OBJ_COLOR_PALETTE_SPEC_REG: u16 = 0xFF6A;

pub const OBJ_COLOR_PALETTE_DATA_REG: u16 = 0xFF6B;

/// The four monochrome shades and their fixed colors.
#[derive(Clone, Copy, Debug, PartialEq, Eq, Structural)]
pub enum GrayShade {
    White,
    LightGray,
    DarkGray,
    Black,
}

impl GrayShade {
    pub open spec fn spec_from(value: u8) -> GrayShade {
        if value % 4 == 0 {
            GrayShade::White
        } else if value % 4 == 1 {
            GrayShade::LightGray
        } else if value % 4 == 2 {
            GrayShade::DarkGray
        } else {
            GrayShade::Black
        }
    }

    pub open spec fn spec_bits(self) -> u8 {
        match self {
            GrayShade::White => 0u8,
            GrayShade::LightGray => 1u8,
            GrayShade::DarkGray => 2u8,
            GrayShade::Black => 3u8,
        }
    }

    pub open spec fn spec_rgb(self) -> RGB {
        match self {
            GrayShade::White => (255u8, 255u8, 255u8),
            GrayShade::LightGray => (170u8, 170u8, 170u8),
            GrayShade::DarkGray => (85u8, 85u8, 85u8),
            GrayShade::Black => (0u8, 0u8, 0u8),
        }
    }

    pub fn from(value: u8) -> (r: Self)
        ensures
            r == GrayShade::spec_from(value),
    {
        if value % 4 == 0 {
            GrayShade::White
        } else if value % 4 == 1 {
            GrayShade::LightGray
        } else if value % 4 == 2 {
            GrayShade::DarkGray
        } else {
            GrayShade::Black
        }
    }

    pub fn to_rgb(&self) -> (r: RGB)
        ensures
            r == self.spec_rgb(),
    {
        match self {
            GrayShade::White => (255, 255, 255),
            GrayShade::LightGray => (170, 170, 170),
            GrayShade::DarkGray => (85, 85, 85),
            GrayShade::Black => (0, 0, 0),
        }
    }
}

/// The color id of pixel `i` of a tile row stored as two bitplane bytes:
/// the high bit comes from the second byte, the low bit from the first,
/// leftmost pixel in bit 7.
pub open spec fn spec_color_id(left: u8, right: u8, i: u8) -> u8 {
    (right / spec_bit_weight(i) % 2 * 2 + left / spec_bit_weight(i) % 2) as u8
}

/// The weight of bit `7 - i` of a byte.
pub open spec fn spec_bit_weight(i: u8) -> u8 {
    if i % 8 == 0 {
        128u8
    } else if i % 8 == 1 {
        64u8
    } else if i % 8 == 2 {
        32u8
    } else if i % 8 == 3 {
        16u8
    } else if i % 8 == 4 {
        8u8
    } else if i % 8 == 5 {
        4u8
    } else if i % 8 == 6 {
        2u8
    } else {
        1u8
    }
}

fn bit_weight(i: u8) -> (r: u8)
    requires
        i < 8,
    ensures
        r == spec_bit_weight(i),
        1 <= r <= 128,
{
    if i == 0 {
        128
    } else if i == 1 {
        64
    } else if i == 2 {
        32
    } else if i == 3 {
        16
    } else if i == 4 {
        8
    } else if i == 5 {
        4
    } else if i == 6 {
        2
    } else {
        1
    }
}

/// Decode the color id of pixel `i` from a tile row's two bitplane bytes.
pub fn get_color_id_from_two_bytes(left: u8, right: u8, i: u8) -> (r: u8)
    requires
        i < 8,
    ensures
        r == spec_color_id(left, right, i),
        r < 4,
{
    let w = bit_weight(i);
    right / w % 2 * 2 + left / w % 2
}

/// A monochrome palette register (BGP, OBP0 or OBP1): four 2-bit shade
/// indices packed into a byte, entry 0 in the low bits.
#[derive(Clone, Copy, Debug, PartialEq, Eq, Structural)]
pub struct MonochromePalette {
    pub shade0: GrayShade,
    pub shade1: GrayShade,
    pub shade2: GrayShade,
    pub shade3: GrayShade,
}

impl MonochromePalette {
    /// The packed palette byte.
    pub open spec fn spec_read(self) -> u8 {
        (self.shade0.spec_bits() + self.shade1.spec_bits() * 4 + self.shade2.spec_bits() * 16
            + self.shade3.spec_bits() * 64) as u8
    }

    /// The palette a written byte selects.
    pub open spec fn spec_from(value: u8) -> MonochromePalette {
        MonochromePalette {
            shade0: GrayShade::spec_from((value % 4) as u8),
            shade1: GrayShade::spec_from((value / 4 % 4) as u8),
            shade2: GrayShade::spec_from((value / 16 % 4) as u8),
            shade3: GrayShade::spec_from((value / 64) as u8),
        }
    }

    /// The color this palette gives a 2-bit color id.
    pub open spec fn spec_color(self, id: u8) -> RGB {
        if id % 4 == 0 {
            self.shade0.spec_rgb()
        } else if id % 4 == 1 {
            self.shade1.spec_rgb()
        } else if id % 4 == 2 {
            self.shade2.spec_rgb()
        } else {
            self.shade3.spec_rgb()
        }
    }

    /// The identity palette the hardware starts with.
    pub fn new() -> (r: Self)
        ensures
            r == (MonochromePalette {
                shade0: GrayShade::White,
                shade1: GrayShade::LightGray,
                shade2: GrayShade::DarkGray,
                shade3: GrayShade::Black,
            }),
    {
        Self {
            shade0: GrayShade::White,
            shade1: GrayShade::LightGray,
            shade2: GrayShade::DarkGray,
            shade3: GrayShade::Black,
        }
    }

    pub fn read(&self) -> (r: u8)
        ensures
            r == self.spec_read(),
    {
        let b0 = match self.shade0 {
            GrayShade::White => 0u8,
            GrayShade::LightGray => 1u8,
            GrayShade::DarkGray => 2u8,
            GrayShade::Black => 3u8,
        };
        let b1 = match self.shade1 {
            GrayShade::White => 0u8,
            GrayShade::LightGray => 1u8,
            GrayShade::DarkGray => 2u8,
            GrayShade::Black => 3u8,
        };
        let b2 = match self.shade2 {
            GrayShade::White => 0u8,
            GrayShade::LightGray => 1u8,
            GrayShade::DarkGray => 2u8,
            GrayShade::Black => 3u8,
        };
        let b3 = match self.shade3 {
            GrayShade::White => 0u8,
            GrayShade::LightGray => 1u8,
            GrayShade::DarkGray => 2u8,
            GrayShade::Black => 3u8,
        };
        b0 + b1 * 4 + b2 * 16 + b3 * 64
    }

    pub fn update(&mut self, value: u8)
        ensures
            *final(self) == MonochromePalette::spec_from(value),
    {
        self.shade0 = GrayShade::from(value % 4);
        self.shade1 = GrayShade::from(value / 4 % 4);
        self.shade2 = GrayShade::from(value / 16 % 4);
        self.shade3 = GrayShade::from(value / 64);
    }

    pub fn get_color_from_id(&self, id: u8) -> (r: RGB)
        ensures
            r == self.spec_color(id),
    {
        if id % 4 == 0 {
            self.shade0.to_rgb()
        } else if id % 4 == 1 {
            self.shade1.to_rgb()
        } else if id % 4 == 2 {
            self.shade2.to_rgb()
        } else {
            self.shade3.to_rgb()
        }
    }
}

/// A 5-bit color channel widened to 8 bits.
pub open spec fn spec_scale_channel(ch: u8) -> u8 {
    ((ch % 32) * 255 / 31) as u8
}

pub fn scale_up_color_channel(ch: u8) -> (r: u8)
    requires
        ch < 32,
    ensures
        r == spec_scale_channel(ch),
{
    ((ch as u16 * 255) / 31) as u8
}

/// A 64-byte palette memory of the color model (background or objects):
/// eight palettes of four 15-bit colors stored little-endian, reached
/// through the spec/data register pair. Data writes move the address
/// forward when auto-increment is set, wrapping at 64.
#[derive(Clone, Debug)]
pub struct ColorPaletteRAM {
    pub spec: ColorPaletteSpec,
    pub data: Vec<u8>,
}

/// The access port of a 64-byte palette memory: a 6-bit address and an
/// auto-increment flag, written through the spec register.
#[derive(Clone, Copy, Debug, PartialEq, Eq, Structural)]
pub struct ColorPaletteSpec {
    pub auto_inc: bool,
    pub address: u8,
}

impl ColorPaletteSpec {
    pub open spec fn wf(self) -> bool {
        self.address < 64
    }

    pub open spec fn spec_read(self) -> u8 {
        ((if self.auto_inc {
            128int
        } else {
            0
        }) + self.address) as u8
    }

    pub fn new() -> (r: Self)
        ensures
            r == (ColorPaletteSpec { auto_inc: false, address: 0u8 }),
            r.wf(),
    {
        Self { auto_inc: false, address: 0 }
    }

    pub fn read(&self) -> (r: u8)
        requires
            self.wf(),
        ensures
            r == self.spec_read(),
    {
        (if self.auto_inc {
            128u8
        } else {
            0
        }) + self.address
    }

    pub fn write(&mut self, value: u8)
        ensures
            *final(self) == (ColorPaletteSpec {
                auto_inc: value / 128 == 1,
                address: (value % 64) as u8,
            }),
            final(self).wf(),
    {
        self.auto_inc = value / 128 == 1;
        self.address = value % 64;
    }
}

impl ColorPaletteRAM {
    pub open spec fn wf(self) -> bool {
        self.spec.wf() && self.data.len() == 64
    }

    /// The color entry `id` of palette `pal`: 5 bits per channel, red
    /// lowest, each widened to 8 bits.
    pub open spec fn spec_color(self, pal: u8, id: u8) -> RGB {
        let base = pal as int % 8 * 8 + id as int % 4 * 2;
        let raw = self.data@[base + 1] * 256 + self.data@[base];
        (
            spec_scale_channel((raw % 32) as u8),
            spec_scale_channel((raw / 32 % 32) as u8),
            spec_scale_channel((raw / 1024 % 32) as u8),
        )
    }

    /// The boot contents: every palette holds white, light gray, dark gray,
    /// black.
    pub fn new() -> (r: Self)
        ensures
            r.wf(),
            r.spec == (ColorPaletteSpec { auto_inc: false, address: 0u8 }),
    {
        let mut data: Vec<u8> = Vec::new();
        let mut i: usize = 0;
        while i < 8
            invariant
                i <= 8,
                data.len() == 8 * i,
            decreases 8 - i,
        {
            data.push(0xFF);
            data.push(0xFF);
            data.push(0xB5);
            data.push(0x56);
            data.push(0x4A);
            data.push(0x29);
            data.push(0x00);
            data.push(0x00);
            i += 1;
        }
        Self { spec: ColorPaletteSpec::new(), data }
    }

    pub fn write_spec(&mut self, value: u8)
        requires
            old(self).wf(),
        ensures
            final(self).wf(),
            *final(self) == (ColorPaletteRAM {
                spec: ColorPaletteSpec { auto_inc: value / 128 == 1, address: (value % 64) as u8 },
                ..*old(self)
            }),
    {
        self.spec.write(value);
    }

    pub fn read_spec(&self) -> (r: u8)
        requires
            self.wf(),
        ensures
            r == self.spec.spec_read(),
    {
        self.spec.read()
    }

    /// Store a byte at the current address; with auto-increment the address
    /// then moves on, wrapping modulo 64.
    pub fn write_data(&mut self, value: u8)
        requires
            old(self).wf(),
        ensures
            final(self).wf(),
            final(self).data@ == old(self).data@.update(old(self).spec.address as int, value),
            final(self).spec.auto_inc == old(self).spec.auto_inc,
            final(self).spec.address == (if old(self).spec.auto_inc {
                (old(self).spec.address + 1) % 64
            } else {
                old(self).spec.address as int
            }),
    {
        self.data.set(self.spec.address as usize, value);
        if self.spec.auto_inc {
            self.spec.address = (self.spec.address + 1) % 64;
        }
    }

    /// Read the byte at the current address; reads do not auto-increment.
    pub fn read_data(&self) -> (r: u8)
        requires
            self.wf(),
        ensures
            r == self.data@[self.spec.address as int],
    {
        self.data[self.spec.address as usize]
    }
}


/// The LCDC control register's eight switches.
#[derive(Clone, Copy, Debug, PartialEq, Eq, Structural)]
pub struct LCDC {
    pub bg_win_enable: bool,
    pub obj_enable: bool,
    pub double_height_obj: bool,
    pub bg_tile_map_second: bool,
    pub bg_win_tile_data_second: bool,
    pub win_enable: bool,
    pub win_tile_map_second: bool,
    pub lcd_ppu_enable: bool,
}

impl LCDC {
    pub open spec fn spec_read(self) -> u8 {
        ((if self.bg_win_enable {
            1int
        } else {
            0
        }) + (if self.obj_enable {
            2int
        } else {
            0
        }) + (if self.double_height_obj {
            4int
        } else {
            0
        }) + (if self.bg_tile_map_second {
            8int
        } else {
            0
        }) + (if self.bg_win_tile_data_second {
            16int
        } else {
            0
        }) + (if self.win_enable {
            32int
        } else {
            0
        }) + (if self.win_tile_map_second {
            64int
        } else {
            0
        }) + (if self.lcd_ppu_enable {
            128int
        } else {
            0
        })) as u8
    }

    pub open spec fn spec_from(value: u8) -> LCDC {
        LCDC {
            bg_win_enable: value % 2 == 1,
            obj_enable: value / 2 % 2 == 1,
            double_height_obj: value / 4 % 2 == 1,
            bg_tile_map_second: value / 8 % 2 == 1,
            bg_win_tile_data_second: value / 16 % 2 == 1,
            win_enable: value / 32 % 2 == 1,
            win_tile_map_second: value / 64 % 2 == 1,
            lcd_ppu_enable: value / 128 == 1,
        }
    }

    pub fn new() -> (r: Self)
        ensures
            r == LCDC::spec_from(0),
    {
        LCDC {
            bg_win_enable: false,
            obj_enable: false,
            double_height_obj: false,
            bg_tile_map_second: false,
            bg_win_tile_data_second: false,
            win_enable: false,
            win_tile_map_second: false,
            lcd_ppu_enable: false,
        }
    }

    pub fn read(&self) -> (r: u8)
        ensures
            r == self.spec_read(),
    {
        (if self.bg_win_enable {
            1u8
        } else {
            0
        }) + (if self.obj_enable {
            2u8
        } else {
            0
        }) + (if self.double_height_obj {
            4u8
        } else {
            0
        }) + (if self.bg_tile_map_second {
            8u8
        } else {
            0
        }) + (if self.bg_win_tile_data_second {
            16u8
        } else {
            0
        }) + (if self.win_enable {
            32u8
        } else {
            0
        }) + (if self.win_tile_map_second {
            64u8
        } else {
            0
        }) + (if self.lcd_ppu_enable {
            128u8
        } else {
            0
        })
    }

    pub fn write(&mut self, value: u8)
        ensures
            *final(self) == LCDC::spec_from(value),
    {
        self.bg_win_enable = value % 2 == 1;
        self.obj_enable = value / 2 % 2 == 1;
        self.double_height_obj = value / 4 % 2 == 1;
        self.bg_tile_map_second = value / 8 % 2 == 1;
        self.bg_win_tile_data_second = value / 16 % 2 == 1;
        self.win_enable = value / 32 % 2 == 1;
        self.win_tile_map_second = value / 64 % 2 == 1;
        self.lcd_ppu_enable = value / 128 == 1;
    }
}

/// The base of a 32 by 32 tile map.
pub open spec fn spec_map_base(second: bool) -> u16 {
    if second {
        0x9C00u16
    } else {
        0x9800u16
    }
}

fn map_base(second: bool) -> (r: u16)
    ensures
        r == spec_map_base(second),
{
    if second {
        0x9C00
    } else {
        0x9800
    }
}

/// The address of a tile's data. The first area addresses tiles by signed
/// index around 0x9000; the second by unsigned index from 0x8000.
pub open spec fn spec_tile_address(second: bool, index: u8) -> u16 {
    if second {
        (0x8000 + index * 16) as u16
    } else {
        if index < 128 {
            (0x9000 + index * 16) as u16
        } else {
            (0x8800 + (index - 128) * 16) as u16
        }
    }
}

fn tile_address(second: bool, index: u8) -> (r: u16)
    ensures
        r == spec_tile_address(second, index),
        0x8000 <= r <= 0x97F0,
{
    if second {
        0x8000 + index as u16 * 16
    } else {
        if index < 128 {
            0x9000 + index as u16 * 16
        } else {
            0x8800 + (index as u16 - 128) * 16
        }
    }
}

/// The scanline state machine's four modes.
#[derive(Clone, Copy, Debug, PartialEq, Eq, Structural)]
pub enum PpuMode {
    HBlank,
    VBlank,
    OAMScan,
    Drawing,
}

impl PpuMode {
    /// The two mode bits of the STAT register.
    pub open spec fn spec_bits(self) -> u8 {
        match self {
            PpuMode::HBlank => 0u8,
            PpuMode::VBlank => 1u8,
            PpuMode::OAMScan => 2u8,
            PpuMode::Drawing => 3u8,
        }
    }
}

/// The STAT register's four interrupt-source selectors.
#[derive(Clone, Copy, Debug, PartialEq, Eq, Structural)]
pub struct Stat {
    pub hblank_int_select: bool,
    pub vblank_int_select: bool,
    pub oam_int_select: bool,
    pub lyc_int_select: bool,
}

impl Stat {
    /// The STAT byte: the live mode bits, the LYC=LY comparison, and the
    /// four selectors.
    pub open spec fn spec_read(self, mode: PpuMode, lyc: bool) -> u8 {
        (mode.spec_bits() + (if lyc {
            4int
        } else {
            0
        }) + (if self.hblank_int_select {
            8int
        } else {
            0
        }) + (if self.vblank_int_select {
            16int
        } else {
            0
        }) + (if self.oam_int_select {
            32int
        } else {
            0
        }) + (if self.lyc_int_select {
            64int
        } else {
            0
        })) as u8
    }

    pub open spec fn spec_from(value: u8) -> Stat {
        Stat {
            hblank_int_select: value / 8 % 2 == 1,
            vblank_int_select: value / 16 % 2 == 1,
            oam_int_select: value / 32 % 2 == 1,
            lyc_int_select: value / 64 % 2 == 1,
        }
    }

    pub fn new() -> (r: Self)
        ensures
            r == Stat::spec_from(0),
    {
        Stat {
            hblank_int_select: false,
            vblank_int_select: false,
            oam_int_select: false,
            lyc_int_select: false,
        }
    }

    pub fn read(&self, mode: PpuMode, lyc: bool) -> (r: u8)
        ensures
            r == self.spec_read(mode, lyc),
    {
        let mode_bits = match mode {
            PpuMode::HBlank => 0u8,
            PpuMode::VBlank => 1u8,
            PpuMode::OAMScan => 2u8,
            PpuMode::Drawing => 3u8,
        };
        mode_bits + (if lyc {
            4u8
        } else {
            0
        }) + (if self.hblank_int_select {
            8u8
        } else {
            0
        }) + (if self.vblank_int_select {
            16u8
        } else {
            0
        }) + (if self.oam_int_select {
            32u8
        } else {
            0
        }) + (if self.lyc_int_select {
            64u8
        } else {
            0
        })
    }

    pub fn write(&mut self, value: u8)
        ensures
            *final(self) == Stat::spec_from(value),
    {
        self.hblank_int_select = value / 8 % 2 == 1;
        self.vblank_int_select = value / 16 % 2 == 1;
        self.oam_int_select = value / 32 % 2 == 1;
        self.lyc_int_select = value / 64 % 2 == 1;
    }
}

/// A sprite's attribute byte, decoded.
#[derive(Clone, Copy, Debug, PartialEq, Eq, Structural)]
pub struct ObjectFlags {
    pub cgb_palette: u8,
    pub vram_bank: u8,
    pub dmg_palette: u8,
    pub x_flip: bool,
    pub y_flip: bool,
    pub bg_win_priority: bool,
}

impl ObjectFlags {
    pub open spec fn spec_from(value: u8) -> ObjectFlags {
        ObjectFlags {
            cgb_palette: (value % 4) as u8,
            vram_bank: (value / 8 % 2) as u8,
            dmg_palette: (value / 16 % 2) as u8,
            x_flip: value / 32 % 2 == 1,
            y_flip: value / 64 % 2 == 1,
            bg_win_priority: value / 128 == 1,
        }
    }

    pub fn from(value: u8) -> (r: Self)
        ensures
            r == ObjectFlags::spec_from(value),
            r.cgb_palette < 4,
            r.vram_bank < 2,
            r.dmg_palette < 2,
    {
        ObjectFlags {
            cgb_palette: value % 4,
            vram_bank: value / 8 % 2,
            dmg_palette: value / 16 % 2,
            x_flip: value / 32 % 2 == 1,
            y_flip: value / 64 % 2 == 1,
            bg_win_priority: value / 128 == 1,
        }
    }
}

/// One 4-byte sprite record: screen-relative position (y offset by 16,
/// x by 8), tile index, and attribute flags.
#[derive(Clone, Copy, Debug, PartialEq, Eq, Structural)]
pub struct ObjectAttributes {
    pub y_pos: u8,
    pub x_pos: u8,
    pub tile_index: u8,
    pub flags: ObjectFlags,
}

impl ObjectAttributes {
    pub open spec fn wf(self) -> bool {
        self.flags.cgb_palette < 4 && self.flags.vram_bank < 2 && self.flags.dmg_palette < 2
    }

    /// Decode the record at `address` in object attribute memory.
    pub fn new(oam: &OAM, address: u16) -> (r: Self)
        requires
            oam.wf(),
            0xFE00 <= address,
            address + 3 <= 0xFE9F,
        ensures
            r.wf(),
            r.y_pos == oam@[address - 0xFE00],
            r.x_pos == oam@[address + 1 - 0xFE00],
            r.tile_index == oam@[address + 2 - 0xFE00],
            r.flags == ObjectFlags::spec_from(oam@[address + 3 - 0xFE00]),
    {
        let y_pos = oam.read_byte(address);
        let x_pos = oam.read_byte(address + 1);
        let tile_index = oam.read_byte(address + 2);
        let flags_byte = oam.read_byte(address + 3);
        Self { y_pos, x_pos, tile_index, flags: ObjectFlags::from(flags_byte) }
    }
}

/// A background map attribute byte of the color model, decoded.
#[derive(Clone, Copy, Debug, PartialEq, Eq, Structural)]
pub struct BGMapAttributes {
    pub priority: bool,
    pub y_flip: bool,
    pub x_flip: bool,
    pub bank: u8,
    pub color_palette: u8,
}

impl BGMapAttributes {
    pub open spec fn spec_from(value: u8) -> BGMapAttributes {
        BGMapAttributes {
            priority: value / 128 == 1,
            y_flip: value / 64 % 2 == 1,
            x_flip: value / 32 % 2 == 1,
            bank: (value / 8 % 2) as u8,
            color_palette: (value % 8) as u8,
        }
    }

    pub fn new(value: u8) -> (r: Self)
        ensures
            r.bank < 2,
            r.color_palette < 8,
            r == BGMapAttributes::spec_from(value),
    {
        Self {
            priority: value / 128 == 1,
            y_flip: value / 64 % 2 == 1,
            x_flip: value / 32 % 2 == 1,
            bank: value / 8 % 2,
            color_palette: value % 8,
        }
    }
}

/// A transfer the picture unit asks the bus to perform: an OAM copy from
/// `page * 0x100`, or a VRAM copy (general or per-HBlank).
#[derive(Clone, Copy, Debug, PartialEq, Eq, Structural)]
pub enum DMARequest {
    OAM(u8),
    VRAM { src: u16, dst: u16, len: u16, is_hdma: bool },
}



/// How one register write relates the picture unit's state before and
/// after: every routed address either stores exactly as specified here or
/// (for registers the monochrome model lacks) changes nothing.
pub open spec fn spec_ppu_write_rel(pre: PPU, post: PPU, address: u16, value: u8) -> bool {
    &&& post.gb_mode == pre.gb_mode
    &&& (0x8000 <= address <= 0x9FFF ==> post == (PPU { vram: post.vram, ..pre })
        && post.vram.mode == pre.vram.mode && post.vram.bank == pre.vram.bank && post.vram@
        == pre.vram@.update(spec_bank_index(address, pre.vram.spec_active_bank()), value))
    &&& (address == 0xFF4F ==> post == (PPU { vram: post.vram, ..pre }) && (if pre.gb_mode is CGB {
        post.vram == (VRAM { bank: (value % 2) as u8, ..pre.vram })
    } else {
        post.vram == pre.vram
    }))
    &&& (0xFE00 <= address <= 0xFE9F ==> post == (PPU { oam: post.oam, ..pre }) && post.oam@
        == pre.oam@.update(address - 0xFE00, value))
    &&& (address == 0xFF40 ==> post.lcdc == LCDC::spec_from(value) && (if !pre.lcdc.lcd_ppu_enable
        && LCDC::spec_from(value).lcd_ppu_enable {
        post == (PPU {
            lcdc: post.lcdc,
            dots: 0u32,
            ly: 0u8,
            mode: PpuMode::OAMScan,
            ..pre
        })
    } else {
        post == (PPU { lcdc: post.lcdc, ..pre })
    }))
    &&& (address == 0xFF41 ==> post == (PPU { stat: Stat::spec_from(value), ..pre }))
    &&& (address == 0xFF42 ==> post == (PPU { scy: value, ..pre }))
    &&& (address == 0xFF43 ==> post == (PPU { scx: value, ..pre }))
    &&& (address == 0xFF44 ==> post == (PPU { ly: 0u8, ..pre }))
    &&& (address == 0xFF45 ==> post == (PPU { lyc: value, ..pre }))
    &&& (address == 0xFF46 ==> post == (PPU { dma_request: Some(DMARequest::OAM(value)), ..pre }))
    &&& (address == 0xFF47 ==> post == (PPU {
        monochrome_bg_palette: MonochromePalette::spec_from(value),
        ..pre
    }))
    &&& (address == 0xFF48 ==> post == (PPU {
        monochrome_obj_palette0: MonochromePalette::spec_from(value),
        ..pre
    }))
    &&& (address == 0xFF49 ==> post == (PPU {
        monochrome_obj_palette1: MonochromePalette::spec_from(value),
        ..pre
    }))
    &&& (address == 0xFF4A ==> post == (PPU { wy: value, ..pre }))
    &&& (address == 0xFF4B ==> post == (PPU { wx: value, ..pre }))
    &&& ((0xFF51 <= address <= 0xFF55 || 0xFF68 <= address <= 0xFF6B) && pre.gb_mode is DMG ==> post
        == pre)
    &&& (address == 0xFF51 && pre.gb_mode is CGB ==> post == (PPU {
        high_vram_dma_src: value,
        ..pre
    }))
    &&& (address == 0xFF52 && pre.gb_mode is CGB ==> post == (PPU {
        low_vram_dma_src: value,
        ..pre
    }))
    &&& (address == 0xFF53 && pre.gb_mode is CGB ==> post == (PPU {
        high_vram_dma_dst: value,
        ..pre
    }))
    &&& (address == 0xFF54 && pre.gb_mode is CGB ==> post == (PPU {
        low_vram_dma_dst: value,
        ..pre
    }))
    &&& (address == 0xFF55 && pre.gb_mode is CGB ==> spec_vram_dma_write_rel(pre, post, value))
    &&& (address == 0xFF68 && pre.gb_mode is CGB ==> post == (PPU {
        bg_palette_ram: ColorPaletteRAM {
            spec: ColorPaletteSpec { auto_inc: value / 128 == 1, address: (value % 64) as u8 },
            ..pre.bg_palette_ram
        },
        ..pre
    }))
    &&& (address == 0xFF69 && pre.gb_mode is CGB ==> post == (PPU {
        bg_palette_ram: post.bg_palette_ram,
        ..pre
    }) && post.bg_palette_ram.data@ == pre.bg_palette_ram.data@.update(
        pre.bg_palette_ram.spec.address as int,
        value,
    ) && post.bg_palette_ram.spec.auto_inc == pre.bg_palette_ram.spec.auto_inc
        && post.bg_palette_ram.spec.address == (if pre.bg_palette_ram.spec.auto_inc {
        (pre.bg_palette_ram.spec.address + 1) % 64
    } else {
        pre.bg_palette_ram.spec.address as int
    }))
    &&& (address == 0xFF6A && pre.gb_mode is CGB ==> post == (PPU {
        obj_palette_ram: ColorPaletteRAM {
            spec: ColorPaletteSpec { auto_inc: value / 128 == 1, address: (value % 64) as u8 },
            ..pre.obj_palette_ram
        },
        ..pre
    }))
    &&& (address == 0xFF6B && pre.gb_mode is CGB ==> post == (PPU {
        obj_palette_ram: post.obj_palette_ram,
        ..pre
    }) && post.obj_palette_ram.data@ == pre.obj_palette_ram.data@.update(
        pre.obj_palette_ram.spec.address as int,
        value,
    ) && post.obj_palette_ram.spec.auto_inc == pre.obj_palette_ram.spec.auto_inc
        && post.obj_palette_ram.spec.address == (if pre.obj_palette_ram.spec.auto_inc {
        (pre.obj_palette_ram.spec.address + 1) % 64
    } else {
        pre.obj_palette_ram.spec.address as int
    }))
}

/// The effect of a write to the VRAM-transfer trigger register on the color
/// model: clearing bit 7 while a per-HBlank transfer is armed cancels it
/// without clearing the remaining length; otherwise the write programs a
/// transfer of `(value mod 128 + 1) * 16` bytes from the source to the
/// target registers, armed per HBlank when bit 7 is set, requested at once
/// when clear.
pub open spec fn spec_vram_dma_write_rel(pre: PPU, post: PPU, value: u8) -> bool {
    let is_hdma = value / 128 == 1;
    let hdma_active = pre.pending_dma_request matches Some(DMARequest::VRAM { is_hdma: true, .. });
    let src = (pre.high_vram_dma_src * 256 + pre.low_vram_dma_src) as u16;
    let dst = (pre.high_vram_dma_dst * 256 + pre.low_vram_dma_dst) as u16;
    let req = DMARequest::VRAM { src, dst, len: ((value % 128 + 1) * 16) as u16, is_hdma };
    if !is_hdma && hdma_active {
        post == (PPU { pending_dma_request: None, ..pre })
    } else if is_hdma {
        post == (PPU {
            vram_dma_transfer_len: (value % 128) as u8,
            pending_dma_request: Some(req),
            ..pre
        })
    } else {
        post == (PPU {
            vram_dma_transfer_len: (value % 128) as u8,
            dma_request: Some(req),
            ..pre
        })
    }
}

/// The picture processing unit: video memory, sprite memory, the scanline
/// state machine, palettes, and the frame buffer (row-major, 144 rows of
/// 160 pixels). A completed frame raises `frame_ready` for the host to
/// collect; the host is also expected to pace frames to the display rate.
pub struct PPU {
    pub gb_mode: Mode,
    pub dots: u32,
    pub frame_buffer: Vec<RGB>,
    pub vram: VRAM,
    pub oam: OAM,
    pub lcdc: LCDC,
    pub ly: u8,
    pub lyc: u8,
    pub mode: PpuMode,
    pub stat: Stat,
    pub stat_int_line: bool,
    pub scy: u8,
    pub scx: u8,
    pub wy: u8,
    pub wx: u8,
    pub monochrome_bg_palette: MonochromePalette,
    pub monochrome_obj_palette0: MonochromePalette,
    pub monochrome_obj_palette1: MonochromePalette,
    pub bg_palette_ram: ColorPaletteRAM,
    pub obj_palette_ram: ColorPaletteRAM,
    pub line_objects: Vec<ObjectAttributes>,
    pub dma_request: Option<DMARequest>,
    pub pending_dma_request: Option<DMARequest>,
    pub frame_cycles_acc: u32,
    pub frame_ready: bool,
    pub high_vram_dma_src: u8,
    pub low_vram_dma_src: u8,
    pub high_vram_dma_dst: u8,
    pub low_vram_dma_dst: u8,
    pub vram_dma_transfer_len: u8,
}

impl PPU {
    pub open spec fn wf(self) -> bool {
        &&& self.vram.wf()
        &&& self.vram.spec_mode() == self.gb_mode
        &&& self.oam.wf()
        &&& self.bg_palette_ram.wf()
        &&& self.obj_palette_ram.wf()
        &&& self.frame_buffer.len() == PIXELS_HEIGHT * PIXELS_WIDTH
        &&& self.ly <= 154
        &&& forall|i: int| 0 <= i < self.line_objects.len() ==> (
        #[trigger] self.line_objects@[i]).wf()
    }


    /// The tile-map cell the background shows at column `x` of the current
    /// line, under the scroll registers (coordinates wrap on a byte).
    pub open spec fn spec_bg_map_addr(self, x: u8) -> u16 {
        (spec_map_base(self.lcdc.bg_tile_map_second) + u8_specs::wrapping_add(self.scy, self.ly)
            / 8 * 32 + u8_specs::wrapping_add(self.scx, x) / 8) as u16
    }

    /// The tile-map cell the window shows at column `x` of the current
    /// line, for a window anchored at (`wx` clamped, `wy`).
    pub open spec fn spec_win_map_addr(self, x: u8) -> u16 {
        let wx = if self.wx < 7 {
            0int
        } else {
            self.wx - 7
        };
        (spec_map_base(self.lcdc.win_tile_map_second) + (self.ly - self.wy) / 8 * 32 + (x - wx)
            / 8) as u16
    }

    /// The data bank a background or window tile is fetched from: the map
    /// attribute's bank on the color model, bank 0 on the monochrome model.
    pub open spec fn spec_map_data_bank(self, map_addr: u16) -> u8 {
        if self.gb_mode is CGB {
            BGMapAttributes::spec_from(self.spec_map_attr_byte(map_addr)).bank
        } else {
            0u8
        }
    }

    /// The attribute byte of a map cell (bank 1 of video memory).
    pub open spec fn spec_map_attr_byte(self, map_addr: u16) -> u8 {
        self.vram@[spec_bank_index(map_addr, 1)]
    }

    /// The color id of the pixel at tile row `row` and column `col` of the
    /// tile a map cell names, through the selected tile-data area.
    pub open spec fn spec_map_pixel_id(self, map_addr: u16, row: u8, col: u8) -> u8 {
        let tile_index = self.vram@[spec_bank_index(map_addr, 0)];
        let bank = self.spec_map_data_bank(map_addr);
        let tile_addr = spec_tile_address(self.lcdc.bg_win_tile_data_second, tile_index);
        spec_color_id(
            self.vram@[spec_bank_index((tile_addr + row % 8 * 2) as u16, bank)],
            self.vram@[spec_bank_index((tile_addr + row % 8 * 2 + 1) as u16, bank)],
            col,
        )
    }

    /// The color of that pixel: the monochrome background palette, or the
    /// map attribute's palette of the color model.
    pub open spec fn spec_map_pixel_color(self, map_addr: u16, row: u8, col: u8) -> RGB {
        let id = self.spec_map_pixel_id(map_addr, row, col);
        if self.gb_mode is DMG {
            self.monochrome_bg_palette.spec_color(id)
        } else {
            self.bg_palette_ram.spec_color(
                BGMapAttributes::spec_from(self.spec_map_attr_byte(map_addr)).color_palette,
                id,
            )
        }
    }

    /// Whether the window covers column `x` of the current line.
    pub open spec fn spec_win_covers(self, x: u8) -> bool {
        &&& self.lcdc.bg_win_enable
        &&& self.lcdc.win_enable
        &&& self.ly >= self.wy
        &&& x >= (if self.wx < 7 {
            0int
        } else {
            self.wx - 7
        })
    }

    /// The pixel the sprite at list index `i` contributes at column `x`,
    /// if any: it must cover the column and the line, win the background
    /// priority test, and carry a non-transparent color id.
    pub open spec fn spec_obj_contribution(self, x: u8, bg_id: u8, i: int) -> Option<RGB> {
        let o = self.line_objects@[i];
        let h: int = if self.lcdc.double_height_obj {
            16
        } else {
            8
        };
        if o.flags.bg_win_priority && bg_id != 0 {
            None
        } else if !(x + 8 >= o.x_pos && x < o.x_pos) {
            None
        } else if self.ly + 16 < o.y_pos || self.ly + 16 - o.y_pos >= h {
            None
        } else {
            let oy_raw = self.ly + 16 - o.y_pos;
            let oy = if o.flags.y_flip {
                h - 1 - oy_raw
            } else {
                oy_raw
            };
            let tile_index: int = if !self.lcdc.double_height_obj {
                o.tile_index as int
            } else if oy < 8 {
                o.tile_index - o.tile_index % 2
            } else {
                o.tile_index - o.tile_index % 2 + 1
            };
            let tile_addr = (0x8000 + tile_index * 16 + oy % 8 * 2) as u16;
            let bank: u8 = if self.gb_mode is CGB {
                o.flags.vram_bank
            } else {
                0u8
            };
            let ox_raw = x + 8 - o.x_pos;
            let ox = if o.flags.x_flip {
                (7 - ox_raw) as u8
            } else {
                ox_raw as u8
            };
            let id = spec_color_id(
                self.vram@[spec_bank_index(tile_addr, bank)],
                self.vram@[spec_bank_index((tile_addr + 1) as u16, bank)],
                ox,
            );
            if id == 0 {
                None
            } else if self.gb_mode is DMG {
                if o.flags.dmg_palette == 0 {
                    Some(self.monochrome_obj_palette0.spec_color(id))
                } else {
                    Some(self.monochrome_obj_palette1.spec_color(id))
                }
            } else {
                Some(self.obj_palette_ram.spec_color(o.flags.cgb_palette, id))
            }
        }
    }

    /// The sprite layer's pixel at column `x` over the first `n` objects of
    /// the line list: a later entry overwrites an earlier one.
    pub open spec fn spec_obj_composite(self, x: u8, bg_id: u8, n: int) -> Option<RGB>
        decreases n,
    {
        if n <= 0 {
            None
        } else {
            match self.spec_obj_contribution(x, bg_id, n - 1) {
                Some(p) => Some(p),
                None => self.spec_obj_composite(x, bg_id, n - 1),
            }
        }
    }

    /// The STAT interrupt line: the OR of the four selected sources.
    pub open spec fn spec_stat_line(self) -> bool {
        (self.mode is HBlank && self.stat.hblank_int_select) || (self.mode is OAMScan
            && self.stat.oam_int_select) || (self.mode is VBlank && self.stat.vblank_int_select)
            || (self.ly == self.lyc && self.stat.lyc_int_select)
    }

    /// A fresh unit. Without a boot ROM, LCDC and STAT take the values the
    /// boot ROM leaves behind.
    pub fn new(cfg: &Config, vram: VRAM, oam: OAM) -> (r: Self)
        requires
            vram.wf(),
            vram.spec_mode() == cfg.mode,
            oam.wf(),
        ensures
            r.wf(),
            r.gb_mode == cfg.mode,
            r.ly == 0,
            r.mode is OAMScan,
            r.dots == 0,
            !r.frame_ready,
            r.dma_request is None,
            r.pending_dma_request is None,
            cfg.bootrom is None ==> r.lcdc == LCDC::spec_from(0x91) && r.stat == Stat::spec_from(
                0x85,
            ),
            cfg.bootrom is Some ==> r.lcdc == LCDC::spec_from(0) && r.stat == Stat::spec_from(0),
    {
        let skip_boot = cfg.bootrom.is_none();
        let mut lcdc = LCDC::new();
        let mut stat = Stat::new();
        if skip_boot {
            lcdc.write(0x91);
            stat.write(0x85);
        }
        Self {
            gb_mode: cfg.mode,
            dots: 0,
            frame_buffer: crate::ppu::black_frame(),
            vram,
            oam,
            lcdc,
            ly: 0,
            lyc: 0,
            mode: PpuMode::OAMScan,
            stat,
            stat_int_line: false,
            scy: 0,
            scx: 0,
            wy: 0,
            wx: 0,
            monochrome_bg_palette: MonochromePalette::new(),
            monochrome_obj_palette0: MonochromePalette::new(),
            monochrome_obj_palette1: MonochromePalette::new(),
            bg_palette_ram: ColorPaletteRAM::new(),
            obj_palette_ram: ColorPaletteRAM::new(),
            line_objects: Vec::new(),
            dma_request: None,
            pending_dma_request: None,
            frame_cycles_acc: 0,
            frame_ready: false,
            high_vram_dma_src: 0,
            low_vram_dma_src: 0,
            high_vram_dma_dst: 0,
            low_vram_dma_dst: 0,
            vram_dma_transfer_len: 0,
        }
    }

    /// The finished frame, row-major; valid whenever `frame_ready` was
    /// raised. The buffer is borrowed, never copied.
    pub fn frame(&self) -> (r: &Vec<RGB>)
        ensures
            r == self.frame_buffer,
    {
        &self.frame_buffer
    }

    /// Whether a frame completed since the last call, clearing the signal.
    pub fn take_frame_ready(&mut self) -> (r: bool)
        ensures
            r == old(self).frame_ready,
            *final(self) == (PPU { frame_ready: false, ..*old(self) }),
    {
        let r = self.frame_ready;
        self.frame_ready = false;
        r
    }

    /// Whether the window covers any of the current line.
    fn is_win_enabled(&self) -> (r: bool)
        ensures
            r == (self.lcdc.win_enable && self.ly >= self.wy),
    {
        self.lcdc.win_enable && self.ly >= self.wy
    }

    /// Store one pixel of the current line.
    fn set_pixel(&mut self, x: u8, pixel: RGB)
        requires
            old(self).wf(),
            x < 160,
            old(self).ly < 144,
        ensures
            final(self).wf(),
            *final(self) == (PPU { frame_buffer: final(self).frame_buffer, ..*old(self) }),
            final(self).frame_buffer@ == old(self).frame_buffer@.update(
                old(self).ly * 160 + x,
                pixel,
            ),
    {
        let idx = self.ly as usize * 160 + x as usize;
        self.frame_buffer.set(idx, pixel);
    }

    /// The background color for a color id under the line's tile
    /// attributes: the fixed monochrome palette register, or the attribute's
    /// palette of the color model.
    #[verifier::rlimit(100)]
    fn bg_color(&self, attributes: Option<BGMapAttributes>, color_id: u8) -> (r: RGB)
        requires
            self.wf(),
            attributes matches Some(a) ==> a.color_palette < 8,
        ensures
            self.gb_mode is DMG ==> r == self.monochrome_bg_palette.spec_color(color_id),
            attributes matches Some(a) ==> self.gb_mode is DMG || r
                == self.bg_palette_ram.spec_color(a.color_palette, color_id),
    {
        match self.gb_mode {
            Mode::DMG => self.monochrome_bg_palette.get_color_from_id(color_id),
            Mode::CGB => match attributes {
                Some(a) => {
                    let base = a.color_palette as usize * 8 + (color_id as usize % 4) * 2;
                    let lo = self.bg_palette_ram.data[base];
                    let hi = self.bg_palette_ram.data[base + 1];
                    let raw = hi as u16 * 256 + lo as u16;
                    (
                        scale_up_color_channel((raw % 32) as u8),
                        scale_up_color_channel((raw / 32 % 32) as u8),
                        scale_up_color_channel((raw / 1024 % 32) as u8),
                    )
                },
                None => self.monochrome_bg_palette.get_color_from_id(color_id),
            },
        }
    }

    /// The background-map attributes of a map cell: the color model keeps
    /// them in bank 1 under the map entry; the monochrome model has none.
    fn get_bg_tile_attributes(&self, address: u16) -> (r: Option<BGMapAttributes>)
        requires
            self.wf(),
            0x8000 <= address <= 0x9FFF,
        ensures
            self.gb_mode is DMG <==> r is None,
            r matches Some(a) ==> a.bank < 2 && a.color_palette < 8,
            self.gb_mode is CGB ==> r == Some(
                BGMapAttributes::spec_from(self.spec_map_attr_byte(address)),
            ),
    {
        match self.gb_mode {
            Mode::CGB => {
                let byte = self.vram.read_at_bank(address, 1);
                Some(BGMapAttributes::new(byte))
            },
            Mode::DMG => None,
        }
    }

    /// Draw the background pixel at `x` of the current line, leaving its
    /// color id for the sprite compositor's priority test. Disabled
    /// background leaves the pixel and the id alone.
    fn buffer_pix_bg(&mut self, x: u8, bg_win_color_id: &mut u8)
        requires
            old(self).wf(),
            x < 160,
            old(self).ly < 144,
        ensures
            final(self).wf(),
            *final(self) == (PPU { frame_buffer: final(self).frame_buffer, ..*old(self) }),
            final(self).frame_buffer.len() == old(self).frame_buffer.len(),
            !old(self).lcdc.bg_win_enable ==> *final(self) == *old(self)
                && *final(bg_win_color_id) == *old(bg_win_color_id),
            *final(bg_win_color_id) < 4 || *final(bg_win_color_id) == *old(bg_win_color_id),
            old(self).lcdc.bg_win_enable ==> ({
                let addr = old(self).spec_bg_map_addr(x);
                let row = (u8_specs::wrapping_add(old(self).scy, old(self).ly) % 8) as u8;
                let col = (u8_specs::wrapping_add(old(self).scx, x) % 8) as u8;
                &&& final(self).frame_buffer@ == old(self).frame_buffer@.update(
                    old(self).ly * 160 + x,
                    old(self).spec_map_pixel_color(addr, row, col),
                )
                &&& *final(bg_win_color_id) == old(self).spec_map_pixel_id(addr, row, col)
            }),
    {
        if !self.lcdc.bg_win_enable {
            return ;
        }
        let scroll_y = self.scy.wrapping_add(self.ly);
        let tile_y: u16 = scroll_y as u16 / 8 * 32;
        let scroll_x = self.scx.wrapping_add(x);
        let tile_x: u16 = scroll_x as u16 / 8;

        let map_addr = map_base(self.lcdc.bg_tile_map_second) + tile_y + tile_x;
        let tile_index = self.vram.read_at_bank(map_addr, 0);
        let tile_attributes = self.get_bg_tile_attributes(map_addr);
        let data_bank: u8 = match &tile_attributes {
            Some(a) => a.bank,
            None => 0,
        };

        let tile_addr = tile_address(self.lcdc.bg_win_tile_data_second, tile_index);
        let tile_y_offset = (scroll_y % 8) as u16 * 2;
        let color_id = get_color_id_from_two_bytes(
            self.vram.read_at_bank(tile_addr + tile_y_offset, data_bank),
            self.vram.read_at_bank(tile_addr + tile_y_offset + 1, data_bank),
            scroll_x % 8,
        );
        *bg_win_color_id = color_id;
        let pixel = self.bg_color(tile_attributes, color_id);
        self.set_pixel(x, pixel);
    }

    /// Draw the window pixel at `x` of the current line, replacing the
    /// background where the window reaches (WX values below 7 clamp to the
    /// left edge).
    fn buffer_pix_win(&mut self, x: u8, bg_win_color_id: &mut u8)
        requires
            old(self).wf(),
            x < 160,
            old(self).ly < 144,
        ensures
            final(self).wf(),
            *final(self) == (PPU { frame_buffer: final(self).frame_buffer, ..*old(self) }),
            final(self).frame_buffer.len() == old(self).frame_buffer.len(),
            *final(bg_win_color_id) < 4 || *final(bg_win_color_id) == *old(bg_win_color_id),
            !old(self).spec_win_covers(x) ==> *final(self) == *old(self) && *final(bg_win_color_id)
                == *old(bg_win_color_id),
            old(self).spec_win_covers(x) ==> ({
                let addr = old(self).spec_win_map_addr(x);
                let row = ((old(self).ly - old(self).wy) % 8) as u8;
                let col = ((x - (if old(self).wx < 7 {
                    0int
                } else {
                    old(self).wx - 7
                })) % 8) as u8;
                &&& final(self).frame_buffer@ == old(self).frame_buffer@.update(
                    old(self).ly * 160 + x,
                    old(self).spec_map_pixel_color(addr, row, col),
                )
                &&& *final(bg_win_color_id) == old(self).spec_map_pixel_id(addr, row, col)
            }),
    {
        if !self.lcdc.bg_win_enable || !self.is_win_enabled() {
            return ;
        }
        let wx = if self.wx < 7 {
            0
        } else {
            self.wx - 7
        };
        if x < wx {
            return ;
        }
        let win_y = self.ly - self.wy;
        let tile_y: u16 = win_y as u16 / 8 * 32;
        let tile_y_offset = (win_y % 8) as u16 * 2;
        let win_x = x - wx;
        let tile_x: u16 = win_x as u16 / 8;

        let map_addr = map_base(self.lcdc.win_tile_map_second) + tile_y + tile_x;
        let tile_index = self.vram.read_at_bank(map_addr, 0);
        let tile_attributes = self.get_bg_tile_attributes(map_addr);
        let data_bank: u8 = match &tile_attributes {
            Some(a) => a.bank,
            None => 0,
        };

        let tile_addr = tile_address(self.lcdc.bg_win_tile_data_second, tile_index);
        let color_id = get_color_id_from_two_bytes(
            self.vram.read_at_bank(tile_addr + tile_y_offset, data_bank),
            self.vram.read_at_bank(tile_addr + tile_y_offset + 1, data_bank),
            win_x % 8,
        );
        *bg_win_color_id = color_id;
        let pixel = self.bg_color(tile_attributes, color_id);
        self.set_pixel(x, pixel);
    }

    /// The sprite color for a color id: the sprite's monochrome palette
    /// register, or its palette of the color model.
    #[verifier::rlimit(100)]
    fn obj_color(&self, obj: &ObjectAttributes, color_id: u8) -> (r: RGB)
        requires
            self.wf(),
            obj.wf(),
        ensures
            self.gb_mode is DMG && obj.flags.dmg_palette == 0 ==> r
                == self.monochrome_obj_palette0.spec_color(color_id),
            self.gb_mode is DMG && obj.flags.dmg_palette == 1 ==> r
                == self.monochrome_obj_palette1.spec_color(color_id),
            self.gb_mode is CGB ==> r == self.obj_palette_ram.spec_color(
                obj.flags.cgb_palette,
                color_id,
            ),
    {
        match self.gb_mode {
            Mode::DMG => if obj.flags.dmg_palette == 0 {
                self.monochrome_obj_palette0.get_color_from_id(color_id)
            } else {
                self.monochrome_obj_palette1.get_color_from_id(color_id)
            },
            Mode::CGB => {
                let base = obj.flags.cgb_palette as usize * 8 + (color_id as usize % 4) * 2;
                let lo = self.obj_palette_ram.data[base];
                let hi = self.obj_palette_ram.data[base + 1];
                let raw = hi as u16 * 256 + lo as u16;
                (
                    scale_up_color_channel((raw % 32) as u8),
                    scale_up_color_channel((raw / 32 % 32) as u8),
                    scale_up_color_channel((raw / 1024 % 32) as u8),
                )
            },
        }
    }

    /// Draw the sprite pixels at `x` of the current line from the line's
    /// object list, honoring flips, background priority, and color-id-zero
    /// transparency.
    fn buffer_pix_obj(&mut self, x: u8, bg_win_color_id: u8)
        requires
            old(self).wf(),
            x < 160,
            old(self).ly < 144,
        ensures
            final(self).wf(),
            *final(self) == (PPU { frame_buffer: final(self).frame_buffer, ..*old(self) }),
            final(self).frame_buffer.len() == old(self).frame_buffer.len(),
            !old(self).lcdc.obj_enable ==> *final(self) == *old(self),
            old(self).lcdc.obj_enable ==> final(self).frame_buffer@ == (match old(
                self,
            ).spec_obj_composite(x, bg_win_color_id, old(self).line_objects.len() as int) {
                Some(p) => old(self).frame_buffer@.update(old(self).ly * 160 + x, p),
                None => old(self).frame_buffer@,
            }),
    {
        if !self.lcdc.obj_enable {
            return ;
        }
        let obj_height: u16 = if self.lcdc.double_height_obj {
            16
        } else {
            8
        };
        let mut i: usize = 0;
        while i < self.line_objects.len()
            invariant
                self.wf(),
                *self == (PPU { frame_buffer: self.frame_buffer, ..*old(self) }),
                self.frame_buffer.len() == old(self).frame_buffer.len(),
                x < 160,
                self.ly < 144,
                i <= self.line_objects.len(),
                obj_height == (if self.lcdc.double_height_obj {
                    16int
                } else {
                    8
                }),
                self.frame_buffer@ == (match old(self).spec_obj_composite(
                    x,
                    bg_win_color_id,
                    i as int,
                ) {
                    Some(p) => old(self).frame_buffer@.update(old(self).ly * 160 + x, p),
                    None => old(self).frame_buffer@,
                }),
            decreases self.line_objects.len() - i,
        {
            let obj_attr = self.line_objects[i];
            i += 1;
            if obj_attr.flags.bg_win_priority && bg_win_color_id != 0 {
                continue ;
            }
            let is_in_tile = x as u16 + 8 >= obj_attr.x_pos as u16 && x < obj_attr.x_pos;
            if !is_in_tile {
                continue ;
            }
            // Recheck the vertical overlap the line scan selected by.
            if (self.ly as u16) + 16 < obj_attr.y_pos as u16 {
                continue ;
            }
            let obj_y_raw: u16 = self.ly as u16 + 16 - obj_attr.y_pos as u16;
            if obj_y_raw >= obj_height {
                continue ;
            }
            let obj_y: u16 = if obj_attr.flags.y_flip {
                obj_height - 1 - obj_y_raw
            } else {
                obj_y_raw
            };
            let tile_index: u8 = if !self.lcdc.double_height_obj {
                obj_attr.tile_index
            } else if obj_y < 8 {
                obj_attr.tile_index - obj_attr.tile_index % 2
            } else {
                obj_attr.tile_index - obj_attr.tile_index % 2 + 1
            };
            let y_offset: u16 = (obj_y % 8) * 2;
            let tile_addr = 0x8000 + tile_index as u16 * 16 + y_offset;
            let bank: u8 = match self.gb_mode {
                Mode::CGB => obj_attr.flags.vram_bank,
                Mode::DMG => 0,
            };
            let tile_high_byte = self.vram.read_at_bank(tile_addr, bank);
            let tile_low_byte = self.vram.read_at_bank(tile_addr + 1, bank);
            let obj_x_raw = x + 8 - obj_attr.x_pos;
            let obj_x = if obj_attr.flags.x_flip {
                7 - obj_x_raw
            } else {
                obj_x_raw
            };
            let color_id = get_color_id_from_two_bytes(tile_high_byte, tile_low_byte, obj_x);
            if color_id == 0 {
                continue ;
            }
            let pixel = self.obj_color(&obj_attr, color_id);
            self.set_pixel(x, pixel);
        }
    }

    /// Compose one pixel: background, then window, then sprites. A disabled
    /// display draws nothing.
    fn buffer_pix(&mut self, x: u8)
        requires
            old(self).wf(),
            x < 160,
            old(self).ly < 144,
        ensures
            final(self).wf(),
            *final(self) == (PPU { frame_buffer: final(self).frame_buffer, ..*old(self) }),
            final(self).frame_buffer.len() == old(self).frame_buffer.len(),
    {
        if !self.lcdc.lcd_ppu_enable {
            return ;
        }
        let mut bg_win_color_id: u8 = 0;
        self.buffer_pix_bg(x, &mut bg_win_color_id);
        self.buffer_pix_win(x, &mut bg_win_color_id);
        self.buffer_pix_obj(x, bg_win_color_id);
    }

    /// Compose the current line into the frame buffer. Lines past the
    /// visible area draw nothing.
    fn buffer_line(&mut self)
        requires
            old(self).wf(),
        ensures
            final(self).wf(),
            *final(self) == (PPU { frame_buffer: final(self).frame_buffer, ..*old(self) }),
            final(self).frame_buffer.len() == old(self).frame_buffer.len(),
    {
        if self.ly >= 144 {
            return ;
        }
        let mut x: u8 = 0;
        while x < 160
            invariant
                self.wf(),
                *self == (PPU { frame_buffer: self.frame_buffer, ..*old(self) }),
                self.frame_buffer.len() == old(self).frame_buffer.len(),
                self.ly < 144,
            decreases 160 - x,
        {
            self.buffer_pix(x);
            x += 1;
        }
    }

    /// Scan object attribute memory for the first ten sprites in memory
    /// order that overlap the current line, then order them by ascending x
    /// position (sprites with equal x keep their memory order).
    fn search_line_objects(&mut self)
        requires
            old(self).wf(),
        ensures
            final(self).wf(),
            *final(self) == (PPU { line_objects: final(self).line_objects, ..*old(self) }),
            final(self).line_objects.len() <= 10,
            forall|a: int, b: int|
                0 <= a < b < final(self).line_objects.len() ==> final(self).line_objects@[a].x_pos
                    <= final(self).line_objects@[b].x_pos,
    {
        let obj_height: u16 = if self.lcdc.double_height_obj {
            16
        } else {
            8
        };
        let mut found: Vec<ObjectAttributes> = Vec::new();
        let mut i: u16 = 0;
        while i < 40
            invariant
                self.wf(),
                *self == *old(self),
                found.len() <= 10,
                forall|k: int| 0 <= k < found.len() ==> (#[trigger] found@[k]).wf(),
            decreases 40 - i,
        {
            let obj_attr = ObjectAttributes::new(&self.oam, 0xFE00 + i * 4);
            i += 1;
            if found.len() >= 10 {
                continue ;
            }
            if (self.ly as u16) + 16 < obj_attr.y_pos as u16 {
                continue ;
            }
            if self.ly as u16 + 16 - obj_attr.y_pos as u16 >= obj_height {
                continue ;
            }
            found.push(obj_attr);
        }
        // Stable insertion sort by ascending x position.
        let ghost n0 = found@.len();
        let mut s: usize = 1;
        while s < found.len()
            invariant
                found@.len() == n0,
                forall|k: int| 0 <= k < found.len() ==> (#[trigger] found@[k]).wf(),
                forall|a: int, b: int|
                    0 <= a < b < s && b < found.len() ==> found@[a].x_pos <= found@[b].x_pos,
            decreases n0 - s,
        {
            let mut j: usize = s;
            while j > 0 && found[j - 1].x_pos > found[j].x_pos
                invariant
                    found@.len() == n0,
                    j <= s < found.len(),
                    forall|k: int| 0 <= k < found.len() ==> (#[trigger] found@[k]).wf(),
                    forall|a: int, b: int|
                        0 <= a < b <= s && b != j ==> found@[a].x_pos <= found@[b].x_pos,
                    forall|a: int| j < a <= s ==> found@[j as int].x_pos <= found@[a].x_pos,
                decreases j,
            {
                let lo = found[j - 1];
                let hi = found[j];
                found.set(j - 1, hi);
                found.set(j, lo);
                j -= 1;
            }
            s += 1;
        }
        self.line_objects = found;
    }

    /// Latch the new STAT line level and request the STAT interrupt exactly
    /// on its rising edge — a level test would fire twice and break games.
    fn handle_stat_int(&mut self, int_reg: &mut InterruptRegisters)
        requires
            old(self).wf(),
        ensures
            final(self).wf(),
            *final(self) == (PPU { stat_int_line: old(self).spec_stat_line(), ..*old(self) }),
            *final(int_reg) == (if !old(self).stat_int_line && old(self).spec_stat_line() {
                InterruptRegisters { flag_stat: true, ..*old(int_reg) }
            } else {
                *old(int_reg)
            }),
    {
        let prev_stat_line = self.stat_int_line;
        let line = (matches!(self.mode, PpuMode::HBlank) && self.stat.hblank_int_select) || (
        matches!(self.mode, PpuMode::OAMScan) && self.stat.oam_int_select) || (matches!(
            self.mode,
            PpuMode::VBlank,
        ) && self.stat.vblank_int_select) || (self.ly == self.lyc && self.stat.lyc_int_select);
        self.stat_int_line = line;
        if !prev_stat_line && line {
            int_reg.request_stat_lcd();
        }
    }

    /// Leave the object scan once its 80 dots have passed: collect the
    /// line's sprites and start drawing.
    fn handle_oam_mode(&mut self)
        requires
            old(self).wf(),
            old(self).mode is OAMScan,
        ensures
            final(self).wf(),
            old(self).dots < 80 ==> *final(self) == *old(self),
            old(self).dots >= 80 ==> final(self).mode is Drawing && *final(self) == (PPU {
                line_objects: final(self).line_objects,
                mode: PpuMode::Drawing,
                ..*old(self)
            }),
    {
        if self.dots < OAM_DOTS {
            return ;
        }
        self.search_line_objects();
        self.mode = PpuMode::Drawing;
    }

    /// Leave the drawing mode once its dots have passed: compose the line
    /// and enter the horizontal blank.
    fn handle_vram_mode(&mut self)
        requires
            old(self).wf(),
            old(self).mode is Drawing,
        ensures
            final(self).wf(),
            old(self).dots < 252 ==> *final(self) == *old(self),
            old(self).dots >= 252 ==> final(self).mode is HBlank && *final(self) == (PPU {
                frame_buffer: final(self).frame_buffer,
                mode: PpuMode::HBlank,
                ..*old(self)
            }),
    {
        if self.dots < OAM_DOTS + VRAM_DOTS {
            return ;
        }
        self.buffer_line();
        self.mode = PpuMode::HBlank;
    }

    /// Leave the horizontal blank when the line's 456 dots are spent: move
    /// to the next line, release a pending per-HBlank VRAM transfer, and at
    /// line 144 enter the vertical blank, requesting its interrupt.
    #[verifier::rlimit(100)]
    fn handle_hblank_mode(&mut self, int_reg: &mut InterruptRegisters)
        requires
            old(self).wf(),
            old(self).mode is HBlank,
        ensures
            final(self).wf(),
            old(self).dots < 456 ==> *final(self) == *old(self) && *final(int_reg) == *old(
                int_reg,
            ),
            final(self).gb_mode == old(self).gb_mode,
            final(self).lcdc == old(self).lcdc,
            final(self).vram == old(self).vram,
            final(self).oam == old(self).oam,
            final(self).stat == old(self).stat,
            final(self).scx == old(self).scx,
            final(self).scy == old(self).scy,
            final(self).lyc == old(self).lyc,
            final(self).stat_int_line == old(self).stat_int_line,
            final(self).frame_ready == old(self).frame_ready,
            final(self).frame_cycles_acc == old(self).frame_cycles_acc,
            final(self).frame_buffer == old(self).frame_buffer,
            old(self).dots >= 456 ==> final(self).dots == old(self).dots - 456,
            old(self).dots >= 456 && old(self).ly < 143 ==> final(self).mode is OAMScan
                && final(self).ly == old(self).ly + 1 && *final(int_reg) == *old(int_reg),
            old(self).dots >= 456 && 143 <= old(self).ly <= 153 ==> final(self).ly == old(self).ly
                + 1,
            old(self).dots >= 456 && old(self).ly >= 143 ==> final(self).mode is VBlank
                && *final(int_reg) == (InterruptRegisters { flag_vblank: true, ..*old(int_reg) }),
    {
        if self.dots < SCANLINE_DOTS {
            return ;
        }
        self.dots = self.dots - SCANLINE_DOTS;
        if self.ly <= 153 {
            self.ly = self.ly + 1;
        }
        match &self.pending_dma_request {
            Some(DMARequest::VRAM { is_hdma: true, .. }) => {
                self.dma_request = self.pending_dma_request;
            },
            _ => {},
        }
        if self.ly >= 144 {
            int_reg.request_vblank();
            self.mode = PpuMode::VBlank;
        } else {
            self.mode = PpuMode::OAMScan;
        }
    }

    /// Step through the ten vertical-blank lines; after line 153 the scan
    /// restarts at line zero.
    fn handle_vblank_mode(&mut self)
        requires
            old(self).wf(),
            old(self).mode is VBlank,
        ensures
            final(self).wf(),
            old(self).dots < 456 ==> *final(self) == *old(self),
            old(self).dots >= 456 && old(self).ly >= 153 ==> *final(self) == (PPU {
                dots: (old(self).dots - 456) as u32,
                ly: 0u8,
                mode: PpuMode::OAMScan,
                ..*old(self)
            }),
            old(self).dots >= 456 && old(self).ly < 153 ==> *final(self) == (PPU {
                dots: (old(self).dots - 456) as u32,
                ly: (old(self).ly + 1) as u8,
                ..*old(self)
            }),
    {
        if self.dots < SCANLINE_DOTS {
            return ;
        }
        self.dots = self.dots - SCANLINE_DOTS;
        if self.ly >= 153 {
            self.mode = PpuMode::OAMScan;
            self.ly = 0;
        } else {
            self.ly = self.ly + 1;
        }
    }

    /// Turning the display on restarts the scan from the top.
    fn enable(&mut self)
        ensures
            *final(self) == (PPU { dots: 0u32, ly: 0u8, mode: PpuMode::OAMScan, ..*old(self) }),
    {
        self.dots = 0;
        self.ly = 0;
        self.mode = PpuMode::OAMScan;
    }

    pub fn write_oam(&mut self, address: u16, value: u8)
        requires
            old(self).wf(),
            0xFE00 <= address <= 0xFE9F,
        ensures
            final(self).wf(),
            *final(self) == (PPU { oam: final(self).oam, ..*old(self) }),
            final(self).oam@ == old(self).oam@.update(address - 0xFE00, value),
    {
        self.oam.write_byte(address, value);
    }

    pub fn write_vram(&mut self, address: u16, value: u8)
        requires
            old(self).wf(),
            0x8000 <= address <= 0x9FFF || address == 0xFF4F,
        ensures
            final(self).wf(),
            *final(self) == (PPU { vram: final(self).vram, ..*old(self) }),
    {
        self.vram.write_byte(address, value);
    }

    /// Hand the bus the transfer to perform now, if any. A per-HBlank VRAM
    /// transfer re-arms itself for the next horizontal blank until its
    /// length runs out.
    pub fn check_dma_request(&mut self) -> (r: Option<DMARequest>)
        requires
            old(self).wf(),
        ensures
            final(self).wf(),
            r == old(self).dma_request,
            final(self).dma_request is None,
            final(self).gb_mode == old(self).gb_mode,
            final(self).vram == old(self).vram,
            final(self).oam == old(self).oam,
            final(self).lcdc == old(self).lcdc,
            final(self).frame_buffer == old(self).frame_buffer,
            final(self).ly == old(self).ly,
            final(self).mode == old(self).mode,
            final(self).frame_ready == old(self).frame_ready,
            match old(self).dma_request {
                Some(DMARequest::VRAM { src, dst, is_hdma: true, .. }) => if old(
                    self,
                ).vram_dma_transfer_len == 0 {
                    final(self).pending_dma_request is None && final(self).vram_dma_transfer_len
                        == 0
                } else {
                    final(self).vram_dma_transfer_len == old(self).vram_dma_transfer_len - 1
                        && final(self).pending_dma_request == Some(
                        DMARequest::VRAM {
                            src: u16_specs::wrapping_add(src, 0x10),
                            dst: u16_specs::wrapping_add(dst, 0x10),
                            len: 0x10u16,
                            is_hdma: true,
                        },
                    )
                },
                _ => final(self).pending_dma_request == old(self).pending_dma_request
                    && final(self).vram_dma_transfer_len == old(self).vram_dma_transfer_len,
            },
    {
        let req = self.dma_request;
        match req {
            Some(DMARequest::VRAM { src, dst, is_hdma: true, .. }) => {
                if self.vram_dma_transfer_len == 0 {
                    self.pending_dma_request = None;
                } else {
                    self.vram_dma_transfer_len = self.vram_dma_transfer_len - 1;
                    self.pending_dma_request = Some(
                        DMARequest::VRAM {
                            src: src.wrapping_add(0x10),
                            dst: dst.wrapping_add(0x10),
                            len: 0x10,
                            is_hdma: true,
                        },
                    );
                }
            },
            _ => {},
        }
        self.dma_request = None;
        req
    }

    /// Whether the picture unit answers reads and writes at this address.
    pub open spec fn spec_ppu_addr(address: u16) -> bool {
        (0x8000 <= address <= 0x9FFF) || (0xFE00 <= address <= 0xFE9F) || (0xFF40 <= address
            <= 0xFF4B) || address == 0xFF4F || (0xFF51 <= address <= 0xFF55) || (0xFF68 <= address
            <= 0xFF6B)
    }

    /// Read a display register, video memory or sprite memory. Registers of
    /// the color model read 0xFF on the monochrome model; the OAM transfer
    /// register is write-only.
    pub fn read_byte(&self, address: u16) -> (r: u8)
        requires
            self.wf(),
            PPU::spec_ppu_addr(address),
        ensures
            0x8000 <= address <= 0x9FFF ==> r == self.vram@[spec_bank_index(
                address,
                self.vram.spec_active_bank(),
            )],
            0xFE00 <= address <= 0xFE9F ==> r == self.oam@[address - 0xFE00],
            address == 0xFF40 ==> r == self.lcdc.spec_read(),
            address == 0xFF41 ==> r == self.stat.spec_read(self.mode, self.lyc == self.ly),
            address == 0xFF42 ==> r == self.scy,
            address == 0xFF43 ==> r == self.scx,
            address == 0xFF44 ==> r == self.ly,
            address == 0xFF45 ==> r == self.lyc,
            address == 0xFF46 ==> r == 0xFF,
            address == 0xFF47 ==> r == self.monochrome_bg_palette.spec_read(),
            address == 0xFF48 ==> r == self.monochrome_obj_palette0.spec_read(),
            address == 0xFF49 ==> r == self.monochrome_obj_palette1.spec_read(),
            address == 0xFF4A ==> r == self.wy,
            address == 0xFF4B ==> r == self.wx,
            address == 0xFF68 && self.gb_mode is CGB ==> r == self.bg_palette_ram.spec.spec_read(),
            address == 0xFF69 && self.gb_mode is CGB ==> r
                == self.bg_palette_ram.data@[self.bg_palette_ram.spec.address as int],
            address == 0xFF6A && self.gb_mode is CGB ==> r == self.obj_palette_ram.spec.spec_read(),
            address == 0xFF6B && self.gb_mode is CGB ==> r
                == self.obj_palette_ram.data@[self.obj_palette_ram.spec.address as int],
            (0xFF51 <= address <= 0xFF54) || (0xFF51 <= address <= 0xFF6B && self.gb_mode is DMG)
                ==> r == 0xFF,
    {
        if address <= 0x9FFF {
            return self.vram.read_byte(address);
        }
        if address <= 0xFE9F {
            return self.oam.read_byte(address);
        }
        if address == 0xFF4F {
            return self.vram.read_byte(address);
        }
        if matches!(self.gb_mode, Mode::CGB) {
            if 0xFF51 <= address && address <= 0xFF54 {
                return 0xFF;
            }
            if address == 0xFF55 {
                return if self.dma_request.is_some() {
                    self.vram_dma_transfer_len
                } else {
                    0xFF
                };
            }
            if address == BG_COLOR_PALETTE_SPEC_REG {
                return self.bg_palette_ram.read_spec();
            }
            if address == BG_COLOR_PALETTE_DATA_REG {
                return self.bg_palette_ram.read_data();
            }
            if address == OBJ_COLOR_PALETTE_SPEC_REG {
                return self.obj_palette_ram.read_spec();
            }
            if address == OBJ_COLOR_PALETTE_DATA_REG {
                return self.obj_palette_ram.read_data();
            }
        }
        if address == 0xFF40 {
            self.lcdc.read()
        } else if address == 0xFF41 {
            self.stat.read(self.mode, self.lyc == self.ly)
        } else if address == 0xFF42 {
            self.scy
        } else if address == 0xFF43 {
            self.scx
        } else if address == 0xFF44 {
            self.ly
        } else if address == 0xFF45 {
            self.lyc
        } else if address == 0xFF47 {
            self.monochrome_bg_palette.read()
        } else if address == 0xFF48 {
            self.monochrome_obj_palette0.read()
        } else if address == 0xFF49 {
            self.monochrome_obj_palette1.read()
        } else if address == 0xFF4A {
            self.wy
        } else if address == 0xFF4B {
            self.wx
        } else {
            0xFF
        }
    }

    /// Write a display register, video memory or sprite memory. Turning the
    /// display on restarts the scan; a write to the OAM transfer register
    /// requests the copy; writes to LY reset it. Registers of the color
    /// model are ignored on the monochrome model.
    #[verifier::rlimit(100)]
    #[verifier::spinoff_prover]
    pub fn write_byte(&mut self, address: u16, value: u8)
        requires
            old(self).wf(),
            PPU::spec_ppu_addr(address),
        ensures
            final(self).wf(),
            spec_ppu_write_rel(*old(self), *final(self), address, value),
    {
        if address <= 0x9FFF || address == 0xFF4F {
            self.vram.write_byte(address, value);
            return ;
        }
        if address <= 0xFE9F {
            self.oam.write_byte(address, value);
            return ;
        }
        if matches!(self.gb_mode, Mode::CGB) && 0xFF51 <= address && address <= 0xFF6B {
            if address == 0xFF51 {
                self.high_vram_dma_src = value;
            } else if address == 0xFF52 {
                self.low_vram_dma_src = value;
            } else if address == 0xFF53 {
                self.high_vram_dma_dst = value;
            } else if address == 0xFF54 {
                self.low_vram_dma_dst = value;
            } else if address == 0xFF55 {
                let is_hdma = value / 128 == 1;
                let hdma_active = matches!(
                    self.pending_dma_request,
                    Some(DMARequest::VRAM { is_hdma: true, .. }),
                );
                if !is_hdma && hdma_active {
                    // Writing bit 7 clear while a per-HBlank transfer runs
                    // cancels it without clearing the remaining length.
                    self.pending_dma_request = None;
                } else {
                    let src = self.high_vram_dma_src as u16 * 256 + self.low_vram_dma_src as u16;
                    let dst = self.high_vram_dma_dst as u16 * 256 + self.low_vram_dma_dst as u16;
                    self.vram_dma_transfer_len = value % 128;
                    let len = (self.vram_dma_transfer_len as u16 + 1) * 0x10;
                    let req = DMARequest::VRAM { src, dst, len, is_hdma };
                    if is_hdma {
                        self.pending_dma_request = Some(req);
                    } else {
                        self.dma_request = Some(req);
                    }
                }
            } else if address == BG_COLOR_PALETTE_SPEC_REG {
                self.bg_palette_ram.write_spec(value);
            } else if address == BG_COLOR_PALETTE_DATA_REG {
                self.bg_palette_ram.write_data(value);
            } else if address == OBJ_COLOR_PALETTE_SPEC_REG {
                self.obj_palette_ram.write_spec(value);
            } else if address == OBJ_COLOR_PALETTE_DATA_REG {
                self.obj_palette_ram.write_data(value);
            }
            return ;
        }
        if address == 0xFF40 {
            let was_enabled = self.lcdc.lcd_ppu_enable;
            self.lcdc.write(value);
            if !was_enabled && self.lcdc.lcd_ppu_enable {
                self.enable();
            }
        } else if address == 0xFF41 {
            self.stat.write(value);
        } else if address == 0xFF42 {
            self.scy = value;
        } else if address == 0xFF43 {
            self.scx = value;
        } else if address == 0xFF44 {
            self.ly = 0;
        } else if address == 0xFF45 {
            self.lyc = value;
        } else if address == 0xFF46 {
            self.dma_request = Some(DMARequest::OAM(value));
        } else if address == 0xFF47 {
            self.monochrome_bg_palette.update(value);
        } else if address == 0xFF48 {
            self.monochrome_obj_palette0.update(value);
        } else if address == 0xFF49 {
            self.monochrome_obj_palette1.update(value);
        } else if address == 0xFF4A {
            self.wy = value;
        } else if address == 0xFF4B {
            self.wx = value;
        }
    }

    /// Advance the scan by `cycles` dots (the display must be on for
    /// anything to happen), run the mode machine, latch the STAT interrupt
    /// line on its rising edge, and raise `frame_ready` once per frame's
    /// worth of dots. The STAT interrupt is requested exactly on the rising
    /// edge of the selected-source line, and the vertical-blank interrupt
    /// exactly on the transition into the vertical blank at line 144.
    #[verifier::rlimit(100)]
    #[verifier::spinoff_prover]
    pub fn step(&mut self, int_reg: &mut InterruptRegisters, cycles: u8)
        requires
            old(self).wf(),
        ensures
            final(self).wf(),
            !old(self).lcdc.lcd_ppu_enable ==> *final(self) == *old(self) && *final(int_reg)
                == *old(int_reg),
            final(self).gb_mode == old(self).gb_mode,
            final(self).lcdc == old(self).lcdc,
            *final(int_reg) == (InterruptRegisters {
                flag_vblank: final(int_reg).flag_vblank,
                flag_stat: final(int_reg).flag_stat,
                ..*old(int_reg)
            }),
            old(self).lcdc.lcd_ppu_enable ==> final(self).stat_int_line
                == final(self).spec_stat_line(),
            old(self).lcdc.lcd_ppu_enable ==> (final(int_reg).flag_stat <==> old(int_reg).flag_stat
                || (!old(self).stat_int_line && final(self).stat_int_line)),
            old(self).lcdc.lcd_ppu_enable ==> (final(int_reg).flag_vblank <==> old(
                int_reg,
            ).flag_vblank || (old(self).mode is HBlank && u32_specs::wrapping_add(
                old(self).dots,
                cycles as u32,
            ) >= 456 && old(self).ly >= 143)),
            old(self).lcdc.lcd_ppu_enable ==> ({
                let acc = u32_specs::wrapping_add(old(self).frame_cycles_acc, cycles as u32);
                &&& final(self).frame_cycles_acc == (if acc >= 70224 {
                    acc - 70224
                } else {
                    acc as int
                })
                &&& final(self).frame_ready == (old(self).frame_ready || acc >= 70224)
            }),
            old(self).lcdc.lcd_ppu_enable ==> ({
                let d = u32_specs::wrapping_add(old(self).dots, cycles as u32);
                final(self).dots == d || final(self).dots == d - 456
            }),
    {
        if !self.lcdc.lcd_ppu_enable {
            return ;
        }
        self.dots = self.dots.wrapping_add(cycles as u32);
        match self.mode {
            PpuMode::OAMScan => self.handle_oam_mode(),
            PpuMode::Drawing => self.handle_vram_mode(),
            PpuMode::HBlank => self.handle_hblank_mode(int_reg),
            PpuMode::VBlank => self.handle_vblank_mode(),
        }
        self.handle_stat_int(int_reg);

        self.frame_cycles_acc = self.frame_cycles_acc.wrapping_add(cycles as u32);
        if self.frame_cycles_acc >= DOTS_PER_FRAME {
            self.frame_cycles_acc = self.frame_cycles_acc - DOTS_PER_FRAME;
            self.frame_ready = true;
        }
    }
}

/// A black frame buffer of the full display size, row-major.
pub fn black_frame() -> (r: Vec<RGB>)
    ensures
        r.len() == PIXELS_HEIGHT * PIXELS_WIDTH,
{
    let mut buf: Vec<RGB> = Vec::new();
    let mut i: usize = 0;
    while i < PIXELS_HEIGHT * PIXELS_WIDTH
        invariant
            buf.len() == i,
            i <= PIXELS_HEIGHT * PIXELS_WIDTH,
        decreases PIXELS_HEIGHT * PIXELS_WIDTH - i,
    {
        buf.push((0, 0, 0));
        i += 1;
    }
    buf
}


/// Law: the display registers with fully readable bits read back what was
/// written — LCDC and the three monochrome palettes whole, STAT its four
/// selector bits (bits 3 to 6) with the live mode and comparison bits in
/// the low three.
#[verifier::rlimit(100)]
pub proof fn lemma_ppu_register_round_trip(v: u8, mode: PpuMode, lyc: bool)
    ensures
        LCDC::spec_from(v).spec_read() == v,
        MonochromePalette::spec_from(v).spec_read() == v,
        Stat::spec_from(v).spec_read(mode, lyc) == (v & 0x78) + mode.spec_bits() + (if lyc {
            4int
        } else {
            0
        }),
{
    assert(v % 2 + v / 2 % 2 * 2 + v / 4 % 2 * 4 + v / 8 % 2 * 8 + v / 16 % 2 * 16 + v / 32 % 2
        * 32 + v / 64 % 2 * 64 + v / 128 * 128 == v) by (bit_vector);
    assert(v % 4 + v / 4 % 4 * 4 + v / 16 % 4 * 16 + v / 64 * 64 == v) by (bit_vector);
    assert(v / 8 % 2 * 8 + v / 16 % 2 * 16 + v / 32 % 2 * 32 + v / 64 % 2 * 64 == (v & 0x78))
        by (bit_vector);
    let l = LCDC::spec_from(v);
    assert((if l.bg_win_enable { 1int } else { 0 }) == v % 2);
    assert((if l.obj_enable { 2int } else { 0 }) == v / 2 % 2 * 2);
    assert((if l.double_height_obj { 4int } else { 0 }) == v / 4 % 2 * 4);
    assert((if l.bg_tile_map_second { 8int } else { 0 }) == v / 8 % 2 * 8);
    assert((if l.bg_win_tile_data_second { 16int } else { 0 }) == v / 16 % 2 * 16);
    assert((if l.win_enable { 32int } else { 0 }) == v / 32 % 2 * 32);
    assert((if l.win_tile_map_second { 64int } else { 0 }) == v / 64 % 2 * 64);
    assert((if l.lcd_ppu_enable { 128int } else { 0 }) == v / 128 * 128);
    let p = MonochromePalette::spec_from(v);
    assert(p.shade0.spec_bits() == v % 4);
    assert(p.shade1.spec_bits() == v / 4 % 4);
    assert(p.shade2.spec_bits() == v / 16 % 4);
    assert(p.shade3.spec_bits() == v / 64);
    let st = Stat::spec_from(v);
    assert((if st.hblank_int_select { 8int } else { 0 }) == v / 8 % 2 * 8);
    assert((if st.vblank_int_select { 16int } else { 0 }) == v / 16 % 2 * 16);
    assert((if st.oam_int_select { 32int } else { 0 }) == v / 32 % 2 * 32);
    assert((if st.lyc_int_select { 64int } else { 0 }) == v / 64 % 2 * 64);
}

} // verus!

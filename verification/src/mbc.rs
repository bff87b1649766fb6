use vstd::prelude::*;

use crate::saver::GameSave;
use vstd::arithmetic::power2::pow2;
use vstd::bits::low_bits_mask;
use vstd::bits::lemma_usize_low_bits_mask_is_mod;

verus! {

pub const MBC1_BANKING_MODE_REG_START_ADDR: u16 = 0x6000;

pub const MBC1_BANKING_MODE_REG_END_ADDR: u16 = 0x7FFF;

pub const MBC1_ROM_BANK_NUM_REG_START_ADDR: u16 = 0x2000;

pub const MBC1_ROM_BANK_NUM_REG_END_ADDR: u16 = 0x3FFF;

pub const MBC1_RAM_BANK_NUM_REG_START_ADDR: u16 = 0x4000;

pub const MBC1_RAM_BANK_NUM_REG_END_ADDR: u16 = 0x5FFF;

pub const MBC1_ROM_BANK_0_START_ADDR: u16 = 0x0000;

pub const MBC1_ROM_BANK_0_END_ADDR: u16 = 0x3FFF;

pub const MBC1_ROM_BANK_01_7F_START_ADDR: u16 = 0x4000;

pub const MBC1_ROM_BANK_01_7F_END_ADDR: u16 = 0x7FFF;

pub const MBC1_RAM_START_ADDR: u16 = 0xA000;

pub const MBC1_RAM_END_ADDR: u16 = 0xBFFF;

/// An address a cartridge controller answers: the ROM window, the RAM
/// window, or a control-register range.
pub open spec fn spec_cart_addr(address: u16) -> bool {
    address <= 0x7FFF || 0xA000 <= address <= 0xBFFF
}

/// RAM-enable registers enable RAM exactly when the written low nibble
/// is 0xA.
pub open spec fn spec_ram_enable_value(value: u8) -> bool {
    value % 16 == 0xA
}

/// Bound used by every masked access: `x & m` never exceeds `m`.
pub proof fn lemma_and_mask_le(x: usize, m: usize)
    ensures
        (x & m) <= m,
{
    assert((x & m) <= m) by (bit_vector);
}

/// For a power-of-two length, masking with `len - 1` is reduction mod `len`.
pub proof fn lemma_mask_is_mod(x: usize, len: usize, k: nat)
    requires
        len == pow2(k),
        k < usize::BITS,
    ensures
        (x & (len - 1) as usize) == x % len,
{
    vstd::arithmetic::power2::lemma_pow2_pos(k);
    assert(low_bits_mask(k) == pow2(k) - 1);
    lemma_usize_low_bits_mask_is_mod(x, k);
}

fn masked(x: usize, len: usize) -> (r: usize)
    requires
        len >= 1,
    ensures
        r == (x & (len - 1) as usize),
        r < len,
{
    let m = len - 1;
    proof {
        lemma_and_mask_le(x, m);
    }
    x & m
}

/// A cartridge with no bank controller: 32 KiB of ROM mapped flat and an
/// always-enabled 8 KiB RAM at 0xA000.
pub struct NoMBC {
    pub rom: Vec<u8>,
    pub ram: Vec<u8>,
}

impl NoMBC {
    pub open spec fn wf(self) -> bool {
        self.rom.len() >= 0x8000 && self.ram.len() == 0x2000
    }

    pub open spec fn spec_read(self, address: u16) -> u8 {
        if address <= 0x7FFF {
            self.rom@[address as int]
        } else {
            self.ram@[address - 0xA000]
        }
    }

    pub fn new(rom: Vec<u8>) -> (r: Self)
        requires
            rom.len() >= 0x8000,
        ensures
            r.wf(),
            r.rom == rom,
    {
        Self { rom, ram: crate::bytes::zero_vec(0x2000) }
    }

    pub fn read_byte(&self, address: u16) -> (r: u8)
        requires
            self.wf(),
            spec_cart_addr(address),
        ensures
            r == self.spec_read(address),
    {
        if address <= 0x7FFF {
            self.rom[address as usize]
        } else {
            self.ram[(address - 0xA000) as usize]
        }
    }

    /// ROM writes are dropped; RAM writes stick.
    pub fn write_byte(&mut self, address: u16, value: u8)
        requires
            old(self).wf(),
            spec_cart_addr(address),
        ensures
            final(self).wf(),
            final(self).rom == old(self).rom,
            address <= 0x7FFF ==> final(self).ram == old(self).ram,
            address >= 0xA000 ==> final(self).ram@ == old(self).ram@.update(
                address - 0xA000,
                value,
            ),
    {
        if address >= 0xA000 {
            self.ram.set((address - 0xA000) as usize, value);
        }
    }
}

/// The banking registers of the first controller kind (MBC1): a 5-bit ROM
/// bank number (0 clamped to 1), a 2-bit register that selects the RAM bank
/// or the upper ROM bank bits, the RAM-enable latch, and the mode select.
#[derive(Clone, Copy, Debug, PartialEq, Eq, Structural)]
pub struct Mbc1Regs {
    pub rom_bank_lower: u8,
    pub ram_or_upper_rom_bank: u8,
    pub ram_enabled: bool,
    pub advanced_mode: bool,
}

pub struct MBC1<S: GameSave> {
    pub rom: Vec<u8>,
    pub ram: Vec<u8>,
    pub regs: Mbc1Regs,
    pub saver: S,
}

impl Mbc1Regs {
    pub open spec fn wf(self) -> bool {
        1 <= self.rom_bank_lower <= 0x1F && self.ram_or_upper_rom_bank <= 3
    }

    /// The banking registers after a control write. A disable of enabled
    /// RAM additionally commits the RAM image to the save store, which the
    /// registers do not record.
    pub open spec fn spec_after_write(self, address: u16, value: u8) -> Mbc1Regs {
        if address <= 0x1FFF {
            Mbc1Regs { ram_enabled: spec_ram_enable_value(value), ..self }
        } else if address <= 0x3FFF {
            Mbc1Regs {
                rom_bank_lower: if value % 32 == 0 {
                    1u8
                } else {
                    (value % 32) as u8
                },
                ..self
            }
        } else if address <= 0x5FFF {
            Mbc1Regs { ram_or_upper_rom_bank: (value % 4) as u8, ..self }
        } else if address <= 0x7FFF {
            Mbc1Regs { advanced_mode: value % 2 == 1, ..self }
        } else {
            self
        }
    }
}

/// The flat ROM offset selected by the MBC1 registers for an address of the
/// ROM window, before mirroring. In the fixed window 0x0000..=0x3FFF,
/// simple mode maps straight through while advanced mode applies the upper
/// bank bits; in the switchable window the full 7-bit bank number applies.
pub open spec fn spec_mbc1_rom_address(regs: Mbc1Regs, address: u16) -> usize {
    if address <= 0x3FFF {
        if regs.advanced_mode {
            (regs.ram_or_upper_rom_bank * 32 * 0x4000 + address) as usize
        } else {
            address as usize
        }
    } else {
        ((regs.ram_or_upper_rom_bank * 32 + regs.rom_bank_lower) * 0x4000 + (address
            - 0x4000)) as usize
    }
}

/// The RAM offset selected by the MBC1 registers, before mirroring: the
/// upper bank bits select an 8 KiB RAM bank in advanced mode only.
pub open spec fn spec_mbc1_ram_address(regs: Mbc1Regs, address: u16) -> usize {
    if regs.advanced_mode {
        ((address - 0xA000) + regs.ram_or_upper_rom_bank * 0x2000) as usize
    } else {
        (address - 0xA000) as usize
    }
}

/// The byte an MBC1 cartridge returns: every ROM and RAM offset is masked
/// with the size minus one, so an undersized image mirrors. Disabled or
/// absent RAM reads 0xFF.
pub open spec fn spec_mbc1_read(regs: Mbc1Regs, rom: Seq<u8>, ram: Seq<u8>, address: u16) -> u8 {
    if address <= 0x7FFF {
        rom[(spec_mbc1_rom_address(regs, address) & (rom.len() - 1) as usize) as int]
    } else {
        if regs.ram_enabled && ram.len() > 0 {
            ram[(spec_mbc1_ram_address(regs, address) & (ram.len() - 1) as usize) as int]
        } else {
            0xFF
        }
    }
}

/// The MBC1 RAM contents after a write: only a write of the RAM window with
/// RAM enabled and present changes them, at the masked offset.
pub open spec fn spec_mbc1_ram_after_write(
    regs: Mbc1Regs,
    ram: Seq<u8>,
    address: u16,
    value: u8,
) -> Seq<u8> {
    if 0xA000 <= address && regs.ram_enabled && ram.len() > 0 {
        ram.update(
            (spec_mbc1_ram_address(regs, address) & (ram.len() - 1) as usize) as int,
            value,
        )
    } else {
        ram
    }
}

impl<S: GameSave> MBC1<S> {
    pub open spec fn wf(self) -> bool {
        self.regs.wf()
    }

    pub fn new(rom: Vec<u8>, ram_size: usize, saver: S) -> (r: Self)
        ensures
            r.wf(),
            r.rom == rom,
            r.ram.len() == ram_size,
            r.regs == (Mbc1Regs {
                rom_bank_lower: 1u8,
                ram_or_upper_rom_bank: 0u8,
                ram_enabled: false,
                advanced_mode: false,
            }),
    {
        let ram = crate::saver::load_saved_ram(&saver, ram_size);
        Self {
            rom,
            ram,
            regs: Mbc1Regs {
                rom_bank_lower: 1,
                ram_or_upper_rom_bank: 0,
                ram_enabled: false,
                advanced_mode: false,
            },
            saver,
        }
    }

    pub fn get_rom_address(&self, address: u16) -> (r: usize)
        requires
            self.wf(),
            address <= 0x7FFF,
        ensures
            r == spec_mbc1_rom_address(self.regs, address),
            r < 0x200000,
    {
        if address <= MBC1_ROM_BANK_0_END_ADDR {
            if self.regs.advanced_mode {
                self.regs.ram_or_upper_rom_bank as usize * 32 * 0x4000 + address as usize
            } else {
                address as usize
            }
        } else {
            let rom_bank = self.regs.ram_or_upper_rom_bank as usize * 32
                + self.regs.rom_bank_lower as usize;
            rom_bank * 0x4000 + (address - MBC1_ROM_BANK_01_7F_START_ADDR) as usize
        }
    }

    pub fn get_ram_address(&self, address: u16) -> (r: usize)
        requires
            self.wf(),
            0xA000 <= address <= 0xBFFF,
        ensures
            r == spec_mbc1_ram_address(self.regs, address),
            r < 0x8000,
    {
        if self.regs.advanced_mode {
            (address - MBC1_RAM_START_ADDR) as usize + self.regs.ram_or_upper_rom_bank as usize
                * 0x2000
        } else {
            (address - MBC1_RAM_START_ADDR) as usize
        }
    }

    pub fn read_byte(&self, address: u16) -> (r: u8)
        requires
            self.wf(),
            self.rom.len() > 0,
            spec_cart_addr(address),
        ensures
            r == spec_mbc1_read(self.regs, self.rom@, self.ram@, address),
    {
        if address <= 0x7FFF {
            let idx = masked(self.get_rom_address(address), self.rom.len());
            self.rom[idx]
        } else {
            if self.regs.ram_enabled && self.ram.len() > 0 {
                let idx = masked(self.get_ram_address(address), self.ram.len());
                self.ram[idx]
            } else {
                0xFF
            }
        }
    }

    /// Control writes set the banking registers; RAM-window writes store
    /// through the mask. Disabling enabled RAM commits the RAM image to the
    /// save store; a failure of the store is the host's to report and does
    /// not stop emulation.
    pub fn write_byte(&mut self, address: u16, value: u8)
        requires
            old(self).wf(),
            spec_cart_addr(address),
        ensures
            final(self).wf(),
            final(self).rom == old(self).rom,
            final(self).regs == old(self).regs.spec_after_write(address, value),
            final(self).ram@ == spec_mbc1_ram_after_write(
                old(self).regs,
                old(self).ram@,
                address,
                value,
            ),
    {
        if address <= 0x1FFF {
            let enabled = value % 16 == 0xA;
            if self.regs.ram_enabled && !enabled {
                let _ = self.saver.save(&self.ram);
            }
            self.regs.ram_enabled = enabled;
        } else if address <= 0x3FFF {
            let low = value % 32;
            self.regs.rom_bank_lower = if low == 0 {
                1
            } else {
                low
            };
        } else if address <= 0x5FFF {
            self.regs.ram_or_upper_rom_bank = value % 4;
        } else if address <= 0x7FFF {
            self.regs.advanced_mode = value % 2 == 1;
        } else {
            if self.regs.ram_enabled && self.ram.len() > 0 {
                let idx = masked(self.get_ram_address(address), self.ram.len());
                self.ram.set(idx, value);
            }
        }
    }
}

/// Law: undersized-ROM mirroring. When the ROM size is a power of two, the
/// byte read from the ROM window is the raw ROM byte at the selected offset
/// reduced mod the ROM size.
pub proof fn lemma_mbc1_rom_mirroring(regs: Mbc1Regs, rom: Seq<u8>, ram: Seq<u8>, address: u16, k: nat)
    requires
        regs.wf(),
        address <= 0x7FFF,
        rom.len() == pow2(k),
        rom.len() <= usize::MAX,
        k < usize::BITS,
    ensures
        spec_mbc1_read(regs, rom, ram, address) == rom[spec_mbc1_rom_address(regs, address) as int % rom.len() as int],
{
    vstd::arithmetic::power2::lemma_pow2_pos(k);
    assert(rom.len() as usize == rom.len());
    lemma_mask_is_mod(spec_mbc1_rom_address(regs, address), rom.len() as usize, k);
}

/// Law: cartridge-RAM round trip. Enabling RAM, storing a byte, disabling
/// RAM, then enabling it again reads the same byte back, whatever the
/// banking registers held before, as long as RAM is present.
pub proof fn lemma_mbc1_ram_round_trip(
    regs: Mbc1Regs,
    rom: Seq<u8>,
    ram: Seq<u8>,
    address: u16,
    value: u8,
)
    requires
        regs.wf(),
        ram.len() > 0,
        0xA000 <= address <= 0xBFFF,
    ensures
        ({
            let r1 = regs.spec_after_write(0x0000, 0x0A);
            let ram1 = spec_mbc1_ram_after_write(r1, ram, address, value);
            let r2 = r1.spec_after_write(0x0000, 0x00);
            let r3 = r2.spec_after_write(0x0000, 0x0A);
            spec_mbc1_read(r3, rom, ram1, address) == value
        }),
{
    let r1 = regs.spec_after_write(0x0000, 0x0A);
    let idx = (spec_mbc1_ram_address(r1, address) & (ram.len() - 1) as usize) as int;
    lemma_and_mask_le(spec_mbc1_ram_address(r1, address), (ram.len() - 1) as usize);
    assert(0 <= idx < ram.len());
}


/// The registers of the second controller kind (MBC2): a 4-bit ROM bank
/// number (0 clamped to 1) and the RAM-enable latch. Address bit 8 of a
/// control write picks between them.
#[derive(Clone, Copy, Debug, PartialEq, Eq, Structural)]
pub struct Mbc2Regs {
    pub rom_bank: u8,
    pub ram_enabled: bool,
}

impl Mbc2Regs {
    pub open spec fn wf(self) -> bool {
        1 <= self.rom_bank <= 0x0F
    }

    pub open spec fn spec_after_write(self, address: u16, value: u8) -> Mbc2Regs {
        if address <= 0x3FFF {
            if address / 256 % 2 == 0 {
                Mbc2Regs { ram_enabled: spec_ram_enable_value(value), ..self }
            } else {
                Mbc2Regs {
                    rom_bank: if value % 16 == 0 {
                        1u8
                    } else {
                        (value % 16) as u8
                    },
                    ..self
                }
            }
        } else {
            self
        }
    }
}

/// The flat ROM offset MBC2 selects in the switchable window.
pub open spec fn spec_mbc2_rom_address(regs: Mbc2Regs, address: u16) -> usize {
    (regs.rom_bank * 0x4000 + (address - 0x4000)) as usize
}

/// The byte an MBC2 cartridge returns. Its 512 half-byte RAM mirrors every
/// 512 bytes; disabled RAM reads 0xFF.
pub open spec fn spec_mbc2_read(regs: Mbc2Regs, rom: Seq<u8>, ram: Seq<u8>, address: u16) -> u8 {
    if address <= 0x3FFF {
        rom[address as int]
    } else if address <= 0x7FFF {
        rom[(spec_mbc2_rom_address(regs, address) & (rom.len() - 1) as usize) as int]
    } else {
        if regs.ram_enabled {
            ram[(address - 0xA000) as int % 512]
        } else {
            0xFF
        }
    }
}

/// The MBC2 RAM contents after a write: stores keep only the low nibble,
/// with the high nibble reading back as ones, mirrored every 512 bytes.
pub open spec fn spec_mbc2_ram_after_write(
    regs: Mbc2Regs,
    ram: Seq<u8>,
    address: u16,
    value: u8,
) -> Seq<u8> {
    if 0xA000 <= address && regs.ram_enabled {
        ram.update((address - 0xA000) as int % 512, (0xF0 + value % 16) as u8)
    } else {
        ram
    }
}

pub struct MBC2<S: GameSave> {
    pub rom: Vec<u8>,
    pub ram: Vec<u8>,
    pub regs: Mbc2Regs,
    pub saver: S,
}

impl<S: GameSave> MBC2<S> {
    pub open spec fn wf(self) -> bool {
        self.regs.wf() && self.rom.len() >= 0x4000 && self.ram.len() == 512
    }

    pub fn new(rom: Vec<u8>, saver: S) -> (r: Self)
        requires
            rom.len() >= 0x4000,
        ensures
            r.wf(),
            r.rom == rom,
            r.ram.len() == 512,
            r.regs == (Mbc2Regs { rom_bank: 1u8, ram_enabled: false }),
    {
        let ram = crate::saver::load_saved_ram(&saver, 512);
        Self { rom, ram, regs: Mbc2Regs { rom_bank: 1, ram_enabled: false }, saver }
    }

    pub fn get_rom_address(&self, address: u16) -> (r: usize)
        requires
            self.wf(),
            0x4000 <= address <= 0x7FFF,
        ensures
            r == spec_mbc2_rom_address(self.regs, address),
            r < 0x40000,
    {
        self.regs.rom_bank as usize * 0x4000 + (address - 0x4000) as usize
    }

    pub fn read_byte(&self, address: u16) -> (r: u8)
        requires
            self.wf(),
            spec_cart_addr(address),
        ensures
            r == spec_mbc2_read(self.regs, self.rom@, self.ram@, address),
    {
        if address <= 0x3FFF {
            self.rom[address as usize]
        } else if address <= 0x7FFF {
            let idx = masked(self.get_rom_address(address), self.rom.len());
            self.rom[idx]
        } else {
            if self.regs.ram_enabled {
                self.ram[(address - 0xA000) as usize % 512]
            } else {
                0xFF
            }
        }
    }

    /// Control writes below 0x4000 set the registers; RAM-window writes
    /// store the low nibble. Disabling enabled RAM commits the RAM image to
    /// the save store.
    pub fn write_byte(&mut self, address: u16, value: u8)
        requires
            old(self).wf(),
            spec_cart_addr(address),
        ensures
            final(self).wf(),
            final(self).rom == old(self).rom,
            final(self).regs == old(self).regs.spec_after_write(address, value),
            final(self).ram@ == spec_mbc2_ram_after_write(
                old(self).regs,
                old(self).ram@,
                address,
                value,
            ),
    {
        if address <= 0x3FFF {
            if address / 256 % 2 == 0 {
                let enabled = value % 16 == 0xA;
                if self.regs.ram_enabled && !enabled {
                    let _ = self.saver.save(&self.ram);
                }
                self.regs.ram_enabled = enabled;
            } else {
                let bank = value % 16;
                self.regs.rom_bank = if bank == 0 {
                    1
                } else {
                    bank
                };
            }
        } else if address >= 0xA000 {
            if self.regs.ram_enabled {
                self.ram.set((address - 0xA000) as usize % 512, 0xF0 + value % 16);
            }
        }
    }
}

/// The registers of the fifth controller kind (MBC5): a 9-bit ROM bank
/// number split over two ranges, a 4-bit RAM bank, and the RAM-enable
/// latch.
#[derive(Clone, Copy, Debug, PartialEq, Eq, Structural)]
pub struct Mbc5Regs {
    pub rom_bank_lower: u8,
    pub rom_bank_9th_bit: bool,
    pub ram_enabled: bool,
    pub ram_bank: u8,
}

impl Mbc5Regs {
    pub open spec fn wf(self) -> bool {
        self.ram_bank <= 0x0F
    }

    pub open spec fn spec_after_write(self, address: u16, value: u8) -> Mbc5Regs {
        if address <= 0x1FFF {
            Mbc5Regs { ram_enabled: spec_ram_enable_value(value), ..self }
        } else if address <= 0x2FFF {
            Mbc5Regs { rom_bank_lower: value, ..self }
        } else if address <= 0x3FFF {
            Mbc5Regs { rom_bank_9th_bit: value % 2 == 1, ..self }
        } else if address <= 0x5FFF {
            Mbc5Regs { ram_bank: (value % 16) as u8, ..self }
        } else {
            self
        }
    }
}

/// The flat ROM offset MBC5 selects in the switchable window: a full 9-bit
/// bank number, so bank 0 can be mapped there too.
pub open spec fn spec_mbc5_rom_address(regs: Mbc5Regs, address: u16) -> usize {
    (((if regs.rom_bank_9th_bit {
        256int
    } else {
        0
    }) + regs.rom_bank_lower) * 0x4000 + (address - 0x4000)) as usize
}

/// The flat RAM offset MBC5 selects.
pub open spec fn spec_mbc5_ram_address(regs: Mbc5Regs, address: u16) -> usize {
    ((address - 0xA000) + regs.ram_bank * 0x2000) as usize
}

/// The byte an MBC5 cartridge returns; offsets are masked as for MBC1.
pub open spec fn spec_mbc5_read(regs: Mbc5Regs, rom: Seq<u8>, ram: Seq<u8>, address: u16) -> u8 {
    if address <= 0x3FFF {
        rom[address as int]
    } else if address <= 0x7FFF {
        rom[(spec_mbc5_rom_address(regs, address) & (rom.len() - 1) as usize) as int]
    } else {
        if regs.ram_enabled && ram.len() > 0 {
            ram[(spec_mbc5_ram_address(regs, address) & (ram.len() - 1) as usize) as int]
        } else {
            0xFF
        }
    }
}

/// The MBC5 RAM contents after a write.
pub open spec fn spec_mbc5_ram_after_write(
    regs: Mbc5Regs,
    ram: Seq<u8>,
    address: u16,
    value: u8,
) -> Seq<u8> {
    if 0xA000 <= address && regs.ram_enabled && ram.len() > 0 {
        ram.update(
            (spec_mbc5_ram_address(regs, address) & (ram.len() - 1) as usize) as int,
            value,
        )
    } else {
        ram
    }
}

pub struct MBC5<S: GameSave> {
    pub rom: Vec<u8>,
    pub ram: Vec<u8>,
    pub regs: Mbc5Regs,
    pub saver: S,
}

impl<S: GameSave> MBC5<S> {
    pub open spec fn wf(self) -> bool {
        self.regs.wf() && self.rom.len() >= 0x4000
    }

    pub fn new(rom: Vec<u8>, ram_size: usize, saver: S) -> (r: Self)
        requires
            rom.len() >= 0x4000,
        ensures
            r.wf(),
            r.rom == rom,
            r.ram.len() == ram_size,
            r.regs == (Mbc5Regs {
                rom_bank_lower: 1u8,
                rom_bank_9th_bit: false,
                ram_enabled: false,
                ram_bank: 0u8,
            }),
    {
        let ram = crate::saver::load_saved_ram(&saver, ram_size);
        Self {
            rom,
            ram,
            regs: Mbc5Regs {
                rom_bank_lower: 1,
                rom_bank_9th_bit: false,
                ram_enabled: false,
                ram_bank: 0,
            },
            saver,
        }
    }

    pub fn get_rom_address(&self, address: u16) -> (r: usize)
        requires
            self.wf(),
            0x4000 <= address <= 0x7FFF,
        ensures
            r == spec_mbc5_rom_address(self.regs, address),
            r < 0x800000,
    {
        let rom_bank: usize = (if self.regs.rom_bank_9th_bit {
            256usize
        } else {
            0
        }) + self.regs.rom_bank_lower as usize;
        rom_bank * 0x4000 + (address - 0x4000) as usize
    }

    pub fn get_ram_address(&self, address: u16) -> (r: usize)
        requires
            self.wf(),
            0xA000 <= address <= 0xBFFF,
        ensures
            r == spec_mbc5_ram_address(self.regs, address),
            r < 0x20000,
    {
        (address - 0xA000) as usize + self.regs.ram_bank as usize * 0x2000
    }

    pub fn read_byte(&self, address: u16) -> (r: u8)
        requires
            self.wf(),
            spec_cart_addr(address),
        ensures
            r == spec_mbc5_read(self.regs, self.rom@, self.ram@, address),
    {
        if address <= 0x3FFF {
            self.rom[address as usize]
        } else if address <= 0x7FFF {
            let idx = masked(self.get_rom_address(address), self.rom.len());
            self.rom[idx]
        } else {
            if self.regs.ram_enabled && self.ram.len() > 0 {
                let idx = masked(self.get_ram_address(address), self.ram.len());
                self.ram[idx]
            } else {
                0xFF
            }
        }
    }

    /// Control writes set the registers; RAM-window writes store through
    /// the mask. Disabling enabled RAM commits the RAM image to the save
    /// store.
    pub fn write_byte(&mut self, address: u16, value: u8)
        requires
            old(self).wf(),
            spec_cart_addr(address),
        ensures
            final(self).wf(),
            final(self).rom == old(self).rom,
            final(self).regs == old(self).regs.spec_after_write(address, value),
            final(self).ram@ == spec_mbc5_ram_after_write(
                old(self).regs,
                old(self).ram@,
                address,
                value,
            ),
    {
        if address <= 0x1FFF {
            let enabled = value % 16 == 0xA;
            if self.regs.ram_enabled && !enabled {
                let _ = self.saver.save(&self.ram);
            }
            self.regs.ram_enabled = enabled;
        } else if address <= 0x2FFF {
            self.regs.rom_bank_lower = value;
        } else if address <= 0x3FFF {
            self.regs.rom_bank_9th_bit = value % 2 == 1;
        } else if address <= 0x5FFF {
            self.regs.ram_bank = value % 16;
        } else if address >= 0xA000 {
            if self.regs.ram_enabled && self.ram.len() > 0 {
                let idx = masked(self.get_ram_address(address), self.ram.len());
                self.ram.set(idx, value);
            }
        }
    }
}

/// The controller kinds a cartridge header can ask for.
pub enum MbcKind<S: GameSave> {
    No(NoMBC),
    One(MBC1<S>),
    Two(MBC2<S>),
    Five(MBC5<S>),
}

/// Whether a header type code names a supported controller.
pub open spec fn spec_supported_mbc_code(code: u8) -> bool {
    code == 0x00 || 0x01 <= code <= 0x03 || 0x05 <= code <= 0x06 || 0x19 <= code <= 0x1E
}


/// How one cartridge write relates the controller's state before and
/// after: the kind is kept, the ROM is never written, and the registers and
/// RAM move exactly as the selected controller specifies.
pub open spec fn spec_mbc_write_rel<S: GameSave>(
    pre: MBC<S>,
    post: MBC<S>,
    address: u16,
    value: u8,
) -> bool {
    &&& (pre.target_mbc matches MbcKind::No(m) ==> post.target_mbc is No && ({
        let f = post.target_mbc->No_0;
        &&& f.rom == m.rom
        &&& f.ram@ == (if 0xA000 <= address {
            m.ram@.update(address - 0xA000, value)
        } else {
            m.ram@
        })
    }))
    &&& (pre.target_mbc matches MbcKind::One(m) ==> post.target_mbc is One && ({
        let f = post.target_mbc->One_0;
        &&& f.rom == m.rom
        &&& f.regs == m.regs.spec_after_write(address, value)
        &&& f.ram@ == spec_mbc1_ram_after_write(m.regs, m.ram@, address, value)
    }))
    &&& (pre.target_mbc matches MbcKind::Two(m) ==> post.target_mbc is Two && ({
        let f = post.target_mbc->Two_0;
        &&& f.rom == m.rom
        &&& f.regs == m.regs.spec_after_write(address, value)
        &&& f.ram@ == spec_mbc2_ram_after_write(m.regs, m.ram@, address, value)
    }))
    &&& (pre.target_mbc matches MbcKind::Five(m) ==> post.target_mbc is Five && ({
        let f = post.target_mbc->Five_0;
        &&& f.rom == m.rom
        &&& f.regs == m.regs.spec_after_write(address, value)
        &&& f.ram@ == spec_mbc5_ram_after_write(m.regs, m.ram@, address, value)
    }))
}

/// The cartridge's bank controller, dispatching reads and writes of the
/// ROM and RAM windows to whichever controller the header asked for.
pub struct MBC<S: GameSave> {
    pub target_mbc: MbcKind<S>,
}

impl<S: GameSave> MBC<S> {
    pub open spec fn wf(self) -> bool {
        match self.target_mbc {
            MbcKind::No(m) => m.wf(),
            MbcKind::One(m) => m.wf() && m.rom.len() >= 0x8000,
            MbcKind::Two(m) => m.wf(),
            MbcKind::Five(m) => m.wf(),
        }
    }

    /// The byte the selected controller returns.
    pub open spec fn spec_read(self, address: u16) -> u8 {
        match self.target_mbc {
            MbcKind::No(m) => m.spec_read(address),
            MbcKind::One(m) => spec_mbc1_read(m.regs, m.rom@, m.ram@, address),
            MbcKind::Two(m) => spec_mbc2_read(m.regs, m.rom@, m.ram@, address),
            MbcKind::Five(m) => spec_mbc5_read(m.regs, m.rom@, m.ram@, address),
        }
    }

    pub fn new(code: u8, rom: Vec<u8>, ram_size: usize, saver: S) -> (r: Self)
        requires
            spec_supported_mbc_code(code),
            rom.len() >= 0x8000,
        ensures
            r.wf(),
            code == 0x00 ==> r.target_mbc is No,
            0x01 <= code <= 0x03 ==> r.target_mbc is One && r.target_mbc->One_0.ram.len()
                == ram_size,
            0x05 <= code <= 0x06 ==> r.target_mbc is Two,
            0x19 <= code <= 0x1E ==> r.target_mbc is Five && r.target_mbc->Five_0.ram.len()
                == ram_size,
    {
        let target_mbc = if code == 0x00 {
            MbcKind::No(NoMBC::new(rom))
        } else if code <= 0x03 {
            MbcKind::One(MBC1::new(rom, ram_size, saver))
        } else if code <= 0x06 {
            MbcKind::Two(MBC2::new(rom, saver))
        } else {
            MbcKind::Five(MBC5::new(rom, ram_size, saver))
        };
        Self { target_mbc }
    }

    pub fn read_byte(&self, address: u16) -> (r: u8)
        requires
            self.wf(),
            spec_cart_addr(address),
        ensures
            r == self.spec_read(address),
    {
        match &self.target_mbc {
            MbcKind::No(m) => m.read_byte(address),
            MbcKind::One(m) => m.read_byte(address),
            MbcKind::Two(m) => m.read_byte(address),
            MbcKind::Five(m) => m.read_byte(address),
        }
    }

    pub fn write_byte(&mut self, address: u16, value: u8)
        requires
            old(self).wf(),
            spec_cart_addr(address),
        ensures
            final(self).wf(),
            spec_mbc_write_rel(*old(self), *final(self), address, value),
    {
        match &mut self.target_mbc {
            MbcKind::No(m) => m.write_byte(address, value),
            MbcKind::One(m) => m.write_byte(address, value),
            MbcKind::Two(m) => m.write_byte(address, value),
            MbcKind::Five(m) => m.write_byte(address, value),
        }
    }
}

} // verus!

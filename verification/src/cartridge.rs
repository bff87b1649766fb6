use vstd::prelude::*;

use crate::config::Config;
use crate::mbc::MBC;
use crate::mbc::MbcKind;
use crate::mbc::spec_cart_addr;
use crate::mbc::spec_supported_mbc_code;
use crate::mode::Mode;
use crate::saver::GameSave;
use vstd::wrapping::u8_specs;

verus! {

pub const ROM_CHECKSUM_ADDRESS: usize = 0x014D;

pub const CARTRIDGE_TYPE_ADDRESS: usize = 0x0147;

/// Starting the machine can fail in one way only: the cartridge header asks
/// for a bank controller this core does not support.
#[derive(Clone, Copy, Debug, PartialEq, Eq, Structural)]
pub enum CartridgeError {
    UnsupportedCartridge,
}

/// The checksum over header bytes 0x134..=`n`-1: each byte is subtracted
/// and the sum decremented once more, wrapping on a byte.
pub open spec fn spec_checksum_upto(rom: Seq<u8>, n: int) -> u8
    decreases n,
{
    if n <= 0x134 {
        0u8
    } else {
        u8_specs::wrapping_sub(
            u8_specs::wrapping_sub(spec_checksum_upto(rom, n - 1), rom[n - 1]),
            1,
        )
    }
}

/// The header checksum computed over bytes 0x134..=0x14C.
pub open spec fn spec_rom_checksum(rom: Seq<u8>) -> u8 {
    spec_checksum_upto(rom, 0x14D)
}

/// The checksum a well-formed header carries at 0x14D.
pub fn compute_rom_checksum(rom: &Vec<u8>) -> (r: u8)
    requires
        rom.len() >= 0x14D,
    ensures
        r == spec_rom_checksum(rom@),
{
    let mut checksum: u8 = 0;
    let mut addr: usize = 0x134;
    while addr < 0x14D
        invariant
            0x134 <= addr <= 0x14D,
            rom.len() >= 0x14D,
            checksum == spec_checksum_upto(rom@, addr as int),
        decreases 0x14D - addr,
    {
        checksum = checksum.wrapping_sub(rom[addr]).wrapping_sub(1);
        addr += 1;
    }
    checksum
}

/// Whether the checksum byte stored in the header matches `checksum`.
pub fn validate_rom_checksum(rom: &Vec<u8>, checksum: u8) -> (r: bool)
    requires
        rom.len() > 0x14D,
    ensures
        r == (rom@[0x14D as int] == checksum),
{
    rom[ROM_CHECKSUM_ADDRESS] == checksum
}

/// The checksum that identifies a cartridge image for save files.
pub uninterp spec fn crc32_of(bytes: Seq<u8>) -> u32;

/// Relies on crc::Crc::<u32>::checksum with the CRC-32/ISO-HDLC algorithm
/// from the crate's catalog: the checksum is a function of the bytes alone.
#[verifier::external_body]
fn checksum_identifier(rom: &Vec<u8>) -> (r: u32)
    ensures
        r == crc32_of(rom@),
{
    let alg: crc::Crc<u32> = crc::Crc::<u32>::new(&crc::CRC_32_ISO_HDLC);
    alg.checksum(rom.as_slice())
}

/// An ASCII hexadecimal digit, lower case.
pub open spec fn spec_hex_digit(d: u8) -> u8 {
    if d % 16 < 10 {
        (48 + d % 16) as u8
    } else {
        (87 + d % 16) as u8
    }
}

fn hex_digit(d: u8) -> (r: u8)
    ensures
        r == spec_hex_digit(d),
{
    if d % 16 < 10 {
        48 + d % 16
    } else {
        87 + d % 16
    }
}

/// A 32-bit value as eight hexadecimal digits, most significant first.
pub open spec fn spec_hex32(v: u32) -> Seq<u8> {
    seq![
        spec_hex_digit((v / 0x10000000) as u8),
        spec_hex_digit((v / 0x1000000 % 16) as u8),
        spec_hex_digit((v / 0x100000 % 16) as u8),
        spec_hex_digit((v / 0x10000 % 16) as u8),
        spec_hex_digit((v / 0x1000 % 16) as u8),
        spec_hex_digit((v / 0x100 % 16) as u8),
        spec_hex_digit((v / 0x10 % 16) as u8),
        spec_hex_digit((v % 16) as u8),
    ]
}

fn hex32(v: u32) -> (r: Vec<u8>)
    ensures
        r@ == spec_hex32(v),
{
    let mut out: Vec<u8> = Vec::new();
    out.push(hex_digit((v / 0x10000000) as u8));
    out.push(hex_digit((v / 0x1000000 % 16) as u8));
    out.push(hex_digit((v / 0x100000 % 16) as u8));
    out.push(hex_digit((v / 0x10000 % 16) as u8));
    out.push(hex_digit((v / 0x1000 % 16) as u8));
    out.push(hex_digit((v / 0x100 % 16) as u8));
    out.push(hex_digit((v / 0x10 % 16) as u8));
    out.push(hex_digit((v % 16) as u8));
    assert(out@ =~= spec_hex32(v));
    out
}

/// A sequence without its leading zero bytes.
pub open spec fn spec_skip_leading_zeros(s: Seq<u8>) -> Seq<u8>
    decreases s.len(),
{
    if s.len() > 0 && s[0] == 0 {
        spec_skip_leading_zeros(s.drop_first())
    } else {
        s
    }
}

/// A sequence without its trailing zero bytes.
pub open spec fn spec_skip_trailing_zeros(s: Seq<u8>) -> Seq<u8>
    decreases s.len(),
{
    if s.len() > 0 && s[s.len() - 1] == 0 {
        spec_skip_trailing_zeros(s.drop_last())
    } else {
        s
    }
}

/// The cartridge title as stored in save-file names: header bytes
/// 0x134..=0x143 with the zero padding removed from both ends.
pub open spec fn spec_trimmed_title(rom: Seq<u8>) -> Seq<u8> {
    spec_skip_trailing_zeros(spec_skip_leading_zeros(rom.subrange(0x134, 0x144)))
}

/// `s` without its leading and trailing zero bytes.
fn trim_zeros(s: &Vec<u8>) -> (r: Vec<u8>)
    ensures
        r@ == spec_skip_trailing_zeros(spec_skip_leading_zeros(s@)),
{
    let n = s.len();
    assert(s@.subrange(0, n as int) =~= s@);
    let mut lo: usize = 0;
    while lo < n && s[lo] == 0
        invariant
            lo <= n == s.len(),
            spec_skip_leading_zeros(s@) == spec_skip_leading_zeros(s@.subrange(lo as int, n as int)),
        decreases n - lo,
    {
        proof {
            assert(s@.subrange(lo as int, n as int).drop_first() =~= s@.subrange(
                lo as int + 1,
                n as int,
            ));
        }
        lo += 1;
    }
    assert(spec_skip_leading_zeros(s@) =~= s@.subrange(lo as int, n as int));
    let mut hi: usize = n;
    while hi > lo && s[hi - 1] == 0
        invariant
            lo <= hi <= n == s.len(),
            spec_skip_leading_zeros(s@) == s@.subrange(lo as int, n as int),
            spec_skip_trailing_zeros(s@.subrange(lo as int, n as int)) == spec_skip_trailing_zeros(
                s@.subrange(lo as int, hi as int),
            ),
        decreases hi,
    {
        proof {
            assert(s@.subrange(lo as int, hi as int).drop_last() =~= s@.subrange(
                lo as int,
                hi as int - 1,
            ));
        }
        hi -= 1;
    }
    assert(spec_skip_trailing_zeros(s@.subrange(lo as int, hi as int)) =~= s@.subrange(
        lo as int,
        hi as int,
    ));
    let mut out: Vec<u8> = Vec::new();
    let mut i: usize = lo;
    while i < hi
        invariant
            lo <= i <= hi <= s.len(),
            out@ =~= s@.subrange(lo as int, i as int),
        decreases hi - i,
    {
        out.push(s[i]);
        assert(out@ =~= s@.subrange(lo as int, i as int + 1));
        i += 1;
    }
    assert(out@ =~= s@.subrange(lo as int, hi as int));
    out
}

/// The name under which a cartridge's RAM is saved: the trimmed title, a
/// hyphen, and the image checksum as eight hexadecimal digits.
pub fn save_title(rom: &Vec<u8>) -> (r: Vec<u8>)
    requires
        rom.len() >= 0x8000,
    ensures
        r@ == spec_trimmed_title(rom@) + seq![45u8] + spec_hex32(crc32_of(rom@)),
{
    let mut title_bytes: Vec<u8> = Vec::new();
    let mut i: usize = 0x134;
    while i < 0x144
        invariant
            0x134 <= i <= 0x144,
            rom.len() >= 0x8000,
            title_bytes@ =~= rom@.subrange(0x134, i as int),
        decreases 0x144 - i,
    {
        title_bytes.push(rom[i]);
        assert(title_bytes@ =~= rom@.subrange(0x134, i as int + 1));
        i += 1;
    }
    assert(title_bytes@ =~= rom@.subrange(0x134, 0x144));
    let mut out = trim_zeros(&title_bytes);
    out.push(45);
    let digits = hex32(checksum_identifier(rom));
    let mut j: usize = 0;
    while j < digits.len()
        invariant
            j <= digits.len(),
            out@ =~= spec_trimmed_title(rom@) + seq![45u8] + digits@.subrange(0, j as int),
        decreases digits.len() - j,
    {
        out.push(digits[j]);
        assert(out@ =~= spec_trimmed_title(rom@) + seq![45u8] + digits@.subrange(0, j as int + 1));
        j += 1;
    }
    assert(digits@.subrange(0, digits@.len() as int) =~= digits@);
    out
}

/// The parsed header fields the core keeps.
pub struct Header {
    pub title: Vec<u8>,
    pub new_licensee_code: Vec<u8>,
    pub old_licensee_code: u8,
    pub rom_size: u8,
    pub ram_size: u8,
    pub destination_code: u8,
    pub rom_version: u8,
}

/// The cartridge RAM size in bytes named by the header's RAM-size code;
/// unknown codes carry no RAM.
pub open spec fn spec_ram_size(code: u8) -> usize {
    if code == 0x02 {
        8192usize
    } else if code == 0x03 {
        32768usize
    } else if code == 0x04 {
        131072usize
    } else if code == 0x05 {
        65536usize
    } else {
        0usize
    }
}


/// How one write relates the cartridge's state before and after: a write
/// to the boot-ROM disable register turns the overlay off for good, a
/// write into the enabled overlay is dropped, and every other write reaches
/// the bank controller.
pub open spec fn spec_cartridge_write_rel<S: GameSave>(
    pre: Cartridge<S>,
    post: Cartridge<S>,
    address: u16,
    value: u8,
) -> bool {
    &&& post.mode == pre.mode
    &&& post.bootrom == pre.bootrom
    &&& post.checksum_valid == pre.checksum_valid
    &&& post.header.title == pre.header.title
    &&& (address == 0xFF50 ==> !post.bootrom_enabled && post.mbc == pre.mbc)
    &&& (address != 0xFF50 ==> post.bootrom_enabled == pre.bootrom_enabled)
    &&& (address != 0xFF50 && pre.spec_bootrom_covers(address) ==> post == pre)
    &&& (address != 0xFF50 && !pre.spec_bootrom_covers(address) ==> crate::mbc::spec_mbc_write_rel(
        pre.mbc,
        post.mbc,
        address,
        value,
    ) && post.header == pre.header)
}

/// The cartridge: the boot-ROM overlay while it is enabled, the parsed
/// header, and the bank controller behind the ROM and RAM windows.
pub struct Cartridge<S: GameSave> {
    pub mode: Mode,
    pub bootrom_enabled: bool,
    pub bootrom: Option<Vec<u8>>,
    pub header: Header,
    pub mbc: MBC<S>,
    pub checksum_valid: bool,
}

impl<S: GameSave> Cartridge<S> {
    pub open spec fn wf(self) -> bool {
        &&& self.mbc.wf()
        &&& match self.bootrom {
            Some(b) => if self.mode is DMG {
                b.len() >= 0x100
            } else {
                b.len() >= 0x900
            },
            None => !self.bootrom_enabled,
        }
    }

    /// Whether the boot ROM currently answers `address`: the first 256
    /// bytes, and on the color model also 0x0200..=0x08FF.
    pub open spec fn spec_bootrom_covers(self, address: u16) -> bool {
        self.bootrom_enabled && self.bootrom is Some && (address <= 0x00FF || (self.mode is CGB
            && 0x0200 <= address <= 0x08FF))
    }

    /// The byte the cartridge returns: the boot-ROM overlay while enabled,
    /// else the bank controller; the boot-ROM disable register reads 0xFF.
    pub open spec fn spec_read(self, address: u16) -> u8 {
        if address == 0xFF50 {
            0xFF
        } else if self.spec_bootrom_covers(address) {
            self.bootrom->Some_0@[address as int]
        } else {
            self.mbc.spec_read(address)
        }
    }

    /// Parse the image named by the configuration and set up its bank
    /// controller. Fails exactly when the header names an unsupported
    /// controller kind. The save store learns the image's save title; a
    /// mismatched header checksum is recorded, not fatal.
    pub fn new(cfg: &Config, saver: S) -> (r: Result<Self, CartridgeError>)
        requires
            cfg.wf(),
        ensures
            r is Ok <==> spec_supported_mbc_code(cfg.rom@[0x147]),
            r is Ok ==> ({
                let c = r->Ok_0;
                &&& c.wf()
                &&& c.mode == cfg.mode
                &&& c.bootrom_enabled == (cfg.bootrom is Some)
                &&& c.checksum_valid == (spec_rom_checksum(cfg.rom@) == cfg.rom@[0x14D as int])
                &&& c.header.title@ == cfg.rom@.subrange(0x134, 0x144)
                &&& c.header.ram_size == cfg.rom@[0x149 as int]
                &&& match c.mbc.target_mbc {
                    MbcKind::One(m) => m.ram.len() == spec_ram_size(cfg.rom@[0x149 as int]),
                    MbcKind::Five(m) => m.ram.len() == spec_ram_size(cfg.rom@[0x149 as int]),
                    _ => true,
                }
            }),
    {
        let rom = &cfg.rom;
        let code = rom[CARTRIDGE_TYPE_ADDRESS];
        if !(code == 0x00 || (0x01 <= code && code <= 0x03) || (0x05 <= code && code <= 0x06) || (
        0x19 <= code && code <= 0x1E)) {
            return Err(CartridgeError::UnsupportedCartridge);
        }
        let checksum = compute_rom_checksum(rom);
        let checksum_valid = validate_rom_checksum(rom, checksum);

        let title = crate::bytes::copy_range(rom, 0x134, 0x144);
        let new_licensee_code = crate::bytes::copy_range(rom, 0x144, 0x146);
        let header = Header {
            title,
            new_licensee_code,
            old_licensee_code: rom[0x14B],
            rom_size: rom[0x148],
            ram_size: rom[0x149],
            destination_code: rom[0x14A],
            rom_version: rom[0x14C],
        };

        let mut saver = saver;
        saver.set_title(save_title(rom));

        let ram_size: usize = if header.ram_size == 0x02 {
            8 * 1024
        } else if header.ram_size == 0x03 {
            32 * 1024
        } else if header.ram_size == 0x04 {
            128 * 1024
        } else if header.ram_size == 0x05 {
            64 * 1024
        } else {
            0
        };

        let bootrom = match &cfg.bootrom {
            Some(b) => Some(crate::bytes::copy_range(b, 0, b.len())),
            None => None,
        };

        Ok(
            Self {
                mode: cfg.mode,
                bootrom_enabled: bootrom.is_some(),
                bootrom,
                mbc: MBC::new(code, crate::bytes::copy_range(rom, 0, rom.len()), ram_size, saver),
                header,
                checksum_valid,
            },
        )
    }

    pub fn read_byte(&self, address: u16) -> (r: u8)
        requires
            self.wf(),
            spec_cart_addr(address) || address == 0xFF50,
        ensures
            r == self.spec_read(address),
    {
        if address == 0xFF50 {
            return 0xFF;
        }
        if self.bootrom_enabled {
            match &self.bootrom {
                Some(b) => {
                    let covered = match self.mode {
                        Mode::DMG => address <= 0x00FF,
                        Mode::CGB => address <= 0x00FF || (0x0200 <= address && address <= 0x08FF),
                    };
                    if covered {
                        return b[address as usize];
                    }
                },
                None => {},
            }
        }
        self.mbc.read_byte(address)
    }

    /// A write to 0xFF50 disables the boot-ROM overlay for good; a write
    /// into the overlay while it is enabled is dropped (the boot ROM is
    /// read-only); everything else goes to the bank controller.
    pub fn write_byte(&mut self, address: u16, value: u8)
        requires
            old(self).wf(),
            spec_cart_addr(address) || address == 0xFF50,
        ensures
            final(self).wf(),
            spec_cartridge_write_rel(*old(self), *final(self), address, value),
    {
        if address == 0xFF50 {
            self.bootrom_enabled = false;
            return ;
        }
        if self.bootrom_enabled {
            let covered = match self.mode {
                Mode::DMG => address <= 0x00FF,
                Mode::CGB => address <= 0x00FF || (0x0200 <= address && address <= 0x08FF),
            };
            if covered {
                return ;
            }
        }
        self.mbc.write_byte(address, value);
    }
}

} // verus!

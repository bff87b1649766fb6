use vstd::prelude::*;

use crate::mode::Mode;

verus! {

pub const BANK_REGISTER: u16 = 0xFF4F;

pub const BASE_ADDRESS: u16 = 0x8000;

pub const END_ADDRESS: u16 = 0x9FFF;

pub const BANK_SIZE: usize = 0x2000;

/// Video RAM: one 8 KiB bank on the monochrome model, two banks on the
/// color model selected through register 0xFF4F.
#[derive(Clone, Debug)]
pub struct VRAM {
    pub mem: Vec<u8>,
    pub bank: u8,
    pub mode: Mode,
}

/// Index into the flat two-bank store for an address seen through a bank.
pub open spec fn spec_bank_index(address: u16, bank: u8) -> int {
    bank * 0x2000 + address - 0x8000
}

impl VRAM {
    pub open spec fn wf(self) -> bool {
        self.mem.len() == 2 * BANK_SIZE && self.bank <= 1
    }

    /// Both banks as one sequence: bank 0 first, then bank 1.
    pub open spec fn view(self) -> Seq<u8> {
        self.mem@
    }

    pub open spec fn spec_bank(self) -> u8 {
        self.bank
    }

    pub open spec fn spec_mode(self) -> Mode {
        self.mode
    }

    /// The bank that plain reads and writes go through: always 0 on the
    /// monochrome model, the selected bank on the color model.
    pub open spec fn spec_active_bank(self) -> u8 {
        if self.mode is DMG {
            0
        } else {
            self.bank
        }
    }

    pub fn new(mode: Mode) -> (r: Self)
        ensures
            r.wf(),
            r@ == Seq::new((2 * BANK_SIZE) as nat, |i: int| 0u8),
            r.spec_bank() == 0,
            r.spec_mode() == mode,
    {
        Self { mem: crate::bytes::zero_vec(2 * BANK_SIZE), bank: 0, mode }
    }

    /// Read a byte through an explicit bank, ignoring the bank register.
    pub fn read_at_bank(&self, address: u16, bank: u8) -> (r: u8)
        requires
            self.wf(),
            0x8000 <= address <= 0x9FFF,
            bank <= 1,
        ensures
            r == self@[spec_bank_index(address, bank)],
    {
        self.mem[bank as usize * BANK_SIZE + (address - BASE_ADDRESS) as usize]
    }

    /// Read a byte of the active bank, or the bank register at 0xFF4F
    /// (color model only; its unused bits read as ones).
    pub fn read_byte(&self, address: u16) -> (r: u8)
        requires
            self.wf(),
            0x8000 <= address <= 0x9FFF || address == 0xFF4F,
        ensures
            address == 0xFF4F && self.mode is CGB ==> r == 0xFE + self.bank,
            address == 0xFF4F && self.mode is DMG ==> r == 0xFF,
            address != 0xFF4F ==> r == self@[spec_bank_index(address, self.spec_active_bank())],
    {
        if address == BANK_REGISTER {
            match self.mode {
                Mode::CGB => 0xFEu8 + self.bank,
                Mode::DMG => 0xFF,
            }
        } else {
            let bank = match self.mode {
                Mode::DMG => 0u8,
                Mode::CGB => self.bank,
            };
            self.read_at_bank(address, bank)
        }
    }

    /// Write a byte of the active bank, or select a bank through 0xFF4F
    /// (bit 0 only; ignored on the monochrome model).
    pub fn write_byte(&mut self, address: u16, value: u8)
        requires
            old(self).wf(),
            0x8000 <= address <= 0x9FFF || address == 0xFF4F,
        ensures
            final(self).wf(),
            final(self).spec_mode() == old(self).spec_mode(),
            address == 0xFF4F && old(self).mode is CGB ==> *final(self) == (VRAM {
                bank: (value % 2) as u8,
                ..*old(self)
            }),
            address == 0xFF4F && old(self).mode is DMG ==> *final(self) == *old(self),
            address != 0xFF4F ==> final(self)@ == old(self)@.update(
                spec_bank_index(address, old(self).spec_active_bank()),
                value,
            ) && final(self).spec_bank() == old(self).spec_bank(),
    {
        if address == BANK_REGISTER {
            match self.mode {
                Mode::CGB => {
                    self.bank = value % 2;
                },
                Mode::DMG => {},
            }
        } else {
            let bank = match self.mode {
                Mode::DMG => 0u8,
                Mode::CGB => self.bank,
            };
            let idx = bank as usize * BANK_SIZE + (address - BASE_ADDRESS) as usize;
            self.mem.set(idx, value);
        }
    }
}

} // verus!

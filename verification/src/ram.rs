use vstd::prelude::*;

use crate::mode::Mode;

verus! {

pub const WRAM_BANK0_START_ADDR: u16 = 0xC000;

pub const WRAM_BANK0_END_ADDR: u16 = 0xCFFF;

pub const WRAM_BANK1_7_START_ADDR: u16 = 0xD000;

pub const WRAM_BANK1_7_END_ADDR: u16 = 0xDFFF;

pub const ECHO_RAM_START_ADDR: u16 = 0xE000;

pub const ECHO_RAM_END_ADDR: u16 = 0xFDFF;

pub const HIGH_RAM_START_ADDR: u16 = 0xFF80;

pub const HIGH_RAM_END_ADDR: u16 = 0xFFFE;

pub const FOUR_KB: usize = 0x1000;

pub const HIGH_RAM_SIZE: usize = 0x7F;


/// How one write relates the RAM's state before and after, over the full
/// routed range: work RAM, its echo, high RAM, the color model's bank
/// register, and dropped writes elsewhere.
pub open spec fn spec_ram_write_rel(pre: RAM, post: RAM, address: u16, value: u8) -> bool {
    &&& post.mode == pre.mode
    &&& (address == 0xFF70 && pre.mode is CGB ==> post == (RAM {
        wram_bank: if value % 8 == 0 {
            1u8
        } else {
            (value % 8) as u8
        },
        ..pre
    }))
    &&& (address == 0xFF70 && pre.mode is DMG ==> post == pre)
    &&& (0xC000 <= address <= 0xCFFF ==> post == (RAM { wram_bank0: post.wram_bank0, ..pre })
        && post.wram_bank0@ == pre.wram_bank0@.update(address - 0xC000, value))
    &&& (0xD000 <= address <= 0xDFFF ==> post == (RAM { wram_bank1_7: post.wram_bank1_7, ..pre })
        && post.wram_bank1_7@ == pre.wram_bank1_7@.update(pre.spec_switch_index(address), value))
    &&& (0xFF80 <= address <= 0xFFFE ==> post == (RAM { high_ram: post.high_ram, ..pre })
        && post.high_ram@ == pre.high_ram@.update(address - 0xFF80, value))
    &&& (0xE000 <= address <= 0xEFFF ==> post == (RAM { wram_bank0: post.wram_bank0, ..pre })
        && post.wram_bank0@ == pre.wram_bank0@.update(address - 0xE000, value))
    &&& (0xF000 <= address <= 0xFDFF ==> post == (RAM { wram_bank1_7: post.wram_bank1_7, ..pre })
        && post.wram_bank1_7@ == pre.wram_bank1_7@.update(
        pre.spec_switch_index(RAM::spec_echo_target(address)),
        value,
    ))
}

/// Work RAM (a fixed 4 KiB bank at 0xC000 plus seven switchable 4 KiB banks
/// at 0xD000), the echo of 0xC000..=0xDDFF at 0xE000, and the 127 bytes of
/// high RAM at 0xFF80. On the color model register 0xFF70 selects the
/// switchable bank (a write of 0 selects 1); the monochrome model always
/// sees bank 1.
#[derive(Clone, Debug)]
pub struct RAM {
    pub mode: Mode,
    pub wram_bank0: Vec<u8>,
    pub wram_bank1_7: Vec<u8>,
    pub high_ram: Vec<u8>,
    pub wram_bank: u8,
}

impl RAM {
    pub open spec fn wf(self) -> bool {
        &&& self.wram_bank0.len() == FOUR_KB
        &&& self.wram_bank1_7.len() == 7 * FOUR_KB
        &&& self.high_ram.len() == HIGH_RAM_SIZE
        &&& 1 <= self.wram_bank <= 7
    }

    pub open spec fn spec_bank0(self) -> Seq<u8> {
        self.wram_bank0@
    }

    pub open spec fn spec_banks(self) -> Seq<u8> {
        self.wram_bank1_7@
    }

    pub open spec fn spec_high(self) -> Seq<u8> {
        self.high_ram@
    }

    pub open spec fn spec_bank(self) -> u8 {
        self.wram_bank
    }

    pub open spec fn spec_mode(self) -> Mode {
        self.mode
    }

    /// Index into the switchable store for an address in 0xD000..=0xDFFF:
    /// the monochrome model uses bank 1, the color model the selected bank.
    pub open spec fn spec_switch_index(self, address: u16) -> int {
        if self.mode is DMG {
            address - 0xD000
        } else {
            (self.wram_bank - 1) * 0x1000 + address - 0xD000
        }
    }

    /// An echo address is read and written as the work-RAM address 0x2000
    /// below it.
    pub open spec fn spec_echo_target(address: u16) -> u16 {
        (address - 0x2000) as u16
    }

    pub fn new(mode: Mode) -> (r: Self)
        ensures
            r.wf(),
            r.spec_mode() == mode,
            r.spec_bank() == 1,
            r.spec_bank0() == Seq::new(FOUR_KB as nat, |i: int| 0u8),
            r.spec_banks() == Seq::new((7 * FOUR_KB) as nat, |i: int| 0u8),
            r.spec_high() == Seq::new(HIGH_RAM_SIZE as nat, |i: int| 0u8),
    {
        Self {
            mode,
            wram_bank0: crate::bytes::zero_vec(FOUR_KB),
            wram_bank1_7: crate::bytes::zero_vec(7 * FOUR_KB),
            high_ram: crate::bytes::zero_vec(HIGH_RAM_SIZE),
            wram_bank: 1,
        }
    }

    /// Read work RAM, its echo, high RAM, or (color model) the bank
    /// register at 0xFF70. Anything else in the routed range reads 0xFF.
    pub fn read_byte(&self, address: u16) -> (r: u8)
        requires
            self.wf(),
            0xC000 <= address <= 0xFDFF || 0xFF80 <= address <= 0xFFFE || address == 0xFF70,
        ensures
            address == 0xFF70 && self.mode is CGB ==> r == self.wram_bank,
            address == 0xFF70 && self.mode is DMG ==> r == 0xFF,
            0xC000 <= address <= 0xCFFF ==> r == self.spec_bank0()[address - 0xC000],
            0xD000 <= address <= 0xDFFF ==> r == self.spec_banks()[self.spec_switch_index(address)],
            0xFF80 <= address <= 0xFFFE ==> r == self.spec_high()[address - 0xFF80],
            0xE000 <= address <= 0xEFFF ==> r == self.spec_bank0()[address - 0xE000],
            0xF000 <= address <= 0xFDFF ==> r == self.spec_banks()[self.spec_switch_index(
                RAM::spec_echo_target(address),
            )],
    {
        if address == 0xFF70 {
            match self.mode {
                Mode::CGB => self.wram_bank,
                Mode::DMG => 0xFF,
            }
        } else if address <= WRAM_BANK0_END_ADDR {
            self.wram_bank0[(address - WRAM_BANK0_START_ADDR) as usize]
        } else if address <= WRAM_BANK1_7_END_ADDR {
            self.wram_bank1_7[self.switch_index(address)]
        } else if address >= HIGH_RAM_START_ADDR {
            self.high_ram[(address - HIGH_RAM_START_ADDR) as usize]
        } else if address <= 0xEFFF {
            self.wram_bank0[(address - ECHO_RAM_START_ADDR) as usize]
        } else {
            self.wram_bank1_7[self.switch_index(address - 0x2000)]
        }
    }

    /// Write work RAM, its echo, high RAM, or (color model) the bank
    /// register at 0xFF70 (bits 0..=2; a value of 0 selects bank 1).
    /// Anything else in the routed range is dropped.
    pub fn write_byte(&mut self, address: u16, value: u8)
        requires
            old(self).wf(),
            0xC000 <= address <= 0xFDFF || 0xFF80 <= address <= 0xFFFE || address == 0xFF70,
        ensures
            final(self).wf(),
            spec_ram_write_rel(*old(self), *final(self), address, value),
    {
        if address == 0xFF70 {
            match self.mode {
                Mode::CGB => {
                    let b = value % 8;
                    self.wram_bank = if b == 0 {
                        1
                    } else {
                        b
                    };
                },
                Mode::DMG => {},
            }
        } else if address <= WRAM_BANK0_END_ADDR {
            self.wram_bank0.set((address - WRAM_BANK0_START_ADDR) as usize, value);
        } else if address <= WRAM_BANK1_7_END_ADDR {
            let idx = self.switch_index(address);
            self.wram_bank1_7.set(idx, value);
        } else if address >= HIGH_RAM_START_ADDR {
            self.high_ram.set((address - HIGH_RAM_START_ADDR) as usize, value);
        } else if address <= 0xEFFF {
            self.wram_bank0.set((address - ECHO_RAM_START_ADDR) as usize, value);
        } else {
            let idx = self.switch_index(address - 0x2000);
            self.wram_bank1_7.set(idx, value);
        }
    }

    fn switch_index(&self, address: u16) -> (r: usize)
        requires
            self.wf(),
            0xD000 <= address <= 0xDFFF,
        ensures
            r == self.spec_switch_index(address),
            r < 7 * FOUR_KB,
    {
        match self.mode {
            Mode::DMG => (address - WRAM_BANK1_7_START_ADDR) as usize,
            Mode::CGB => FOUR_KB * (self.wram_bank - 1) as usize + (address
                - WRAM_BANK1_7_START_ADDR) as usize,
        }
    }
}

} // verus!

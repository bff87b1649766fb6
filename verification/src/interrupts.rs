use vstd::prelude::*;

verus! {

pub const VBLANK_ISR: u16 = 0x40;
pub const STAT_LCD_ISR: u16 = 0x48;
pub const TIMER_ISR: u16 = 0x50;
pub const SERIAL_ISR: u16 = 0x58;
pub const JOYPAD_ISR: u16 = 0x60;

/// The five interrupt request flags (register IF, 0xFF0F) and the five
/// enable bits (register IE, 0xFFFF), one pair per source, in priority
/// order: VBlank, STAT, Timer, Serial, Joypad.
#[derive(Clone, Copy, Debug, PartialEq, Eq, Structural)]
pub struct InterruptRegisters {
    pub enable_vblank: bool,
    pub enable_stat: bool,
    pub enable_timer: bool,
    pub enable_serial: bool,
    pub enable_joypad: bool,
    pub flag_vblank: bool,
    pub flag_stat: bool,
    pub flag_timer: bool,
    pub flag_serial: bool,
    pub flag_joypad: bool,
}

/// Five bits packed into a byte, bit 0 first; the unused top three bits
/// read as ones.
pub open spec fn spec_bits5(b0: bool, b1: bool, b2: bool, b3: bool, b4: bool) -> u8 {
    (0xE0int + (if b0 { 1int } else { 0 }) + (if b1 { 2int } else { 0 }) + (if b2 {
        4int
    } else {
        0
    }) + (if b3 { 8int } else { 0 }) + (if b4 { 16int } else { 0 })) as u8
}

impl InterruptRegisters {
    /// The IF register byte.
    pub open spec fn spec_flags(self) -> u8 {
        spec_bits5(
            self.flag_vblank,
            self.flag_stat,
            self.flag_timer,
            self.flag_serial,
            self.flag_joypad,
        )
    }

    /// The IE register byte.
    pub open spec fn spec_enables(self) -> u8 {
        spec_bits5(
            self.enable_vblank,
            self.enable_stat,
            self.enable_timer,
            self.enable_serial,
            self.enable_joypad,
        )
    }

    /// The register state after a write of `value` to `address`
    /// (0xFF0F for IF, anything else for IE).
    pub open spec fn spec_write(self, address: u16, value: u8) -> InterruptRegisters {
        if address == 0xFF0F {
            InterruptRegisters {
                flag_vblank: value % 2 == 1,
                flag_stat: value / 2 % 2 == 1,
                flag_timer: value / 4 % 2 == 1,
                flag_serial: value / 8 % 2 == 1,
                flag_joypad: value / 16 % 2 == 1,
                ..self
            }
        } else {
            InterruptRegisters {
                enable_vblank: value % 2 == 1,
                enable_stat: value / 2 % 2 == 1,
                enable_timer: value / 4 % 2 == 1,
                enable_serial: value / 8 % 2 == 1,
                enable_joypad: value / 16 % 2 == 1,
                ..self
            }
        }
    }

    /// The vector of the pending interrupt of highest priority (lowest bit
    /// number), if any source is both enabled and flagged.
    pub open spec fn spec_service_vector(self) -> Option<u16> {
        if self.enable_vblank && self.flag_vblank {
            Some(0x40u16)
        } else if self.enable_stat && self.flag_stat {
            Some(0x48u16)
        } else if self.enable_timer && self.flag_timer {
            Some(0x50u16)
        } else if self.enable_serial && self.flag_serial {
            Some(0x58u16)
        } else if self.enable_joypad && self.flag_joypad {
            Some(0x60u16)
        } else {
            None
        }
    }

    /// An interrupt is pending when some source is both enabled and flagged.
    pub open spec fn spec_pending(self) -> bool {
        (self.enable_vblank && self.flag_vblank) || (self.enable_stat && self.flag_stat)
            || (self.enable_timer && self.flag_timer) || (self.enable_serial && self.flag_serial)
            || (self.enable_joypad && self.flag_joypad)
    }

    pub fn new() -> (r: Self)
        ensures
            r == (InterruptRegisters {
                enable_vblank: false,
                enable_stat: false,
                enable_timer: false,
                enable_serial: false,
                enable_joypad: false,
                flag_vblank: false,
                flag_stat: false,
                flag_timer: false,
                flag_serial: false,
                flag_joypad: false,
            }),
    {
        Self {
            enable_vblank: false,
            enable_stat: false,
            enable_timer: false,
            enable_serial: false,
            enable_joypad: false,
            flag_vblank: false,
            flag_stat: false,
            flag_timer: false,
            flag_serial: false,
            flag_joypad: false,
        }
    }

    pub fn request_vblank(&mut self)
        ensures
            *final(self) == (InterruptRegisters { flag_vblank: true, ..*old(self) }),
    {
        self.flag_vblank = true;
    }

    pub fn request_stat_lcd(&mut self)
        ensures
            *final(self) == (InterruptRegisters { flag_stat: true, ..*old(self) }),
    {
        self.flag_stat = true;
    }

    pub fn request_timer(&mut self)
        ensures
            *final(self) == (InterruptRegisters { flag_timer: true, ..*old(self) }),
    {
        self.flag_timer = true;
    }

    pub fn request_serial(&mut self)
        ensures
            *final(self) == (InterruptRegisters { flag_serial: true, ..*old(self) }),
    {
        self.flag_serial = true;
    }

    pub fn request_joypad(&mut self)
        ensures
            *final(self) == (InterruptRegisters { flag_joypad: true, ..*old(self) }),
    {
        self.flag_joypad = true;
    }

    /// Pick the pending interrupt of highest priority (lowest bit number).
    /// Returns its service-routine address, and acknowledges it (clears its
    /// flag) when `reset_flag` is set. Returns None, and changes nothing,
    /// when no source is both enabled and flagged.
    pub fn check(&mut self, reset_flag: bool) -> (r: Option<u16>)
        ensures
            r == old(self).spec_service_vector(),
            r is Some <==> old(self).spec_pending(),
            !old(self).spec_pending() ==> *final(self) == *old(self),
            old(self).enable_vblank && old(self).flag_vblank ==> r == Some(VBLANK_ISR)
                && *final(self) == (InterruptRegisters { flag_vblank: !reset_flag, ..*old(self) }),
            (!(old(self).enable_vblank && old(self).flag_vblank) && old(self).enable_stat && old(
                self,
            ).flag_stat) ==> r == Some(STAT_LCD_ISR) && *final(self) == (InterruptRegisters {
                flag_stat: !reset_flag,
                ..*old(self)
            }),
            (!(old(self).enable_vblank && old(self).flag_vblank) && !(old(self).enable_stat && old(
                self,
            ).flag_stat) && old(self).enable_timer && old(self).flag_timer) ==> r == Some(TIMER_ISR)
                && *final(self) == (InterruptRegisters { flag_timer: !reset_flag, ..*old(self) }),
            (!(old(self).enable_vblank && old(self).flag_vblank) && !(old(self).enable_stat && old(
                self,
            ).flag_stat) && !(old(self).enable_timer && old(self).flag_timer) && old(
                self,
            ).enable_serial && old(self).flag_serial) ==> r == Some(SERIAL_ISR) && *final(self)
                == (InterruptRegisters { flag_serial: !reset_flag, ..*old(self) }),
            (!(old(self).enable_vblank && old(self).flag_vblank) && !(old(self).enable_stat && old(
                self,
            ).flag_stat) && !(old(self).enable_timer && old(self).flag_timer) && !(old(
                self,
            ).enable_serial && old(self).flag_serial) && old(self).enable_joypad && old(
                self,
            ).flag_joypad) ==> r == Some(JOYPAD_ISR) && *final(self) == (InterruptRegisters {
                flag_joypad: !reset_flag,
                ..*old(self)
            }),
    {
        if self.enable_vblank && self.flag_vblank {
            self.flag_vblank = !reset_flag;
            Some(VBLANK_ISR)
        } else if self.enable_stat && self.flag_stat {
            self.flag_stat = !reset_flag;
            Some(STAT_LCD_ISR)
        } else if self.enable_timer && self.flag_timer {
            self.flag_timer = !reset_flag;
            Some(TIMER_ISR)
        } else if self.enable_serial && self.flag_serial {
            self.flag_serial = !reset_flag;
            Some(SERIAL_ISR)
        } else if self.enable_joypad && self.flag_joypad {
            self.flag_joypad = !reset_flag;
            Some(JOYPAD_ISR)
        } else {
            None
        }
    }

    /// Read IF (0xFF0F) or IE (0xFFFF); the top three bits read as ones.
    pub fn read_byte(&self, address: u16) -> (r: u8)
        requires
            address == 0xFF0F || address == 0xFFFF,
        ensures
            address == 0xFF0F ==> r == self.spec_flags(),
            address == 0xFFFF ==> r == self.spec_enables(),
    {
        if address == 0xFF0F {
            bits5(self.flag_vblank, self.flag_stat, self.flag_timer, self.flag_serial,
                self.flag_joypad)
        } else {
            bits5(self.enable_vblank, self.enable_stat, self.enable_timer, self.enable_serial,
                self.enable_joypad)
        }
    }

    /// Write IF (0xFF0F) or IE (0xFFFF): bits 0 to 4 of the value become the
    /// five flags or enables.
    pub fn write_byte(&mut self, address: u16, value: u8)
        requires
            address == 0xFF0F || address == 0xFFFF,
        ensures
            *final(self) == old(self).spec_write(address, value),
    {
        if address == 0xFF0F {
            self.flag_vblank = value % 2 == 1;
            self.flag_stat = value / 2 % 2 == 1;
            self.flag_timer = value / 4 % 2 == 1;
            self.flag_serial = value / 8 % 2 == 1;
            self.flag_joypad = value / 16 % 2 == 1;
        } else {
            self.enable_vblank = value % 2 == 1;
            self.enable_stat = value / 2 % 2 == 1;
            self.enable_timer = value / 4 % 2 == 1;
            self.enable_serial = value / 8 % 2 == 1;
            self.enable_joypad = value / 16 % 2 == 1;
        }
    }
}

fn bits5(b0: bool, b1: bool, b2: bool, b3: bool, b4: bool) -> (r: u8)
    ensures
        r == spec_bits5(b0, b1, b2, b3, b4),
{
    0xE0u8 + (if b0 { 1u8 } else { 0 }) + (if b1 { 2u8 } else { 0 }) + (if b2 { 4u8 } else { 0 })
        + (if b3 { 8u8 } else { 0 }) + (if b4 { 16u8 } else { 0 })
}

/// Law: a byte written to IF or IE reads back as its low five bits, with
/// the unused top three bits set: `read(write(v)) == (v & 0x1F) | 0xE0`.
pub proof fn lemma_interrupt_register_round_trip(s: InterruptRegisters, address: u16, v: u8)
    requires
        address == 0xFF0F || address == 0xFFFF,
    ensures
        address == 0xFF0F ==> s.spec_write(address, v).spec_flags() == (v & 0x1F) | 0xE0,
        address == 0xFFFF ==> s.spec_write(address, v).spec_enables() == (v & 0x1F) | 0xE0,
{
    assert((0xE0int + (if v % 2 == 1 { 1int } else { 0 }) + (if v / 2 % 2 == 1 { 2int } else { 0 })
        + (if v / 4 % 2 == 1 { 4int } else { 0 }) + (if v / 8 % 2 == 1 { 8int } else { 0 }) + (if v
        / 16 % 2 == 1 {
        16int
    } else {
        0
    })) as u8 == (v & 0x1F) | 0xE0) by (bit_vector);
}

} // verus!

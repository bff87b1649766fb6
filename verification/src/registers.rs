use vstd::prelude::*;

verus! {

/// The four processor status flags. They live in the high nibble of the F
/// register; the low nibble of F is hard-wired to zero.
#[derive(Clone, Copy, Debug, PartialEq, Eq, Structural)]
pub struct FlagsRegister {
    pub zero: bool,
    pub subtract: bool,
    pub half_carry: bool,
    pub carry: bool,
}

/// The byte form of the flags register: Z in bit 7, N in bit 6, H in bit 5,
/// C in bit 4, low four bits always zero.
pub open spec fn spec_flags_byte(f: FlagsRegister) -> u8 {
    ((if f.zero { 0x80int } else { 0 }) + (if f.subtract { 0x40int } else { 0 })
        + (if f.half_carry { 0x20int } else { 0 }) + (if f.carry { 0x10int } else { 0 })) as u8
}

/// The flags encoded by a byte: each flag is the corresponding bit of the
/// high nibble; the low nibble is discarded.
pub open spec fn spec_flags_from_byte(byte: u8) -> FlagsRegister {
    FlagsRegister {
        zero: byte / 0x80 % 2 == 1,
        subtract: byte / 0x40 % 2 == 1,
        half_carry: byte / 0x20 % 2 == 1,
        carry: byte / 0x10 % 2 == 1,
    }
}

impl FlagsRegister {
    pub fn new() -> (r: Self)
        ensures
            r == (FlagsRegister { zero: false, subtract: false, half_carry: false, carry: false }),
    {
        Self { zero: false, subtract: false, half_carry: false, carry: false }
    }

    /// Flag values after the boot ROM has run (no boot ROM supplied).
    pub fn new_post_boot() -> (r: Self)
        ensures
            r == (FlagsRegister { zero: true, subtract: false, half_carry: true, carry: true }),
    {
        Self { zero: true, subtract: false, half_carry: true, carry: true }
    }

    /// The packed byte form of the flags.
    pub fn to_byte(&self) -> (r: u8)
        ensures
            r == spec_flags_byte(*self),
    {
        (if self.zero { 0x80u8 } else { 0 }) + (if self.subtract { 0x40u8 } else { 0 })
            + (if self.half_carry { 0x20u8 } else { 0 }) + (if self.carry { 0x10u8 } else { 0 })
    }

    /// Decode the flag bits of a byte, dropping its low nibble.
    pub fn from_byte(byte: u8) -> (r: Self)
        ensures
            r == spec_flags_from_byte(byte),
    {
        Self {
            zero: byte / 0x80 % 2 == 1,
            subtract: byte / 0x40 % 2 == 1,
            half_carry: byte / 0x20 % 2 == 1,
            carry: byte / 0x10 % 2 == 1,
        }
    }
}

/// Law: whatever byte is written to the flags register, the byte read back
/// has its low four bits equal to zero.
pub proof fn lemma_flags_low_bits_zero(v: u8)
    ensures
        spec_flags_byte(spec_flags_from_byte(v)) % 16 == 0,
{
}

/// Law: the high nibble of a byte written to the flags register reads back
/// unchanged: the byte read back is the byte written with its low four bits
/// cleared.
pub proof fn lemma_flags_byte_round_trip(v: u8)
    ensures
        spec_flags_byte(spec_flags_from_byte(v)) == v / 16 * 16,
{
    assert(spec_flags_byte(spec_flags_from_byte(v)) == v / 16 * 16) by (bit_vector);
}

/// The eight 8-bit registers of the processor. A and F pair into AF, and
/// likewise BC, DE and HL, high byte first.
#[derive(Clone, Copy, Debug, PartialEq, Eq, Structural)]
pub struct Registers {
    pub a: u8,
    pub b: u8,
    pub c: u8,
    pub d: u8,
    pub e: u8,
    pub f: FlagsRegister,
    pub h: u8,
    pub l: u8,
}

/// The 16-bit value formed by a register pair, high byte first.
pub open spec fn spec_pair(left: u8, right: u8) -> u16 {
    (left * 256 + right) as u16
}

impl Registers {
    /// The AF pair as a 16-bit value; its low four bits are always zero.
    pub open spec fn spec_af(self) -> u16 {
        spec_pair(self.a, spec_flags_byte(self.f))
    }

    pub open spec fn spec_bc(self) -> u16 {
        spec_pair(self.b, self.c)
    }

    pub open spec fn spec_de(self) -> u16 {
        spec_pair(self.d, self.e)
    }

    pub open spec fn spec_hl(self) -> u16 {
        spec_pair(self.h, self.l)
    }


    /// The cleared register file of a cold boot.
    pub open spec fn spec_cold_boot() -> Registers {
        Registers {
            a: 0u8,
            b: 0u8,
            c: 0u8,
            d: 0u8,
            e: 0u8,
            f: FlagsRegister { zero: false, subtract: false, half_carry: false, carry: false },
            h: 0u8,
            l: 0u8,
        }
    }

    /// The register file the boot ROM leaves behind on the monochrome model.
    pub open spec fn spec_post_boot() -> Registers {
        Registers {
            a: 0x01u8,
            b: 0x00u8,
            c: 0x13u8,
            d: 0x00u8,
            e: 0xD8u8,
            f: FlagsRegister { zero: true, subtract: false, half_carry: true, carry: true },
            h: 0x01u8,
            l: 0x4Du8,
        }
    }

    /// All registers cleared, as at power-on with a boot ROM to run.
    pub fn new() -> (r: Self)
        ensures
            r == (Registers {
                a: 0u8,
                b: 0u8,
                c: 0u8,
                d: 0u8,
                e: 0u8,
                f: FlagsRegister { zero: false, subtract: false, half_carry: false, carry: false },
                h: 0u8,
                l: 0u8,
            }),
    {
        Self { a: 0, b: 0, c: 0, d: 0, e: 0, f: FlagsRegister::new(), h: 0, l: 0 }
    }

    /// Register values the boot ROM leaves behind on the monochrome model,
    /// used when no boot ROM is supplied.
    pub fn new_post_boot() -> (r: Self)
        ensures
            r == (Registers {
                a: 0x01u8,
                b: 0x00u8,
                c: 0x13u8,
                d: 0x00u8,
                e: 0xD8u8,
                f: FlagsRegister { zero: true, subtract: false, half_carry: true, carry: true },
                h: 0x01u8,
                l: 0x4Du8,
            }),
    {
        Self {
            a: 0x01,
            b: 0x00,
            c: 0x13,
            d: 0x00,
            e: 0xD8,
            f: FlagsRegister::new_post_boot(),
            h: 0x01,
            l: 0x4D,
        }
    }

    pub fn get_af(&self) -> (r: u16)
        ensures
            r == self.spec_af(),
            r % 16 == 0,
    {
        let fb = self.f.to_byte();
        assert(spec_flags_byte(self.f) % 16 == 0);
        as_16bits(self.a, fb)
    }

    /// Writing AF: the low four bits of the F half are discarded, so they
    /// read back as zero.
    pub fn set_af(&mut self, value: u16)
        ensures
            *final(self) == (Registers {
                a: (value / 256) as u8,
                f: spec_flags_from_byte((value % 256) as u8),
                ..*old(self)
            }),
            final(self).spec_af() % 16 == 0,
    {
        self.a = get_16bits_left(value);
        self.f = FlagsRegister::from_byte(get_16bits_right(value));
    }

    pub fn get_bc(&self) -> (r: u16)
        ensures
            r == self.spec_bc(),
    {
        as_16bits(self.b, self.c)
    }

    pub fn set_bc(&mut self, value: u16)
        ensures
            *final(self) == (Registers { b: (value / 256) as u8, c: (value % 256) as u8, ..*old(self) }),
    {
        self.b = get_16bits_left(value);
        self.c = get_16bits_right(value);
    }

    pub fn get_de(&self) -> (r: u16)
        ensures
            r == self.spec_de(),
    {
        as_16bits(self.d, self.e)
    }

    pub fn set_de(&mut self, value: u16)
        ensures
            *final(self) == (Registers { d: (value / 256) as u8, e: (value % 256) as u8, ..*old(self) }),
    {
        self.d = get_16bits_left(value);
        self.e = get_16bits_right(value);
    }

    pub fn get_hl(&self) -> (r: u16)
        ensures
            r == self.spec_hl(),
    {
        as_16bits(self.h, self.l)
    }

    pub fn set_hl(&mut self, value: u16)
        ensures
            *final(self) == (Registers { h: (value / 256) as u8, l: (value % 256) as u8, ..*old(self) }),
    {
        self.h = get_16bits_left(value);
        self.l = get_16bits_right(value);
    }
}

/// Law: a value stored through a register pair reads back unchanged;
/// for AF the low four bits of the value are cleared first.
pub proof fn lemma_register_pair_round_trip(r0: Registers, value: u16)
    ensures
        ({
            let r = Registers { b: (value / 256) as u8, c: (value % 256) as u8, ..r0 };
            r.spec_bc() == value
        }),
        ({
            let r = Registers {
                a: (value / 256) as u8,
                f: spec_flags_from_byte((value % 256) as u8),
                ..r0
            };
            r.spec_af() == value / 16 * 16
        }),
{
    let lo = (value % 256) as u8;
    lemma_flags_byte_round_trip(lo);
    assert(value / 256 * 256 + value % 256 / 16 * 16 == value / 16 * 16) by (bit_vector);
}

pub fn as_16bits(left: u8, right: u8) -> (r: u16)
    ensures
        r == spec_pair(left, right),
{
    (left as u16) * 256 + (right as u16)
}

pub fn get_16bits_left(value: u16) -> (r: u8)
    ensures
        r == value / 256,
{
    (value / 256) as u8
}

pub fn get_16bits_right(value: u16) -> (r: u8)
    ensures
        r == value % 256,
{
    (value % 256) as u8
}

} // verus!

use vstd::prelude::*;

use crate::config::Config;
use crate::registers::FlagsRegister;
use crate::registers::Registers;
use vstd::wrapping::i16_specs;
use vstd::wrapping::u16_specs;
use vstd::wrapping::u8_specs;

verus! {

pub const INSTRUCTION_PREFIX: u8 = 0xCB;

/// What the processor asks of the rest of the machine: byte transactions,
/// the interrupt arbiter, the speed switch, and the clock discipline
/// (`step_peripherals` runs every peripheral forward). The system bus
/// implements this; tests may substitute a flat memory.
pub trait Bus {
    /// The bus's own well-formedness, maintained across every transaction;
    /// a bus with no invariant of its own may leave the default.
    open spec fn inv(&self) -> bool {
        true
    }

    /// The running total of master cycles delivered to the peripherals
    /// through `step_peripherals`. Only that method may grow it, so the
    /// processor can state that every cycle it reports is delivered exactly
    /// once, never double-counted.
    open spec fn spec_cycles(&self) -> int {
        0
    }

    /// The service vector of the highest-priority interrupt that is both
    /// enabled and requested, if any.
    open spec fn spec_pending_vector(&self) -> Option<u16> {
        None
    }

    fn read_byte(&self, address: u16) -> u8
        requires
            self.inv(),
    ;

    fn write_byte(&mut self, address: u16, value: u8)
        requires
            old(self).inv(),
        ensures
            final(self).inv(),
            final(self).spec_cycles() == old(self).spec_cycles(),
    ;

    fn check_interrupts(&mut self, reset_flag: bool) -> (r: Option<u16>)
        requires
            old(self).inv(),
        ensures
            final(self).inv(),
            final(self).spec_cycles() == old(self).spec_cycles(),
            r == old(self).spec_pending_vector(),
    ;

    fn switch_speed(&mut self)
        requires
            old(self).inv(),
        ensures
            final(self).inv(),
            final(self).spec_cycles() == old(self).spec_cycles(),
    ;

    fn step_peripherals(&mut self, cycles: u8)
        requires
            old(self).inv(),
        ensures
            final(self).inv(),
            final(self).spec_cycles() == old(self).spec_cycles() + cycles,
    ;
}

/// The processor: the register file, the program counter and stack pointer,
/// the interrupt-enable state with its one-instruction delay, and the halt
/// and stop latches. `cycles_synced` counts the cycles already delivered to
/// the peripherals during the current instruction, so they are not stepped
/// twice.
pub struct CPU<B: Bus> {
    pub is_halted: bool,
    pub is_stopped: bool,
    pub ime: bool,
    pub ime_delayed: bool,
    pub registers: Registers,
    pub pc: u16,
    pub sp: u16,
    pub bus: B,
    pub cycles_synced: u8,
}

/// The result of an 8-bit add with carry-in, reduced to a byte.
pub open spec fn spec_add8(a: u8, v: u8, c: bool) -> u8 {
    ((a + v + (if c {
        1int
    } else {
        0
    })) % 256) as u8
}

/// The result of an 8-bit subtract with borrow-in, reduced to a byte.
pub open spec fn spec_sub8(a: u8, v: u8, c: bool) -> u8 {
    ((a - v - (if c {
        1int
    } else {
        0
    }) + 512) % 256) as u8
}

/// 16-bit two's-complement displacement add, as the stack instructions and
/// relative jumps use it.
pub open spec fn spec_add_u16_i8(x: u16, y: i8) -> u16 {
    i16_specs::wrapping_add(x as i16, y as i16) as u16
}

impl<B: Bus> CPU<B> {
    /// Registers at power-on: cleared when a boot ROM will run, else the
    /// post-boot values with PC at the cartridge entry point and the stack
    /// at the top of high RAM.
    pub fn new(cfg: &Config, bus: B) -> (r: CPU<B>)
        ensures
            r.is_halted == false,
            r.is_stopped == false,
            r.ime == false,
            r.ime_delayed == false,
            r.cycles_synced == 0,
            r.bus == bus,
            cfg.bootrom is None ==> r.registers == Registers::spec_post_boot() && r.pc == 0x0100
                && r.sp == 0xFFFE,
            cfg.bootrom is Some ==> r.registers == Registers::spec_cold_boot() && r.pc == 0 && r.sp
                == 0,
    {
        let skip_boot = cfg.bootrom.is_none();
        CPU {
            is_halted: false,
            is_stopped: false,
            ime: false,
            ime_delayed: false,
            registers: if skip_boot {
                Registers::new_post_boot()
            } else {
                Registers::new()
            },
            pc: if skip_boot {
                0x0100
            } else {
                0
            },
            sp: if skip_boot {
                0xFFFE
            } else {
                0
            },
            bus,
            cycles_synced: 0,
        }
    }

    /// One 4-cycle bus read transaction, immediately followed by a
    /// peripheral step — this is what makes the core cycle-exact.
    pub fn read_byte(&mut self, address: u16) -> (r: u8)
        requires
            old(self).bus.inv(),
            old(self).cycles_synced <= 251,
        ensures
            final(self).bus.inv(),
            final(self).registers == old(self).registers,
            final(self).pc == old(self).pc,
            final(self).sp == old(self).sp,
            final(self).ime == old(self).ime,
            final(self).ime_delayed == old(self).ime_delayed,
            final(self).is_halted == old(self).is_halted,
            final(self).is_stopped == old(self).is_stopped,
            final(self).cycles_synced == old(self).cycles_synced + 4,
            final(self).bus.spec_cycles() == old(self).bus.spec_cycles() + 4,
    {
        let v = self.bus.read_byte(address);
        self.bus.step_peripherals(4);
        self.cycles_synced = self.cycles_synced + 4;
        v
    }

    /// Two bus reads, low byte first.
    pub fn read_two_bytes(&mut self, address: u16) -> (r: u16)
        requires
            old(self).bus.inv(),
            old(self).cycles_synced <= 247,
        ensures
            final(self).bus.inv(),
            final(self).cycles_synced == old(self).cycles_synced + 8,
            final(self).bus.spec_cycles() == old(self).bus.spec_cycles() + 8,
            final(self).registers == old(self).registers,
            final(self).pc == old(self).pc,
            final(self).sp == old(self).sp,
            final(self).ime == old(self).ime,
            final(self).ime_delayed == old(self).ime_delayed,
            final(self).is_halted == old(self).is_halted,
            final(self).is_stopped == old(self).is_stopped,
    {
        let left = self.read_byte(address);
        let right = self.read_byte(address.wrapping_add(1));
        (right as u16) * 256 + left as u16
    }

    /// One 4-cycle bus write transaction with its peripheral step.
    pub fn write_byte(&mut self, address: u16, value: u8)
        requires
            old(self).bus.inv(),
            old(self).cycles_synced <= 251,
        ensures
            final(self).bus.inv(),
            final(self).registers == old(self).registers,
            final(self).pc == old(self).pc,
            final(self).sp == old(self).sp,
            final(self).ime == old(self).ime,
            final(self).ime_delayed == old(self).ime_delayed,
            final(self).is_halted == old(self).is_halted,
            final(self).is_stopped == old(self).is_stopped,
            final(self).cycles_synced == old(self).cycles_synced + 4,
            final(self).bus.spec_cycles() == old(self).bus.spec_cycles() + 4,
    {
        self.bus.write_byte(address, value);
        self.bus.step_peripherals(4);
        self.cycles_synced = self.cycles_synced + 4;
    }

    /// Two bus writes, low byte first.
    pub fn write_two_bytes(&mut self, address: u16, value: u16)
        requires
            old(self).bus.inv(),
            old(self).cycles_synced <= 247,
        ensures
            final(self).bus.inv(),
            final(self).cycles_synced == old(self).cycles_synced + 8,
            final(self).bus.spec_cycles() == old(self).bus.spec_cycles() + 8,
            final(self).registers == old(self).registers,
            final(self).pc == old(self).pc,
            final(self).sp == old(self).sp,
            final(self).ime == old(self).ime,
            final(self).ime_delayed == old(self).ime_delayed,
            final(self).is_halted == old(self).is_halted,
            final(self).is_stopped == old(self).is_stopped,
    {
        self.write_byte(address, (value % 256) as u8);
        self.write_byte(address.wrapping_add(1), (value / 256) as u8);
    }

    /// The enable-interrupts instruction takes effect one instruction late:
    /// it only sets the delayed shadow.
    pub fn enable_ime(&mut self)
        ensures
            *final(self) == (CPU { ime_delayed: true, ..*old(self) }),
    {
        self.ime_delayed = true;
    }

    /// The enable-interrupts delay: a delayed enable left behind by the
    /// previous instruction becomes effective now, at the start of the next
    /// instruction, so the instruction after EI always runs before any
    /// service.
    pub fn apply_ime_delay(&mut self)
        ensures
            *final(self) == (CPU {
                ime: old(self).ime || old(self).ime_delayed,
                ime_delayed: false,
                ..*old(self)
            }),
    {
        if self.ime_delayed {
            self.ime = true;
            self.ime_delayed = false;
        }
    }

    /// The stack-pointer displacement add shared by ADD SP,e and
    /// LD HL,SP+e: the 16-bit two's-complement sum, with Z and N cleared
    /// and H and C computed on the low byte of `base` alone.
    pub fn offset_sp(&mut self, base: u16, raw: u8) -> (r: u16)
        ensures
            *final(self) == (CPU { registers: final(self).registers, ..*old(self) }),
            r == spec_add_u16_i8(base, raw as i8),
            final(self).registers == (Registers {
                f: FlagsRegister {
                    zero: false,
                    subtract: false,
                    half_carry: base % 16 + raw % 16 > 15,
                    carry: base % 256 + raw > 255,
                },
                ..old(self).registers
            }),
    {
        self.registers.f.zero = false;
        self.registers.f.subtract = false;
        self.registers.f.half_carry = base % 16 + (raw % 16) as u16 > 15;
        self.registers.f.carry = base % 256 + raw as u16 > 255;
        add_u16_i8(base, raw as i8)
    }

    /// ADD A, value. Z set on a zero result, N cleared, H on carry out of
    /// bit 3, C on carry out of bit 7.
    pub fn add(&mut self, value: u8)
        ensures
            *final(self) == (CPU { registers: final(self).registers, ..*old(self) }),
            final(self).registers == (Registers {
                a: spec_add8(old(self).registers.a, value, false),
                f: FlagsRegister {
                    zero: spec_add8(old(self).registers.a, value, false) == 0,
                    subtract: false,
                    half_carry: old(self).registers.a % 16 + value % 16 > 15,
                    carry: old(self).registers.a + value > 255,
                },
                ..old(self).registers
            }),
    {
        let a = self.registers.a;
        let sum = a as u16 + value as u16;
        let new_value = (sum % 256) as u8;
        self.registers.f.zero = new_value == 0;
        self.registers.f.subtract = false;
        self.registers.f.carry = sum > 255;
        self.registers.f.half_carry = a % 16 + value % 16 > 15;
        self.registers.a = new_value;
    }

    /// ADD HL, value: Z unchanged, N cleared, H on carry out of bit 11,
    /// C on carry out of bit 15.
    pub fn addhl(&mut self, value: u16)
        ensures
            *final(self) == (CPU { registers: final(self).registers, ..*old(self) }),
            final(self).registers == (Registers {
                h: (u16_specs::wrapping_add(old(self).registers.spec_hl(), value) / 256) as u8,
                l: (u16_specs::wrapping_add(old(self).registers.spec_hl(), value) % 256) as u8,
                f: FlagsRegister {
                    subtract: false,
                    half_carry: old(self).registers.spec_hl() % 0x1000 + value % 0x1000 > 0xFFF,
                    carry: old(self).registers.spec_hl() + value > 0xFFFF,
                    ..old(self).registers.f
                },
                ..old(self).registers
            }),
    {
        let hl_reg_val = self.registers.get_hl();
        let new_value = hl_reg_val.wrapping_add(value);
        self.registers.f.subtract = false;
        self.registers.f.carry = hl_reg_val as u32 + value as u32 > 0xFFFF;
        self.registers.f.half_carry = hl_reg_val % 0x1000 + value % 0x1000 > 0xFFF;
        self.registers.set_hl(new_value);
    }

    /// ADC A, value: as ADD but with the carry flag added in; H and C are
    /// computed as if the three terms were summed at once.
    pub fn adc(&mut self, value: u8)
        ensures
            *final(self) == (CPU { registers: final(self).registers, ..*old(self) }),
            final(self).registers == (Registers {
                a: spec_add8(old(self).registers.a, value, old(self).registers.f.carry),
                f: FlagsRegister {
                    zero: spec_add8(old(self).registers.a, value, old(self).registers.f.carry)
                        == 0,
                    subtract: false,
                    half_carry: old(self).registers.a % 16 + value % 16 + (if old(
                        self,
                    ).registers.f.carry {
                        1int
                    } else {
                        0
                    }) > 15,
                    carry: old(self).registers.a + value + (if old(self).registers.f.carry {
                        1int
                    } else {
                        0
                    }) > 255,
                },
                ..old(self).registers
            }),
    {
        let a = self.registers.a;
        let cin: u16 = if self.registers.f.carry {
            1
        } else {
            0
        };
        let sum = a as u16 + value as u16 + cin;
        let new_value = (sum % 256) as u8;
        self.registers.f.zero = new_value == 0;
        self.registers.f.subtract = false;
        self.registers.f.half_carry = a as u16 % 16 + value as u16 % 16 + cin > 15;
        self.registers.f.carry = sum > 255;
        self.registers.a = new_value;
    }

    /// SUB value: Z on a zero result, N set, H on borrow from bit 4,
    /// C on borrow.
    pub fn sub(&mut self, value: u8)
        ensures
            *final(self) == (CPU { registers: final(self).registers, ..*old(self) }),
            final(self).registers == (Registers {
                a: spec_sub8(old(self).registers.a, value, false),
                f: FlagsRegister {
                    zero: spec_sub8(old(self).registers.a, value, false) == 0,
                    subtract: true,
                    half_carry: old(self).registers.a % 16 < value % 16,
                    carry: old(self).registers.a < value,
                },
                ..old(self).registers
            }),
    {
        let a = self.registers.a;
        let new_value = a.wrapping_sub(value);
        self.registers.f.zero = new_value == 0;
        self.registers.f.subtract = true;
        self.registers.f.carry = a < value;
        self.registers.f.half_carry = a % 16 < value % 16;
        self.registers.a = new_value;
    }

    /// SBC A, value: as SUB with the carry flag borrowed in.
    pub fn sbc(&mut self, value: u8)
        ensures
            *final(self) == (CPU { registers: final(self).registers, ..*old(self) }),
            final(self).registers == (Registers {
                a: spec_sub8(old(self).registers.a, value, old(self).registers.f.carry),
                f: FlagsRegister {
                    zero: spec_sub8(old(self).registers.a, value, old(self).registers.f.carry)
                        == 0,
                    subtract: true,
                    half_carry: old(self).registers.a % 16 < value % 16 + (if old(
                        self,
                    ).registers.f.carry {
                        1int
                    } else {
                        0
                    }),
                    carry: old(self).registers.a < value + (if old(self).registers.f.carry {
                        1int
                    } else {
                        0
                    }),
                },
                ..old(self).registers
            }),
    {
        let a = self.registers.a;
        let cin: u16 = if self.registers.f.carry {
            1
        } else {
            0
        };
        let rhs = value as u16 + cin;
        let new_value = ((a as u16 + 512 - rhs) % 256) as u8;
        self.registers.f.zero = new_value == 0;
        self.registers.f.subtract = true;
        self.registers.f.half_carry = ((a % 16) as u16) < ((value % 16) as u16 + cin);
        self.registers.f.carry = (a as u16) < rhs;
        self.registers.a = new_value;
    }

    /// AND value: Z on a zero result, N and C cleared, H set.
    pub fn and(&mut self, value: u8)
        ensures
            *final(self) == (CPU { registers: final(self).registers, ..*old(self) }),
            final(self).registers == (Registers {
                a: old(self).registers.a & value,
                f: FlagsRegister {
                    zero: old(self).registers.a & value == 0,
                    subtract: false,
                    half_carry: true,
                    carry: false,
                },
                ..old(self).registers
            }),
    {
        let new_value = self.registers.a & value;
        self.registers.f.zero = new_value == 0;
        self.registers.f.subtract = false;
        self.registers.f.half_carry = true;
        self.registers.f.carry = false;
        self.registers.a = new_value;
    }

    /// OR value: Z on a zero result, other flags cleared.
    pub fn or(&mut self, value: u8)
        ensures
            *final(self) == (CPU { registers: final(self).registers, ..*old(self) }),
            final(self).registers == (Registers {
                a: old(self).registers.a | value,
                f: FlagsRegister {
                    zero: old(self).registers.a | value == 0,
                    subtract: false,
                    half_carry: false,
                    carry: false,
                },
                ..old(self).registers
            }),
    {
        let new_value = self.registers.a | value;
        self.registers.f.zero = new_value == 0;
        self.registers.f.subtract = false;
        self.registers.f.half_carry = false;
        self.registers.f.carry = false;
        self.registers.a = new_value;
    }

    /// XOR value: Z on a zero result, other flags cleared.
    pub fn xor(&mut self, value: u8)
        ensures
            *final(self) == (CPU { registers: final(self).registers, ..*old(self) }),
            final(self).registers == (Registers {
                a: old(self).registers.a ^ value,
                f: FlagsRegister {
                    zero: old(self).registers.a ^ value == 0,
                    subtract: false,
                    half_carry: false,
                    carry: false,
                },
                ..old(self).registers
            }),
    {
        let new_value = self.registers.a ^ value;
        self.registers.f.zero = new_value == 0;
        self.registers.f.subtract = false;
        self.registers.f.half_carry = false;
        self.registers.f.carry = false;
        self.registers.a = new_value;
    }

    /// CP value: the flags of SUB, with A kept.
    pub fn cp(&mut self, value: u8)
        ensures
            *final(self) == (CPU { registers: final(self).registers, ..*old(self) }),
            final(self).registers == (Registers {
                f: FlagsRegister {
                    zero: old(self).registers.a == value,
                    subtract: true,
                    half_carry: old(self).registers.a % 16 < value % 16,
                    carry: old(self).registers.a < value,
                },
                ..old(self).registers
            }),
    {
        let a = self.registers.a;
        self.registers.f.zero = a == value;
        self.registers.f.subtract = true;
        self.registers.f.carry = a < value;
        self.registers.f.half_carry = a % 16 < value % 16;
    }

    /// INC of a byte: C unchanged, H on carry out of bit 3.
    pub fn inc(&mut self, value: u8) -> (r: u8)
        ensures
            *final(self) == (CPU { registers: final(self).registers, ..*old(self) }),
            r == u8_specs::wrapping_add(value, 1),
            final(self).registers == (Registers {
                f: FlagsRegister {
                    zero: u8_specs::wrapping_add(value, 1) == 0,
                    subtract: false,
                    half_carry: value % 16 == 15,
                    ..old(self).registers.f
                },
                ..old(self).registers
            }),
    {
        let new_value = value.wrapping_add(1);
        self.registers.f.zero = new_value == 0;
        self.registers.f.subtract = false;
        self.registers.f.half_carry = value % 16 == 15;
        new_value
    }

    /// INC of a register pair: no flags.
    pub fn inc_16bits(&mut self, value: u16) -> (r: u16)
        ensures
            *final(self) == *old(self),
            r == u16_specs::wrapping_add(value, 1),
    {
        value.wrapping_add(1)
    }

    /// DEC of a byte: C unchanged, H on borrow from bit 4.
    pub fn dec(&mut self, value: u8) -> (r: u8)
        ensures
            *final(self) == (CPU { registers: final(self).registers, ..*old(self) }),
            r == u8_specs::wrapping_sub(value, 1),
            final(self).registers == (Registers {
                f: FlagsRegister {
                    zero: u8_specs::wrapping_sub(value, 1) == 0,
                    subtract: true,
                    half_carry: value % 16 == 0,
                    ..old(self).registers.f
                },
                ..old(self).registers
            }),
    {
        let new_value = value.wrapping_sub(1);
        self.registers.f.zero = new_value == 0;
        self.registers.f.subtract = true;
        self.registers.f.half_carry = value % 16 == 0;
        new_value
    }

    /// DEC of a register pair: no flags.
    pub fn dec_16bits(&mut self, value: u16) -> (r: u16)
        ensures
            *final(self) == *old(self),
            r == u16_specs::wrapping_sub(value, 1),
    {
        value.wrapping_sub(1)
    }

    /// CCF: complement the carry flag, clearing N and H.
    pub fn ccf(&mut self)
        ensures
            *final(self) == (CPU { registers: final(self).registers, ..*old(self) }),
            final(self).registers == (Registers {
                f: FlagsRegister {
                    carry: !old(self).registers.f.carry,
                    subtract: false,
                    half_carry: false,
                    ..old(self).registers.f
                },
                ..old(self).registers
            }),
    {
        self.registers.f.carry = !self.registers.f.carry;
        self.registers.f.subtract = false;
        self.registers.f.half_carry = false;
    }

    /// SCF: set the carry flag, clearing N and H.
    pub fn scf(&mut self)
        ensures
            *final(self) == (CPU { registers: final(self).registers, ..*old(self) }),
            final(self).registers == (Registers {
                f: FlagsRegister {
                    carry: true,
                    subtract: false,
                    half_carry: false,
                    ..old(self).registers.f
                },
                ..old(self).registers
            }),
    {
        self.registers.f.carry = true;
        self.registers.f.subtract = false;
        self.registers.f.half_carry = false;
    }

    /// CPL: complement A, setting N and H.
    pub fn cpl(&mut self)
        ensures
            *final(self) == (CPU { registers: final(self).registers, ..*old(self) }),
            final(self).registers == (Registers {
                a: !old(self).registers.a,
                f: FlagsRegister { subtract: true, half_carry: true, ..old(self).registers.f },
                ..old(self).registers
            }),
    {
        self.registers.a = !self.registers.a;
        self.registers.f.subtract = true;
        self.registers.f.half_carry = true;
    }

    /// RRA: rotate A right through carry; Z forced clear.
    pub fn rra(&mut self)
        ensures
            *final(self) == (CPU { registers: final(self).registers, ..*old(self) }),
            final(self).registers == (Registers {
                a: (old(self).registers.a / 2 + (if old(self).registers.f.carry {
                    128int
                } else {
                    0
                })) as u8,
                f: FlagsRegister {
                    zero: false,
                    subtract: false,
                    half_carry: false,
                    carry: old(self).registers.a % 2 == 1,
                },
                ..old(self).registers
            }),
    {
        let a = self.registers.a;
        self.registers.a = a / 2 + (if self.registers.f.carry {
            128u8
        } else {
            0
        });
        self.registers.f.carry = a % 2 == 1;
        self.registers.f.zero = false;
        self.registers.f.subtract = false;
        self.registers.f.half_carry = false;
    }

    /// RLA: rotate A left through carry; Z forced clear.
    pub fn rla(&mut self)
        ensures
            *final(self) == (CPU { registers: final(self).registers, ..*old(self) }),
            final(self).registers == (Registers {
                a: (old(self).registers.a % 128 * 2 + (if old(self).registers.f.carry {
                    1int
                } else {
                    0
                })) as u8,
                f: FlagsRegister {
                    zero: false,
                    subtract: false,
                    half_carry: false,
                    carry: old(self).registers.a / 128 == 1,
                },
                ..old(self).registers
            }),
    {
        let a = self.registers.a;
        self.registers.a = a % 128 * 2 + (if self.registers.f.carry {
            1u8
        } else {
            0
        });
        self.registers.f.carry = a / 128 == 1;
        self.registers.f.zero = false;
        self.registers.f.subtract = false;
        self.registers.f.half_carry = false;
    }

    /// RRCA: rotate A right circularly; Z forced clear.
    pub fn rrca(&mut self)
        ensures
            *final(self) == (CPU { registers: final(self).registers, ..*old(self) }),
            final(self).registers == (Registers {
                a: (old(self).registers.a / 2 + old(self).registers.a % 2 * 128) as u8,
                f: FlagsRegister {
                    zero: false,
                    subtract: false,
                    half_carry: false,
                    carry: old(self).registers.a % 2 == 1,
                },
                ..old(self).registers
            }),
    {
        let a = self.registers.a;
        self.registers.a = a / 2 + a % 2 * 128;
        self.registers.f.zero = false;
        self.registers.f.subtract = false;
        self.registers.f.half_carry = false;
        self.registers.f.carry = a % 2 == 1;
    }

    /// RLCA: rotate A left circularly; Z forced clear.
    pub fn rlca(&mut self)
        ensures
            *final(self) == (CPU { registers: final(self).registers, ..*old(self) }),
            final(self).registers == (Registers {
                a: (old(self).registers.a % 128 * 2 + old(self).registers.a / 128) as u8,
                f: FlagsRegister {
                    zero: false,
                    subtract: false,
                    half_carry: false,
                    carry: old(self).registers.a / 128 == 1,
                },
                ..old(self).registers
            }),
    {
        let a = self.registers.a;
        self.registers.a = a % 128 * 2 + a / 128;
        self.registers.f.zero = false;
        self.registers.f.subtract = false;
        self.registers.f.half_carry = false;
        self.registers.f.carry = a / 128 == 1;
    }

    /// BIT pos, value: Z set when the bit is clear; N cleared, H set,
    /// C untouched.
    pub fn bit(&mut self, value: u8, pos: u8)
        requires
            pos < 8,
        ensures
            *final(self) == (CPU { registers: final(self).registers, ..*old(self) }),
            final(self).registers == (Registers {
                f: FlagsRegister {
                    zero: value & (1u8 << pos) == 0,
                    subtract: false,
                    half_carry: true,
                    ..old(self).registers.f
                },
                ..old(self).registers
            }),
    {
        self.registers.f.zero = value & (1u8 << pos) == 0;
        self.registers.f.subtract = false;
        self.registers.f.half_carry = true;
    }

    /// RES pos, value: the byte with the bit cleared; no flags.
    pub fn reset(&mut self, value: u8, pos: u8) -> (r: u8)
        requires
            pos < 8,
        ensures
            *final(self) == *old(self),
            r == value & !(1u8 << pos),
    {
        value & !(1u8 << pos)
    }

    /// SET pos, value: the byte with the bit set; no flags.
    pub fn set(&mut self, value: u8, pos: u8) -> (r: u8)
        requires
            pos < 8,
        ensures
            *final(self) == *old(self),
            r == value | (1u8 << pos),
    {
        value | (1u8 << pos)
    }

    /// SRL: shift right, zero into bit 7; C takes the shifted-out bit.
    pub fn srl(&mut self, value: u8) -> (r: u8)
        ensures
            *final(self) == (CPU { registers: final(self).registers, ..*old(self) }),
            r == value / 2,
            final(self).registers == (Registers {
                f: FlagsRegister {
                    zero: value / 2 == 0,
                    subtract: false,
                    half_carry: false,
                    carry: value % 2 == 1,
                },
                ..old(self).registers
            }),
    {
        let new_value = value / 2;
        self.registers.f.zero = new_value == 0;
        self.registers.f.subtract = false;
        self.registers.f.half_carry = false;
        self.registers.f.carry = value % 2 == 1;
        new_value
    }

    /// RR: rotate right through carry.
    pub fn rr(&mut self, value: u8) -> (r: u8)
        ensures
            *final(self) == (CPU { registers: final(self).registers, ..*old(self) }),
            r == (value / 2 + (if old(self).registers.f.carry {
                128int
            } else {
                0
            })) as u8,
            final(self).registers == (Registers {
                f: FlagsRegister {
                    zero: r == 0,
                    subtract: false,
                    half_carry: false,
                    carry: value % 2 == 1,
                },
                ..old(self).registers
            }),
    {
        let new_value = value / 2 + (if self.registers.f.carry {
            128u8
        } else {
            0
        });
        self.registers.f.zero = new_value == 0;
        self.registers.f.subtract = false;
        self.registers.f.half_carry = false;
        self.registers.f.carry = value % 2 == 1;
        new_value
    }

    /// RL: rotate left through carry.
    pub fn rl(&mut self, value: u8) -> (r: u8)
        ensures
            *final(self) == (CPU { registers: final(self).registers, ..*old(self) }),
            r == (value % 128 * 2 + (if old(self).registers.f.carry {
                1int
            } else {
                0
            })) as u8,
            final(self).registers == (Registers {
                f: FlagsRegister {
                    zero: r == 0,
                    subtract: false,
                    half_carry: false,
                    carry: value / 128 == 1,
                },
                ..old(self).registers
            }),
    {
        let new_value = value % 128 * 2 + (if self.registers.f.carry {
            1u8
        } else {
            0
        });
        self.registers.f.zero = new_value == 0;
        self.registers.f.subtract = false;
        self.registers.f.half_carry = false;
        self.registers.f.carry = value / 128 == 1;
        new_value
    }

    /// RRC: rotate right circularly.
    pub fn rrc(&mut self, value: u8) -> (r: u8)
        ensures
            *final(self) == (CPU { registers: final(self).registers, ..*old(self) }),
            r == (value / 2 + value % 2 * 128) as u8,
            final(self).registers == (Registers {
                f: FlagsRegister {
                    zero: r == 0,
                    subtract: false,
                    half_carry: false,
                    carry: value % 2 == 1,
                },
                ..old(self).registers
            }),
    {
        let new_value = value / 2 + value % 2 * 128;
        self.registers.f.zero = new_value == 0;
        self.registers.f.subtract = false;
        self.registers.f.half_carry = false;
        self.registers.f.carry = value % 2 == 1;
        new_value
    }

    /// RLC: rotate left circularly.
    pub fn rlc(&mut self, value: u8) -> (r: u8)
        ensures
            *final(self) == (CPU { registers: final(self).registers, ..*old(self) }),
            r == (value % 128 * 2 + value / 128) as u8,
            final(self).registers == (Registers {
                f: FlagsRegister {
                    zero: r == 0,
                    subtract: false,
                    half_carry: false,
                    carry: value / 128 == 1,
                },
                ..old(self).registers
            }),
    {
        let new_value = value % 128 * 2 + value / 128;
        self.registers.f.zero = new_value == 0;
        self.registers.f.subtract = false;
        self.registers.f.half_carry = false;
        self.registers.f.carry = value / 128 == 1;
        new_value
    }

    /// SRA: arithmetic shift right, bit 7 kept.
    pub fn sra(&mut self, value: u8) -> (r: u8)
        ensures
            *final(self) == (CPU { registers: final(self).registers, ..*old(self) }),
            r == (value / 2 + value / 128 * 128) as u8,
            final(self).registers == (Registers {
                f: FlagsRegister {
                    zero: r == 0,
                    subtract: false,
                    half_carry: false,
                    carry: value % 2 == 1,
                },
                ..old(self).registers
            }),
    {
        let new_value = value / 2 + value / 128 * 128;
        self.registers.f.zero = new_value == 0;
        self.registers.f.subtract = false;
        self.registers.f.half_carry = false;
        self.registers.f.carry = value % 2 == 1;
        new_value
    }

    /// SLA: shift left, zero into bit 0; C takes the shifted-out bit.
    pub fn sla(&mut self, value: u8) -> (r: u8)
        ensures
            *final(self) == (CPU { registers: final(self).registers, ..*old(self) }),
            r == (value % 128 * 2) as u8,
            final(self).registers == (Registers {
                f: FlagsRegister {
                    zero: r == 0,
                    subtract: false,
                    half_carry: false,
                    carry: value / 128 == 1,
                },
                ..old(self).registers
            }),
    {
        let new_value = value % 128 * 2;
        self.registers.f.zero = new_value == 0;
        self.registers.f.subtract = false;
        self.registers.f.half_carry = false;
        self.registers.f.carry = value / 128 == 1;
        new_value
    }

    /// SWAP: exchange the two nibbles; only Z can be set.
    pub fn swap(&mut self, value: u8) -> (r: u8)
        ensures
            *final(self) == (CPU { registers: final(self).registers, ..*old(self) }),
            r == (value % 16 * 16 + value / 16) as u8,
            final(self).registers == (Registers {
                f: FlagsRegister {
                    zero: r == 0,
                    subtract: false,
                    half_carry: false,
                    carry: false,
                },
                ..old(self).registers
            }),
    {
        let new_value = value % 16 * 16 + value / 16;
        self.registers.f.zero = new_value == 0;
        self.registers.f.subtract = false;
        self.registers.f.half_carry = false;
        self.registers.f.carry = false;
        new_value
    }

    /// The 8-bit register selected by a three-bit operand field
    /// (0 B, 1 C, 2 D, 3 E, 4 H, 5 L, 7 A; 6 names memory at HL).
    pub fn get_reg(&self, idx: u8) -> (r: u8)
        requires
            idx < 8,
            idx != 6,
        ensures
            r == spec_reg8(self.registers, idx),
    {
        if idx == 0 {
            self.registers.b
        } else if idx == 1 {
            self.registers.c
        } else if idx == 2 {
            self.registers.d
        } else if idx == 3 {
            self.registers.e
        } else if idx == 4 {
            self.registers.h
        } else if idx == 5 {
            self.registers.l
        } else {
            self.registers.a
        }
    }

    /// Store into the register selected by a three-bit operand field.
    pub fn set_reg(&mut self, idx: u8, v: u8)
        requires
            idx < 8,
            idx != 6,
        ensures
            *final(self) == (CPU {
                registers: spec_set_reg8(old(self).registers, idx, v),
                ..*old(self)
            }),
    {
        if idx == 0 {
            self.registers.b = v;
        } else if idx == 1 {
            self.registers.c = v;
        } else if idx == 2 {
            self.registers.d = v;
        } else if idx == 3 {
            self.registers.e = v;
        } else if idx == 4 {
            self.registers.h = v;
        } else if idx == 5 {
            self.registers.l = v;
        } else {
            self.registers.a = v;
        }
    }

    /// CALL: when taken, push the return address and fetch the target
    /// (24 cycles); otherwise skip the immediate word (12 cycles).
    pub fn call(&mut self, jump: bool) -> (r: (u16, u8))
        requires
            old(self).bus.inv(),
            old(self).cycles_synced <= 239,
        ensures
            final(self).bus.inv(),
            final(self).cycles_synced == old(self).cycles_synced + (if jump {
                16int
            } else {
                0
            }),
            final(self).bus.spec_cycles() == old(self).bus.spec_cycles() + (if jump {
                16int
            } else {
                0
            }),
            final(self).registers == old(self).registers,
            final(self).pc == old(self).pc,
            final(self).ime == old(self).ime,
            final(self).ime_delayed == old(self).ime_delayed,
            final(self).is_halted == old(self).is_halted,
            final(self).is_stopped == old(self).is_stopped,
            r.1 == if jump {
                24u8
            } else {
                12u8
            },
            !jump ==> r.0 == u16_specs::wrapping_add(old(self).pc, 3) && final(self).sp == old(
                self,
            ).sp,
            jump ==> final(self).sp == u16_specs::wrapping_sub(old(self).sp, 2),
    {
        let next_pc = self.pc.wrapping_add(3);
        if jump {
            self.push(next_pc);
            (self.read_two_bytes(self.pc.wrapping_add(1)), 24)
        } else {
            (next_pc, 12)
        }
    }

    /// RET: when taken, pop the return address (20 cycles); otherwise fall
    /// through (8 cycles).
    pub fn ret(&mut self, jump: bool) -> (r: (u16, u8))
        requires
            old(self).bus.inv(),
            old(self).cycles_synced <= 247,
        ensures
            final(self).bus.inv(),
            final(self).cycles_synced == old(self).cycles_synced + (if jump {
                8int
            } else {
                0
            }),
            final(self).bus.spec_cycles() == old(self).bus.spec_cycles() + (if jump {
                8int
            } else {
                0
            }),
            final(self).registers == old(self).registers,
            final(self).pc == old(self).pc,
            final(self).ime == old(self).ime,
            final(self).ime_delayed == old(self).ime_delayed,
            final(self).is_halted == old(self).is_halted,
            final(self).is_stopped == old(self).is_stopped,
            r.1 == if jump {
                20u8
            } else {
                8u8
            },
            !jump ==> r.0 == u16_specs::wrapping_add(old(self).pc, 1) && final(self).sp == old(
                self,
            ).sp,
            jump ==> final(self).sp == u16_specs::wrapping_add(old(self).sp, 2),
    {
        if jump {
            (self.pop(), 20)
        } else {
            (self.pc.wrapping_add(1), 8)
        }
    }

    /// Push a word: the stack grows down by two, high byte on top.
    pub fn push(&mut self, value: u16)
        requires
            old(self).bus.inv(),
            old(self).cycles_synced <= 247,
        ensures
            final(self).bus.inv(),
            final(self).cycles_synced == old(self).cycles_synced + 8,
            final(self).bus.spec_cycles() == old(self).bus.spec_cycles() + 8,
            final(self).registers == old(self).registers,
            final(self).pc == old(self).pc,
            final(self).sp == u16_specs::wrapping_sub(old(self).sp, 2),
            final(self).ime == old(self).ime,
            final(self).ime_delayed == old(self).ime_delayed,
            final(self).is_halted == old(self).is_halted,
            final(self).is_stopped == old(self).is_stopped,
    {
        self.sp = self.sp.wrapping_sub(2);
        self.write_two_bytes(self.sp, value);
    }

    /// Pop a word: the stack shrinks up by two.
    pub fn pop(&mut self) -> (r: u16)
        requires
            old(self).bus.inv(),
            old(self).cycles_synced <= 247,
        ensures
            final(self).bus.inv(),
            final(self).cycles_synced == old(self).cycles_synced + 8,
            final(self).bus.spec_cycles() == old(self).bus.spec_cycles() + 8,
            final(self).registers == old(self).registers,
            final(self).pc == old(self).pc,
            final(self).sp == u16_specs::wrapping_add(old(self).sp, 2),
            final(self).ime == old(self).ime,
            final(self).ime_delayed == old(self).ime_delayed,
            final(self).is_halted == old(self).is_halted,
            final(self).is_stopped == old(self).is_stopped,
    {
        let val = self.read_two_bytes(self.sp);
        self.sp = self.sp.wrapping_add(2);
        val
    }

    /// JP: when taken, fetch the immediate target (16 cycles); otherwise
    /// skip it (12 cycles).
    pub fn jp(&mut self, jump: bool) -> (r: (u16, u8))
        requires
            old(self).bus.inv(),
            old(self).cycles_synced <= 247,
        ensures
            final(self).bus.inv(),
            final(self).cycles_synced == old(self).cycles_synced + (if jump {
                8int
            } else {
                0
            }),
            final(self).bus.spec_cycles() == old(self).bus.spec_cycles() + (if jump {
                8int
            } else {
                0
            }),
            final(self).registers == old(self).registers,
            final(self).pc == old(self).pc,
            final(self).sp == old(self).sp,
            final(self).ime == old(self).ime,
            final(self).ime_delayed == old(self).ime_delayed,
            final(self).is_halted == old(self).is_halted,
            final(self).is_stopped == old(self).is_stopped,
            r.1 == if jump {
                16u8
            } else {
                12u8
            },
            !jump ==> r.0 == u16_specs::wrapping_add(old(self).pc, 3),
    {
        if jump {
            (self.read_two_bytes(self.pc.wrapping_add(1)), 16)
        } else {
            (self.pc.wrapping_add(3), 12)
        }
    }

    /// JR: when taken, add the signed displacement to the address after the
    /// instruction (12 cycles); otherwise skip it (8 cycles).
    pub fn jr(&mut self, jump: bool) -> (r: (u16, u8))
        requires
            old(self).bus.inv(),
            old(self).cycles_synced <= 251,
        ensures
            final(self).bus.inv(),
            final(self).cycles_synced == old(self).cycles_synced + (if jump {
                4int
            } else {
                0
            }),
            final(self).bus.spec_cycles() == old(self).bus.spec_cycles() + (if jump {
                4int
            } else {
                0
            }),
            final(self).registers == old(self).registers,
            final(self).pc == old(self).pc,
            final(self).sp == old(self).sp,
            final(self).ime == old(self).ime,
            final(self).ime_delayed == old(self).ime_delayed,
            final(self).is_halted == old(self).is_halted,
            final(self).is_stopped == old(self).is_stopped,
            r.1 == if jump {
                12u8
            } else {
                8u8
            },
            !jump ==> r.0 == u16_specs::wrapping_add(old(self).pc, 2),
    {
        let pc = self.pc.wrapping_add(2);
        if jump {
            let displacement = self.read_byte(self.pc.wrapping_add(1));
            (add_u16_i8(pc, displacement as i8), 12)
        } else {
            (pc, 8)
        }
    }

    /// Decode and run one unprefixed opcode, returning the next program
    /// counter and the documented cycle cost (taken versus not taken for
    /// conditional branches); None for the illegal opcodes, which the
    /// machine then runs as a one-byte, 4-cycle no-op.
    #[verifier::rlimit(100)]
    #[verifier::spinoff_prover]
    pub fn execute(&mut self, instruction_byte: u8) -> (r: Option<(u16, u8)>)
        requires
            old(self).bus.inv(),
            old(self).cycles_synced <= 100,
        ensures
            final(self).bus.inv(),
            r is None <==> spec_unhandled(instruction_byte),
            r is None ==> *final(self) == *old(self),
            final(self).cycles_synced - old(self).cycles_synced == final(self).bus.spec_cycles()
                - old(self).bus.spec_cycles(),
            final(self).cycles_synced >= old(self).cycles_synced,
            r matches Some(v) ==> final(self).cycles_synced <= old(self).cycles_synced + v.1 - 4,
            0x40 <= instruction_byte <= 0x7F && instruction_byte != 0x76 && instruction_byte % 8
                != 6 && instruction_byte / 8 % 8 != 6 ==> *final(self) == (CPU {
                registers: spec_set_reg8(
                    old(self).registers,
                    (instruction_byte / 8 % 8) as u8,
                    spec_reg8(old(self).registers, (instruction_byte % 8) as u8),
                ),
                ..*old(self)
            }),
            0x80 <= instruction_byte <= 0xBF && instruction_byte % 8 != 6 ==> *final(self) == (CPU {
                registers: spec_alu(
                    old(self).registers,
                    (instruction_byte / 8 % 8) as u8,
                    spec_reg8(old(self).registers, (instruction_byte % 8) as u8),
                ),
                ..*old(self)
            }),
            instruction_byte == 0x27 ==> final(self).registers == (Registers {
                a: spec_daa_result(old(self).registers),
                f: FlagsRegister {
                    zero: spec_daa_result(old(self).registers) == 0,
                    half_carry: false,
                    carry: spec_daa_sets_carry(old(self).registers),
                    ..old(self).registers.f
                },
                ..old(self).registers
            }),
            instruction_byte == 0x2F ==> final(self).registers == (Registers {
                a: !old(self).registers.a,
                f: FlagsRegister { subtract: true, half_carry: true, ..old(self).registers.f },
                ..old(self).registers
            }),
            instruction_byte == 0x37 ==> final(self).registers.f == (FlagsRegister {
                carry: true,
                subtract: false,
                half_carry: false,
                ..old(self).registers.f
            }),
            instruction_byte == 0x3F ==> final(self).registers.f == (FlagsRegister {
                carry: !old(self).registers.f.carry,
                subtract: false,
                half_carry: false,
                ..old(self).registers.f
            }),
            instruction_byte == 0x07 ==> final(self).registers.a == old(self).registers.a % 128 * 2
                + old(self).registers.a / 128 && final(self).registers.f.carry == (old(
                self,
            ).registers.a / 128 == 1),
            instruction_byte == 0x0F ==> final(self).registers.a == old(self).registers.a / 2 + old(
                self,
            ).registers.a % 2 * 128 && final(self).registers.f.carry == (old(self).registers.a % 2
                == 1),
            instruction_byte == 0x17 ==> final(self).registers.a == old(self).registers.a % 128 * 2
                + (if old(self).registers.f.carry {
                1int
            } else {
                0
            }) && final(self).registers.f.carry == (old(self).registers.a / 128 == 1),
            instruction_byte == 0x1F ==> final(self).registers.a == old(self).registers.a / 2 + (
            if old(self).registers.f.carry {
                128int
            } else {
                0
            }) && final(self).registers.f.carry == (old(self).registers.a % 2 == 1),
            instruction_byte == 0xE9 ==> r == Some((old(self).registers.spec_hl(), 4u8)),
            instruction_byte == 0xF9 ==> final(self).sp == old(self).registers.spec_hl(),
            instruction_byte == 0xF3 ==> !final(self).ime,
            instruction_byte == 0xFB ==> final(self).ime_delayed,
            instruction_byte == 0x76 ==> final(self).is_halted,
            r matches Some(v) ==> v.1 == spec_instr_cycles(
                instruction_byte,
                spec_cond_holds(instruction_byte, old(self).registers.f),
            ),
            r matches Some(v) ==> 4 <= v.1 <= 24 && v.1 % 4 == 0,
            r matches Some(v) ==> spec_is_control_flow(instruction_byte) || v.0
                == u16_specs::wrapping_add(old(self).pc, spec_instr_len(instruction_byte)),
    {
        let op = instruction_byte;
        if op != 0x76 && 0x40 <= op && op <= 0x7F {
            // The LD r, r' block, with (HL) as source or destination.
            let src = op % 8;
            let dst = op / 8 % 8;
            if src == 6 {
                let hl = self.registers.get_hl();
                let v = self.read_byte(hl);
                self.set_reg(dst, v);
                Some((self.pc.wrapping_add(1), 8))
            } else if dst == 6 {
                let v = self.get_reg(src);
                let hl = self.registers.get_hl();
                self.write_byte(hl, v);
                Some((self.pc.wrapping_add(1), 8))
            } else {
                let v = self.get_reg(src);
                self.set_reg(dst, v);
                Some((self.pc.wrapping_add(1), 4))
            }
        } else if 0x80 <= op && op <= 0xBF {
            // The accumulator arithmetic block.
            let src = op % 8;
            let v = if src == 6 {
                let hl = self.registers.get_hl();
                self.read_byte(hl)
            } else {
                self.get_reg(src)
            };
            let group = op / 8 % 8;
            if group == 0 {
                self.add(v);
            } else if group == 1 {
                self.adc(v);
            } else if group == 2 {
                self.sub(v);
            } else if group == 3 {
                self.sbc(v);
            } else if group == 4 {
                self.and(v);
            } else if group == 5 {
                self.xor(v);
            } else if group == 6 {
                self.or(v);
            } else {
                self.cp(v);
            }
            Some((self.pc.wrapping_add(1), if src == 6 {
                8
            } else {
                4
            }))
        } else {
            match op {
                0x00 => Some((self.pc.wrapping_add(1), 4)),
                0x10 => {
                    self.is_stopped = true;
                    self.bus.switch_speed();
                    Some((self.pc.wrapping_add(1), 4))
                },
                0x76 => {
                    self.is_halted = true;
                    Some((self.pc.wrapping_add(1), 4))
                },
                0x03 => {
                    let val = self.registers.get_bc();
                    let val = self.inc_16bits(val);
                    self.registers.set_bc(val);
                    Some((self.pc.wrapping_add(1), 8))
                },
                0x13 => {
                    let val = self.registers.get_de();
                    let val = self.inc_16bits(val);
                    self.registers.set_de(val);
                    Some((self.pc.wrapping_add(1), 8))
                },
                0x23 => {
                    let val = self.registers.get_hl();
                    let val = self.inc_16bits(val);
                    self.registers.set_hl(val);
                    Some((self.pc.wrapping_add(1), 8))
                },
                0x33 => {
                    let val = self.sp;
                    self.sp = self.inc_16bits(val);
                    Some((self.pc.wrapping_add(1), 8))
                },
                0x0B => {
                    let val = self.registers.get_bc();
                    let val = self.dec_16bits(val);
                    self.registers.set_bc(val);
                    Some((self.pc.wrapping_add(1), 8))
                },
                0x1B => {
                    let val = self.registers.get_de();
                    let val = self.dec_16bits(val);
                    self.registers.set_de(val);
                    Some((self.pc.wrapping_add(1), 8))
                },
                0x2B => {
                    let val = self.registers.get_hl();
                    let val = self.dec_16bits(val);
                    self.registers.set_hl(val);
                    Some((self.pc.wrapping_add(1), 8))
                },
                0x3B => {
                    let val = self.sp;
                    self.sp = self.dec_16bits(val);
                    Some((self.pc.wrapping_add(1), 8))
                },
                0x04 => {
                    let v = self.registers.b;
                    self.registers.b = self.inc(v);
                    Some((self.pc.wrapping_add(1), 4))
                },
                0x14 => {
                    let v = self.registers.d;
                    self.registers.d = self.inc(v);
                    Some((self.pc.wrapping_add(1), 4))
                },
                0x24 => {
                    let v = self.registers.h;
                    self.registers.h = self.inc(v);
                    Some((self.pc.wrapping_add(1), 4))
                },
                0x0C => {
                    let v = self.registers.c;
                    self.registers.c = self.inc(v);
                    Some((self.pc.wrapping_add(1), 4))
                },
                0x1C => {
                    let v = self.registers.e;
                    self.registers.e = self.inc(v);
                    Some((self.pc.wrapping_add(1), 4))
                },
                0x2C => {
                    let v = self.registers.l;
                    self.registers.l = self.inc(v);
                    Some((self.pc.wrapping_add(1), 4))
                },
                0x3C => {
                    let v = self.registers.a;
                    self.registers.a = self.inc(v);
                    Some((self.pc.wrapping_add(1), 4))
                },
                0x34 => {
                    let hl = self.registers.get_hl();
                    let mem_val = self.read_byte(hl);
                    let inc_val = self.inc(mem_val);
                    self.write_byte(hl, inc_val);
                    Some((self.pc.wrapping_add(1), 12))
                },
                0x05 => {
                    let v = self.registers.b;
                    self.registers.b = self.dec(v);
                    Some((self.pc.wrapping_add(1), 4))
                },
                0x15 => {
                    let v = self.registers.d;
                    self.registers.d = self.dec(v);
                    Some((self.pc.wrapping_add(1), 4))
                },
                0x25 => {
                    let v = self.registers.h;
                    self.registers.h = self.dec(v);
                    Some((self.pc.wrapping_add(1), 4))
                },
                0x0D => {
                    let v = self.registers.c;
                    self.registers.c = self.dec(v);
                    Some((self.pc.wrapping_add(1), 4))
                },
                0x1D => {
                    let v = self.registers.e;
                    self.registers.e = self.dec(v);
                    Some((self.pc.wrapping_add(1), 4))
                },
                0x2D => {
                    let v = self.registers.l;
                    self.registers.l = self.dec(v);
                    Some((self.pc.wrapping_add(1), 4))
                },
                0x3D => {
                    let v = self.registers.a;
                    self.registers.a = self.dec(v);
                    Some((self.pc.wrapping_add(1), 4))
                },
                0x35 => {
                    let hl = self.registers.get_hl();
                    let mem_val = self.read_byte(hl);
                    let dec_val = self.dec(mem_val);
                    self.write_byte(hl, dec_val);
                    Some((self.pc.wrapping_add(1), 12))
                },
                0x07 => {
                    self.rlca();
                    Some((self.pc.wrapping_add(1), 4))
                },
                0x17 => {
                    self.rla();
                    Some((self.pc.wrapping_add(1), 4))
                },
                0x27 => {
                    self.daa();
                    Some((self.pc.wrapping_add(1), 4))
                },
                0x37 => {
                    self.scf();
                    Some((self.pc.wrapping_add(1), 4))
                },
                0x0F => {
                    self.rrca();
                    Some((self.pc.wrapping_add(1), 4))
                },
                0x1F => {
                    self.rra();
                    Some((self.pc.wrapping_add(1), 4))
                },
                0x2F => {
                    self.cpl();
                    Some((self.pc.wrapping_add(1), 4))
                },
                0x3F => {
                    self.ccf();
                    Some((self.pc.wrapping_add(1), 4))
                },
                0x09 => {
                    let v = self.registers.get_bc();
                    self.addhl(v);
                    Some((self.pc.wrapping_add(1), 8))
                },
                0x19 => {
                    let v = self.registers.get_de();
                    self.addhl(v);
                    Some((self.pc.wrapping_add(1), 8))
                },
                0x29 => {
                    let v = self.registers.get_hl();
                    self.addhl(v);
                    Some((self.pc.wrapping_add(1), 8))
                },
                0x39 => {
                    let v = self.sp;
                    self.addhl(v);
                    Some((self.pc.wrapping_add(1), 8))
                },
                0xC6 => {
                    let mem_val = self.read_byte(self.pc.wrapping_add(1));
                    self.add(mem_val);
                    Some((self.pc.wrapping_add(2), 8))
                },
                0xD6 => {
                    let mem_val = self.read_byte(self.pc.wrapping_add(1));
                    self.sub(mem_val);
                    Some((self.pc.wrapping_add(2), 8))
                },
                0xE6 => {
                    let mem_val = self.read_byte(self.pc.wrapping_add(1));
                    self.and(mem_val);
                    Some((self.pc.wrapping_add(2), 8))
                },
                0xF6 => {
                    let mem_val = self.read_byte(self.pc.wrapping_add(1));
                    self.or(mem_val);
                    Some((self.pc.wrapping_add(2), 8))
                },
                0xCE => {
                    let mem_val = self.read_byte(self.pc.wrapping_add(1));
                    self.adc(mem_val);
                    Some((self.pc.wrapping_add(2), 8))
                },
                0xDE => {
                    let mem_val = self.read_byte(self.pc.wrapping_add(1));
                    self.sbc(mem_val);
                    Some((self.pc.wrapping_add(2), 8))
                },
                0xEE => {
                    let mem_val = self.read_byte(self.pc.wrapping_add(1));
                    self.xor(mem_val);
                    Some((self.pc.wrapping_add(2), 8))
                },
                0xFE => {
                    let mem_val = self.read_byte(self.pc.wrapping_add(1));
                    self.cp(mem_val);
                    Some((self.pc.wrapping_add(2), 8))
                },
                0x20 => {
                    let c = !self.registers.f.zero;
                    Some(self.jr(c))
                },
                0x30 => {
                    let c = !self.registers.f.carry;
                    Some(self.jr(c))
                },
                0x18 => Some(self.jr(true)),
                0x28 => {
                    let c = self.registers.f.zero;
                    Some(self.jr(c))
                },
                0x38 => {
                    let c = self.registers.f.carry;
                    Some(self.jr(c))
                },
                0xC2 => {
                    let c = !self.registers.f.zero;
                    Some(self.jp(c))
                },
                0xD2 => {
                    let c = !self.registers.f.carry;
                    Some(self.jp(c))
                },
                0xC3 => Some(self.jp(true)),
                0xCA => {
                    let c = self.registers.f.zero;
                    Some(self.jp(c))
                },
                0xDA => {
                    let c = self.registers.f.carry;
                    Some(self.jp(c))
                },
                0x01 => {
                    let mem_val = self.read_two_bytes(self.pc.wrapping_add(1));
                    self.registers.set_bc(mem_val);
                    Some((self.pc.wrapping_add(3), 12))
                },
                0x11 => {
                    let mem_val = self.read_two_bytes(self.pc.wrapping_add(1));
                    self.registers.set_de(mem_val);
                    Some((self.pc.wrapping_add(3), 12))
                },
                0x21 => {
                    let mem_val = self.read_two_bytes(self.pc.wrapping_add(1));
                    self.registers.set_hl(mem_val);
                    Some((self.pc.wrapping_add(3), 12))
                },
                0x31 => {
                    self.sp = self.read_two_bytes(self.pc.wrapping_add(1));
                    Some((self.pc.wrapping_add(3), 12))
                },
                0x02 => {
                    let addr = self.registers.get_bc();
                    let v = self.registers.a;
                    self.write_byte(addr, v);
                    Some((self.pc.wrapping_add(1), 8))
                },
                0x12 => {
                    let addr = self.registers.get_de();
                    let v = self.registers.a;
                    self.write_byte(addr, v);
                    Some((self.pc.wrapping_add(1), 8))
                },
                0x22 => {
                    let hl_reg_val = self.registers.get_hl();
                    let v = self.registers.a;
                    self.write_byte(hl_reg_val, v);
                    self.registers.set_hl(hl_reg_val.wrapping_add(1));
                    Some((self.pc.wrapping_add(1), 8))
                },
                0x32 => {
                    let hl_reg_val = self.registers.get_hl();
                    let v = self.registers.a;
                    self.write_byte(hl_reg_val, v);
                    self.registers.set_hl(hl_reg_val.wrapping_sub(1));
                    Some((self.pc.wrapping_add(1), 8))
                },
                0x06 => {
                    let mem_val = self.read_byte(self.pc.wrapping_add(1));
                    self.registers.b = mem_val;
                    Some((self.pc.wrapping_add(2), 8))
                },
                0x16 => {
                    let mem_val = self.read_byte(self.pc.wrapping_add(1));
                    self.registers.d = mem_val;
                    Some((self.pc.wrapping_add(2), 8))
                },
                0x26 => {
                    let mem_val = self.read_byte(self.pc.wrapping_add(1));
                    self.registers.h = mem_val;
                    Some((self.pc.wrapping_add(2), 8))
                },
                0x36 => {
                    let mem_val = self.read_byte(self.pc.wrapping_add(1));
                    let hl = self.registers.get_hl();
                    self.write_byte(hl, mem_val);
                    Some((self.pc.wrapping_add(2), 12))
                },
                0x08 => {
                    let val = self.read_two_bytes(self.pc.wrapping_add(1));
                    let sp = self.sp;
                    self.write_two_bytes(val, sp);
                    Some((self.pc.wrapping_add(3), 20))
                },
                0x0A => {
                    let addr = self.registers.get_bc();
                    self.registers.a = self.read_byte(addr);
                    Some((self.pc.wrapping_add(1), 8))
                },
                0x1A => {
                    let addr = self.registers.get_de();
                    self.registers.a = self.read_byte(addr);
                    Some((self.pc.wrapping_add(1), 8))
                },
                0x2A => {
                    let hl_reg_val = self.registers.get_hl();
                    self.registers.a = self.read_byte(hl_reg_val);
                    self.registers.set_hl(hl_reg_val.wrapping_add(1));
                    Some((self.pc.wrapping_add(1), 8))
                },
                0x3A => {
                    let hl_reg_val = self.registers.get_hl();
                    self.registers.a = self.read_byte(hl_reg_val);
                    self.registers.set_hl(hl_reg_val.wrapping_sub(1));
                    Some((self.pc.wrapping_add(1), 8))
                },
                0x0E => {
                    let mem_val = self.read_byte(self.pc.wrapping_add(1));
                    self.registers.c = mem_val;
                    Some((self.pc.wrapping_add(2), 8))
                },
                0x1E => {
                    let mem_val = self.read_byte(self.pc.wrapping_add(1));
                    self.registers.e = mem_val;
                    Some((self.pc.wrapping_add(2), 8))
                },
                0x2E => {
                    let mem_val = self.read_byte(self.pc.wrapping_add(1));
                    self.registers.l = mem_val;
                    Some((self.pc.wrapping_add(2), 8))
                },
                0x3E => {
                    let mem_val = self.read_byte(self.pc.wrapping_add(1));
                    self.registers.a = mem_val;
                    Some((self.pc.wrapping_add(2), 8))
                },
                0xE0 => {
                    let mem_val = self.read_byte(self.pc.wrapping_add(1));
                    let v = self.registers.a;
                    self.write_byte(0xFF00 + mem_val as u16, v);
                    Some((self.pc.wrapping_add(2), 12))
                },
                0xF0 => {
                    let mem_val = self.read_byte(self.pc.wrapping_add(1));
                    self.registers.a = self.read_byte(0xFF00 + mem_val as u16);
                    Some((self.pc.wrapping_add(2), 12))
                },
                0xE2 => {
                    let addr = 0xFF00 + self.registers.c as u16;
                    let v = self.registers.a;
                    self.write_byte(addr, v);
                    Some((self.pc.wrapping_add(1), 8))
                },
                0xF2 => {
                    let addr = 0xFF00 + self.registers.c as u16;
                    self.registers.a = self.read_byte(addr);
                    Some((self.pc.wrapping_add(1), 8))
                },
                0xE8 => {
                    let raw = self.read_byte(self.pc.wrapping_add(1));
                    let init_sp = self.sp;
                    self.sp = self.offset_sp(init_sp, raw);
                    Some((self.pc.wrapping_add(2), 16))
                },
                0xF8 => {
                    let raw = self.read_byte(self.pc.wrapping_add(1));
                    let sp = self.sp;
                    let sum = self.offset_sp(sp, raw);
                    self.registers.set_hl(sum);
                    Some((self.pc.wrapping_add(2), 12))
                },
                0xF9 => {
                    self.sp = self.registers.get_hl();
                    Some((self.pc.wrapping_add(1), 8))
                },
                0xEA => {
                    let val = self.read_two_bytes(self.pc.wrapping_add(1));
                    let v = self.registers.a;
                    self.write_byte(val, v);
                    Some((self.pc.wrapping_add(3), 16))
                },
                0xFA => {
                    let val = self.read_two_bytes(self.pc.wrapping_add(1));
                    self.registers.a = self.read_byte(val);
                    Some((self.pc.wrapping_add(3), 16))
                },
                0xC1 => {
                    let val = self.pop();
                    self.registers.set_bc(val);
                    Some((self.pc.wrapping_add(1), 12))
                },
                0xD1 => {
                    let val = self.pop();
                    self.registers.set_de(val);
                    Some((self.pc.wrapping_add(1), 12))
                },
                0xE1 => {
                    let val = self.pop();
                    self.registers.set_hl(val);
                    Some((self.pc.wrapping_add(1), 12))
                },
                0xF1 => {
                    let val = self.pop();
                    self.registers.set_af(val);
                    Some((self.pc.wrapping_add(1), 12))
                },
                0xC5 => {
                    let v = self.registers.get_bc();
                    self.push(v);
                    Some((self.pc.wrapping_add(1), 16))
                },
                0xD5 => {
                    let v = self.registers.get_de();
                    self.push(v);
                    Some((self.pc.wrapping_add(1), 16))
                },
                0xE5 => {
                    let v = self.registers.get_hl();
                    self.push(v);
                    Some((self.pc.wrapping_add(1), 16))
                },
                0xF5 => {
                    let v = self.registers.get_af();
                    self.push(v);
                    Some((self.pc.wrapping_add(1), 16))
                },
                0xC0 => {
                    let c = !self.registers.f.zero;
                    Some(self.ret(c))
                },
                0xD0 => {
                    let c = !self.registers.f.carry;
                    Some(self.ret(c))
                },
                0xC8 => {
                    let c = self.registers.f.zero;
                    Some(self.ret(c))
                },
                0xD8 => {
                    let c = self.registers.f.carry;
                    Some(self.ret(c))
                },
                0xC9 => {
                    let (pc, _) = self.ret(true);
                    Some((pc, 16))
                },
                0xD9 => {
                    // RETI enables interrupts at once, without the delay of
                    // the enable-interrupts instruction.
                    self.ime = true;
                    let (pc, _) = self.ret(true);
                    Some((pc, 16))
                },
                0xC4 => {
                    let c = !self.registers.f.zero;
                    Some(self.call(c))
                },
                0xD4 => {
                    let c = !self.registers.f.carry;
                    Some(self.call(c))
                },
                0xCC => {
                    let c = self.registers.f.zero;
                    Some(self.call(c))
                },
                0xDC => {
                    let c = self.registers.f.carry;
                    Some(self.call(c))
                },
                0xCD => Some(self.call(true)),
                0xE9 => Some((self.registers.get_hl(), 4)),
                0xF3 => {
                    self.ime = false;
                    Some((self.pc.wrapping_add(1), 4))
                },
                0xFB => {
                    self.enable_ime();
                    Some((self.pc.wrapping_add(1), 4))
                },
                0xC7 => {
                    let v = self.pc.wrapping_add(1);
                    self.push(v);
                    Some((0x00, 16))
                },
                0xD7 => {
                    let v = self.pc.wrapping_add(1);
                    self.push(v);
                    Some((0x10, 16))
                },
                0xE7 => {
                    let v = self.pc.wrapping_add(1);
                    self.push(v);
                    Some((0x20, 16))
                },
                0xF7 => {
                    let v = self.pc.wrapping_add(1);
                    self.push(v);
                    Some((0x30, 16))
                },
                0xCF => {
                    let v = self.pc.wrapping_add(1);
                    self.push(v);
                    Some((0x08, 16))
                },
                0xDF => {
                    let v = self.pc.wrapping_add(1);
                    self.push(v);
                    Some((0x18, 16))
                },
                0xEF => {
                    let v = self.pc.wrapping_add(1);
                    self.push(v);
                    Some((0x28, 16))
                },
                0xFF => {
                    let v = self.pc.wrapping_add(1);
                    self.push(v);
                    Some((0x38, 16))
                },
                _ => None,
            }
        }
    }

    /// One rotate or shift of the prefixed table, selected by its three-bit
    /// operation field: RLC, RRC, RL, RR, SLA, SRA, SWAP or SRL.
    pub fn rotate_shift_op(&mut self, sub: u8, value: u8) -> (r: u8)
        requires
            sub < 8,
        ensures
            *final(self) == (CPU { registers: final(self).registers, ..*old(self) }),
            r == spec_rot_result(sub, value, old(self).registers.f.carry),
            final(self).registers == (Registers {
                f: FlagsRegister {
                    zero: r == 0,
                    subtract: false,
                    half_carry: false,
                    carry: spec_rot_carry(sub, value),
                },
                ..old(self).registers
            }),
    {
        if sub == 0 {
            self.rlc(value)
        } else if sub == 1 {
            self.rrc(value)
        } else if sub == 2 {
            self.rl(value)
        } else if sub == 3 {
            self.rr(value)
        } else if sub == 4 {
            self.sla(value)
        } else if sub == 5 {
            self.sra(value)
        } else if sub == 6 {
            self.swap(value)
        } else {
            self.srl(value)
        }
    }

    /// Decode and run one prefixed opcode: the rotate and shift group, BIT,
    /// RES or SET, on a register or on memory at HL. Every prefixed opcode
    /// is defined, so this always returns the next program counter (two
    /// bytes on) and the documented cost.
    #[verifier::rlimit(100)]
    #[verifier::spinoff_prover]
    pub fn execute_prefixed(&mut self, instruction_byte: u8) -> (r: Option<(u16, u8)>)
        requires
            old(self).bus.inv(),
            old(self).cycles_synced <= 100,
        ensures
            final(self).bus.inv(),
            r is Some,
            final(self).cycles_synced - old(self).cycles_synced == final(self).bus.spec_cycles()
                - old(self).bus.spec_cycles(),
            final(self).cycles_synced >= old(self).cycles_synced,
            r matches Some(v) ==> final(self).cycles_synced <= old(self).cycles_synced + v.1 - 8,
            r matches Some(v) ==> v.1 == spec_prefixed_cycles(instruction_byte) && v.0
                == u16_specs::wrapping_add(old(self).pc, 2),
            r matches Some(v) ==> 8 <= v.1 <= 16 && v.1 % 4 == 0,
    {
        let op = instruction_byte;
        let src = op % 8;
        let group = op / 64;
        let sub = op / 8 % 8;
        if src == 6 {
            let hl = self.registers.get_hl();
            let mem_val = self.read_byte(hl);
            if group == 1 {
                self.bit(mem_val, sub);
                Some((self.pc.wrapping_add(2), 12))
            } else {
                let new_val = if group == 0 {
                    self.rotate_shift_op(sub, mem_val)
                } else if group == 2 {
                    self.reset(mem_val, sub)
                } else {
                    self.set(mem_val, sub)
                };
                self.write_byte(hl, new_val);
                Some((self.pc.wrapping_add(2), 16))
            }
        } else {
            let v = self.get_reg(src);
            if group == 1 {
                self.bit(v, sub);
                Some((self.pc.wrapping_add(2), 8))
            } else {
                let new_val = if group == 0 {
                    self.rotate_shift_op(sub, v)
                } else if group == 2 {
                    self.reset(v, sub)
                } else {
                    self.set(v, sub)
                };
                self.set_reg(src, new_val);
                Some((self.pc.wrapping_add(2), 8))
            }
        }
    }

    /// Service interrupts at an instruction boundary. With interrupts
    /// enabled and one pending: acknowledge it, push the program counter
    /// and jump to its vector (20 cycles). With interrupts disabled, a
    /// pending interrupt only breaks a halt (4 cycles). Otherwise nothing
    /// happens.
    /// Service interrupts at an instruction boundary. With interrupts
    /// enabled and one pending: acknowledge it, push the program counter
    /// and jump to its vector (20 cycles). With interrupts disabled, a
    /// pending interrupt only breaks a halt (4 cycles). Otherwise nothing
    /// happens.
    pub fn check_interrupts(&mut self) -> (r: u8)
        requires
            old(self).bus.inv(),
            old(self).cycles_synced <= 247,
        ensures
            final(self).bus.inv(),
            r == 0 || r == 4 || r == 20,
            final(self).registers == old(self).registers,
            final(self).cycles_synced - old(self).cycles_synced == final(self).bus.spec_cycles()
                - old(self).bus.spec_cycles(),
            old(self).cycles_synced <= final(self).cycles_synced <= old(self).cycles_synced + 8,
            !old(self).ime ==> final(self).cycles_synced == old(self).cycles_synced
                && final(self).bus.spec_cycles() == old(self).bus.spec_cycles(),
            !old(self).ime && !old(self).is_halted ==> r == 0 && *final(self) == *old(self),
            !old(self).ime && old(self).is_halted ==> match old(self).bus.spec_pending_vector() {
                Some(v) => r == 4 && *final(self) == (CPU {
                    is_halted: false,
                    bus: final(self).bus,
                    ..*old(self)
                }),
                None => r == 0 && *final(self) == (CPU { bus: final(self).bus, ..*old(self) }),
            },
            old(self).ime ==> match old(self).bus.spec_pending_vector() {
                Some(v) => r == 20 && final(self).pc == v && final(self).sp
                    == u16_specs::wrapping_sub(old(self).sp, 2) && !final(self).ime
                    && !final(self).is_halted && final(self).ime_delayed == old(self).ime_delayed
                    && final(self).is_stopped == old(self).is_stopped,
                None => r == 0 && *final(self) == (CPU { bus: final(self).bus, ..*old(self) }),
            },
    {
        if !self.ime {
            if self.is_halted {
                let pending = self.bus.check_interrupts(false);
                if pending.is_some() {
                    self.is_halted = false;
                    return 4;
                }
            }
            return 0;
        }
        let check_result = self.bus.check_interrupts(true);
        match check_result {
            Some(isr_addr) => {
                self.is_halted = false;
                self.ime = false;
                let v = self.pc;
                self.push(v);
                self.pc = isr_addr;
                20
            },
            None => 0,
        }
    }

    /// Run one instruction (or one halted idle cycle), service interrupts,
    /// and report the full cycle count to the bus, stepping the peripherals
    /// for whatever was not already stepped during memory transactions.
    /// The count is always a positive multiple of four, at most 44 (the
    /// longest instruction plus an interrupt service).
    /// Run one instruction (or one halted idle cycle), service interrupts,
    /// and report the full cycle count to the bus: every cycle of the count
    /// is delivered to the peripherals exactly once, whether during the
    /// instruction's own memory transactions or as the catch-up at the end.
    /// The count is a positive multiple of four, at most 44 (the longest
    /// instruction plus an interrupt service).
    pub fn step(&mut self) -> (r: u8)
        requires
            old(self).bus.inv(),
        ensures
            final(self).bus.inv(),
            r % 4 == 0,
            4 <= r <= 44,
            final(self).bus.spec_cycles() == old(self).bus.spec_cycles() + r,
            old(self).is_halted ==> final(self).registers == old(self).registers && (r == 4 || r
                == 8 || r == 24),
            old(self).is_halted && !(old(self).ime || old(self).ime_delayed) ==> final(self).pc
                == old(self).pc && final(self).sp == old(self).sp && (r == 4 || r == 8),
            old(self).is_halted && !(old(self).ime || old(self).ime_delayed) && old(
                self,
            ).bus.spec_pending_vector() is None ==> r == 4 && *final(self) == (CPU {
                bus: final(self).bus,
                cycles_synced: final(self).cycles_synced,
                ime_delayed: false,
                ..*old(self)
            }),
    {
        self.apply_ime_delay();
        self.cycles_synced = 0;

        if self.is_halted {
            let cycles = 4 + self.check_interrupts();
            if cycles > self.cycles_synced {
                let remainder = cycles - self.cycles_synced;
                self.bus.step_peripherals(remainder);
            }
            self.cycles_synced = 0;
            return cycles;
        }

        let opcode = self.read_byte(self.pc);
        let (next_pc, cycles): (u16, u8) = if opcode == INSTRUCTION_PREFIX {
            let byte = self.read_byte(self.pc.wrapping_add(1));
            match self.execute_prefixed(byte) {
                Some(v) => v,
                None => (self.pc.wrapping_add(1), 4),
            }
        } else {
            match self.execute(opcode) {
                Some(v) => v,
                None => (self.pc.wrapping_add(1), 4),
            }
        };
        self.pc = next_pc;

        let cycles = cycles + self.check_interrupts();

        if cycles > self.cycles_synced {
            let remainder = cycles - self.cycles_synced;
            self.bus.step_peripherals(remainder);
        }
        self.cycles_synced = 0;

        cycles
    }

    /// DAA: adjust A back to packed decimal after an addition or a
    /// subtraction, using the N, H and C flags it left behind.
    pub fn daa(&mut self)
        ensures
            *final(self) == (CPU { registers: final(self).registers, ..*old(self) }),
            final(self).registers == (Registers {
                a: spec_daa_result(old(self).registers),
                f: FlagsRegister {
                    zero: spec_daa_result(old(self).registers) == 0,
                    half_carry: false,
                    carry: spec_daa_sets_carry(old(self).registers),
                    ..old(self).registers.f
                },
                ..old(self).registers
            }),
    {
        let a = self.registers.a;
        let n = self.registers.f.subtract;
        let has_carry = self.registers.f.carry;
        let has_half_carry = self.registers.f.half_carry;

        let low_adjust: bool = (!n && a % 16 > 0x09) || has_half_carry;
        let high_adjust: bool = (!n && a > 0x99) || has_carry;
        let offset: u8 = (if low_adjust {
            0x06u8
        } else {
            0
        }) + (if high_adjust {
            0x60u8
        } else {
            0
        });
        self.registers.f.carry = high_adjust;
        self.registers.a = if n {
            a.wrapping_sub(offset)
        } else {
            a.wrapping_add(offset)
        };
        self.registers.f.half_carry = false;
        self.registers.f.zero = self.registers.a == 0;
    }
}




/// The register file after one accumulator operation of the arithmetic
/// block, selected by its three-bit operation field (ADD, ADC, SUB, SBC,
/// AND, XOR, OR, CP), applied to operand `v`.
pub open spec fn spec_alu(r: Registers, group: u8, v: u8) -> Registers {
    if group % 8 == 0 {
        Registers {
            a: spec_add8(r.a, v, false),
            f: FlagsRegister {
                zero: spec_add8(r.a, v, false) == 0,
                subtract: false,
                half_carry: r.a % 16 + v % 16 > 15,
                carry: r.a + v > 255,
            },
            ..r
        }
    } else if group % 8 == 1 {
        Registers {
            a: spec_add8(r.a, v, r.f.carry),
            f: FlagsRegister {
                zero: spec_add8(r.a, v, r.f.carry) == 0,
                subtract: false,
                half_carry: r.a % 16 + v % 16 + (if r.f.carry {
                    1int
                } else {
                    0
                }) > 15,
                carry: r.a + v + (if r.f.carry {
                    1int
                } else {
                    0
                }) > 255,
            },
            ..r
        }
    } else if group % 8 == 2 {
        Registers {
            a: spec_sub8(r.a, v, false),
            f: FlagsRegister {
                zero: spec_sub8(r.a, v, false) == 0,
                subtract: true,
                half_carry: r.a % 16 < v % 16,
                carry: r.a < v,
            },
            ..r
        }
    } else if group % 8 == 3 {
        Registers {
            a: spec_sub8(r.a, v, r.f.carry),
            f: FlagsRegister {
                zero: spec_sub8(r.a, v, r.f.carry) == 0,
                subtract: true,
                half_carry: r.a % 16 < v % 16 + (if r.f.carry {
                    1int
                } else {
                    0
                }),
                carry: r.a < v + (if r.f.carry {
                    1int
                } else {
                    0
                }),
            },
            ..r
        }
    } else if group % 8 == 4 {
        Registers {
            a: r.a & v,
            f: FlagsRegister {
                zero: r.a & v == 0,
                subtract: false,
                half_carry: true,
                carry: false,
            },
            ..r
        }
    } else if group % 8 == 5 {
        Registers {
            a: r.a ^ v,
            f: FlagsRegister {
                zero: r.a ^ v == 0,
                subtract: false,
                half_carry: false,
                carry: false,
            },
            ..r
        }
    } else if group % 8 == 6 {
        Registers {
            a: r.a | v,
            f: FlagsRegister {
                zero: r.a | v == 0,
                subtract: false,
                half_carry: false,
                carry: false,
            },
            ..r
        }
    } else {
        Registers {
            f: FlagsRegister {
                zero: r.a == v,
                subtract: true,
                half_carry: r.a % 16 < v % 16,
                carry: r.a < v,
            },
            ..r
        }
    }
}

/// The register named by a three-bit operand field.
pub open spec fn spec_reg8(r: Registers, idx: u8) -> u8 {
    if idx == 0 {
        r.b
    } else if idx == 1 {
        r.c
    } else if idx == 2 {
        r.d
    } else if idx == 3 {
        r.e
    } else if idx == 4 {
        r.h
    } else if idx == 5 {
        r.l
    } else {
        r.a
    }
}

/// The register file with the register named by a three-bit field replaced.
pub open spec fn spec_set_reg8(r: Registers, idx: u8, v: u8) -> Registers {
    if idx == 0 {
        Registers { b: v, ..r }
    } else if idx == 1 {
        Registers { c: v, ..r }
    } else if idx == 2 {
        Registers { d: v, ..r }
    } else if idx == 3 {
        Registers { e: v, ..r }
    } else if idx == 4 {
        Registers { h: v, ..r }
    } else if idx == 5 {
        Registers { l: v, ..r }
    } else {
        Registers { a: v, ..r }
    }
}


/// The byte one prefixed rotate or shift produces, selected by its
/// three-bit operation field (RLC, RRC, RL, RR, SLA, SRA, SWAP, SRL), from
/// operand `v` under carry-in `c`.
pub open spec fn spec_rot_result(sub: u8, v: u8, c: bool) -> u8 {
    if sub % 8 == 0 {
        (v % 128 * 2 + v / 128) as u8
    } else if sub % 8 == 1 {
        (v / 2 + v % 2 * 128) as u8
    } else if sub % 8 == 2 {
        (v % 128 * 2 + (if c {
            1int
        } else {
            0
        })) as u8
    } else if sub % 8 == 3 {
        (v / 2 + (if c {
            128int
        } else {
            0
        })) as u8
    } else if sub % 8 == 4 {
        (v % 128 * 2) as u8
    } else if sub % 8 == 5 {
        (v / 2 + v / 128 * 128) as u8
    } else if sub % 8 == 6 {
        (v % 16 * 16 + v / 16) as u8
    } else {
        (v / 2) as u8
    }
}

/// The carry that rotate or shift leaves: the bit shifted out (none for
/// the nibble swap).
pub open spec fn spec_rot_carry(sub: u8, v: u8) -> bool {
    if sub % 8 == 0 || sub % 8 == 2 || sub % 8 == 4 {
        v / 128 == 1
    } else if sub % 8 == 6 {
        false
    } else {
        v % 2 == 1
    }
}

/// Whether a conditional jump, call or return takes its branch under the
/// given flags; unconditional opcodes always do.
pub open spec fn spec_cond_holds(op: u8, f: FlagsRegister) -> bool {
    if op == 0x20 || op == 0xC0 || op == 0xC2 || op == 0xC4 {
        !f.zero
    } else if op == 0x28 || op == 0xC8 || op == 0xCA || op == 0xCC {
        f.zero
    } else if op == 0x30 || op == 0xD0 || op == 0xD2 || op == 0xD4 {
        !f.carry
    } else if op == 0x38 || op == 0xD8 || op == 0xDA || op == 0xDC {
        f.carry
    } else {
        true
    }
}

/// The opcodes the decoder does not handle: the eleven officially illegal
/// opcodes, and the prefix byte itself (the prefixed table is decoded
/// separately). The machine runs each as a one-byte, 4-cycle no-op.
pub open spec fn spec_unhandled(op: u8) -> bool {
    op == 0xCB || op == 0xD3 || op == 0xDB || op == 0xDD || op == 0xE3 || op == 0xE4 || op == 0xEB
        || op == 0xEC || op == 0xED || op == 0xF4 || op == 0xFC || op == 0xFD
}

/// The documented machine-cycle cost of an unprefixed instruction, taken
/// versus not taken for the conditional ones. All costs are multiples of 4.
pub open spec fn spec_instr_cycles(op: u8, taken: bool) -> u8 {
    if op == 0x76 {
        4
    } else if 0x40 <= op && op <= 0x7F {
        if op % 8 == 6 || (op / 8) % 8 == 6 {
            8
        } else {
            4
        }
    } else if 0x80 <= op && op <= 0xBF {
        if op % 8 == 6 {
            8
        } else {
            4
        }
    } else {
        match op {
            0x00 | 0x10 => 4,
            0x03 | 0x13 | 0x23 | 0x33 | 0x0B | 0x1B | 0x2B | 0x3B => 8,
            0x34 | 0x35 | 0x36 => 12,
            0x04 | 0x14 | 0x24 | 0x0C | 0x1C | 0x2C | 0x3C => 4,
            0x05 | 0x15 | 0x25 | 0x0D | 0x1D | 0x2D | 0x3D => 4,
            0x07 | 0x17 | 0x27 | 0x37 | 0x0F | 0x1F | 0x2F | 0x3F => 4,
            0x09 | 0x19 | 0x29 | 0x39 => 8,
            0xC6 | 0xD6 | 0xE6 | 0xF6 | 0xCE | 0xDE | 0xEE | 0xFE => 8,
            0x18 | 0x20 | 0x28 | 0x30 | 0x38 => if taken {
                12
            } else {
                8
            },
            0xC3 | 0xC2 | 0xCA | 0xD2 | 0xDA => if taken {
                16
            } else {
                12
            },
            0x01 | 0x11 | 0x21 | 0x31 => 12,
            0x02 | 0x12 | 0x22 | 0x32 | 0x0A | 0x1A | 0x2A | 0x3A => 8,
            0x06 | 0x16 | 0x26 | 0x0E | 0x1E | 0x2E | 0x3E => 8,
            0x08 => 20,
            0xE0 | 0xF0 => 12,
            0xE2 | 0xF2 => 8,
            0xE8 => 16,
            0xF8 => 12,
            0xF9 => 8,
            0xEA | 0xFA => 16,
            0xC1 | 0xD1 | 0xE1 | 0xF1 => 12,
            0xC5 | 0xD5 | 0xE5 | 0xF5 => 16,
            0xC0 | 0xD0 | 0xC8 | 0xD8 => if taken {
                20
            } else {
                8
            },
            0xC9 | 0xD9 => 16,
            0xC4 | 0xD4 | 0xCC | 0xDC => if taken {
                24
            } else {
                12
            },
            0xCD => 24,
            0xE9 => 4,
            0xF3 | 0xFB => 4,
            0xC7 | 0xD7 | 0xE7 | 0xF7 | 0xCF | 0xDF | 0xEF | 0xFF => 16,
            _ => 4,
        }
    }
}

/// The documented machine-cycle cost of a prefixed instruction: 8 on a
/// register, 16 on memory at HL, except BIT which only reads (12).
pub open spec fn spec_prefixed_cycles(op: u8) -> u8 {
    if op % 8 == 6 {
        if 0x40 <= op && op <= 0x7F {
            12
        } else {
            16
        }
    } else {
        8
    }
}

/// The byte length of an unprefixed instruction.
pub open spec fn spec_instr_len(op: u8) -> u16 {
    match op {
        0x01 | 0x11 | 0x21 | 0x31 | 0x08 | 0xEA | 0xFA => 3,
        0x06 | 0x16 | 0x26 | 0x36 | 0x0E | 0x1E | 0x2E | 0x3E => 2,
        0xC6 | 0xD6 | 0xE6 | 0xF6 | 0xCE | 0xDE | 0xEE | 0xFE => 2,
        0xE0 | 0xF0 | 0xE8 | 0xF8 => 2,
        _ => 1,
    }
}

/// The opcodes whose next program counter is not simply the following
/// instruction: jumps, calls, returns and restarts.
pub open spec fn spec_is_control_flow(op: u8) -> bool {
    match op {
        0x18 | 0x20 | 0x28 | 0x30 | 0x38 => true,
        0xC3 | 0xC2 | 0xCA | 0xD2 | 0xDA | 0xE9 => true,
        0xCD | 0xC4 | 0xCC | 0xD4 | 0xDC => true,
        0xC9 | 0xD9 | 0xC0 | 0xC8 | 0xD0 | 0xD8 => true,
        0xC7 | 0xCF | 0xD7 | 0xDF | 0xE7 | 0xEF | 0xF7 | 0xFF => true,
        _ => false,
    }
}

/// The signed-displacement add of relative jumps and the stack-pointer
/// arithmetic instructions.
pub fn add_u16_i8(x: u16, y: i8) -> (r: u16)
    ensures
        r == spec_add_u16_i8(x, y),
{
    (x as i16).wrapping_add(y as i16) as u16
}

/// Whether DAA applies the low-nibble adjustment of 0x06.
pub open spec fn spec_daa_low_adjust(r: Registers) -> bool {
    (!r.f.subtract && r.a % 16 > 0x09) || r.f.half_carry
}

/// Whether DAA applies the high-nibble adjustment of 0x60 and sets carry.
pub open spec fn spec_daa_sets_carry(r: Registers) -> bool {
    (!r.f.subtract && r.a > 0x99) || r.f.carry
}

/// The accumulator after DAA: the adjustment is added after an addition and
/// subtracted after a subtraction.
pub open spec fn spec_daa_result(r: Registers) -> u8 {
    let offset = (if spec_daa_low_adjust(r) {
        0x06int
    } else {
        0
    }) + (if spec_daa_sets_carry(r) {
        0x60int
    } else {
        0
    });
    if r.f.subtract {
        u8_specs::wrapping_sub(r.a, offset as u8)
    } else {
        u8_specs::wrapping_add(r.a, offset as u8)
    }
}

} // verus!

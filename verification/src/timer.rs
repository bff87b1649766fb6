use vstd::prelude::*;

use crate::interrupts::InterruptRegisters;
use vstd::wrapping::u16_specs;

verus! {

/// The TAC control register: the two-bit clock select and the enable bit.
#[derive(Clone, Copy, Debug, PartialEq, Eq, Structural)]
pub struct TimerControl {
    pub inc_freq: u8,
    pub enabled: bool,
}

/// TIMA increments on the falling edge of one bit of the system counter;
/// this is the weight of that bit for each clock-select code (bit 9 for
/// code 0, bit 3 for 1, bit 5 for 2, bit 7 for 3).
pub open spec fn spec_tac_divisor(inc_freq: u8) -> u16 {
    if inc_freq % 4 == 0 {
        512
    } else if inc_freq % 4 == 1 {
        8
    } else if inc_freq % 4 == 2 {
        32
    } else {
        128
    }
}

impl TimerControl {
    pub open spec fn spec_from(v: u8) -> TimerControl {
        TimerControl { inc_freq: (v % 4) as u8, enabled: v / 4 % 2 == 1 }
    }

    pub open spec fn spec_read(self) -> u8 {
        (self.inc_freq % 4 + if self.enabled {
            4int
        } else {
            0
        }) as u8
    }

    pub fn from(v: u8) -> (r: Self)
        ensures
            r == TimerControl::spec_from(v),
    {
        Self { inc_freq: v % 4, enabled: v / 4 % 2 == 1 }
    }

    fn read(&self) -> (r: u8)
        ensures
            r == self.spec_read(),
    {
        self.inc_freq % 4 + if self.enabled {
            4u8
        } else {
            0
        }
    }
}

/// The free-running 16-bit system counter. Its high byte is the DIV
/// register. After each increment it records whether the TAC-selected bit
/// fell (a timer tick) and whether the DIV bit feeding the audio frame
/// sequencer fell.
#[derive(Clone, Copy, Debug, PartialEq, Eq, Structural)]
pub struct SystemCounter {
    pub counter: u16,
    pub prev: u16,
    pub ticked: bool,
    pub div_apu_event: bool,
}

/// Whether the TAC-selected counter bit fell between `prev` and `curr`.
pub open spec fn spec_timer_ticked(prev: u16, curr: u16, divisor: u16) -> bool {
    prev / divisor % 2 == 1 && curr / divisor % 2 == 0
}

/// Whether the DIV bit that clocks the audio frame sequencer fell: DIV bit
/// 4 at single speed, bit 5 at double speed (counter bits 12 and 13).
pub open spec fn spec_div_apu_ticked(prev: u16, curr: u16, double_speed: bool) -> bool {
    if double_speed {
        prev / 0x2000 % 2 == 1 && curr / 0x2000 % 2 == 0
    } else {
        prev / 0x1000 % 2 == 1 && curr / 0x1000 % 2 == 0
    }
}

impl SystemCounter {
    pub open spec fn spec_inc(self, cycles: u8, divisor: u16, double_speed: bool) -> SystemCounter {
        let c = u16_specs::wrapping_add(self.counter, cycles as u16);
        SystemCounter {
            counter: c,
            prev: c,
            ticked: spec_timer_ticked(self.prev, c, divisor),
            div_apu_event: spec_div_apu_ticked(self.prev, c, double_speed),
        }
    }

    /// DIV is the high byte of the counter.
    pub open spec fn spec_div(self) -> u8 {
        (self.counter / 256) as u8
    }

    pub fn new() -> (r: Self)
        ensures
            r == (SystemCounter { counter: 0u16, prev: 0u16, ticked: false, div_apu_event: false }),
    {
        Self { counter: 0, prev: 0, ticked: false, div_apu_event: false }
    }

    fn inc(&mut self, cycles: u8, divisor: u16, double_speed: bool)
        requires
            divisor == 8 || divisor == 32 || divisor == 128 || divisor == 512,
        ensures
            *final(self) == old(self).spec_inc(cycles, divisor, double_speed),
    {
        let c = self.counter.wrapping_add(cycles as u16);
        self.ticked = self.prev / divisor % 2 == 1 && c / divisor % 2 == 0;
        self.div_apu_event = if double_speed {
            self.prev / 0x2000 % 2 == 1 && c / 0x2000 % 2 == 0
        } else {
            self.prev / 0x1000 % 2 == 1 && c / 0x1000 % 2 == 0
        };
        self.counter = c;
        self.prev = c;
    }

    fn div(&self) -> (r: u8)
        ensures
            r == self.spec_div(),
    {
        (self.counter / 256) as u8
    }
}

/// The programmable timer: system counter (DIV), TIMA, its reload value TMA,
/// and the TAC control byte. `delayed_timer` implements the one-cycle delay
/// between TIMA overflowing and the reload-plus-interrupt; at power-on no
/// reload is pending, so no interrupt can arrive before an overflow.
#[derive(Clone, Copy, Debug, PartialEq, Eq, Structural)]
pub struct Timer {
    pub system_counter: SystemCounter,
    pub delayed_timer: bool,
    pub tima: u8,
    pub tma: u8,
    pub tac: TimerControl,
}

impl Timer {
    /// Whether this step raises the timer interrupt: a reload was pending
    /// from the previous step's TIMA overflow and the timer is enabled.
    pub open spec fn spec_step_requests(self) -> bool {
        self.tac.enabled && self.delayed_timer
    }

    /// The timer state after one bus step of `cycles` master cycles: the
    /// counter advances; if enabled, a pending overflow reloads TIMA from
    /// TMA, and a falling edge of the selected bit increments TIMA, marking
    /// a pending overflow when TIMA wraps to zero.
    pub open spec fn spec_after_step(self, cycles: u8, double_speed: bool) -> Timer {
        let sc = self.system_counter.spec_inc(
            cycles,
            spec_tac_divisor(self.tac.inc_freq),
            double_speed,
        );
        if !self.tac.enabled {
            Timer { system_counter: sc, ..self }
        } else {
            let reloaded = if self.delayed_timer {
                Timer { system_counter: sc, tima: self.tma, delayed_timer: false, ..self }
            } else {
                Timer { system_counter: sc, ..self }
            };
            if sc.ticked {
                if reloaded.tima == 0xFF {
                    Timer { tima: 0u8, delayed_timer: true, ..reloaded }
                } else {
                    Timer { tima: (reloaded.tima + 1) as u8, ..reloaded }
                }
            } else {
                reloaded
            }
        }
    }

    /// The byte read from each timer register.
    pub open spec fn spec_read(self, address: u16) -> u8 {
        if address == 0xFF04 {
            self.system_counter.spec_div()
        } else if address == 0xFF05 {
            self.tima
        } else if address == 0xFF06 {
            self.tma
        } else {
            self.tac.spec_read()
        }
    }

    /// The timer state after a register write: any write to DIV resets the
    /// counter to zero; TIMA and TMA store the byte; TAC stores its low
    /// three bits.
    pub open spec fn spec_write(self, address: u16, value: u8) -> Timer {
        if address == 0xFF04 {
            Timer {
                system_counter: SystemCounter { counter: 0u16, ..self.system_counter },
                ..self
            }
        } else if address == 0xFF05 {
            Timer { tima: value, ..self }
        } else if address == 0xFF06 {
            Timer { tma: value, ..self }
        } else {
            Timer { tac: TimerControl::spec_from(value), ..self }
        }
    }

    pub fn new() -> (r: Self)
        ensures
            r == (Timer {
                system_counter: SystemCounter {
                    counter: 0u16,
                    prev: 0u16,
                    ticked: false,
                    div_apu_event: false,
                },
                delayed_timer: false,
                tima: 0u8,
                tma: 0u8,
                tac: TimerControl { inc_freq: 0u8, enabled: false },
            }),
    {
        Self {
            system_counter: SystemCounter::new(),
            delayed_timer: false,
            tima: 0,
            tma: 0,
            tac: TimerControl::from(0),
        }
    }

    /// Whether the last step saw the DIV bit that clocks the audio frame
    /// sequencer fall.
    pub fn check_apu_div(&self) -> (r: bool)
        ensures
            r == self.system_counter.div_apu_event,
    {
        self.system_counter.div_apu_event
    }

    /// Advance the timer by `cycles` master cycles, raising the timer
    /// interrupt exactly when a TIMA overflow was pending from the previous
    /// step.
    pub fn step(
        &mut self,
        int_reg: &mut InterruptRegisters,
        cycles: u8,
        double_speed_mode: bool,
    )
        ensures
            *final(self) == old(self).spec_after_step(cycles, double_speed_mode),
            old(self).spec_step_requests() ==> *final(int_reg) == (InterruptRegisters {
                flag_timer: true,
                ..*old(int_reg)
            }),
            !old(self).spec_step_requests() ==> *final(int_reg) == *old(int_reg),
    {
        let divisor: u16 = if self.tac.inc_freq % 4 == 0 {
            512
        } else if self.tac.inc_freq % 4 == 1 {
            8
        } else if self.tac.inc_freq % 4 == 2 {
            32
        } else {
            128
        };
        self.system_counter.inc(cycles, divisor, double_speed_mode);

        if !self.tac.enabled {
            return ;
        }
        if self.delayed_timer {
            self.tima = self.tma;
            int_reg.request_timer();
            self.delayed_timer = false;
        }
        if self.system_counter.ticked {
            if self.tima == 0xFF {
                self.tima = 0;
                self.delayed_timer = true;
            } else {
                self.tima = self.tima + 1;
            }
        }
    }

    pub fn read_byte(&self, address: u16) -> (r: u8)
        requires
            0xFF04 <= address <= 0xFF07,
        ensures
            r == self.spec_read(address),
    {
        if address == 0xFF04 {
            self.system_counter.div()
        } else if address == 0xFF05 {
            self.tima
        } else if address == 0xFF06 {
            self.tma
        } else {
            self.tac.read()
        }
    }

    pub fn write_byte(&mut self, address: u16, value: u8)
        requires
            0xFF04 <= address <= 0xFF07,
        ensures
            *final(self) == old(self).spec_write(address, value),
    {
        if address == 0xFF04 {
            self.system_counter.counter = 0;
        } else if address == 0xFF05 {
            self.tima = value;
        } else if address == 0xFF06 {
            self.tma = value;
        } else {
            self.tac = TimerControl::from(value);
        }
    }
}

/// Law: timer-interrupt latency. From TIMA = 0xFF, a step in which the
/// selected counter bit falls wraps TIMA to zero without raising the
/// interrupt; the interrupt flag rises in the next step, whatever its cycle
/// count, and TIMA then reads TMA.
pub proof fn lemma_timer_overflow_latency(
    t: Timer,
    ints: InterruptRegisters,
    c1: u8,
    c2: u8,
    double_speed: bool,
)
    requires
        t.tac.enabled,
        !t.delayed_timer,
        t.tima == 0xFF,
        spec_timer_ticked(
            t.system_counter.prev,
            u16_specs::wrapping_add(t.system_counter.counter, c1 as u16),
            spec_tac_divisor(t.tac.inc_freq),
        ),
    ensures
        !t.spec_step_requests(),
        ({
            let t1 = t.spec_after_step(c1, double_speed);
            &&& t1.tima == 0
            &&& t1.spec_read(0xFF05) == 0
            &&& t1.spec_step_requests()
            &&& t1.spec_after_step(c2, double_speed).tima == t.tma
        }),
{
    let d = spec_tac_divisor(t.tac.inc_freq);
    let c = u16_specs::wrapping_add(t.system_counter.counter, c1 as u16);
    // The falling edge of the first step leaves the selected bit clear, so
    // no second edge can land in the very next step.
    assert(c / d % 2 == 0);
    assert(!spec_timer_ticked(c, u16_specs::wrapping_add(c, c2 as u16), d));
}

/// Law: timer registers read back what was written — TIMA and TMA whole,
/// TAC its low three bits, and DIV as zero (any write resets the counter).
pub proof fn lemma_timer_register_round_trip(t: Timer, address: u16, v: u8)
    requires
        0xFF04 <= address <= 0xFF07,
    ensures
        address == 0xFF04 ==> t.spec_write(address, v).spec_read(address) == 0,
        address == 0xFF05 || address == 0xFF06 ==> t.spec_write(address, v).spec_read(address) == v,
        address == 0xFF07 ==> t.spec_write(address, v).spec_read(address) == v % 8,
{
}

} // verus!

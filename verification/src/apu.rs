use vstd::prelude::*;

use vstd::wrapping::u32_specs;

verus! {

pub const MASTER_CLOCK_FREQ: u32 = 4194304;

pub const SAMPLE_RATE: u32 = 48000;

/// Master cycles between two stereo samples at the output rate.
pub const CYCLES_BEFORE_SAMPLE: u32 = MASTER_CLOCK_FREQ / SAMPLE_RATE;

/// Interleaved sample numerators per delivered block (left, right, ...).
pub const SAMPLES_BUFFER_SIZE: usize = 1024;

/// Every sample numerator is over this fixed denominator: each channel term
/// lies in -15..=15 over 15, the mix divides by 4 per side, and the master
/// volume multiplies by at most 8 over 7; 15 * 4 * 7 = 420.
pub const SAMPLE_DENOMINATOR: i16 = 420;

/// A channel's digital contribution to one side of the mix, over 15: a
/// powered DAC maps its 4-bit input linearly into -15..=15; a silent DAC
/// contributes nothing.
pub open spec fn spec_dac_term(dac_input: Option<u8>) -> int {
    match dac_input {
        Some(level) => 2 * (level % 16) - 15,
        None => 0,
    }
}

/// The envelope sweep direction of NRx2 bit 3.
#[derive(Clone, Copy, Debug, PartialEq, Eq, Structural)]
pub enum EnvelopeDirection {
    Decrease,
    Increase,
}

/// The volume envelope of the square and noise channels: the reloadable
/// register half (NRx2) and the live half reloaded on trigger.
#[derive(Clone, Copy, Debug, PartialEq, Eq, Structural)]
pub struct Envelope {
    pub initial_volume: u8,
    pub dir: EnvelopeDirection,
    pub sweep_pace: u8,
    pub volume: u8,
    pub dir_shadow: EnvelopeDirection,
    pub pace_shadow: u8,
    pub timer: u8,
}

impl Envelope {
    pub open spec fn wf(self) -> bool {
        self.initial_volume <= 15 && self.sweep_pace <= 7 && self.volume <= 15
    }

    /// The NRx2 byte: volume in the high nibble, direction in bit 3, pace
    /// in the low three bits.
    pub open spec fn spec_read(self) -> u8 {
        (self.initial_volume * 16 + (if self.dir is Increase {
            8int
        } else {
            0
        }) + self.sweep_pace) as u8
    }

    /// The register half after a write; the DAC stays powered unless the
    /// top five bits are all zero.
    pub open spec fn spec_after_write(self, value: u8) -> Envelope {
        Envelope {
            initial_volume: (value / 16) as u8,
            dir: if value / 8 % 2 == 1 {
                EnvelopeDirection::Increase
            } else {
                EnvelopeDirection::Decrease
            },
            sweep_pace: (value % 8) as u8,
            ..self
        }
    }

    /// Whether a written NRx2 byte leaves the DAC powered.
    pub open spec fn spec_write_dac_on(value: u8) -> bool {
        !(value / 16 == 0 && value / 8 % 2 == 0)
    }

    pub fn new() -> (r: Self)
        ensures
            r == (Envelope {
                initial_volume: 0u8,
                dir: EnvelopeDirection::Decrease,
                sweep_pace: 0u8,
                volume: 0u8,
                dir_shadow: EnvelopeDirection::Decrease,
                pace_shadow: 0u8,
                timer: 0u8,
            }),
            r.wf(),
    {
        Self {
            initial_volume: 0,
            dir: EnvelopeDirection::Decrease,
            sweep_pace: 0,
            volume: 0,
            dir_shadow: EnvelopeDirection::Decrease,
            pace_shadow: 0,
            timer: 0,
        }
    }

    pub fn read(&self) -> (r: u8)
        requires
            self.wf(),
        ensures
            r == self.spec_read(),
    {
        self.initial_volume * 16 + (if matches!(self.dir, EnvelopeDirection::Increase) {
            8u8
        } else {
            0
        }) + self.sweep_pace
    }

    /// Store NRx2, reporting whether the DAC stays powered.
    pub fn write(&mut self, value: u8) -> (dac_on: bool)
        requires
            old(self).wf(),
        ensures
            final(self).wf(),
            *final(self) == old(self).spec_after_write(value),
            dac_on == Envelope::spec_write_dac_on(value),
    {
        self.initial_volume = value / 16;
        self.dir = if value / 8 % 2 == 1 {
            EnvelopeDirection::Increase
        } else {
            EnvelopeDirection::Decrease
        };
        self.sweep_pace = value % 8;
        !(self.initial_volume == 0 && matches!(self.dir, EnvelopeDirection::Decrease))
    }

    /// A trigger reloads the live half from the registers.
    pub fn reset(&mut self)
        requires
            old(self).wf(),
        ensures
            final(self).wf(),
            *final(self) == (Envelope {
                dir_shadow: old(self).dir,
                pace_shadow: old(self).sweep_pace,
                volume: old(self).initial_volume,
                timer: old(self).sweep_pace,
                ..*old(self)
            }),
    {
        self.dir_shadow = self.dir;
        self.pace_shadow = self.sweep_pace;
        self.volume = self.initial_volume;
        self.timer = self.pace_shadow;
    }

    /// One envelope clock: with a nonzero pace, when the divider runs out
    /// the volume moves one step toward silence or full and the divider
    /// reloads; otherwise the divider counts down.
    pub fn tick(&mut self)
        requires
            old(self).wf(),
        ensures
            final(self).wf(),
            old(self).pace_shadow == 0 ==> *final(self) == *old(self),
            old(self).pace_shadow != 0 && old(self).timer == 0 ==> *final(self) == (Envelope {
                volume: spec_envelope_step(old(self).volume, old(self).dir_shadow),
                timer: old(self).pace_shadow,
                ..*old(self)
            }),
            old(self).pace_shadow != 0 && old(self).timer != 0 ==> *final(self) == (Envelope {
                timer: (old(self).timer - 1) as u8,
                ..*old(self)
            }),
    {
        if self.pace_shadow == 0 {
            return ;
        }
        if self.timer == 0 {
            self.volume = match self.dir_shadow {
                EnvelopeDirection::Increase => if self.volume < 15 {
                    self.volume + 1
                } else {
                    15
                },
                EnvelopeDirection::Decrease => if self.volume > 0 {
                    self.volume - 1
                } else {
                    0
                },
            };
            self.timer = self.pace_shadow;
        } else {
            self.timer = self.timer - 1;
        }
    }
}

/// A volume one envelope clock later: one step toward 15 or toward 0,
/// saturating.
pub open spec fn spec_envelope_step(volume: u8, dir: EnvelopeDirection) -> u8 {
    match dir {
        EnvelopeDirection::Increase => if volume < 15 {
            (volume + 1) as u8
        } else {
            15u8
        },
        EnvelopeDirection::Decrease => if volume > 0 {
            (volume - 1) as u8
        } else {
            0u8
        },
    }
}

/// An 11-bit period register (NRx3 low byte, NRx4 bits 0..=2) plus the live
/// countdown timer in master cycles.
#[derive(Clone, Copy, Debug, PartialEq, Eq, Structural)]
pub struct Period {
    pub high: u8,
    pub low: u8,
    pub timer: u16,
}

impl Period {
    pub open spec fn wf(self) -> bool {
        self.high <= 7
    }

    /// The 11-bit period value.
    pub open spec fn spec_value(self) -> u16 {
        (self.high * 256 + self.low) as u16
    }

    pub fn new() -> (r: Self)
        ensures
            r == (Period { high: 0u8, low: 0u8, timer: 0u16 }),
            r.wf(),
    {
        Self { high: 0, low: 0, timer: 0 }
    }

    pub fn write_low(&mut self, value: u8)
        ensures
            *final(self) == (Period { low: value, ..*old(self) }),
    {
        self.low = value;
    }

    pub fn write_high(&mut self, value: u8)
        ensures
            *final(self) == (Period { high: (value % 8) as u8, ..*old(self) }),
            final(self).wf(),
    {
        self.high = value % 8;
    }

    /// Store an 11-bit value whole, as the sweep unit does.
    pub fn write(&mut self, value: u16)
        ensures
            *final(self) == (Period {
                low: (value % 256) as u8,
                high: (value / 256 % 8) as u8,
                ..*old(self)
            }),
            final(self).wf(),
    {
        self.low = (value % 256) as u8;
        self.high = ((value / 256) % 8) as u8;
    }

    pub fn value(&self) -> (r: u16)
        requires
            self.wf(),
        ensures
            r == self.spec_value(),
            r <= 2047,
    {
        self.high as u16 * 256 + self.low as u16
    }
}

/// The duty selector of the square channels: the fraction of each eight-step
/// cycle spent high.
#[derive(Clone, Copy, Debug, PartialEq, Eq, Structural)]
pub enum DutyCycle {
    Eighth,
    Quarter,
    Half,
    ThreeQuarter,
}

/// The waveform bit of a duty cycle at a step, matching the hardware's
/// eight-step patterns.
pub open spec fn spec_duty_signal(duty: DutyCycle, position: u8) -> u8 {
    let p = position % 8;
    match duty {
        DutyCycle::Eighth => if p == 7 {
            1u8
        } else {
            0u8
        },
        DutyCycle::Quarter => if p == 0 || p == 7 {
            1u8
        } else {
            0u8
        },
        DutyCycle::Half => if p == 0 || p >= 5 {
            1u8
        } else {
            0u8
        },
        DutyCycle::ThreeQuarter => if 1 <= p <= 6 {
            1u8
        } else {
            0u8
        },
    }
}

impl DutyCycle {
    pub open spec fn spec_from(value: u8) -> DutyCycle {
        if value % 4 == 0 {
            DutyCycle::Eighth
        } else if value % 4 == 1 {
            DutyCycle::Quarter
        } else if value % 4 == 2 {
            DutyCycle::Half
        } else {
            DutyCycle::ThreeQuarter
        }
    }

    /// The two NRx1 duty bits.
    pub open spec fn spec_bits(self) -> u8 {
        match self {
            DutyCycle::Eighth => 0u8,
            DutyCycle::Quarter => 1u8,
            DutyCycle::Half => 2u8,
            DutyCycle::ThreeQuarter => 3u8,
        }
    }

    pub fn from(value: u8) -> (r: Self)
        ensures
            r == DutyCycle::spec_from(value),
    {
        if value % 4 == 0 {
            DutyCycle::Eighth
        } else if value % 4 == 1 {
            DutyCycle::Quarter
        } else if value % 4 == 2 {
            DutyCycle::Half
        } else {
            DutyCycle::ThreeQuarter
        }
    }

    pub fn signal(&self, position: u8) -> (r: u8)
        ensures
            r == spec_duty_signal(*self, position),
            r <= 1,
    {
        let p = position % 8;
        match self {
            DutyCycle::Eighth => if p == 7 {
                1
            } else {
                0
            },
            DutyCycle::Quarter => if p == 0 || p == 7 {
                1
            } else {
                0
            },
            DutyCycle::Half => if p == 0 || p >= 5 {
                1
            } else {
                0
            },
            DutyCycle::ThreeQuarter => if 1 <= p && p <= 6 {
                1
            } else {
                0
            },
        }
    }
}

/// A channel's length timer: counts down on every other frame-sequencer
/// step and silences the channel at zero. `len` is the full period (64, or
/// 256 for the wave channel).
#[derive(Clone, Copy, Debug, PartialEq, Eq, Structural)]
pub struct LengthTimer {
    pub len: u16,
    pub length_enable: bool,
    pub init_length_timer: u8,
    pub timer: u16,
}

impl LengthTimer {
    pub open spec fn wf(self) -> bool {
        (self.len == 64 || self.len == 256) && self.init_length_timer < self.len && self.timer
            <= self.len
    }

    /// The NRx4 read-back: only the length-enable bit is readable; every
    /// other bit reads as one.
    pub open spec fn spec_read_control(self) -> u8 {
        if self.length_enable {
            0xFFu8
        } else {
            0xBFu8
        }
    }

    pub fn new(len: u16) -> (r: Self)
        requires
            len == 64 || len == 256,
        ensures
            r == (LengthTimer { len, length_enable: false, init_length_timer: 0u8, timer: 0u16 }),
            r.wf(),
    {
        Self { len, length_enable: false, init_length_timer: 0, timer: 0 }
    }

    pub fn read_control(&self) -> (r: u8)
        ensures
            r == self.spec_read_control(),
    {
        if self.length_enable {
            0xFF
        } else {
            0xBF
        }
    }

    /// Store the initial length; the countdown restarts from `len - value`.
    pub fn write_initial_length_timer(&mut self, value: u8)
        requires
            old(self).wf(),
            value < old(self).len,
        ensures
            final(self).wf(),
            *final(self) == (LengthTimer {
                init_length_timer: value,
                timer: (old(self).len - value) as u16,
                ..*old(self)
            }),
    {
        self.init_length_timer = value;
        self.timer = self.len - value as u16;
    }

    /// Store the NRx4 length-enable bit. Enabling it during the first half
    /// of a length period clocks the length counter at once; the result
    /// says whether the channel stays on.
    pub fn write_enable(&mut self, value: u8, current_step: u8) -> (stays_on: bool)
        requires
            old(self).wf(),
        ensures
            final(self).wf(),
            *final(self) == spec_length_after_enable(*old(self), value, current_step),
            stays_on == spec_length_enable_stays_on(*old(self), value, current_step),
    {
        let enabled = value / 64 % 2 == 1;
        if !self.length_enable && enabled {
            if current_step % 2 == 0 && self.timer > 0 {
                self.length_enable = true;
                return self.tick();
            }
        }
        self.length_enable = enabled;
        true
    }

    /// A trigger with an expired counter reloads it whole; when that
    /// happens in the first half of a length period with length enabled,
    /// the reload is immediately clocked once.
    pub fn reset(&mut self, current_step: u8)
        requires
            old(self).wf(),
        ensures
            final(self).wf(),
            final(self).len == old(self).len,
            final(self).length_enable == old(self).length_enable,
            final(self).init_length_timer == old(self).init_length_timer,
            old(self).timer != 0 ==> *final(self) == *old(self),
            old(self).timer == 0 ==> final(self).timer == (if old(self).length_enable
                && current_step % 2 == 0 {
                old(self).len - 1
            } else {
                old(self).len as int
            }),
    {
        if self.timer == 0 {
            self.timer = self.len;
            if self.length_enable && current_step % 2 == 0 {
                self.timer = self.timer - 1;
            }
        }
    }

    /// One length clock; the result says whether the channel stays on.
    pub fn tick(&mut self) -> (stays_on: bool)
        requires
            old(self).wf(),
        ensures
            final(self).wf(),
            final(self).len == old(self).len,
            final(self).length_enable == old(self).length_enable,
            final(self).init_length_timer == old(self).init_length_timer,
            old(self).length_enable && old(self).timer > 0 ==> final(self).timer == old(
                self,
            ).timer - 1 && (stays_on <==> old(self).timer != 1),
            !(old(self).length_enable && old(self).timer > 0) ==> *final(self) == *old(self)
                && stays_on,
    {
        if self.length_enable && self.timer > 0 {
            self.timer = self.timer - 1;
            if self.timer == 0 {
                return false;
            }
        }
        true
    }
}


/// The length timer after a write of the NRx4 enable bit: enabling it
/// during the first half of a length period (even sequencer step) with a
/// running counter clocks the counter once at that moment.
pub open spec fn spec_length_after_enable(pre: LengthTimer, value: u8, step: u8) -> LengthTimer {
    let enabled = value / 64 % 2 == 1;
    if !pre.length_enable && enabled && step % 2 == 0 && pre.timer > 0 {
        LengthTimer { length_enable: true, timer: (pre.timer - 1) as u16, ..pre }
    } else {
        LengthTimer { length_enable: enabled, ..pre }
    }
}

/// Whether the channel survives that write: only an immediate clock that
/// exhausts the counter silences it.
pub open spec fn spec_length_enable_stays_on(pre: LengthTimer, value: u8, step: u8) -> bool {
    !(!pre.length_enable && value / 64 % 2 == 1 && step % 2 == 0 && pre.timer == 1)
}


/// A length timer one length clock later: an enabled, running counter
/// counts down by one.
pub open spec fn spec_length_ticked(lt: LengthTimer) -> LengthTimer {
    if lt.length_enable && lt.timer > 0 {
        LengthTimer { timer: (lt.timer - 1) as u16, ..lt }
    } else {
        lt
    }
}

/// An envelope one envelope clock later, as `Envelope::tick` applies it.
pub open spec fn spec_envelope_ticked(e: Envelope) -> Envelope {
    if e.pace_shadow == 0 {
        e
    } else if e.timer == 0 {
        Envelope { volume: spec_envelope_step(e.volume, e.dir_shadow), timer: e.pace_shadow, ..e }
    } else {
        Envelope { timer: (e.timer - 1) as u8, ..e }
    }
}

/// The sweep direction of NR10 bit 3.
#[derive(Clone, Copy, Debug, PartialEq, Eq, Structural)]
pub enum SweepDirection {
    Addition,
    Substraction,
}

/// The first square channel's frequency sweep unit.
#[derive(Clone, Copy, Debug, PartialEq, Eq, Structural)]
pub struct Sweep {
    pub pace: u8,
    pub direction: SweepDirection,
    pub has_substracted: bool,
    pub step: u8,
    pub timer: u8,
    pub enabled_flag: bool,
    pub period_shadow_register: u16,
}

/// A power of two up to 128, for the sweep's shift by `step`.
pub open spec fn spec_pow2_u16(e: u8) -> u16 {
    if e % 8 == 0 {
        1u16
    } else if e % 8 == 1 {
        2u16
    } else if e % 8 == 2 {
        4u16
    } else if e % 8 == 3 {
        8u16
    } else if e % 8 == 4 {
        16u16
    } else if e % 8 == 5 {
        32u16
    } else if e % 8 == 6 {
        64u16
    } else {
        128u16
    }
}

fn pow2_u16(e: u8) -> (r: u16)
    requires
        e <= 7,
    ensures
        r == spec_pow2_u16(e),
        1 <= r <= 128,
{
    if e == 0 {
        1
    } else if e == 1 {
        2
    } else if e == 2 {
        4
    } else if e == 3 {
        8
    } else if e == 4 {
        16
    } else if e == 5 {
        32
    } else if e == 6 {
        64
    } else {
        128
    }
}

impl Sweep {
    pub open spec fn wf(self) -> bool {
        self.pace <= 7 && self.step <= 7 && self.period_shadow_register <= 2047
    }

    /// The NR10 byte; the unused top bit reads as one.
    pub open spec fn spec_read(self) -> u8 {
        (self.step + (if self.direction is Substraction {
            8int
        } else {
            0
        }) + self.pace * 16 + 128) as u8
    }

    /// The frequency the sweep computes: the shadow shifted by `step`,
    /// added or subtracted. The pair is (new frequency, overflowed): an
    /// overflow past 2047 silences the channel; a subtraction below zero
    /// keeps the old value.
    pub open spec fn spec_sweep_frequency(self, value: u16) -> (u16, bool) {
        let shifted = value / spec_pow2_u16(self.step);
        match self.direction {
            SweepDirection::Addition => (
                (value + shifted) as u16,
                value + shifted > 2047,
            ),
            SweepDirection::Substraction => if shifted > value {
                (0u16, true)
            } else {
                ((value - shifted) as u16, false)
            },
        }
    }

    pub fn new() -> (r: Self)
        ensures
            r == (Sweep {
                pace: 0u8,
                direction: SweepDirection::Addition,
                has_substracted: false,
                step: 0u8,
                timer: 0u8,
                enabled_flag: false,
                period_shadow_register: 0u16,
            }),
            r.wf(),
    {
        Self {
            pace: 0,
            direction: SweepDirection::Addition,
            has_substracted: false,
            step: 0,
            timer: 0,
            enabled_flag: false,
            period_shadow_register: 0,
        }
    }

    pub fn read(&self) -> (r: u8)
        requires
            self.wf(),
        ensures
            r == self.spec_read(),
    {
        self.step + (if matches!(self.direction, SweepDirection::Substraction) {
            8u8
        } else {
            0
        }) + self.pace * 16 + 128
    }

    /// Store NR10. Switching to addition after a subtraction has been
    /// applied silences the channel (the subtraction-direction rule); the
    /// result says whether the channel stays on.
    pub fn write(&mut self, value: u8) -> (stays_on: bool)
        ensures
            final(self).wf() == (final(self).period_shadow_register <= 2047),
            *final(self) == (Sweep {
                step: (value % 8) as u8,
                direction: if value / 8 % 2 == 1 {
                    SweepDirection::Substraction
                } else {
                    SweepDirection::Addition
                },
                pace: (value / 16 % 8) as u8,
                ..*old(self)
            }),
            stays_on == !(value / 8 % 2 == 0 && old(self).has_substracted),
    {
        self.step = value % 8;
        self.direction = if value / 8 % 2 == 1 {
            SweepDirection::Substraction
        } else {
            SweepDirection::Addition
        };
        self.pace = value / 16 % 8;
        match self.direction {
            SweepDirection::Addition => !self.has_substracted,
            SweepDirection::Substraction => true,
        }
    }

    /// Compute the swept frequency and whether it overflows; a subtraction
    /// marks the subtraction-direction rule's latch.
    pub fn compute_sweep_frequency(&mut self, value: u16) -> (r: (u16, bool))
        requires
            old(self).wf(),
            value <= 2047,
        ensures
            final(self).wf(),
            *final(self) == (Sweep {
                has_substracted: final(self).has_substracted,
                ..*old(self)
            }),
            final(self).has_substracted == (old(self).has_substracted || old(
                self,
            ).direction is Substraction),
            r == old(self).spec_sweep_frequency(value),
            !r.1 ==> r.0 <= 2047,
    {
        let shifted = value / pow2_u16(self.step);
        match self.direction {
            SweepDirection::Addition => {
                let new_freq = value + shifted;
                (new_freq, new_freq > 2047)
            },
            SweepDirection::Substraction => {
                self.has_substracted = true;
                if shifted > value {
                    (0, true)
                } else {
                    (value - shifted, false)
                }
            },
        }
    }
}

/// Left/right routing of one channel in the NR51 panning matrix.
#[derive(Clone, Copy, Debug, PartialEq, Eq, Structural)]
pub struct Panning {
    pub left: bool,
    pub right: bool,
}

impl Panning {
    pub fn new() -> (r: Self)
        ensures
            r == (Panning { left: false, right: false }),
    {
        Self { left: false, right: false }
    }

    pub fn write(&mut self, left: bool, right: bool)
        ensures
            *final(self) == (Panning { left, right }),
    {
        self.left = left;
        self.right = right;
    }
}


/// A square channel: duty generator, envelope, length timer, period
/// counter, and (channel 1 only) the sweep unit.
#[derive(Clone, Copy, Debug, PartialEq, Eq, Structural)]
pub struct SquareChannel {
    pub on: bool,
    pub dac_on: bool,
    pub panning: Panning,
    pub sweep: Option<Sweep>,
    pub length_timer: LengthTimer,
    pub wave_duty: DutyCycle,
    pub duty_step_counter: u8,
    pub envelope: Envelope,
    pub period: Period,
}

impl SquareChannel {
    pub open spec fn wf(self) -> bool {
        &&& self.length_timer.wf()
        &&& self.length_timer.len == 64
        &&& self.envelope.wf()
        &&& self.period.wf()
        &&& match self.sweep {
            Some(sw) => sw.wf(),
            None => true,
        }
        &&& self.duty_step_counter <= 7
    }

    /// The channel sounds when both its latch and its DAC are on.
    pub open spec fn spec_enabled(self) -> bool {
        self.on && self.dac_on
    }

    /// The DAC input when the DAC is powered: the duty waveform bit times
    /// the envelope volume.
    pub open spec fn spec_dac_input(self) -> Option<u8> {
        if self.dac_on {
            Some((spec_duty_signal(self.wave_duty, self.duty_step_counter) * self.envelope.volume) as u8)
        } else {
            None
        }
    }

    /// The period counter reload: four master cycles per period unit.
    pub open spec fn spec_period_timer(self) -> u16 {
        ((2048 - self.period.spec_value()) * 4) as u16
    }

    pub fn new(with_sweep: bool) -> (r: Self)
        ensures
            r.wf(),
            r == SquareChannel::spec_new(with_sweep),
    {
        Self {
            on: false,
            dac_on: false,
            panning: Panning::new(),
            sweep: if with_sweep {
                Some(Sweep::new())
            } else {
                None
            },
            length_timer: LengthTimer::new(64),
            wave_duty: DutyCycle::Eighth,
            duty_step_counter: 0,
            envelope: Envelope::new(),
            period: Period::new(),
        }
    }

    /// A square channel as power-on leaves it.
    pub open spec fn spec_new(with_sweep: bool) -> SquareChannel {
        SquareChannel {
            on: false,
            dac_on: false,
            panning: Panning { left: false, right: false },
            sweep: if with_sweep {
                Some(
                    Sweep {
                        pace: 0u8,
                        direction: SweepDirection::Addition,
                        has_substracted: false,
                        step: 0u8,
                        timer: 0u8,
                        enabled_flag: false,
                        period_shadow_register: 0u16,
                    },
                )
            } else {
                None
            },
            length_timer: LengthTimer {
                len: 64u16,
                length_enable: false,
                init_length_timer: 0u8,
                timer: 0u16,
            },
            wave_duty: DutyCycle::Eighth,
            duty_step_counter: 0u8,
            envelope: Envelope {
                initial_volume: 0u8,
                dir: EnvelopeDirection::Decrease,
                sweep_pace: 0u8,
                volume: 0u8,
                dir_shadow: EnvelopeDirection::Decrease,
                pace_shadow: 0u8,
                timer: 0u8,
            },
            period: Period { high: 0u8, low: 0u8, timer: 0u16 },
        }
    }

    pub fn enabled(&self) -> (r: bool)
        ensures
            r == self.spec_enabled(),
    {
        self.on && self.dac_on
    }

    /// Store NR10; the subtraction-direction rule can silence the channel.
    pub fn write_sweep(&mut self, value: u8)
        requires
            old(self).wf(),
            old(self).sweep is Some,
        ensures
            final(self).wf(),
            final(self).sweep is Some,
            final(self).sweep->0 == (Sweep {
                step: (value % 8) as u8,
                direction: if value / 8 % 2 == 1 {
                    SweepDirection::Substraction
                } else {
                    SweepDirection::Addition
                },
                pace: (value / 16 % 8) as u8,
                ..old(self).sweep->0
            }),
            final(self).on == (old(self).on && !(value / 8 % 2 == 0
                && old(self).sweep->0.has_substracted)),
            *final(self) == (SquareChannel {
                sweep: final(self).sweep,
                on: final(self).on,
                ..*old(self)
            }),
    {
        match &mut self.sweep {
            Some(sw) => {
                let stays_on = sw.write(value);
                self.on = stays_on && self.on;
            },
            None => {},
        }
    }

    /// Store NR11 or NR21: the duty bits and the initial length.
    pub fn write_timer_and_duty(&mut self, value: u8)
        requires
            old(self).wf(),
        ensures
            final(self).wf(),
            *final(self) == (SquareChannel {
                length_timer: LengthTimer {
                    init_length_timer: (value % 64) as u8,
                    timer: (64 - value % 64) as u16,
                    ..old(self).length_timer
                },
                wave_duty: DutyCycle::spec_from((value / 64) as u8),
                ..*old(self)
            }),
    {
        self.length_timer.write_initial_length_timer(value % 64);
        self.wave_duty = DutyCycle::from(value / 64);
    }

    /// Store NRx2; an all-zero volume half powers the DAC off, which also
    /// silences the channel.
    pub fn write_envelope(&mut self, value: u8)
        requires
            old(self).wf(),
        ensures
            final(self).wf(),
            *final(self) == (SquareChannel {
                envelope: old(self).envelope.spec_after_write(value),
                dac_on: Envelope::spec_write_dac_on(value),
                on: old(self).on && Envelope::spec_write_dac_on(value),
                ..*old(self)
            }),
    {
        self.dac_on = self.envelope.write(value);
        if !self.dac_on {
            self.on = false;
        }
    }

    /// The NRx1 read-back: the duty bits; the length is write-only.
    pub fn read_duty(&self) -> (r: u8)
        ensures
            r == self.wave_duty.spec_bits() * 64 + 63,
    {
        (match self.wave_duty {
            DutyCycle::Eighth => 0u8,
            DutyCycle::Quarter => 1u8,
            DutyCycle::Half => 2u8,
            DutyCycle::ThreeQuarter => 3u8,
        }) * 64 + 63
    }

    pub fn compute_period_timer(&self) -> (r: u16)
        requires
            self.wf(),
        ensures
            r == self.spec_period_timer(),
            4 <= r <= 8192,
    {
        (2048 - self.period.value()) * 4
    }

    /// Trigger (NRx4 bit 7): turn the channel on, reload an expired length
    /// counter, reload the envelope, restart the period, and reload the
    /// sweep unit — whose immediate overflow check may silence the channel
    /// again.
    pub fn trigger(&mut self, current_step: u8)
        requires
            old(self).wf(),
        ensures
            final(self).wf(),
            final(self).dac_on == old(self).dac_on,
            final(self).panning == old(self).panning,
            final(self).sweep is Some <==> old(self).sweep is Some,
            old(self).sweep is None ==> final(self).on,
            final(self).period.high == old(self).period.high,
            final(self).period.low == old(self).period.low,
            final(self).wave_duty == old(self).wave_duty,
            final(self).duty_step_counter == old(self).duty_step_counter,
            final(self).length_timer.length_enable == old(self).length_timer.length_enable,
            final(self).length_timer.len == old(self).length_timer.len,
            final(self).length_timer.init_length_timer == old(self).length_timer.init_length_timer,
            old(self).length_timer.timer != 0 ==> final(self).length_timer == old(
                self,
            ).length_timer,
            final(self).envelope == (Envelope {
                dir_shadow: old(self).envelope.dir,
                pace_shadow: old(self).envelope.sweep_pace,
                volume: old(self).envelope.initial_volume,
                timer: old(self).envelope.sweep_pace,
                ..old(self).envelope
            }),
    {
        self.on = true;
        self.length_timer.reset(current_step);
        self.envelope.reset();
        self.period.timer = self.compute_period_timer();
        let period_value = self.period.value();
        match &mut self.sweep {
            Some(sw) => {
                sw.has_substracted = false;
                sw.period_shadow_register = period_value;
                sw.timer = if sw.pace > 0 {
                    sw.pace
                } else {
                    8
                };
                sw.enabled_flag = sw.pace != 0 || sw.step != 0;
                if sw.step != 0 {
                    let r = sw.compute_sweep_frequency(period_value);
                    self.on = !r.1;
                }
            },
            None => {},
        }
    }

    /// Run the period counter for `cycles` master cycles, advancing the
    /// duty step on each expiry; short of an expiry the counter only counts
    /// down.
    pub fn handle_frequency_timer(&mut self, cycles: u8)
        requires
            old(self).wf(),
        ensures
            final(self).wf(),
            *final(self) == (SquareChannel {
                period: final(self).period,
                duty_step_counter: final(self).duty_step_counter,
                ..*old(self)
            }),
            final(self).period == (Period { timer: final(self).period.timer, ..old(self).period }),
            cycles < old(self).period.timer ==> final(self).period.timer == old(self).period.timer
                - cycles && final(self).duty_step_counter == old(self).duty_step_counter,
    {
        let ghost budget = cycles as int;
        let mut cycles: u16 = cycles as u16;
        while cycles >= self.period.timer
            invariant
                self.wf(),
                *self == (SquareChannel {
                    period: self.period,
                    duty_step_counter: self.duty_step_counter,
                    ..*old(self)
                }),
                self.period == (Period { timer: self.period.timer, ..old(self).period }),
                budget < old(self).period.timer ==> cycles == budget && self.period == old(
                    self,
                ).period && self.duty_step_counter == old(self).duty_step_counter,
            decreases cycles, (if self.period.timer == 0 {
                1int
            } else {
                0
            }),
        {
            cycles = cycles - self.period.timer;
            self.period.timer = self.compute_period_timer();
            self.duty_step_counter = (self.duty_step_counter + 1) % 8;
        }
        self.period.timer = self.period.timer - cycles;
    }

    /// Advance the channel by `cycles` master cycles; a silenced channel
    /// does not run.
    pub fn step(&mut self, cycles: u8)
        requires
            old(self).wf(),
        ensures
            final(self).wf(),
            !old(self).on ==> *final(self) == *old(self),
            *final(self) == (SquareChannel {
                period: final(self).period,
                duty_step_counter: final(self).duty_step_counter,
                ..*old(self)
            }),
            old(self).on && cycles < old(self).period.timer ==> final(self).period.timer == old(
                self,
            ).period.timer - cycles && final(self).duty_step_counter == old(
                self,
            ).duty_step_counter,
    {
        if !self.on {
            return ;
        }
        self.handle_frequency_timer(cycles);
    }

    /// One sweep clock: on expiry of the sweep divider, compute the swept
    /// frequency; an overflow silences the channel, otherwise with a
    /// nonzero shift the new frequency is written back and checked once
    /// more (the second result is not written back).
    #[verifier::rlimit(100)]
    pub fn tick_sweep(&mut self)
        requires
            old(self).wf(),
        ensures
            final(self).wf(),
            !old(self).on ==> *final(self) == *old(self),
            final(self).dac_on == old(self).dac_on,
            final(self).envelope == old(self).envelope,
            final(self).length_timer == old(self).length_timer,
            final(self).panning == old(self).panning,
            final(self).sweep is Some <==> old(self).sweep is Some,
            final(self).wave_duty == old(self).wave_duty,
            final(self).duty_step_counter == old(self).duty_step_counter,
            old(self).sweep matches Some(sw) ==> !old(self).on || ({
                let fires = sw.timer <= 1;
                let reloaded = if sw.pace > 0 {
                    sw.pace
                } else {
                    8u8
                };
                let first = sw.spec_sweep_frequency(sw.period_shadow_register);
                &&& (!fires ==> final(self).sweep->0 == (Sweep {
                    timer: (sw.timer - 1) as u8,
                    ..sw
                }) && final(self).on && final(self).period == old(self).period)
                &&& (fires ==> final(self).sweep->0.timer == reloaded)
                &&& (fires && (!sw.enabled_flag || sw.pace == 0) ==> final(self).on && final(self).period == old(self).period && final(self).sweep->0 == (Sweep {
                    timer: reloaded,
                    ..sw
                }))
                &&& (fires && sw.enabled_flag && sw.pace != 0 && first.1 ==> !final(self).on
                    && final(self).period == old(self).period)
                &&& (fires && sw.enabled_flag && sw.pace != 0 && !first.1 && sw.step > 0 ==> final(self).period == (Period {
                    low: (first.0 % 256) as u8,
                    high: (first.0 / 256 % 8) as u8,
                    ..old(self).period
                }) && final(self).sweep->0.period_shadow_register == first.0 && (final(self).on
                    <==> !sw.spec_sweep_frequency(first.0).1))
                &&& (fires && sw.enabled_flag && sw.pace != 0 && !first.1 && sw.step == 0 ==> final(self).on && final(self).period == old(self).period)
            }),
    {
        if !self.on {
            return ;
        }
        let mut on = self.on;
        match &mut self.sweep {
            Some(sw) => {
                if sw.timer > 0 {
                    sw.timer = sw.timer - 1;
                }
                if sw.timer == 0 {
                    sw.timer = if sw.pace > 0 {
                        sw.pace
                    } else {
                        8
                    };
                    if sw.enabled_flag && sw.pace != 0 {
                        let shadow = sw.period_shadow_register;
                        let r = sw.compute_sweep_frequency(shadow);
                        on = !r.1;
                        if !r.1 && sw.step > 0 {
                            self.period.write(r.0);
                            sw.period_shadow_register = r.0;
                            let r2 = sw.compute_sweep_frequency(r.0);
                            on = !r2.1;
                        }
                    }
                }
            },
            None => {},
        }
        self.on = on;
    }

    /// One envelope clock; a silenced channel does not run.
    pub fn tick_envelope(&mut self)
        requires
            old(self).wf(),
        ensures
            final(self).wf(),
            !old(self).on ==> *final(self) == *old(self),
            *final(self) == (SquareChannel { envelope: final(self).envelope, ..*old(self) }),
            old(self).on ==> final(self).envelope == spec_envelope_ticked(old(self).envelope),
    {
        if !self.on {
            return ;
        }
        self.envelope.tick();
    }

    /// One length clock: an enabled counter reaching zero silences the
    /// channel.
    pub fn tick_length_timer(&mut self)
        requires
            old(self).wf(),
        ensures
            final(self).wf(),
            *final(self) == (SquareChannel {
                length_timer: final(self).length_timer,
                on: final(self).on,
                ..*old(self)
            }),
            final(self).length_timer == spec_length_ticked(old(self).length_timer),
            final(self).length_timer.timer == (if old(self).length_timer.length_enable && old(
                self,
            ).length_timer.timer > 0 {
                old(self).length_timer.timer - 1
            } else {
                old(self).length_timer.timer as int
            }),
            final(self).on == (old(self).on && !(old(self).length_timer.length_enable && old(
                self,
            ).length_timer.timer == 1)),
    {
        let stays_on = self.length_timer.tick();
        self.on = stays_on && self.on;
    }
}

/// The wave channel's output-level attenuation: a right shift of the 4-bit
/// sample.
#[derive(Clone, Copy, Debug, PartialEq, Eq, Structural)]
pub enum OutputLevel {
    Mute,
    Full,
    Half,
    Quarter,
}

impl OutputLevel {
    pub open spec fn spec_from(value: u8) -> OutputLevel {
        if value % 4 == 0 {
            OutputLevel::Mute
        } else if value % 4 == 1 {
            OutputLevel::Full
        } else if value % 4 == 2 {
            OutputLevel::Half
        } else {
            OutputLevel::Quarter
        }
    }

    /// The NR32 bits of this level.
    pub open spec fn spec_bits(self) -> u8 {
        match self {
            OutputLevel::Mute => 0u8,
            OutputLevel::Full => 1u8,
            OutputLevel::Half => 2u8,
            OutputLevel::Quarter => 3u8,
        }
    }

    /// The divisor applied to each sample: mute shifts everything out.
    pub open spec fn spec_divisor(self) -> u8 {
        match self {
            OutputLevel::Mute => 16u8,
            OutputLevel::Full => 1u8,
            OutputLevel::Half => 4u8,
            OutputLevel::Quarter => 8u8,
        }
    }

    pub fn from(value: u8) -> (r: Self)
        ensures
            r == OutputLevel::spec_from(value),
    {
        if value % 4 == 0 {
            OutputLevel::Mute
        } else if value % 4 == 1 {
            OutputLevel::Full
        } else if value % 4 == 2 {
            OutputLevel::Half
        } else {
            OutputLevel::Quarter
        }
    }

    /// The sample divisor this level applies.
    pub fn shift_divisor(&self) -> (r: u8)
        ensures
            r == self.spec_divisor(),
    {
        match self {
            OutputLevel::Mute => 16,
            OutputLevel::Full => 1,
            OutputLevel::Half => 4,
            OutputLevel::Quarter => 8,
        }
    }
}

pub const WAVE_RAM_START_ADDR: u16 = 0xFF30;

pub const WAVE_RAM_END_ADDR: u16 = 0xFF3F;

/// The wave channel's 16 bytes of sample memory (32 packed 4-bit samples),
/// the index of the sample being played, and the latched sample byte.
#[derive(Clone, Debug)]
pub struct WaveRam {
    pub ram: Vec<u8>,
    pub sample_index: u8,
    pub sample_buffer: u8,
}

impl WaveRam {
    pub open spec fn wf(self) -> bool {
        self.ram.len() == 16 && self.sample_index <= 31 && self.sample_buffer <= 15
    }

    /// The nibble of the byte at half the index: high nibble for even
    /// samples, low for odd.
    pub open spec fn spec_sample(ram: Seq<u8>, index: u8) -> u8 {
        if index % 2 == 0 {
            (ram[index as int / 2] / 16) as u8
        } else {
            (ram[index as int / 2] % 16) as u8
        }
    }

    /// The sample memory at power-on (the hardware leaves a recognizable
    /// pattern).
    pub fn new() -> (r: Self)
        ensures
            r.wf(),
            r.sample_index == 0,
            r.sample_buffer == 0,
            r.ram@.len() == 16,
    {
        let mut ram: Vec<u8> = Vec::new();
        ram.push(0x84);
        ram.push(0x40);
        ram.push(0x43);
        ram.push(0xAA);
        ram.push(0x2D);
        ram.push(0x78);
        ram.push(0x92);
        ram.push(0x3C);
        ram.push(0x60);
        ram.push(0x59);
        ram.push(0x59);
        ram.push(0xB0);
        ram.push(0x34);
        ram.push(0xB5);
        ram.push(0xCA);
        ram.push(0x6E);
        Self { ram, sample_index: 0, sample_buffer: 0 }
    }

    /// A trigger restarts playback at sample zero.
    pub fn reset(&mut self)
        ensures
            *final(self) == (WaveRam { sample_index: 0u8, ..*old(self) }),
    {
        self.sample_index = 0;
    }

    /// One period expiry: advance to the next of the 32 samples and latch
    /// its nibble.
    pub fn handle_period(&mut self)
        requires
            old(self).wf(),
        ensures
            final(self).wf(),
            final(self).ram == old(self).ram,
            final(self).sample_index == (old(self).sample_index + 1) % 32,
            final(self).sample_buffer == WaveRam::spec_sample(
                old(self).ram@,
                ((old(self).sample_index + 1) % 32) as u8,
            ),
    {
        self.sample_index = (self.sample_index + 1) % 32;
        let byte = self.ram[self.sample_index as usize / 2];
        self.sample_buffer = if self.sample_index % 2 == 0 {
            byte / 16
        } else {
            byte % 16
        };
    }
}


/// The wave channel: 32 packed samples replayed at twice the square
/// channels' rate through a coarse output-level shift.
#[derive(Clone, Debug)]
pub struct WaveChannel {
    pub on: bool,
    pub dac_on: bool,
    pub panning: Panning,
    pub length_timer: LengthTimer,
    pub initial_output_level: OutputLevel,
    pub output_level: OutputLevel,
    pub period: Period,
    pub wave_ram: WaveRam,
    pub started_sampling: bool,
}

impl WaveChannel {
    pub open spec fn wf(self) -> bool {
        &&& self.length_timer.wf()
        &&& self.length_timer.len == 256
        &&& self.period.wf()
        &&& self.wave_ram.wf()
    }

    pub open spec fn spec_enabled(self) -> bool {
        self.on && self.dac_on
    }

    /// The DAC input when the DAC is powered: the latched sample, shifted
    /// by the output level.
    pub open spec fn spec_dac_input(self) -> Option<u8> {
        if self.dac_on {
            Some((self.wave_ram.sample_buffer / self.output_level.spec_divisor()) as u8)
        } else {
            None
        }
    }

    /// The period counter reload: two master cycles per period unit.
    pub open spec fn spec_period_timer(self) -> u16 {
        ((2048 - self.period.spec_value()) * 2) as u16
    }

    pub fn new() -> (r: Self)
        ensures
            r.wf(),
            !r.on,
            !r.dac_on,
            !r.started_sampling,
            r.panning == (Panning { left: false, right: false }),
            r.length_timer == (LengthTimer {
                len: 256u16,
                length_enable: false,
                init_length_timer: 0u8,
                timer: 0u16,
            }),
            r.initial_output_level is Mute,
            r.output_level is Mute,
            r.period == (Period { high: 0u8, low: 0u8, timer: 0u16 }),
            r.wave_ram.sample_index == 0,
            r.wave_ram.sample_buffer == 0,
    {
        Self {
            on: false,
            dac_on: false,
            panning: Panning::new(),
            length_timer: LengthTimer::new(256),
            initial_output_level: OutputLevel::Mute,
            output_level: OutputLevel::Mute,
            period: Period::new(),
            wave_ram: WaveRam::new(),
            started_sampling: false,
        }
    }

    pub fn enabled(&self) -> (r: bool)
        ensures
            r == self.spec_enabled(),
    {
        self.on && self.dac_on
    }

    /// Store NR30: bit 7 powers the DAC; losing it silences the channel.
    pub fn write_dac_enable(&mut self, value: u8)
        requires
            old(self).wf(),
        ensures
            final(self).wf(),
            final(self).dac_on == (value / 128 == 1),
            final(self).on == (old(self).on && value / 128 == 1),
            *final(self) == (WaveChannel {
                dac_on: final(self).dac_on,
                on: final(self).on,
                ..*old(self)
            }),
    {
        self.dac_on = value / 128 == 1;
        if !self.dac_on {
            self.on = false;
        }
    }

    /// The NR32 read-back: the level bits; all other bits read as ones.
    pub fn read_output_level(&self) -> (r: u8)
        ensures
            r == 128 + self.initial_output_level.spec_bits() * 32 + 31,
    {
        128 + (match self.initial_output_level {
            OutputLevel::Mute => 0u8,
            OutputLevel::Full => 1u8,
            OutputLevel::Half => 2u8,
            OutputLevel::Quarter => 3u8,
        }) * 32 + 31
    }

    pub fn write_initial_output_level(&mut self, value: u8)
        requires
            old(self).wf(),
        ensures
            final(self).wf(),
            *final(self) == (WaveChannel {
                initial_output_level: OutputLevel::spec_from((value / 32) as u8),
                ..*old(self)
            }),
    {
        self.initial_output_level = OutputLevel::from(value / 32);
    }

    /// The NR30 read-back: the DAC bit; all other bits read as ones.
    pub fn read_dac_enable(&self) -> (r: u8)
        ensures
            r == (if self.dac_on {
                255int
            } else {
                127
            }),
    {
        (if self.dac_on {
            128u8
        } else {
            0
        }) + 127
    }

    /// Read sample memory. While the channel plays, only the byte being
    /// sampled is visible, and only at the instant it was fetched; at other
    /// instants the read returns 0xFF (the monochrome model's behavior).
    pub fn read_wave_ram(&self, address: u16) -> (r: u8)
        requires
            self.wf(),
            0xFF30 <= address <= 0xFF3F,
        ensures
            !self.spec_enabled() ==> r == self.wave_ram.ram@[address - 0xFF30],
            self.spec_enabled() && !(self.started_sampling && self.period.timer
                == self.spec_period_timer()) ==> r == 0xFF,
            self.spec_enabled() && self.started_sampling && self.period.timer
                == self.spec_period_timer() ==> r
                == self.wave_ram.ram@[self.wave_ram.sample_index as int / 2],
    {
        if self.enabled() {
            if self.started_sampling && self.period.timer == self.compute_period_timer() {
                self.wave_ram.ram[self.wave_ram.sample_index as usize / 2]
            } else {
                0xFF
            }
        } else {
            self.wave_ram.ram[(address - WAVE_RAM_START_ADDR) as usize]
        }
    }

    /// Write sample memory, with the same visibility rule as reads: while
    /// playing, only the byte being sampled can be hit, and only at the
    /// instant it was fetched.
    pub fn write_wave_ram(&mut self, address: u16, value: u8)
        requires
            old(self).wf(),
            0xFF30 <= address <= 0xFF3F,
        ensures
            final(self).wf(),
            *final(self) == (WaveChannel {
                wave_ram: WaveRam { ram: final(self).wave_ram.ram, ..old(self).wave_ram },
                ..*old(self)
            }),
            !old(self).spec_enabled() ==> final(self).wave_ram.ram@
                == old(self).wave_ram.ram@.update(address - 0xFF30, value),
            old(self).spec_enabled() && !(old(self).started_sampling && old(self).period.timer
                == old(self).spec_period_timer()) ==> final(self).wave_ram.ram
                == old(self).wave_ram.ram,
            old(self).spec_enabled() && old(self).started_sampling && old(self).period.timer
                == old(self).spec_period_timer() ==> final(self).wave_ram.ram@
                == old(self).wave_ram.ram@.update(old(self).wave_ram.sample_index as int / 2, value),
    {
        if self.enabled() {
            if self.started_sampling && self.period.timer == self.compute_period_timer() {
                let idx = self.wave_ram.sample_index as usize / 2;
                self.wave_ram.ram.set(idx, value);
            }
        } else {
            self.wave_ram.ram.set((address - WAVE_RAM_START_ADDR) as usize, value);
        }
    }

    pub fn compute_period_timer(&self) -> (r: u16)
        requires
            self.wf(),
        ensures
            r == self.spec_period_timer(),
            2 <= r <= 4096,
    {
        (2048 - self.period.value()) * 2
    }

    /// Trigger (NR34 bit 7): turn the channel on, reload an expired length
    /// counter, latch the output level, restart the period with a short
    /// fetch delay, and rewind to sample zero. A trigger that lands on the
    /// cycle of a sample fetch corrupts the start of sample memory on the
    /// monochrome model, copying from around the position being read.
    pub fn trigger(&mut self, current_step: u8)
        requires
            old(self).wf(),
        ensures
            final(self).wf(),
            final(self).on,
            final(self).dac_on == old(self).dac_on,
            final(self).panning == old(self).panning,
            final(self).length_timer.length_enable == old(self).length_timer.length_enable,
            final(self).length_timer.len == old(self).length_timer.len,
            final(self).length_timer.init_length_timer == old(self).length_timer.init_length_timer,
            final(self).period.high == old(self).period.high,
            final(self).period.low == old(self).period.low,
            final(self).initial_output_level == old(self).initial_output_level,
            final(self).output_level == old(self).initial_output_level,
            final(self).wave_ram.sample_index == 0,
            !final(self).started_sampling,
            final(self).period.timer == old(self).spec_period_timer() + 6,
            !(old(self).spec_enabled() && old(self).period.timer <= 2) ==> final(self).wave_ram.ram
                == old(self).wave_ram.ram,
    {
        if self.enabled() && self.period.timer <= 2 {
            let pos = (self.wave_ram.sample_index + 1) % 32;
            let byte_pos = (pos / 2) as usize;
            if byte_pos <= 3 {
                let b = self.wave_ram.ram[byte_pos];
                self.wave_ram.ram.set(0, b);
            } else {
                let base = byte_pos / 4 * 4;
                let b0 = self.wave_ram.ram[base];
                let b1 = self.wave_ram.ram[base + 1];
                let b2 = self.wave_ram.ram[base + 2];
                let b3 = self.wave_ram.ram[base + 3];
                self.wave_ram.ram.set(0, b0);
                self.wave_ram.ram.set(1, b1);
                self.wave_ram.ram.set(2, b2);
                self.wave_ram.ram.set(3, b3);
            }
        }
        self.on = true;
        self.length_timer.reset(current_step);
        self.output_level = self.initial_output_level;
        // The fetch delay lets a read land on the sample instant.
        self.period.timer = self.compute_period_timer() + 6;
        self.wave_ram.reset();
        self.started_sampling = false;
    }

    /// Run the period counter, fetching the next sample on each expiry;
    /// short of an expiry the counter only counts down.
    pub fn handle_frequency_timer(&mut self, cycles: u8)
        requires
            old(self).wf(),
        ensures
            final(self).wf(),
            *final(self) == (WaveChannel {
                period: final(self).period,
                wave_ram: final(self).wave_ram,
                started_sampling: final(self).started_sampling,
                ..*old(self)
            }),
            final(self).wave_ram.ram == old(self).wave_ram.ram,
            final(self).period == (Period { timer: final(self).period.timer, ..old(self).period }),
            cycles < old(self).period.timer ==> final(self).period.timer == old(self).period.timer
                - cycles && final(self).wave_ram == old(self).wave_ram,
    {
        let ghost budget = cycles as int;
        let mut cycles: u16 = cycles as u16;
        while cycles >= self.period.timer
            invariant
                self.wf(),
                *self == (WaveChannel {
                    period: self.period,
                    wave_ram: self.wave_ram,
                    started_sampling: self.started_sampling,
                    ..*old(self)
                }),
                self.wave_ram.ram == old(self).wave_ram.ram,
                self.period == (Period { timer: self.period.timer, ..old(self).period }),
                budget < old(self).period.timer ==> cycles == budget && self.period == old(
                    self,
                ).period && self.wave_ram == old(self).wave_ram,
            decreases cycles, (if self.period.timer == 0 {
                1int
            } else {
                0
            }),
        {
            cycles = cycles - self.period.timer;
            self.period.timer = self.compute_period_timer();
            self.wave_ram.handle_period();
            self.started_sampling = true;
        }
        self.period.timer = self.period.timer - cycles;
    }

    pub fn step(&mut self, cycles: u8)
        requires
            old(self).wf(),
        ensures
            final(self).wf(),
            !old(self).on ==> *final(self) == *old(self),
            *final(self) == (WaveChannel {
                period: final(self).period,
                wave_ram: final(self).wave_ram,
                started_sampling: final(self).started_sampling,
                ..*old(self)
            }),
            final(self).wave_ram.ram == old(self).wave_ram.ram,
    {
        if !self.on {
            return ;
        }
        self.handle_frequency_timer(cycles);
    }

    /// One length clock: an enabled counter reaching zero silences the
    /// channel.
    pub fn tick_length_timer(&mut self)
        requires
            old(self).wf(),
        ensures
            final(self).wf(),
            *final(self) == (WaveChannel {
                length_timer: final(self).length_timer,
                on: final(self).on,
                ..*old(self)
            }),
            final(self).length_timer == spec_length_ticked(old(self).length_timer),
            final(self).length_timer.timer == (if old(self).length_timer.length_enable && old(
                self,
            ).length_timer.timer > 0 {
                old(self).length_timer.timer - 1
            } else {
                old(self).length_timer.timer as int
            }),
            final(self).on == (old(self).on && !(old(self).length_timer.length_enable && old(
                self,
            ).length_timer.timer == 1)),
    {
        let stays_on = self.length_timer.tick();
        self.on = stays_on && self.on;
    }
}

/// The noise channel: a 15-bit linear-feedback shift register clocked by a
/// divider, shaped by an envelope.
#[derive(Clone, Copy, Debug, PartialEq, Eq, Structural)]
pub struct NoiseChannel {
    pub on: bool,
    pub dac_on: bool,
    pub panning: Panning,
    pub length_timer: LengthTimer,
    pub envelope: Envelope,
    pub lfsr: u16,
    pub clock_shift: u8,
    pub short_mode: bool,
    pub clock_divider: u8,
    pub period_div: u32,
}

/// One shift of the feedback register: the two low bits' exclusive-or
/// enters at bit 14, and in short mode also at bit 6.
pub open spec fn spec_lfsr_next(lfsr: u16, short_mode: bool) -> u16 {
    let b: u16 = if (lfsr % 2 == 1) != (lfsr / 2 % 2 == 1) {
        1u16
    } else {
        0u16
    };
    let shifted = (lfsr / 2 + b * 0x4000) as u16;
    if short_mode {
        (shifted - (shifted / 64 % 2) * 64 + b * 64) as u16
    } else {
        shifted
    }
}

/// A power of two up to 2^15, for the noise divider shift.
pub open spec fn spec_pow2_u32(e: u8) -> u32 {
    if e % 16 == 0 {
        1u32
    } else if e % 16 == 1 {
        2u32
    } else if e % 16 == 2 {
        4u32
    } else if e % 16 == 3 {
        8u32
    } else if e % 16 == 4 {
        16u32
    } else if e % 16 == 5 {
        32u32
    } else if e % 16 == 6 {
        64u32
    } else if e % 16 == 7 {
        128u32
    } else if e % 16 == 8 {
        256u32
    } else if e % 16 == 9 {
        512u32
    } else if e % 16 == 10 {
        1024u32
    } else if e % 16 == 11 {
        2048u32
    } else if e % 16 == 12 {
        4096u32
    } else if e % 16 == 13 {
        8192u32
    } else if e % 16 == 14 {
        16384u32
    } else {
        32768u32
    }
}

fn pow2_u32(e: u8) -> (r: u32)
    requires
        e <= 15,
    ensures
        r == spec_pow2_u32(e),
        1 <= r <= 32768,
{
    if e == 0 {
        1
    } else if e == 1 {
        2
    } else if e == 2 {
        4
    } else if e == 3 {
        8
    } else if e == 4 {
        16
    } else if e == 5 {
        32
    } else if e == 6 {
        64
    } else if e == 7 {
        128
    } else if e == 8 {
        256
    } else if e == 9 {
        512
    } else if e == 10 {
        1024
    } else if e == 11 {
        2048
    } else if e == 12 {
        4096
    } else if e == 13 {
        8192
    } else if e == 14 {
        16384
    } else {
        32768
    }
}

impl NoiseChannel {
    pub open spec fn wf(self) -> bool {
        &&& self.length_timer.wf()
        &&& self.length_timer.len == 64
        &&& self.envelope.wf()
        &&& self.clock_shift <= 15
        &&& self.clock_divider <= 7
    }

    pub open spec fn spec_enabled(self) -> bool {
        self.on && self.dac_on
    }

    /// The output bit: the inverted low bit of the register.
    pub open spec fn spec_amplitude(self) -> u8 {
        if self.lfsr % 2 == 0 {
            1u8
        } else {
            0u8
        }
    }

    /// The DAC input when the DAC is powered: the output bit times the
    /// envelope volume.
    pub open spec fn spec_dac_input(self) -> Option<u8> {
        if self.dac_on {
            Some((self.spec_amplitude() * self.envelope.volume) as u8)
        } else {
            None
        }
    }

    /// The clock divider in master cycles: 8 for code zero, else the code
    /// times 16, scaled up by the shift.
    pub open spec fn spec_divisor(self) -> u32 {
        if self.clock_divider == 0 {
            8u32
        } else {
            (self.clock_divider * 16) as u32
        }
    }

    pub fn new() -> (r: Self)
        ensures
            r.wf(),
            r == (NoiseChannel {
                on: false,
                dac_on: false,
                panning: Panning { left: false, right: false },
                length_timer: LengthTimer {
                    len: 64u16,
                    length_enable: false,
                    init_length_timer: 0u8,
                    timer: 0u16,
                },
                envelope: Envelope {
                    initial_volume: 0u8,
                    dir: EnvelopeDirection::Decrease,
                    sweep_pace: 0u8,
                    volume: 0u8,
                    dir_shadow: EnvelopeDirection::Decrease,
                    pace_shadow: 0u8,
                    timer: 0u8,
                },
                lfsr: 0u16,
                clock_shift: 0u8,
                short_mode: false,
                clock_divider: 0u8,
                period_div: 0u32,
            }),
    {
        Self {
            on: false,
            dac_on: false,
            panning: Panning::new(),
            length_timer: LengthTimer::new(64),
            envelope: Envelope::new(),
            lfsr: 0,
            clock_shift: 0,
            short_mode: false,
            clock_divider: 0,
            period_div: 0,
        }
    }

    pub fn enabled(&self) -> (r: bool)
        ensures
            r == self.spec_enabled(),
    {
        self.on && self.dac_on
    }

    /// A trigger fills the register with ones.
    pub fn reset_lfsr(&mut self)
        ensures
            *final(self) == (NoiseChannel { lfsr: 0x7FFFu16, ..*old(self) }),
    {
        self.lfsr = 0x7FFF;
    }

    /// The NR43 byte: shift, width mode and divider code.
    pub fn read_lfsr(&self) -> (r: u8)
        requires
            self.wf(),
        ensures
            r == self.clock_shift * 16 + (if self.short_mode {
                8int
            } else {
                0
            }) + self.clock_divider,
    {
        self.clock_shift * 16 + (if self.short_mode {
            8u8
        } else {
            0
        }) + self.clock_divider
    }

    pub fn write_lfsr(&mut self, value: u8)
        requires
            old(self).wf(),
        ensures
            final(self).wf(),
            *final(self) == (NoiseChannel {
                clock_shift: (value / 16) as u8,
                short_mode: value / 8 % 2 == 1,
                clock_divider: (value % 8) as u8,
                ..*old(self)
            }),
    {
        self.clock_shift = value / 16;
        self.short_mode = value / 8 % 2 == 1;
        self.clock_divider = value % 8;
    }

    /// Store NR42; an all-zero volume half powers the DAC off, which also
    /// silences the channel.
    pub fn write_envelope(&mut self, value: u8)
        requires
            old(self).wf(),
        ensures
            final(self).wf(),
            *final(self) == (NoiseChannel {
                envelope: old(self).envelope.spec_after_write(value),
                dac_on: Envelope::spec_write_dac_on(value),
                on: old(self).on && Envelope::spec_write_dac_on(value),
                ..*old(self)
            }),
    {
        self.dac_on = self.envelope.write(value);
        if !self.dac_on {
            self.on = false;
        }
    }

    /// Trigger (NR44 bit 7): turn the channel on, reload an expired length
    /// counter, reload the envelope, and fill the register with ones.
    pub fn trigger(&mut self, current_step: u8)
        requires
            old(self).wf(),
        ensures
            final(self).wf(),
            final(self).on,
            final(self).lfsr == 0x7FFF,
            final(self).dac_on == old(self).dac_on,
            final(self).panning == old(self).panning,
            final(self).clock_shift == old(self).clock_shift,
            final(self).short_mode == old(self).short_mode,
            final(self).clock_divider == old(self).clock_divider,
            final(self).length_timer.length_enable == old(self).length_timer.length_enable,
            final(self).length_timer.len == old(self).length_timer.len,
            final(self).length_timer.init_length_timer == old(self).length_timer.init_length_timer,
            old(self).length_timer.timer != 0 ==> final(self).length_timer == old(
                self,
            ).length_timer,
            final(self).envelope == (Envelope {
                dir_shadow: old(self).envelope.dir,
                pace_shadow: old(self).envelope.sweep_pace,
                volume: old(self).envelope.initial_volume,
                timer: old(self).envelope.sweep_pace,
                ..old(self).envelope
            }),
    {
        self.on = true;
        self.length_timer.reset(current_step);
        self.envelope.reset();
        self.reset_lfsr();
    }

    pub fn divisor(&self) -> (r: u32)
        requires
            self.wf(),
        ensures
            r == self.spec_divisor(),
            8 <= r <= 112,
    {
        if self.clock_divider == 0 {
            8
        } else {
            self.clock_divider as u32 * 16
        }
    }

    /// One feedback shift.
    pub fn handle_lfsr_period(&mut self)
        ensures
            *final(self) == (NoiseChannel {
                lfsr: spec_lfsr_next(old(self).lfsr, old(self).short_mode),
                ..*old(self)
            }),
    {
        let b: u16 = if (self.lfsr % 2 == 1) != (self.lfsr / 2 % 2 == 1) {
            1
        } else {
            0
        };
        let shifted = self.lfsr / 2 + b * 0x4000;
        self.lfsr = if self.short_mode {
            shifted - (shifted / 64 % 2) * 64 + b * 64
        } else {
            shifted
        };
    }

    /// Run the feedback clock for `cycles` master cycles; short of an
    /// expiry the divider only counts down.
    pub fn handle_frequency_timer(&mut self, cycles: u8)
        requires
            old(self).wf(),
        ensures
            final(self).wf(),
            *final(self) == (NoiseChannel {
                lfsr: final(self).lfsr,
                period_div: final(self).period_div,
                ..*old(self)
            }),
            cycles < old(self).period_div ==> final(self).period_div == old(self).period_div
                - cycles && final(self).lfsr == old(self).lfsr,
    {
        let ghost budget = cycles as int;
        let mut cycles: u32 = cycles as u32;
        while cycles >= self.period_div
            invariant
                self.wf(),
                *self == (NoiseChannel {
                    lfsr: self.lfsr,
                    period_div: self.period_div,
                    ..*old(self)
                }),
                budget < old(self).period_div ==> cycles == budget && self.period_div == old(
                    self,
                ).period_div && self.lfsr == old(self).lfsr,
            decreases cycles, (if self.period_div == 0 {
                1int
            } else {
                0
            }),
        {
            cycles = cycles - self.period_div;
            let p = self.divisor() * pow2_u32(self.clock_shift);
            self.period_div = if p < 1 {
                1
            } else {
                p
            };
            self.handle_lfsr_period();
        }
        self.period_div = self.period_div - cycles;
    }

    pub fn step(&mut self, cycles: u8)
        requires
            old(self).wf(),
        ensures
            final(self).wf(),
            !old(self).on ==> *final(self) == *old(self),
            *final(self) == (NoiseChannel {
                lfsr: final(self).lfsr,
                period_div: final(self).period_div,
                ..*old(self)
            }),
    {
        if !self.on {
            return ;
        }
        self.handle_frequency_timer(cycles);
    }

    /// One length clock: an enabled counter reaching zero silences the
    /// channel.
    pub fn tick_length_timer(&mut self)
        requires
            old(self).wf(),
        ensures
            final(self).wf(),
            *final(self) == (NoiseChannel {
                length_timer: final(self).length_timer,
                on: final(self).on,
                ..*old(self)
            }),
            final(self).length_timer == spec_length_ticked(old(self).length_timer),
            final(self).length_timer.timer == (if old(self).length_timer.length_enable && old(
                self,
            ).length_timer.timer > 0 {
                old(self).length_timer.timer - 1
            } else {
                old(self).length_timer.timer as int
            }),
            final(self).on == (old(self).on && !(old(self).length_timer.length_enable && old(
                self,
            ).length_timer.timer == 1)),
    {
        let stays_on = self.length_timer.tick();
        self.on = stays_on && self.on;
    }

    /// One envelope clock; a silenced channel does not run.
    pub fn tick_envelope(&mut self)
        requires
            old(self).wf(),
        ensures
            final(self).wf(),
            !old(self).on ==> *final(self) == *old(self),
            *final(self) == (NoiseChannel { envelope: final(self).envelope, ..*old(self) }),
            old(self).on ==> final(self).envelope == spec_envelope_ticked(old(self).envelope),
    {
        if !self.on {
            return ;
        }
        self.envelope.tick();
    }

    /// The output bit: the inverted low bit of the register.
    pub fn amplitude(&self) -> (r: u8)
        ensures
            r == self.spec_amplitude(),
            r <= 1,
    {
        if self.lfsr % 2 == 0 {
            1
        } else {
            0
        }
    }
}


pub const NR10: u16 = 0xFF10;

pub const NR11: u16 = 0xFF11;

pub const NR12: u16 = 0xFF12;

pub const NR13: u16 = 0xFF13;

pub const NR14: u16 = 0xFF14;

pub const NR21: u16 = 0xFF16;

pub const NR22: u16 = 0xFF17;

pub const NR23: u16 = 0xFF18;

pub const NR24: u16 = 0xFF19;

pub const NR30: u16 = 0xFF1A;

pub const NR31: u16 = 0xFF1B;

pub const NR32: u16 = 0xFF1C;

pub const NR33: u16 = 0xFF1D;

pub const NR34: u16 = 0xFF1E;

pub const NR41: u16 = 0xFF20;

pub const NR42: u16 = 0xFF21;

pub const NR43: u16 = 0xFF22;

pub const NR44: u16 = 0xFF23;

pub const NR50: u16 = 0xFF24;

pub const NR51: u16 = 0xFF25;

pub const NR52: u16 = 0xFF26;


/// How one sound-register write relates the unit's state before and after.
/// While powered off only NR52, the length-load registers and wave memory
/// respond; the length-load registers then keep only their length bits.
/// Trigger writes (NRx4 bit 7) restart their channel, so those clauses
/// state the register halves a trigger is documented to reload or keep.
pub open spec fn spec_apu_write_rel(pre: APU, post: APU, address: u16, value: u8) -> bool {
    &&& (!pre.on && !APU::spec_writable_while_off(address) ==> post == pre)
    &&& (address == NR10 && pre.on ==> post == (APU { ch1: post.ch1, ..pre }) && post.ch1
        == (SquareChannel { sweep: post.ch1.sweep, on: post.ch1.on, ..pre.ch1 })
        && post.ch1.sweep is Some && post.ch1.sweep->0 == (Sweep {
        step: (value % 8) as u8,
        direction: if value / 8 % 2 == 1 {
            SweepDirection::Substraction
        } else {
            SweepDirection::Addition
        },
        pace: (value / 16 % 8) as u8,
        ..pre.ch1.sweep->0
    }) && post.ch1.on == (pre.ch1.on && !(value / 8 % 2 == 0 && pre.ch1.sweep->0.has_substracted)))
    &&& (address == NR11 ==> ({
        let v = if pre.on {
            value
        } else {
            (value % 64) as u8
        };
        post == (APU { ch1: post.ch1, ..pre }) && post.ch1 == (SquareChannel {
            length_timer: LengthTimer {
                init_length_timer: (v % 64) as u8,
                timer: (64 - v % 64) as u16,
                ..pre.ch1.length_timer
            },
            wave_duty: DutyCycle::spec_from((v / 64) as u8),
            ..pre.ch1
        })
    }))
    &&& (address == NR12 && pre.on ==> post == (APU { ch1: post.ch1, ..pre }) && post.ch1
        == (SquareChannel {
        envelope: pre.ch1.envelope.spec_after_write(value),
        dac_on: Envelope::spec_write_dac_on(value),
        on: pre.ch1.on && Envelope::spec_write_dac_on(value),
        ..pre.ch1
    }))
    &&& (address == NR13 && pre.on ==> post == (APU { ch1: post.ch1, ..pre }) && post.ch1
        == (SquareChannel { period: Period { low: value, ..pre.ch1.period }, ..pre.ch1 }))
    &&& (address == NR14 && pre.on ==> post == (APU { ch1: post.ch1, ..pre })
        && post.ch1.period.high == value % 8 && post.ch1.length_timer.length_enable == (value / 64
        % 2 == 1) && post.ch1.dac_on == pre.ch1.dac_on && post.ch1.panning == pre.ch1.panning && (
    if value / 128 == 0 {
        post.ch1 == (SquareChannel {
            period: Period { high: (value % 8) as u8, ..pre.ch1.period },
            length_timer: spec_length_after_enable(pre.ch1.length_timer, value, pre.current_step),
            on: pre.ch1.on && spec_length_enable_stays_on(
                pre.ch1.length_timer,
                value,
                pre.current_step,
            ),
            ..pre.ch1
        })
    } else {
        post.ch1.envelope == (Envelope {
            dir_shadow: pre.ch1.envelope.dir,
            pace_shadow: pre.ch1.envelope.sweep_pace,
            volume: pre.ch1.envelope.initial_volume,
            timer: pre.ch1.envelope.sweep_pace,
            ..pre.ch1.envelope
        }) && post.ch1.wave_duty == pre.ch1.wave_duty
    }))
    &&& (address == NR21 ==> ({
        let v = if pre.on {
            value
        } else {
            (value % 64) as u8
        };
        post == (APU { ch2: post.ch2, ..pre }) && post.ch2 == (SquareChannel {
            length_timer: LengthTimer {
                init_length_timer: (v % 64) as u8,
                timer: (64 - v % 64) as u16,
                ..pre.ch2.length_timer
            },
            wave_duty: DutyCycle::spec_from((v / 64) as u8),
            ..pre.ch2
        })
    }))
    &&& (address == NR22 && pre.on ==> post == (APU { ch2: post.ch2, ..pre }) && post.ch2
        == (SquareChannel {
        envelope: pre.ch2.envelope.spec_after_write(value),
        dac_on: Envelope::spec_write_dac_on(value),
        on: pre.ch2.on && Envelope::spec_write_dac_on(value),
        ..pre.ch2
    }))
    &&& (address == NR23 && pre.on ==> post == (APU { ch2: post.ch2, ..pre }) && post.ch2
        == (SquareChannel { period: Period { low: value, ..pre.ch2.period }, ..pre.ch2 }))
    &&& (address == NR24 && pre.on ==> post == (APU { ch2: post.ch2, ..pre })
        && post.ch2.period.high == value % 8 && post.ch2.length_timer.length_enable == (value / 64
        % 2 == 1) && post.ch2.dac_on == pre.ch2.dac_on && (if value / 128 == 0 {
        post.ch2 == (SquareChannel {
            period: Period { high: (value % 8) as u8, ..pre.ch2.period },
            length_timer: spec_length_after_enable(pre.ch2.length_timer, value, pre.current_step),
            on: pre.ch2.on && spec_length_enable_stays_on(
                pre.ch2.length_timer,
                value,
                pre.current_step,
            ),
            ..pre.ch2
        })
    } else {
        post.ch2.on && post.ch2.wave_duty == pre.ch2.wave_duty
    }))
    &&& (address == NR30 && pre.on ==> post == (APU { ch3: post.ch3, ..pre }) && post.ch3
        == (WaveChannel {
        dac_on: post.ch3.dac_on,
        on: post.ch3.on,
        ..pre.ch3
    }) && post.ch3.dac_on == (value / 128 == 1) && post.ch3.on == (pre.ch3.on && value / 128 == 1))
    &&& (address == NR31 ==> post == (APU { ch3: post.ch3, ..pre }) && post.ch3 == (WaveChannel {
        length_timer: LengthTimer {
            init_length_timer: value,
            timer: (256 - value) as u16,
            ..pre.ch3.length_timer
        },
        ..pre.ch3
    }))
    &&& (address == NR32 && pre.on ==> post == (APU { ch3: post.ch3, ..pre }) && post.ch3
        == (WaveChannel {
        initial_output_level: OutputLevel::spec_from((value / 32) as u8),
        ..pre.ch3
    }))
    &&& (address == NR33 && pre.on ==> post == (APU { ch3: post.ch3, ..pre }) && post.ch3
        == (WaveChannel { period: Period { low: value, ..pre.ch3.period }, ..pre.ch3 }))
    &&& (address == NR34 && pre.on ==> post == (APU { ch3: post.ch3, ..pre })
        && post.ch3.period.high == value % 8 && post.ch3.length_timer.length_enable == (value / 64
        % 2 == 1) && post.ch3.dac_on == pre.ch3.dac_on && (value / 128 == 0
        ==> post.ch3.wave_ram.ram == pre.ch3.wave_ram.ram && post.ch3.on == (pre.ch3.on
        && spec_length_enable_stays_on(pre.ch3.length_timer, value, pre.current_step))))
    &&& (0xFF30 <= address <= 0xFF3F ==> post == (APU { ch3: post.ch3, ..pre }) && post.ch3
        == (WaveChannel {
        wave_ram: WaveRam { ram: post.ch3.wave_ram.ram, ..pre.ch3.wave_ram },
        ..pre.ch3
    }) && (!pre.ch3.spec_enabled() ==> post.ch3.wave_ram.ram@ == pre.ch3.wave_ram.ram@.update(
        address - 0xFF30,
        value,
    )))
    &&& (address == NR41 ==> post == (APU { ch4: post.ch4, ..pre }) && post.ch4 == (NoiseChannel {
        length_timer: LengthTimer {
            init_length_timer: (value % 64) as u8,
            timer: (64 - value % 64) as u16,
            ..pre.ch4.length_timer
        },
        ..pre.ch4
    }))
    &&& (address == NR42 && pre.on ==> post == (APU { ch4: post.ch4, ..pre }) && post.ch4
        == (NoiseChannel {
        envelope: pre.ch4.envelope.spec_after_write(value),
        dac_on: Envelope::spec_write_dac_on(value),
        on: pre.ch4.on && Envelope::spec_write_dac_on(value),
        ..pre.ch4
    }))
    &&& (address == NR43 && pre.on ==> post == (APU { ch4: post.ch4, ..pre }) && post.ch4
        == (NoiseChannel {
        clock_shift: (value / 16) as u8,
        short_mode: value / 8 % 2 == 1,
        clock_divider: (value % 8) as u8,
        ..pre.ch4
    }))
    &&& (address == NR44 && pre.on ==> post == (APU { ch4: post.ch4, ..pre })
        && post.ch4.length_timer.length_enable == (value / 64 % 2 == 1) && post.ch4.dac_on
        == pre.ch4.dac_on && (if value / 128 == 0 {
        post.ch4 == (NoiseChannel {
            length_timer: spec_length_after_enable(pre.ch4.length_timer, value, pre.current_step),
            on: pre.ch4.on && spec_length_enable_stays_on(
                pre.ch4.length_timer,
                value,
                pre.current_step,
            ),
            ..pre.ch4
        })
    } else {
        post.ch4.on && post.ch4.lfsr == 0x7FFF
    }))
    &&& (address == NR50 && pre.on ==> post == (APU {
        right_volume: (value % 8) as u8,
        vin_right: value / 8 % 2 == 1,
        left_volume: (value / 16 % 8) as u8,
        vin_left: value / 128 == 1,
        ..pre
    }))
    &&& (address == NR51 && pre.on ==> post == (APU {
        ch1: post.ch1,
        ch2: post.ch2,
        ch3: post.ch3,
        ch4: post.ch4,
        ..pre
    }) && post.ch1 == (SquareChannel {
        panning: Panning { left: value / 16 % 2 == 1, right: value % 2 == 1 },
        ..pre.ch1
    }) && post.ch2 == (SquareChannel {
        panning: Panning { left: value / 32 % 2 == 1, right: value / 2 % 2 == 1 },
        ..pre.ch2
    }) && post.ch3.panning == (Panning { left: value / 64 % 2 == 1, right: value / 4 % 2 == 1 })
        && post.ch4 == (NoiseChannel {
        panning: Panning { left: value / 128 == 1, right: value / 8 % 2 == 1 },
        ..pre.ch4
    }))
    &&& (address == NR52 ==> post.on == (value / 128 == 1) && (value / 128 == 0
        ==> post.ch3.wave_ram.ram@ == pre.ch3.wave_ram.ram@ && post.ch1.length_timer.timer
        == pre.ch1.length_timer.timer && post.ch2.length_timer.timer == pre.ch2.length_timer.timer
        && post.ch3.length_timer.timer == pre.ch3.length_timer.timer
        && post.ch4.length_timer.timer == pre.ch4.length_timer.timer))
}

/// The master volume written through NR50: zero is treated as one and
/// seven as eight, so the mix is quietened but never muted.
pub open spec fn spec_master_volume(vol: u8) -> u8 {
    if vol % 8 == 0 {
        1u8
    } else if vol % 8 == 7 {
        8u8
    } else {
        (vol % 8) as u8
    }
}

/// The audio unit: four channels, the frame sequencer phase, the NR50/NR51
/// mixer settings, and the outgoing sample block. Sample numerators are
/// exact integers over `SAMPLE_DENOMINATOR`; the host divides once.
#[derive(Clone, Debug)]
pub struct APU {
    pub on: bool,
    pub vin_left: bool,
    pub vin_right: bool,
    pub left_volume: u8,
    pub right_volume: u8,
    pub current_step: u8,
    pub samples_cycle_acc: u32,
    pub ch1: SquareChannel,
    pub ch2: SquareChannel,
    pub ch3: WaveChannel,
    pub ch4: NoiseChannel,
    pub buffer: Vec<i16>,
    pub pending_samples: Option<Vec<i16>>,
}

impl APU {
    pub open spec fn wf(self) -> bool {
        &&& self.left_volume <= 7
        &&& self.right_volume <= 7
        &&& self.current_step <= 7
        &&& self.ch1.wf()
        &&& self.ch1.sweep is Some
        &&& self.ch2.wf()
        &&& self.ch2.sweep is None
        &&& self.ch3.wf()
        &&& self.ch4.wf()
        &&& self.buffer.len() % 2 == 0
        &&& self.buffer.len() < SAMPLES_BUFFER_SIZE
    }

    /// One side of the mix before the master volume: the sum of the DAC
    /// terms of the channels panned to that side.
    pub open spec fn spec_side_sum(self, left: bool) -> int {
        (if (if left {
            self.ch1.panning.left
        } else {
            self.ch1.panning.right
        }) {
            spec_dac_term(self.ch1.spec_dac_input())
        } else {
            0
        }) + (if (if left {
            self.ch2.panning.left
        } else {
            self.ch2.panning.right
        }) {
            spec_dac_term(self.ch2.spec_dac_input())
        } else {
            0
        }) + (if (if left {
            self.ch3.panning.left
        } else {
            self.ch3.panning.right
        }) {
            spec_dac_term(self.ch3.spec_dac_input())
        } else {
            0
        }) + (if (if left {
            self.ch4.panning.left
        } else {
            self.ch4.panning.right
        }) {
            spec_dac_term(self.ch4.spec_dac_input())
        } else {
            0
        })
    }

    /// A sample numerator: the side sum scaled by that side's master
    /// volume, over the fixed denominator.
    pub open spec fn spec_sample(self, left: bool) -> int {
        self.spec_side_sum(left) * spec_master_volume(
            if left {
                self.left_volume
            } else {
                self.right_volume
            },
        )
    }

    /// The NR50 byte.
    pub open spec fn spec_read_volume(self) -> u8 {
        (self.right_volume + (if self.vin_right {
            8int
        } else {
            0
        }) + self.left_volume * 16 + (if self.vin_left {
            128int
        } else {
            0
        })) as u8
    }

    /// The NR51 panning matrix byte.
    pub open spec fn spec_read_panning(self) -> u8 {
        ((if self.ch1.panning.right {
            1int
        } else {
            0
        }) + (if self.ch2.panning.right {
            2int
        } else {
            0
        }) + (if self.ch3.panning.right {
            4int
        } else {
            0
        }) + (if self.ch4.panning.right {
            8int
        } else {
            0
        }) + (if self.ch1.panning.left {
            16int
        } else {
            0
        }) + (if self.ch2.panning.left {
            32int
        } else {
            0
        }) + (if self.ch3.panning.left {
            64int
        } else {
            0
        }) + (if self.ch4.panning.left {
            128int
        } else {
            0
        })) as u8
    }

    /// The NR52 byte: the power bit, the four channel-active bits, and ones
    /// in the unused bits.
    pub open spec fn spec_read_master_control(self) -> u8 {
        ((if self.on {
            128int
        } else {
            0
        }) + 0x70 + (if self.ch4.spec_enabled() {
            8int
        } else {
            0
        }) + (if self.ch3.spec_enabled() {
            4int
        } else {
            0
        }) + (if self.ch2.spec_enabled() {
            2int
        } else {
            0
        }) + (if self.ch1.spec_enabled() {
            1int
        } else {
            0
        })) as u8
    }

    pub fn new() -> (r: Self)
        ensures
            r.wf(),
            !r.on,
            r.current_step == 0,
            r.samples_cycle_acc == 0,
            r.buffer@.len() == 0,
            r.pending_samples is None,
    {
        Self {
            on: false,
            vin_left: false,
            vin_right: false,
            left_volume: 0,
            right_volume: 0,
            current_step: 0,
            samples_cycle_acc: 0,
            ch1: SquareChannel::new(true),
            ch2: SquareChannel::new(false),
            ch3: WaveChannel::new(),
            ch4: NoiseChannel::new(),
            buffer: Vec::new(),
            pending_samples: None,
        }
    }

    /// Power on (NR52 bit 7 set): the frame sequencer restarts so that its
    /// next step is step zero.
    pub fn power_on(&mut self)
        requires
            old(self).wf(),
        ensures
            final(self).wf(),
            final(self).on,
            !old(self).on ==> *final(self) == (APU { on: true, current_step: 7u8, ..*old(self) }),
            old(self).on ==> *final(self) == *old(self),
    {
        if !self.on {
            self.current_step = 7;
        }
        self.on = true;
    }

    /// Power off (NR52 bit 7 cleared). Everything resets to its power-on
    /// default except two survivors: the wave channel's sample memory and
    /// all four channels' length counters.
    pub fn power_off(&mut self)
        requires
            old(self).wf(),
        ensures
            final(self).wf(),
            !final(self).on,
            !final(self).vin_left,
            !final(self).vin_right,
            final(self).left_volume == 0,
            final(self).right_volume == 0,
            final(self).current_step == 0,
            final(self).samples_cycle_acc == 0,
            final(self).buffer@.len() == 0,
            final(self).pending_samples == old(self).pending_samples,
            final(self).ch3.wave_ram.ram@ == old(self).ch3.wave_ram.ram@,
            final(self).ch1.length_timer.timer == old(self).ch1.length_timer.timer,
            final(self).ch2.length_timer.timer == old(self).ch2.length_timer.timer,
            final(self).ch3.length_timer.timer == old(self).ch3.length_timer.timer,
            final(self).ch4.length_timer.timer == old(self).ch4.length_timer.timer,
            final(self).ch1 == (SquareChannel {
                length_timer: LengthTimer {
                    timer: old(self).ch1.length_timer.timer,
                    ..SquareChannel::spec_new(true).length_timer
                },
                ..SquareChannel::spec_new(true)
            }),
            final(self).ch2 == (SquareChannel {
                length_timer: LengthTimer {
                    timer: old(self).ch2.length_timer.timer,
                    ..SquareChannel::spec_new(false).length_timer
                },
                ..SquareChannel::spec_new(false)
            }),
            !final(self).ch3.on,
            !final(self).ch3.dac_on,
            final(self).ch3.panning == (Panning { left: false, right: false }),
            final(self).ch3.length_timer == (LengthTimer {
                len: 256u16,
                length_enable: false,
                init_length_timer: 0u8,
                timer: old(self).ch3.length_timer.timer,
            }),
            final(self).ch3.initial_output_level is Mute,
            final(self).ch3.output_level is Mute,
            final(self).ch3.period == (Period { high: 0u8, low: 0u8, timer: 0u16 }),
            final(self).ch3.wave_ram.sample_index == 0,
            final(self).ch3.wave_ram.sample_buffer == 0,
            !final(self).ch3.started_sampling,
            final(self).ch4 == (NoiseChannel {
                length_timer: LengthTimer {
                    len: 64u16,
                    length_enable: false,
                    init_length_timer: 0u8,
                    timer: old(self).ch4.length_timer.timer,
                },
                ..spec_noise_new()
            }),
    {
        let ch1_len_timer = self.ch1.length_timer.timer;
        let ch2_len_timer = self.ch2.length_timer.timer;
        let ch3_len_timer = self.ch3.length_timer.timer;
        let ch4_len_timer = self.ch4.length_timer.timer;
        let mut wave_ram_copy = WaveRam::new();
        core::mem::swap(&mut wave_ram_copy, &mut self.ch3.wave_ram);

        self.ch1 = SquareChannel::new(true);
        self.ch2 = SquareChannel::new(false);
        self.ch3 = WaveChannel::new();
        self.ch4 = NoiseChannel::new();

        self.ch3.wave_ram = WaveRam {
            ram: wave_ram_copy.ram,
            sample_index: 0,
            sample_buffer: 0,
        };
        self.ch1.length_timer.timer = ch1_len_timer;
        self.ch2.length_timer.timer = ch2_len_timer;
        self.ch3.length_timer.timer = ch3_len_timer;
        self.ch4.length_timer.timer = ch4_len_timer;

        self.on = false;
        self.vin_left = false;
        self.vin_right = false;
        self.left_volume = 0;
        self.right_volume = 0;
        self.current_step = 0;
        self.samples_cycle_acc = 0;
        self.buffer = Vec::new();
    }

    pub fn read_volume(&self) -> (r: u8)
        requires
            self.wf(),
        ensures
            r == self.spec_read_volume(),
    {
        self.right_volume + (if self.vin_right {
            8u8
        } else {
            0
        }) + self.left_volume * 16 + (if self.vin_left {
            128u8
        } else {
            0
        })
    }

    pub fn write_volume(&mut self, value: u8)
        requires
            old(self).wf(),
        ensures
            final(self).wf(),
            *final(self) == (APU {
                right_volume: (value % 8) as u8,
                vin_right: value / 8 % 2 == 1,
                left_volume: (value / 16 % 8) as u8,
                vin_left: value / 128 == 1,
                ..*old(self)
            }),
    {
        self.right_volume = value % 8;
        self.vin_right = value / 8 % 2 == 1;
        self.left_volume = value / 16 % 8;
        self.vin_left = value / 128 == 1;
    }

    pub fn read_panning(&self) -> (r: u8)
        requires
            self.wf(),
        ensures
            r == self.spec_read_panning(),
    {
        (if self.ch1.panning.right {
            1u8
        } else {
            0
        }) + (if self.ch2.panning.right {
            2u8
        } else {
            0
        }) + (if self.ch3.panning.right {
            4u8
        } else {
            0
        }) + (if self.ch4.panning.right {
            8u8
        } else {
            0
        }) + (if self.ch1.panning.left {
            16u8
        } else {
            0
        }) + (if self.ch2.panning.left {
            32u8
        } else {
            0
        }) + (if self.ch3.panning.left {
            64u8
        } else {
            0
        }) + (if self.ch4.panning.left {
            128u8
        } else {
            0
        })
    }

    pub fn write_panning(&mut self, value: u8)
        requires
            old(self).wf(),
        ensures
            final(self).wf(),
            final(self).ch1.panning == (Panning {
                left: value / 16 % 2 == 1,
                right: value % 2 == 1,
            }),
            final(self).ch2.panning == (Panning {
                left: value / 32 % 2 == 1,
                right: value / 2 % 2 == 1,
            }),
            final(self).ch3.panning == (Panning {
                left: value / 64 % 2 == 1,
                right: value / 4 % 2 == 1,
            }),
            final(self).ch4.panning == (Panning {
                left: value / 128 == 1,
                right: value / 8 % 2 == 1,
            }),
            final(self).ch1 == (SquareChannel { panning: final(self).ch1.panning, ..old(self).ch1 }),
            final(self).ch2 == (SquareChannel { panning: final(self).ch2.panning, ..old(self).ch2 }),
            final(self).ch3.panning == final(self).ch3.panning,
            final(self).ch4 == (NoiseChannel { panning: final(self).ch4.panning, ..old(self).ch4 }),
            *final(self) == (APU {
                ch1: final(self).ch1,
                ch2: final(self).ch2,
                ch3: final(self).ch3,
                ch4: final(self).ch4,
                ..*old(self)
            }),
    {
        self.ch1.panning.write(value / 16 % 2 == 1, value % 2 == 1);
        self.ch2.panning.write(value / 32 % 2 == 1, value / 2 % 2 == 1);
        self.ch3.panning.write(value / 64 % 2 == 1, value / 4 % 2 == 1);
        self.ch4.panning.write(value / 128 == 1, value / 8 % 2 == 1);
    }

    pub fn read_master_control(&self) -> (r: u8)
        requires
            self.wf(),
        ensures
            r == self.spec_read_master_control(),
    {
        (if self.on {
            128u8
        } else {
            0
        }) + 0x70 + (if self.ch4.enabled() {
            8u8
        } else {
            0
        }) + (if self.ch3.enabled() {
            4u8
        } else {
            0
        }) + (if self.ch2.enabled() {
            2u8
        } else {
            0
        }) + (if self.ch1.enabled() {
            1u8
        } else {
            0
        })
    }

    /// NR52 bit 7 powers the whole unit on or off.
    pub fn write_master_control(&mut self, value: u8)
        requires
            old(self).wf(),
        ensures
            final(self).wf(),
            final(self).on == (value / 128 == 1),
            value / 128 == 0 ==> final(self).ch3.wave_ram.ram@ == old(self).ch3.wave_ram.ram@
                && final(self).ch1.length_timer.timer == old(self).ch1.length_timer.timer
                && final(self).ch2.length_timer.timer == old(self).ch2.length_timer.timer
                && final(self).ch3.length_timer.timer == old(self).ch3.length_timer.timer
                && final(self).ch4.length_timer.timer == old(self).ch4.length_timer.timer,
    {
        if value / 128 == 1 {
            self.power_on();
        } else {
            self.power_off();
        }
    }

    /// One frame-sequencer step: the length timers count on every even
    /// step, the first channel's sweep runs on steps two and six, and the
    /// envelopes run on step seven.
    #[verifier::rlimit(100)]
    pub fn step_frame_sequencer(&mut self)
        requires
            old(self).wf(),
        ensures
            final(self).wf(),
            final(self).current_step == (old(self).current_step + 1) % 8,
            final(self).on == old(self).on,
            final(self).buffer == old(self).buffer,
            final(self).pending_samples == old(self).pending_samples,
            final(self).samples_cycle_acc == old(self).samples_cycle_acc,
            final(self).left_volume == old(self).left_volume,
            final(self).right_volume == old(self).right_volume,
            ({
                let step = (old(self).current_step + 1) % 8;
                &&& (step % 2 == 0 ==> final(self).ch1.length_timer == spec_length_ticked(
                    old(self).ch1.length_timer,
                ) && final(self).ch2.length_timer == spec_length_ticked(old(self).ch2.length_timer)
                    && final(self).ch3.length_timer == spec_length_ticked(
                    old(self).ch3.length_timer,
                ) && final(self).ch4.length_timer == spec_length_ticked(old(self).ch4.length_timer))
                &&& (step % 2 == 0 && old(self).ch1.length_timer.length_enable && old(
                    self,
                ).ch1.length_timer.timer == 1 ==> !final(self).ch1.on)
                &&& (step % 2 == 0 && old(self).ch2.length_timer.length_enable && old(
                    self,
                ).ch2.length_timer.timer == 1 ==> !final(self).ch2.on)
                &&& (step % 2 == 0 && old(self).ch3.length_timer.length_enable && old(
                    self,
                ).ch3.length_timer.timer == 1 ==> !final(self).ch3.on)
                &&& (step % 2 == 0 && old(self).ch4.length_timer.length_enable && old(
                    self,
                ).ch4.length_timer.timer == 1 ==> !final(self).ch4.on)
                &&& (step % 2 == 1 ==> final(self).ch1.length_timer == old(self).ch1.length_timer
                    && final(self).ch2.length_timer == old(self).ch2.length_timer && final(self).ch3.length_timer == old(self).ch3.length_timer && final(self).ch4.length_timer
                    == old(self).ch4.length_timer)
                &&& (step == 7 ==> (old(self).ch1.on ==> final(self).ch1.envelope
                    == spec_envelope_ticked(old(self).ch1.envelope)) && (old(self).ch2.on ==> final(self).ch2.envelope == spec_envelope_ticked(old(self).ch2.envelope)) && (old(self).ch4.on
                    ==> final(self).ch4.envelope == spec_envelope_ticked(old(self).ch4.envelope)))
                &&& (step != 7 ==> final(self).ch1.envelope == old(self).ch1.envelope && final(self).ch2.envelope == old(self).ch2.envelope && final(self).ch4.envelope == old(
                    self,
                ).ch4.envelope)
                &&& (!(step == 2 || step == 6) ==> final(self).ch1.sweep == old(self).ch1.sweep
                    && final(self).ch1.period == old(self).ch1.period)
            }),
    {
        self.current_step = (self.current_step + 1) % 8;
        if self.current_step == 2 || self.current_step == 6 {
            self.ch1.tick_sweep();
        }
        if self.current_step % 2 == 0 {
            self.ch1.tick_length_timer();
            self.ch2.tick_length_timer();
            self.ch3.tick_length_timer();
            self.ch4.tick_length_timer();
        }
        if self.current_step == 7 {
            self.ch1.tick_envelope();
            self.ch2.tick_envelope();
            self.ch4.tick_envelope();
        }
    }

    /// The square channel's DAC input: the duty bit times the envelope
    /// volume, or nothing while the DAC is off.
    fn square_dac_input(ch: &SquareChannel) -> (r: Option<u8>)
        requires
            ch.wf(),
        ensures
            r == ch.spec_dac_input(),
            r matches Some(l) ==> l <= 15,
    {
        if ch.dac_on {
            Some(ch.wave_duty.signal(ch.duty_step_counter) * ch.envelope.volume)
        } else {
            None
        }
    }

    /// One channel's contribution to a side sum.
    fn dac_term(input: Option<u8>) -> (r: i16)
        requires
            input matches Some(l) ==> l <= 15,
        ensures
            r == spec_dac_term(input),
            -15 <= r <= 15,
    {
        match input {
            Some(level) => 2 * (level % 16) as i16 - 15,
            None => 0,
        }
    }

    /// One stereo sample as a pair of exact numerators over the fixed
    /// denominator: each side sums the DAC terms of its panned channels and
    /// scales by the master volume.
    #[verifier::rlimit(60)]
    pub fn mix(&self) -> (r: (i16, i16))
        requires
            self.wf(),
        ensures
            r.0 == self.spec_sample(true),
            r.1 == self.spec_sample(false),
            -480 <= r.0 <= 480,
            -480 <= r.1 <= 480,
    {
        let t1 = Self::dac_term(Self::square_dac_input(&self.ch1));
        let t2 = Self::dac_term(Self::square_dac_input(&self.ch2));
        let t3 = Self::dac_term(
            if self.ch3.dac_on {
                Some(self.ch3.wave_ram.sample_buffer / self.ch3.output_level.shift_divisor())
            } else {
                None
            },
        );
        let t4 = Self::dac_term(
            if self.ch4.dac_on {
                Some(self.ch4.amplitude() * self.ch4.envelope.volume)
            } else {
                None
            },
        );
        let left_sum: i16 = (if self.ch1.panning.left {
            t1
        } else {
            0
        }) + (if self.ch2.panning.left {
            t2
        } else {
            0
        }) + (if self.ch3.panning.left {
            t3
        } else {
            0
        }) + (if self.ch4.panning.left {
            t4
        } else {
            0
        });
        let right_sum: i16 = (if self.ch1.panning.right {
            t1
        } else {
            0
        }) + (if self.ch2.panning.right {
            t2
        } else {
            0
        }) + (if self.ch3.panning.right {
            t3
        } else {
            0
        }) + (if self.ch4.panning.right {
            t4
        } else {
            0
        });
        let mv_left = self.get_master_volume(self.left_volume) as i16;
        let mv_right = self.get_master_volume(self.right_volume) as i16;
        proof {
            assert(-480 <= left_sum * mv_left <= 480) by (nonlinear_arith)
                requires
                    -60 <= left_sum <= 60,
                    1 <= mv_left <= 8,
            ;
            assert(-480 <= right_sum * mv_right <= 480) by (nonlinear_arith)
                requires
                    -60 <= right_sum <= 60,
                    1 <= mv_right <= 8,
            ;
        }
        let left = left_sum * mv_left;
        let right = right_sum * mv_right;
        (left, right)
    }

    /// The effective master volume of one side.
    pub fn get_master_volume(&self, vol: u8) -> (r: u8)
        ensures
            r == spec_master_volume(vol),
            1 <= r <= 8,
    {
        let v = vol % 8;
        if v == 0 {
            1
        } else if v == 7 {
            8
        } else {
            v
        }
    }

    /// Advance the unit by `cycles` master cycles: step the frame sequencer
    /// on the timer's falling-edge event, run all four channels, and emit
    /// one stereo sample every `CYCLES_BEFORE_SAMPLE` cycles. A full block
    /// of `SAMPLES_BUFFER_SIZE` numerators is handed over for the host to
    /// collect with `take_samples`. Powered off, the unit does nothing.
    #[verifier::rlimit(100)]
    #[verifier::spinoff_prover]
    pub fn step(&mut self, cycles: u8, div_apu_event: bool)
        requires
            old(self).wf(),
        ensures
            final(self).wf(),
            !old(self).on ==> *final(self) == *old(self),
            final(self).on == old(self).on,
            old(self).on ==> final(self).current_step == (if div_apu_event {
                (old(self).current_step + 1) % 8
            } else {
                old(self).current_step as int
            }),
            old(self).on ==> ({
                let acc = u32_specs::wrapping_add(old(self).samples_cycle_acc, cycles as u32);
                &&& final(self).samples_cycle_acc == (if acc >= CYCLES_BEFORE_SAMPLE {
                    acc - CYCLES_BEFORE_SAMPLE
                } else {
                    acc as int
                })
                &&& (acc < CYCLES_BEFORE_SAMPLE ==> final(self).buffer == old(self).buffer
                    && final(self).pending_samples == old(self).pending_samples)
                &&& (acc >= CYCLES_BEFORE_SAMPLE && old(self).buffer.len() < 1022 ==> final(self).buffer.len() == old(self).buffer.len() + 2 && final(self).buffer@.subrange(
                    0,
                    old(self).buffer.len() as int,
                ) == old(self).buffer@ && final(self).pending_samples == old(self).pending_samples)
                &&& (acc >= CYCLES_BEFORE_SAMPLE && old(self).buffer.len() == 1022 ==> final(self).buffer.len() == 0 && final(self).pending_samples is Some && final(self).pending_samples->0.len() == SAMPLES_BUFFER_SIZE && final(self).pending_samples->0@.subrange(0, 1022) == old(self).buffer@)
            }),
    {
        if !self.on {
            return ;
        }
        if div_apu_event {
            self.step_frame_sequencer();
        }
        self.samples_cycle_acc = self.samples_cycle_acc.wrapping_add(cycles as u32);

        self.ch1.step(cycles);
        self.ch2.step(cycles);
        self.ch3.step(cycles);
        self.ch4.step(cycles);

        if self.samples_cycle_acc >= CYCLES_BEFORE_SAMPLE {
            self.samples_cycle_acc = self.samples_cycle_acc - CYCLES_BEFORE_SAMPLE;
            let mixed = self.mix();
            self.buffer.push(mixed.0);
            self.buffer.push(mixed.1);
            if self.buffer.len() >= SAMPLES_BUFFER_SIZE {
                let mut full: Vec<i16> = Vec::new();
                core::mem::swap(&mut full, &mut self.buffer);
                self.pending_samples = Some(full);
            }
        }
    }

    /// Whether a write to `address` is honored while the unit is powered
    /// off: only NR52 itself, the length-load registers, and wave memory.
    pub open spec fn spec_writable_while_off(address: u16) -> bool {
        address == NR52 || address == NR11 || address == NR21 || address == NR31 || address == NR41
            || (0xFF30 <= address <= 0xFF3F)
    }

    /// Read a sound register. Write-only bits and unmapped addresses read
    /// as ones.
    pub fn read_byte(&self, address: u16) -> (r: u8)
        requires
            self.wf(),
            0xFF10 <= address <= 0xFF3F,
        ensures
            address == NR10 ==> r == self.ch1.sweep->0.spec_read(),
            address == NR11 ==> r == self.ch1.wave_duty.spec_bits() * 64 + 63,
            address == NR12 ==> r == self.ch1.envelope.spec_read(),
            address == NR14 ==> r == self.ch1.length_timer.spec_read_control(),
            address == NR21 ==> r == self.ch2.wave_duty.spec_bits() * 64 + 63,
            address == NR22 ==> r == self.ch2.envelope.spec_read(),
            address == NR24 ==> r == self.ch2.length_timer.spec_read_control(),
            address == NR30 ==> r == (if self.ch3.dac_on {
                255int
            } else {
                127
            }),
            address == NR32 ==> r == 128 + self.ch3.initial_output_level.spec_bits() * 32 + 31,
            address == NR34 ==> r == self.ch3.length_timer.spec_read_control(),
            0xFF30 <= address <= 0xFF3F && !self.ch3.spec_enabled() ==> r
                == self.ch3.wave_ram.ram@[address - 0xFF30],
            address == NR42 ==> r == self.ch4.envelope.spec_read(),
            address == NR43 ==> r == self.ch4.clock_shift * 16 + (if self.ch4.short_mode {
                8int
            } else {
                0
            }) + self.ch4.clock_divider,
            address == NR44 ==> r == self.ch4.length_timer.spec_read_control(),
            address == NR50 ==> r == self.spec_read_volume(),
            address == NR51 ==> r == self.spec_read_panning(),
            address == NR52 ==> r == self.spec_read_master_control(),
            address == NR13 || address == NR23 || address == NR31 || address == NR33 || address
                == NR41 ==> r == 0xFF,
    {
        if address == NR10 {
            match &self.ch1.sweep {
                Some(sw) => sw.read(),
                None => 0xFF,
            }
        } else if address == NR11 {
            self.ch1.read_duty()
        } else if address == NR12 {
            self.ch1.envelope.read()
        } else if address == NR14 {
            self.ch1.length_timer.read_control()
        } else if address == NR21 {
            self.ch2.read_duty()
        } else if address == NR22 {
            self.ch2.envelope.read()
        } else if address == NR24 {
            self.ch2.length_timer.read_control()
        } else if address == NR30 {
            self.ch3.read_dac_enable()
        } else if address == NR32 {
            self.ch3.read_output_level()
        } else if address == NR34 {
            self.ch3.length_timer.read_control()
        } else if 0xFF30 <= address && address <= 0xFF3F {
            self.ch3.read_wave_ram(address)
        } else if address == NR42 {
            self.ch4.envelope.read()
        } else if address == NR43 {
            self.ch4.read_lfsr()
        } else if address == NR44 {
            self.ch4.length_timer.read_control()
        } else if address == NR50 {
            self.read_volume()
        } else if address == NR51 {
            self.read_panning()
        } else if address == NR52 {
            self.read_master_control()
        } else {
            0xFF
        }
    }

    /// Write a sound register. While the unit is powered off only NR52,
    /// the length-load registers and wave memory respond, and the
    /// length-load registers then keep only their length bits. A trigger
    /// bit (NRx4 bit 7) restarts its channel.
    pub fn write_byte(&mut self, address: u16, value: u8)
        requires
            old(self).wf(),
            0xFF10 <= address <= 0xFF3F,
        ensures
            final(self).wf(),
            spec_apu_write_rel(*old(self), *final(self), address, value),
    {
        if !self.on && !(address == NR52 || address == NR11 || address == NR21 || address == NR31
            || address == NR41 || (0xFF30 <= address && address <= 0xFF3F)) {
            return ;
        }
        if address <= NR24 {
            self.write_square_register(address, value);
        } else if address <= 0xFF3F && address != NR50 && address != NR51 && address != NR52 {
            self.write_wave_noise_register(address, value);
        } else if address == NR50 {
            self.write_volume(value);
        } else if address == NR51 {
            self.write_panning(value);
        } else if address == NR52 {
            self.write_master_control(value);
        }
    }

    /// The square channels' registers (NR10 to NR24).
    #[verifier::rlimit(100)]
    #[verifier::spinoff_prover]
    fn write_square_register(&mut self, address: u16, value: u8)
        requires
            old(self).wf(),
            0xFF10 <= address <= NR24,
            old(self).on || APU::spec_writable_while_off(address),
        ensures
            final(self).wf(),
            spec_apu_write_rel(*old(self), *final(self), address, value),
    {
        if address == NR10 {
            self.ch1.write_sweep(value);
        } else if address == NR11 {
            self.ch1.write_timer_and_duty(
                if self.on {
                    value
                } else {
                    value % 64
                },
            );
        } else if address == NR12 {
            self.ch1.write_envelope(value);
        } else if address == NR13 {
            self.ch1.period.write_low(value);
        } else if address == NR14 {
            self.ch1.period.write_high(value);
            let stays_on = self.ch1.length_timer.write_enable(value, self.current_step);
            self.ch1.on = stays_on && self.ch1.on;
            if value / 128 == 1 {
                let step = self.current_step;
                self.ch1.trigger(step);
            }
        } else if address == NR21 {
            self.ch2.write_timer_and_duty(
                if self.on {
                    value
                } else {
                    value % 64
                },
            );
        } else if address == NR22 {
            self.ch2.write_envelope(value);
        } else if address == NR23 {
            self.ch2.period.write_low(value);
        } else if address == NR24 {
            self.ch2.period.write_high(value);
            let stays_on = self.ch2.length_timer.write_enable(value, self.current_step);
            self.ch2.on = stays_on && self.ch2.on;
            if value / 128 == 1 {
                let step = self.current_step;
                self.ch2.trigger(step);
            }
        }
    }

    /// The wave and noise channels' registers (NR30 to NR44 and wave
    /// memory).
    #[verifier::rlimit(100)]
    #[verifier::spinoff_prover]
    fn write_wave_noise_register(&mut self, address: u16, value: u8)
        requires
            old(self).wf(),
            NR24 < address <= 0xFF3F,
            address != NR50 && address != NR51 && address != NR52,
            old(self).on || APU::spec_writable_while_off(address),
        ensures
            final(self).wf(),
            spec_apu_write_rel(*old(self), *final(self), address, value),
    {
        if address == NR30 {
            self.ch3.write_dac_enable(value);
        } else if address == NR31 {
            self.ch3.length_timer.write_initial_length_timer(value);
        } else if address == NR32 {
            self.ch3.write_initial_output_level(value);
        } else if address == NR33 {
            self.ch3.period.write_low(value);
        } else if address == NR34 {
            self.ch3.period.write_high(value);
            let stays_on = self.ch3.length_timer.write_enable(value, self.current_step);
            self.ch3.on = stays_on && self.ch3.on;
            if value / 128 == 1 {
                let step = self.current_step;
                self.ch3.trigger(step);
            }
        } else if 0xFF30 <= address && address <= 0xFF3F {
            self.ch3.write_wave_ram(address, value);
        } else if address == NR41 {
            self.ch4.length_timer.write_initial_length_timer(value % 64);
        } else if address == NR42 {
            self.ch4.write_envelope(value);
        } else if address == NR43 {
            self.ch4.write_lfsr(value);
        } else if address == NR44 {
            let stays_on = self.ch4.length_timer.write_enable(value, self.current_step);
            self.ch4.on = stays_on && self.ch4.on;
            if value / 128 == 1 {
                let step = self.current_step;
                self.ch4.trigger(step);
            }
        }
    }

    /// Hand the host the completed sample block, if one is waiting.
    pub fn take_samples(&mut self) -> (r: Option<Vec<i16>>)
        ensures
            r == old(self).pending_samples,
            *final(self) == (APU { pending_samples: None, ..*old(self) }),
    {
        self.pending_samples.take()
    }
}


/// Law: sound-register read-back. A written envelope byte reads back whole;
/// a sweep byte reads back as its low seven bits with the top bit set; a
/// length-and-duty byte reads back as its duty bits over set length bits;
/// and a control write reads back as its length-enable bit over ones.
pub proof fn lemma_apu_register_round_trip(e: Envelope, sw: Sweep, lt: LengthTimer, v: u8, step: u8)
    ensures
        e.spec_after_write(v).spec_read() == v,
        (Sweep {
            step: (v % 8) as u8,
            direction: if v / 8 % 2 == 1 {
                SweepDirection::Substraction
            } else {
                SweepDirection::Addition
            },
            pace: (v / 16 % 8) as u8,
            ..sw
        }).spec_read() == (v & 0x7F) | 0x80,
        DutyCycle::spec_from((v / 64) as u8).spec_bits() * 64 + 63 == (v & 0xC0) | 0x3F,
        spec_length_after_enable(lt, v, step).spec_read_control() == (v & 0x40) | 0xBF,
{
    assert(v / 16 * 16 + v / 8 % 2 * 8 + v % 8 == v) by (bit_vector);
    assert(v % 8 + v / 8 % 2 * 8 + v / 16 % 8 * 16 + 128 == ((v & 0x7F) | 0x80)) by (bit_vector);
    assert(v / 64 % 4 * 64 + 63 == ((v & 0xC0) | 0x3F)) by (bit_vector);
    assert((if v / 64 % 2 == 1 { 0xFFint } else { 0xBF }) == ((v & 0x40) | 0xBF)) by (bit_vector);
}

/// A noise channel as power-on leaves it.
pub open spec fn spec_noise_new() -> NoiseChannel {
    NoiseChannel {
        on: false,
        dac_on: false,
        panning: Panning { left: false, right: false },
        length_timer: LengthTimer {
            len: 64u16,
            length_enable: false,
            init_length_timer: 0u8,
            timer: 0u16,
        },
        envelope: Envelope {
            initial_volume: 0u8,
            dir: EnvelopeDirection::Decrease,
            sweep_pace: 0u8,
            volume: 0u8,
            dir_shadow: EnvelopeDirection::Decrease,
            pace_shadow: 0u8,
            timer: 0u8,
        },
        lfsr: 0u16,
        clock_shift: 0u8,
        short_mode: false,
        clock_divider: 0u8,
        period_div: 0u32,
    }
}

} // verus!

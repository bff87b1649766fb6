use vstd::prelude::*;

use crate::interrupts::InterruptRegisters;

verus! {

/// The eight inputs: four action buttons and the four directions.
#[derive(Clone, Copy, Debug, PartialEq, Eq, Structural)]
pub enum Button {
    A,
    B,
    Select,
    Start,
    Right,
    Left,
    Up,
    Down,
}

/// Pressed state of all eight inputs; `true` means held down.
#[derive(Clone, Copy, Debug, PartialEq, Eq, Structural)]
pub struct PadState {
    pub a: bool,
    pub b: bool,
    pub select: bool,
    pub start: bool,
    pub right: bool,
    pub left: bool,
    pub up: bool,
    pub down: bool,
}

impl PadState {
    pub fn new() -> (r: Self)
        ensures
            r == (PadState {
                a: false,
                b: false,
                select: false,
                start: false,
                right: false,
                left: false,
                up: false,
                down: false,
            }),
    {
        Self {
            a: false,
            b: false,
            select: false,
            start: false,
            right: false,
            left: false,
            up: false,
            down: false,
        }
    }
}

/// A selected nibble as read from the joypad register: active low, bit 0
/// first (A or Right in bit 0, B or Left in bit 1, and so on).
pub open spec fn spec_nibble(b0: bool, b1: bool, b2: bool, b3: bool) -> u8 {
    ((if b0 { 0int } else { 1 }) + (if b1 { 0int } else { 2 }) + (if b2 { 0int } else { 4 }) + (if b3
        {
        0int
    } else {
        8
    })) as u8
}

fn nibble(b0: bool, b1: bool, b2: bool, b3: bool) -> (r: u8)
    ensures
        r == spec_nibble(b0, b1, b2, b3),
{
    (if b0 { 0u8 } else { 1 }) + (if b1 { 0u8 } else { 2 }) + (if b2 { 0u8 } else { 4 }) + (if b3 {
        0u8
    } else {
        8
    })
}

/// The joypad register: which nibble is selected (written through bits 4
/// and 5, active low), the live input state, and the state at the previous
/// interrupt check, used to detect fresh presses.
#[derive(Clone, Copy, Debug, PartialEq, Eq, Structural)]
pub struct Joypad {
    pub select_buttons: bool,
    pub select_dpad: bool,
    pub prev_state: PadState,
    pub state: PadState,
}

impl Joypad {
    /// The byte read at 0xFF00: the selected nibble, active low; 0xFF when
    /// neither nibble is selected. The button nibble wins when both are.
    pub open spec fn spec_read(self) -> u8 {
        if self.select_buttons {
            spec_nibble(self.state.a, self.state.b, self.state.select, self.state.start)
        } else if self.select_dpad {
            spec_nibble(self.state.right, self.state.left, self.state.up, self.state.down)
        } else {
            0xFF
        }
    }

    /// State after a write to 0xFF00: bits 4 and 5 select a nibble, zero
    /// meaning selected.
    pub open spec fn spec_write(self, value: u8) -> Joypad {
        Joypad {
            select_dpad: value / 16 % 2 == 0,
            select_buttons: value / 32 % 2 == 0,
            ..self
        }
    }

    /// Whether some input of the selected nibble is freshly pressed since
    /// the previous check. The interrupt fires on this rising edge.
    pub open spec fn spec_rising_edge(self) -> bool {
        if self.select_buttons {
            (!self.prev_state.a && self.state.a) || (!self.prev_state.b && self.state.b) || (
            !self.prev_state.select && self.state.select) || (!self.prev_state.start
                && self.state.start)
        } else {
            (!self.prev_state.right && self.state.right) || (!self.prev_state.left
                && self.state.left) || (!self.prev_state.up && self.state.up) || (
            !self.prev_state.down && self.state.down)
        }
    }

    pub fn new() -> (r: Self)
        ensures
            r == (Joypad {
                select_buttons: false,
                select_dpad: false,
                prev_state: PadState {
                    a: false,
                    b: false,
                    select: false,
                    start: false,
                    right: false,
                    left: false,
                    up: false,
                    down: false,
                },
                state: PadState {
                    a: false,
                    b: false,
                    select: false,
                    start: false,
                    right: false,
                    left: false,
                    up: false,
                    down: false,
                },
            }),
    {
        Self {
            select_buttons: false,
            select_dpad: false,
            prev_state: PadState::new(),
            state: PadState::new(),
        }
    }

    /// Record a host input event: `button` is now pressed or released.
    pub fn update(&mut self, button: Button, pressed: bool)
        ensures
            *final(self) == (Joypad {
                state: match button {
                    Button::A => PadState { a: pressed, ..old(self).state },
                    Button::B => PadState { b: pressed, ..old(self).state },
                    Button::Select => PadState { select: pressed, ..old(self).state },
                    Button::Start => PadState { start: pressed, ..old(self).state },
                    Button::Right => PadState { right: pressed, ..old(self).state },
                    Button::Left => PadState { left: pressed, ..old(self).state },
                    Button::Up => PadState { up: pressed, ..old(self).state },
                    Button::Down => PadState { down: pressed, ..old(self).state },
                },
                ..*old(self)
            }),
    {
        match button {
            Button::A => self.state.a = pressed,
            Button::B => self.state.b = pressed,
            Button::Select => self.state.select = pressed,
            Button::Start => self.state.start = pressed,
            Button::Right => self.state.right = pressed,
            Button::Left => self.state.left = pressed,
            Button::Up => self.state.up = pressed,
            Button::Down => self.state.down = pressed,
        }
    }

    /// Request the joypad interrupt on the rising edge of any selected
    /// input, then remember the current state. With no nibble selected,
    /// nothing changes.
    pub fn check(&mut self, int_reg: &mut InterruptRegisters)
        ensures
            !old(self).select_buttons && !old(self).select_dpad ==> *final(self) == *old(self)
                && *final(int_reg) == *old(int_reg),
            old(self).select_buttons || old(self).select_dpad ==> *final(self) == (Joypad {
                prev_state: old(self).state,
                ..*old(self)
            }) && *final(int_reg) == (if old(self).spec_rising_edge() {
                InterruptRegisters { flag_joypad: true, ..*old(int_reg) }
            } else {
                *old(int_reg)
            }),
    {
        if !self.select_buttons && !self.select_dpad {
            return ;
        }
        let edge = if self.select_buttons {
            (!self.prev_state.a && self.state.a) || (!self.prev_state.b && self.state.b) || (
            !self.prev_state.select && self.state.select) || (!self.prev_state.start
                && self.state.start)
        } else {
            (!self.prev_state.right && self.state.right) || (!self.prev_state.left
                && self.state.left) || (!self.prev_state.up && self.state.up) || (
            !self.prev_state.down && self.state.down)
        };
        if edge {
            int_reg.request_joypad();
        }
        self.prev_state = self.state;
    }

    pub fn read_byte(&self, address: u16) -> (r: u8)
        requires
            address == 0xFF00,
        ensures
            r == self.spec_read(),
    {
        if self.select_buttons {
            nibble(self.state.a, self.state.b, self.state.select, self.state.start)
        } else if self.select_dpad {
            nibble(self.state.right, self.state.left, self.state.up, self.state.down)
        } else {
            0xFF
        }
    }

    pub fn write_byte(&mut self, address: u16, value: u8)
        requires
            address == 0xFF00,
        ensures
            *final(self) == old(self).spec_write(value),
    {
        self.select_dpad = value / 16 % 2 == 0;
        self.select_buttons = value / 32 % 2 == 0;
    }
}

} // verus!

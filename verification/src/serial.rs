use vstd::prelude::*;

verus! {

/// Serial link port placeholder: the link cable is not emulated, so its two
/// registers read as 0xFF and ignore writes.
#[derive(Clone, Copy, Debug, PartialEq, Eq, Structural)]
pub struct Serial {}

impl Serial {
    pub fn new() -> (r: Self)
        ensures
            r == (Serial {  }),
    {
        Self {  }
    }

    pub fn read_byte(&self, address: u16) -> (r: u8)
        requires
            0xFF01 <= address <= 0xFF02,
        ensures
            r == 0xFF,
    {
        0xFF
    }

    pub fn write_byte(&mut self, address: u16, value: u8)
        requires
            0xFF01 <= address <= 0xFF02,
        ensures
            *final(self) == *old(self),
    {
    }
}

} // verus!

use vstd::prelude::*;

verus! {

pub const BASE_ADDRESS: u16 = 0xFE00;

pub const OAM_SIZE: usize = 0xA0;

/// Object attribute memory: 160 bytes holding forty 4-byte sprite records,
/// mapped at 0xFE00..=0xFE9F.
#[derive(Clone, Debug)]
pub struct OAM {
    pub mem: Vec<u8>,
}

impl OAM {
    pub open spec fn wf(self) -> bool {
        self.mem.len() == OAM_SIZE
    }

    /// The 160 bytes as a sequence, index 0 at address 0xFE00.
    pub open spec fn view(self) -> Seq<u8> {
        self.mem@
    }

    pub fn new() -> (r: Self)
        ensures
            r.wf(),
            r@ == Seq::new(OAM_SIZE as nat, |i: int| 0u8),
    {
        Self { mem: crate::bytes::zero_vec(OAM_SIZE) }
    }

    pub fn read_byte(&self, address: u16) -> (r: u8)
        requires
            self.wf(),
            0xFE00 <= address <= 0xFE9F,
        ensures
            r == self@[address - 0xFE00],
    {
        self.mem[(address - BASE_ADDRESS) as usize]
    }

    pub fn write_byte(&mut self, address: u16, value: u8)
        requires
            old(self).wf(),
            0xFE00 <= address <= 0xFE9F,
        ensures
            final(self).wf(),
            final(self)@ == old(self)@.update(address - 0xFE00, value),
    {
        let idx = (address - BASE_ADDRESS) as usize;
        self.mem.set(idx, value);
    }
}

} // verus!

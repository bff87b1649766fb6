use vstd::prelude::*;

verus! {

/// Hardware revision being emulated: the original monochrome model (DMG)
/// or the color model (CGB).
#[derive(Clone, Copy, Debug, PartialEq, Eq, Structural)]
pub enum Mode {
    DMG,
    CGB,
}

} // verus!

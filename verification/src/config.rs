use vstd::prelude::*;

use crate::mode::Mode;

verus! {

/// Run-time configuration: the hardware revision, the cartridge image, an
/// optional boot ROM image, whether to run without a display, and an
/// optional log-file path for the host.
pub struct Config {
    pub mode: Mode,
    pub rom: Vec<u8>,
    pub headless_mode: bool,
    pub bootrom: Option<Vec<u8>>,
    pub log_file_path: Option<String>,
}

impl Config {
    /// The smallest images the machine can boot: a 32 KiB cartridge image,
    /// and a boot ROM covering the overlaid ranges of the chosen model
    /// (256 bytes on the monochrome model, 0x900 on the color model).
    pub open spec fn wf(self) -> bool {
        &&& self.rom.len() >= 0x8000
        &&& match self.bootrom {
            Some(b) => if self.mode is DMG {
                b.len() >= 0x100
            } else {
                b.len() >= 0x900
            },
            None => true,
        }
    }
}

} // verus!

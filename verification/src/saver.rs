use vstd::prelude::*;

verus! {

/// A failure of the host's save storage. Emulation continues after one.
#[derive(Clone, Copy, Debug, PartialEq, Eq, Structural)]
pub struct SaveError {}

/// Battery-backed save storage, implemented by the host. The cartridge
/// hands it a title, loads the saved RAM image at power-on, and stores the
/// RAM image whenever the program disables cartridge RAM.
pub trait GameSave {
    fn set_title(&mut self, title: Vec<u8>);

    fn load(&self) -> Result<Vec<u8>, SaveError>;

    fn save(&self, ram: &Vec<u8>) -> Result<(), SaveError>;
}

/// A save store that remembers nothing: loads report an empty image and
/// stores succeed without effect.
pub struct Fake;

impl GameSave for Fake {
    fn set_title(&mut self, title: Vec<u8>) {
    }

    fn load(&self) -> Result<Vec<u8>, SaveError> {
        Ok(Vec::new())
    }

    fn save(&self, ram: &Vec<u8>) -> Result<(), SaveError> {
        Ok(())
    }
}

/// The saved RAM image when it has the expected size, else a zeroed image:
/// a stale save of the wrong size is discarded.
pub fn load_saved_ram<S: GameSave>(saver: &S, ram_size: usize) -> (r: Vec<u8>)
    ensures
        r.len() == ram_size,
{
    match saver.load() {
        Ok(saved) => {
            if saved.len() == ram_size {
                saved
            } else {
                crate::bytes::zero_vec(ram_size)
            }
        },
        Err(_) => crate::bytes::zero_vec(ram_size),
    }
}

} // verus!

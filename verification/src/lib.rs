//! Core of a cycle-stepped emulator for a classic 8-bit handheld console,
//! covering both the original monochrome model (DMG) and the later color
//! model (CGB): processor, memory bus, memory bank controllers, picture
//! processing unit, audio processing unit, timer, joypad and interrupt
//! arbiter. The host is expected to feed button events in and drain video
//! frames and audio samples out.

pub mod apu;
pub mod bus;
pub mod bytes;
pub mod cartridge;
pub mod config;
pub mod cpu;
pub mod gameboy;
pub mod interrupts;
pub mod joypad;
pub mod mbc;
pub mod saver;
pub mod timer;
pub mod mode;
pub mod lcd;
pub mod oam;
pub mod ppu;
pub mod ram;
pub mod registers;
pub mod serial;
pub mod vram;

use vstd::prelude::*;

use crate::apu::APU;
use crate::bus::SystemBus;
use crate::cartridge::Cartridge;
use crate::cartridge::CartridgeError;
use crate::config::Config;
use crate::cpu::Bus;
use crate::cpu::CPU;
use crate::interrupts::InterruptRegisters;
use crate::joypad::Button;
use crate::joypad::Joypad;
use crate::lcd::RGB;
use crate::oam::OAM;
use crate::ppu::PPU;
use crate::ram::RAM;
use crate::saver::GameSave;
use crate::serial::Serial;
use crate::timer::Timer;
use crate::vram::VRAM;

verus! {

/// The whole machine: the processor wired to the system bus. The host
/// drives it by stepping, feeding button events in, and draining frames
/// and audio blocks out.
pub struct GameBoy<S: GameSave> {
    pub cpu: CPU<SystemBus<S>>,
}

impl<S: GameSave> GameBoy<S> {
    pub open spec fn wf(self) -> bool {
        self.cpu.bus.wf()
    }

    /// Assemble the machine around a cartridge image. Fails exactly when
    /// the image asks for an unsupported bank controller.
    pub fn new(cfg: &Config, saver: S) -> (r: Result<Self, CartridgeError>)
        requires
            cfg.wf(),
        ensures
            r is Ok <==> crate::mbc::spec_supported_mbc_code(cfg.rom@[0x147]),
            r matches Ok(gb) ==> gb.wf(),
    {
        let cartridge = match Cartridge::new(cfg, saver) {
            Ok(c) => c,
            Err(e) => {
                return Err(e);
            },
        };
        let bus = SystemBus::new(
            cartridge,
            APU::new(),
            PPU::new(cfg, VRAM::new(cfg.mode), OAM::new()),
            InterruptRegisters::new(),
            Joypad::new(),
            Timer::new(),
            Serial::new(),
            RAM::new(cfg.mode),
        );
        Ok(Self { cpu: CPU::new(cfg, bus) })
    }

    /// Run one instruction (or halted idle cycle) and all the peripheral
    /// work it clocks. The count returned is a positive multiple of four,
    /// and the peripherals receive exactly that many cycles, never
    /// double-counted; a halted processor with interrupts disabled and
    /// nothing pending idles four cycles without touching its own state.
    pub fn step(&mut self) -> (r: u8)
        requires
            old(self).wf(),
        ensures
            final(self).wf(),
            r % 4 == 0,
            4 <= r <= 44,
            final(self).cpu.bus.cycles_delivered@ == old(self).cpu.bus.cycles_delivered@ + r,
            old(self).cpu.is_halted ==> final(self).cpu.registers == old(self).cpu.registers && (r
                == 4 || r == 8 || r == 24),
            old(self).cpu.is_halted && !(old(self).cpu.ime || old(self).cpu.ime_delayed) && old(
                self,
            ).cpu.bus.int_reg.spec_service_vector() is None ==> r == 4 && final(self).cpu.pc == old(
                self,
            ).cpu.pc && final(self).cpu.sp == old(self).cpu.sp && final(self).cpu.is_halted,
    {
        self.cpu.step()
    }

    /// Record a host button event.
    pub fn update_button(&mut self, button: Button, pressed: bool)
        requires
            old(self).wf(),
        ensures
            final(self).wf(),
    {
        self.cpu.bus.update_button(button, pressed);
    }

    /// The current frame buffer, row-major, 144 rows of 160 pixels.
    pub fn frame(&self) -> (r: &Vec<RGB>)
        ensures
            r == self.cpu.bus.ppu.frame_buffer,
    {
        self.cpu.bus.ppu.frame()
    }

    /// Whether a frame completed since the last call, clearing the signal.
    pub fn take_frame_ready(&mut self) -> (r: bool)
        requires
            old(self).wf(),
        ensures
            final(self).wf(),
            r == old(self).cpu.bus.ppu.frame_ready,
    {
        self.cpu.bus.ppu.take_frame_ready()
    }

    /// A completed block of audio-sample numerators, if one is waiting; the
    /// host divides each by the fixed sample denominator.
    pub fn take_samples(&mut self) -> (r: Option<Vec<i16>>)
        requires
            old(self).wf(),
        ensures
            final(self).wf(),
            r == old(self).cpu.bus.apu.pending_samples,
    {
        self.cpu.bus.apu.take_samples()
    }

    /// Whether the cartridge header's checksum matched; a mismatch is worth
    /// a warning but never stops the machine.
    pub fn checksum_valid(&self) -> (r: bool)
        ensures
            r == self.cpu.bus.cartridge.checksum_valid,
    {
        self.cpu.bus.cartridge.checksum_valid
    }
}

} // verus!

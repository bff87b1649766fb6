use vstd::prelude::*;

use crate::apu::spec_apu_write_rel;
use crate::apu::APU;
use crate::cartridge::spec_cartridge_write_rel;
use crate::mbc::spec_cart_addr;
use crate::ppu::spec_ppu_write_rel;
use crate::ram::spec_ram_write_rel;
use crate::vram::spec_bank_index;
use crate::cartridge::Cartridge;
use crate::cpu::Bus;
use crate::interrupts::InterruptRegisters;
use crate::joypad::Button;
use crate::joypad::Joypad;
use crate::ppu::DMARequest;
use crate::ppu::PPU;
use crate::ram::RAM;
use crate::serial::Serial;
use crate::timer::Timer;

verus! {

/// The system bus: the address decoder over every component, the peripheral
/// clock discipline, and the double-speed switch of the color model. After
/// every memory transaction the processor reports the spent cycles here and
/// each peripheral runs forward by them.
pub struct SystemBus<S: crate::saver::GameSave> {
    pub cartridge: Cartridge<S>,
    pub apu: APU,
    pub ppu: PPU,
    pub int_reg: InterruptRegisters,
    pub joypad: Joypad,
    pub timer: Timer,
    pub serial: Serial,
    pub ram: RAM,
    pub double_speed_mode: bool,
    pub switch_armed: bool,
    /// Ghost total of the cycles delivered to the peripherals, backing the
    /// bus trait's accounting obligation.
    pub cycles_delivered: Ghost<int>,
}

impl<S: crate::saver::GameSave> SystemBus<S> {
    pub open spec fn wf(self) -> bool {
        &&& self.cartridge.wf()
        &&& self.apu.wf()
        &&& self.ppu.wf()
        &&& self.ram.wf()
    }

    /// The speed-switch register byte: the active-speed bit and the armed
    /// bit.
    pub open spec fn spec_speed_byte(self) -> u8 {
        ((if self.double_speed_mode {
            128int
        } else {
            0
        }) + (if self.switch_armed {
            1int
        } else {
            0
        })) as u8
    }

    pub fn new(
        cartridge: Cartridge<S>,
        apu: APU,
        ppu: PPU,
        int_reg: InterruptRegisters,
        joypad: Joypad,
        timer: Timer,
        serial: Serial,
        ram: RAM,
    ) -> (r: Self)
        requires
            cartridge.wf(),
            apu.wf(),
            ppu.wf(),
            ram.wf(),
        ensures
            r.wf(),
            r.cartridge == cartridge,
            r.apu == apu,
            r.ppu == ppu,
            r.int_reg == int_reg,
            r.joypad == joypad,
            r.timer == timer,
            r.serial == serial,
            r.ram == ram,
            !r.double_speed_mode,
            !r.switch_armed,
            r.cycles_delivered@ == 0,
    {
        Self {
            cartridge,
            apu,
            ppu,
            int_reg,
            joypad,
            timer,
            serial,
            ram,
            double_speed_mode: false,
            switch_armed: false,
            cycles_delivered: Ghost(0),
        }
    }


    /// The byte a read returns wherever the decode lands in plainly-modeled
    /// territory: cartridge, video and sprite memory, work and high RAM,
    /// the timer, interrupt, joypad, serial and speed registers, and the
    /// open bus of unmapped addresses. Sound and display registers are
    /// specified at their own components and map to None here.
    pub open spec fn spec_read_plain(self, address: u16) -> Option<u8> {
        if spec_cart_addr(address) || address == 0xFF50 {
            Some(self.cartridge.spec_read(address))
        } else if 0x8000 <= address <= 0x9FFF {
            Some(self.ppu.vram@[spec_bank_index(address, self.ppu.vram.spec_active_bank())])
        } else if 0xFE00 <= address <= 0xFE9F {
            Some(self.ppu.oam@[address - 0xFE00])
        } else if 0xC000 <= address <= 0xCFFF {
            Some(self.ram.spec_bank0()[address - 0xC000])
        } else if 0xD000 <= address <= 0xDFFF {
            Some(self.ram.spec_banks()[self.ram.spec_switch_index(address)])
        } else if 0xE000 <= address <= 0xEFFF {
            Some(self.ram.spec_bank0()[address - 0xE000])
        } else if 0xF000 <= address <= 0xFDFF {
            Some(self.ram.spec_banks()[self.ram.spec_switch_index(RAM::spec_echo_target(address))])
        } else if 0xFF80 <= address <= 0xFFFE {
            Some(self.ram.spec_high()[address - 0xFF80])
        } else if 0xFF04 <= address <= 0xFF07 {
            Some(self.timer.spec_read(address))
        } else if address == 0xFF0F {
            Some(self.int_reg.spec_flags())
        } else if address == 0xFFFF {
            Some(self.int_reg.spec_enables())
        } else if address == 0xFF00 {
            Some(self.joypad.spec_read())
        } else if address == 0xFF4D {
            Some(self.spec_speed_byte())
        } else if 0xFF01 <= address <= 0xFF02 {
            Some(0xFFu8)
        } else if !(0xFF10 <= address <= 0xFF3F) && !PPU::spec_ppu_addr(address) && address
            != 0xFF70 {
            Some(0xFFu8)
        } else {
            None
        }
    }

    /// Decode an address and read from its owner. Unmapped addresses read
    /// 0xFF.
    #[verifier::rlimit(100)]
    #[verifier::spinoff_prover]
    pub fn dispatch_read(&self, address: u16) -> (r: u8)
        requires
            self.wf(),
        ensures
            self.spec_read_plain(address) matches Some(v) ==> r == v,
            address == 0xFF70 && self.ram.mode is CGB ==> r == self.ram.wram_bank,
            address == 0xFF70 && self.ram.mode is DMG ==> r == 0xFF,
            address == 0xFF40 ==> r == self.ppu.lcdc.spec_read(),
            address == 0xFF41 ==> r == self.ppu.stat.spec_read(
                self.ppu.mode,
                self.ppu.lyc == self.ppu.ly,
            ),
            address == 0xFF42 ==> r == self.ppu.scy,
            address == 0xFF43 ==> r == self.ppu.scx,
            address == 0xFF44 ==> r == self.ppu.ly,
            address == 0xFF45 ==> r == self.ppu.lyc,
            address == 0xFF47 ==> r == self.ppu.monochrome_bg_palette.spec_read(),
            address == 0xFF4A ==> r == self.ppu.wy,
            address == 0xFF4B ==> r == self.ppu.wx,
            address == 0xFF24 ==> r == self.apu.spec_read_volume(),
            address == 0xFF25 ==> r == self.apu.spec_read_panning(),
            address == 0xFF26 ==> r == self.apu.spec_read_master_control(),
    {
        if address <= 0x7FFF || (0xA000 <= address && address <= 0xBFFF) || address == 0xFF50 {
            self.cartridge.read_byte(address)
        } else if 0xFF10 <= address && address <= 0xFF3F {
            self.apu.read_byte(address)
        } else if address <= 0x9FFF || (0xFE00 <= address && address <= 0xFE9F) || (0xFF40
            <= address && address <= 0xFF4B) || address == 0xFF4F || (0xFF51 <= address && address
            <= 0xFF55) || (0xFF68 <= address && address <= 0xFF6B) {
            self.ppu.read_byte(address)
        } else if address == 0xFF0F || address == 0xFFFF {
            self.int_reg.read_byte(address)
        } else if address == 0xFF00 {
            self.joypad.read_byte(address)
        } else if 0xFF04 <= address && address <= 0xFF07 {
            self.timer.read_byte(address)
        } else if 0xFF01 <= address && address <= 0xFF02 {
            self.serial.read_byte(address)
        } else if address == 0xFF4D {
            (if self.double_speed_mode {
                128u8
            } else {
                0
            }) + (if self.switch_armed {
                1u8
            } else {
                0
            })
        } else if (0xC000 <= address && address <= 0xFDFF) || (0xFF80 <= address && address
            <= 0xFFFE) || address == 0xFF70 {
            self.ram.read_byte(address)
        } else {
            0xFF
        }
    }

    /// Decode an address and write to its owner, each routed range moving
    /// exactly as the owning component's write relation specifies and
    /// leaving every other component alone. Unmapped addresses drop the
    /// write.
    #[verifier::rlimit(100)]
    #[verifier::spinoff_prover]
    pub fn dispatch_write(&mut self, address: u16, value: u8)
        requires
            old(self).wf(),
        ensures
            final(self).wf(),
            final(self).cycles_delivered == old(self).cycles_delivered,
            spec_cart_addr(address) || address == 0xFF50 ==> *final(self) == (SystemBus {
                cartridge: final(self).cartridge,
                ..*old(self)
            }) && spec_cartridge_write_rel(
                old(self).cartridge,
                final(self).cartridge,
                address,
                value,
            ),
            0xFF10 <= address <= 0xFF3F ==> *final(self) == (SystemBus {
                apu: final(self).apu,
                ..*old(self)
            }) && spec_apu_write_rel(old(self).apu, final(self).apu, address, value),
            PPU::spec_ppu_addr(address) && !(address <= 0x7FFF) ==> *final(self) == (SystemBus {
                ppu: final(self).ppu,
                ..*old(self)
            }) && spec_ppu_write_rel(old(self).ppu, final(self).ppu, address, value),
            (0xC000 <= address <= 0xFDFF) || (0xFF80 <= address <= 0xFFFE) || address == 0xFF70
                ==> *final(self) == (SystemBus { ram: final(self).ram, ..*old(self) })
                && spec_ram_write_rel(old(self).ram, final(self).ram, address, value),
            0xFF04 <= address <= 0xFF07 ==> *final(self) == (SystemBus {
                timer: old(self).timer.spec_write(address, value),
                ..*old(self)
            }),
            address == 0xFF0F || address == 0xFFFF ==> *final(self) == (SystemBus {
                int_reg: old(self).int_reg.spec_write(address, value),
                ..*old(self)
            }),
            address == 0xFF00 ==> *final(self) == (SystemBus {
                joypad: old(self).joypad.spec_write(value),
                ..*old(self)
            }),
            address == 0xFF4D ==> *final(self) == (SystemBus {
                switch_armed: value % 2 == 1,
                ..*old(self)
            }),
            0xFF01 <= address <= 0xFF02 ==> *final(self) == *old(self),
            !(spec_cart_addr(address) || address == 0xFF50 || (0xFF10 <= address <= 0xFF3F)
                || PPU::spec_ppu_addr(address) || (0xC000 <= address <= 0xFDFF) || (0xFF80
                <= address <= 0xFFFE) || address == 0xFF70 || (0xFF00 <= address <= 0xFF0F)
                || address == 0xFF4D || address == 0xFFFF) ==> *final(self) == *old(self),
    {
        if address <= 0x7FFF || (0xA000 <= address && address <= 0xBFFF) || address == 0xFF50 {
            self.cartridge.write_byte(address, value);
        } else if 0xFF10 <= address && address <= 0xFF3F {
            self.apu.write_byte(address, value);
        } else if address <= 0x9FFF || (0xFE00 <= address && address <= 0xFE9F) || (0xFF40
            <= address && address <= 0xFF4B) || address == 0xFF4F || (0xFF51 <= address && address
            <= 0xFF55) || (0xFF68 <= address && address <= 0xFF6B) {
            self.ppu.write_byte(address, value);
        } else if address == 0xFF0F || address == 0xFFFF {
            self.int_reg.write_byte(address, value);
        } else if address == 0xFF00 {
            self.joypad.write_byte(address, value);
        } else if 0xFF04 <= address && address <= 0xFF07 {
            self.timer.write_byte(address, value);
        } else if 0xFF01 <= address && address <= 0xFF02 {
            self.serial.write_byte(address, value);
        } else if address == 0xFF4D {
            self.switch_armed = value % 2 == 1;
        } else if (0xC000 <= address && address <= 0xFDFF) || (0xFF80 <= address && address
            <= 0xFFFE) || address == 0xFF70 {
            self.ram.write_byte(address, value);
        }
    }

    /// Copy 160 bytes from `page * 0x100` into sprite memory (the OAM
    /// transfer of register 0xFF46).
    fn dma_transfer(&mut self, page: u8)
        requires
            old(self).wf(),
        ensures
            final(self).wf(),
            final(self).cycles_delivered == old(self).cycles_delivered,
            *final(self) == (SystemBus { ppu: final(self).ppu, ..*old(self) }),
            final(self).ppu == (PPU { oam: final(self).ppu.oam, ..old(self).ppu }),
            page < 0xFE || page > 0xFE ==> forall|i: int|
                0 <= i < 0xA0 && old(self).spec_read_plain((page * 0x100 + i) as u16) is Some
                    ==> final(self).ppu.oam@[i] == old(self).spec_read_plain(
                    (page * 0x100 + i) as u16,
                )->0,
    {
        let src: u16 = page as u16 * 0x100;
        let mut i: u16 = 0;
        while i < 0xA0
            invariant
                self.wf(),
                i <= 0xA0,
                src == page * 0x100,
                self.cycles_delivered == old(self).cycles_delivered,
                *self == (SystemBus { ppu: self.ppu, ..*old(self) }),
                self.ppu == (PPU { oam: self.ppu.oam, ..old(self).ppu }),
                page != 0xFE ==> forall|j: int|
                    0 <= j < i && old(self).spec_read_plain((page * 0x100 + j) as u16) is Some
                        ==> self.ppu.oam@[j] == old(self).spec_read_plain(
                        (page * 0x100 + j) as u16,
                    )->0,
            decreases 0xA0 - i,
        {
            let val = self.dispatch_read(src.wrapping_add(i));
            self.ppu.write_oam(0xFE00 + i, val);
            i += 1;
        }
    }

    /// Copy `len` bytes from `src` into video memory at `dst` (a general
    /// or per-HBlank VRAM transfer of the color model). The target is
    /// reduced to the video-memory window.
    fn vram_dma_transfer(&mut self, src: u16, dst: u16, len: u16)
        requires
            old(self).wf(),
        ensures
            final(self).wf(),
            final(self).cycles_delivered == old(self).cycles_delivered,
            *final(self) == (SystemBus { ppu: final(self).ppu, ..*old(self) }),
            final(self).ppu == (PPU { vram: final(self).ppu.vram, ..old(self).ppu }),
    {
        let mut i: u16 = 0;
        while i < len
            invariant
                self.wf(),
                self.cycles_delivered == old(self).cycles_delivered,
                *self == (SystemBus { ppu: self.ppu, ..*old(self) }),
                self.ppu == (PPU { vram: self.ppu.vram, ..old(self).ppu }),
            decreases len - i,
        {
            let from = src.wrapping_add(i);
            let val = self.dispatch_read(from);
            let to = 0x8000 + (dst.wrapping_add(i) % 0x2000);
            self.ppu.write_vram(to, val);
            i += 1;
        }
    }

    /// Run every peripheral forward: the picture unit and audio unit at
    /// base speed (half the processor's count in double speed), the timer
    /// at the processor's full speed with its interrupt coupling, any
    /// transfer the picture unit requested, the timer's frame-sequencer
    /// event into the audio unit, and finally the joypad edge check.
    #[verifier::rlimit(100)]
    #[verifier::spinoff_prover]
    pub fn run_peripherals(&mut self, cycles: u8)
        requires
            old(self).wf(),
        ensures
            final(self).wf(),
            final(self).cycles_delivered@ == old(self).cycles_delivered@ + cycles,
            final(self).timer == old(self).timer.spec_after_step(
                cycles,
                old(self).double_speed_mode,
            ),
            old(self).timer.spec_step_requests() ==> final(self).int_reg.flag_timer,
            final(self).ppu.dma_request is None,
            final(self).double_speed_mode == old(self).double_speed_mode,
            final(self).switch_armed == old(self).switch_armed,
            final(self).serial == old(self).serial,
            final(self).apu.on == old(self).apu.on,
            old(self).apu.on ==> final(self).apu.current_step == (if old(self).timer.spec_after_step(
                cycles,
                old(self).double_speed_mode,
            ).system_counter.div_apu_event {
                (old(self).apu.current_step + 1) % 8
            } else {
                old(self).apu.current_step as int
            }),
    {
        proof {
            self.cycles_delivered@ = self.cycles_delivered@ + cycles;
        }
        let normal_speed_cycles = if self.double_speed_mode {
            cycles / 2
        } else {
            cycles
        };

        let mut int_reg = InterruptRegisters::new();
        core::mem::swap(&mut int_reg, &mut self.int_reg);
        self.ppu.step(&mut int_reg, normal_speed_cycles);
        core::mem::swap(&mut int_reg, &mut self.int_reg);

        match self.ppu.check_dma_request() {
            Some(DMARequest::OAM(page)) => self.dma_transfer(page),
            Some(DMARequest::VRAM { src, dst, len, .. }) => self.vram_dma_transfer(src, dst, len),
            None => {},
        }

        let mut int_reg = InterruptRegisters::new();
        core::mem::swap(&mut int_reg, &mut self.int_reg);
        let dsm = self.double_speed_mode;
        self.timer.step(&mut int_reg, cycles, dsm);
        core::mem::swap(&mut int_reg, &mut self.int_reg);

        let div_apu_event = self.timer.check_apu_div();
        self.apu.step(normal_speed_cycles, div_apu_event);

        let mut int_reg = InterruptRegisters::new();
        core::mem::swap(&mut int_reg, &mut self.int_reg);
        self.joypad.check(&mut int_reg);
        core::mem::swap(&mut int_reg, &mut self.int_reg);
    }

    /// Record a host button event.
    pub fn update_button(&mut self, button: Button, pressed: bool)
        requires
            old(self).wf(),
        ensures
            final(self).wf(),
    {
        self.joypad.update(button, pressed);
    }
}

impl<S: crate::saver::GameSave> Bus for SystemBus<S> {
    open spec fn inv(&self) -> bool {
        self.wf()
    }

    open spec fn spec_cycles(&self) -> int {
        self.cycles_delivered@
    }

    open spec fn spec_pending_vector(&self) -> Option<u16> {
        self.int_reg.spec_service_vector()
    }

    fn read_byte(&self, address: u16) -> u8 {
        self.dispatch_read(address)
    }

    fn write_byte(&mut self, address: u16, value: u8) {
        self.dispatch_write(address, value);
    }

    fn check_interrupts(&mut self, reset_flag: bool) -> (r: Option<u16>) {
        self.int_reg.check(reset_flag)
    }

    /// A STOP instruction with the switch armed flips the speed and
    /// disarms; otherwise nothing happens.
    fn switch_speed(&mut self) {
        if self.switch_armed {
            self.double_speed_mode = !self.double_speed_mode;
            self.switch_armed = false;
        }
    }

    fn step_peripherals(&mut self, cycles: u8) {
        self.run_peripherals(cycles);
    }
}

} // verus!

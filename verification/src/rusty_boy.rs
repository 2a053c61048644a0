//! The assembled emulator and its frame pump.

use vstd::prelude::*;

use crate::cpu::Cpu;
use crate::joypad::Joypad;
use crate::mmu::Mmu;
use crate::ppu::Ppu;
use crate::rom::Rom;
use crate::timer::Timer;
use crate::utils::{Byte, MAX_CYCLES_PER_FRAME};

verus! {

pub struct RustyBoy {
    pub cpu: Cpu,
    pub pause: bool,
    /// Set when the pump meets a byte the LR35902 does not decode: a
    /// programmer error in the guest image, surfaced to the host.
    pub decode_error: bool,
}

impl RustyBoy {
    pub open spec fn wf(self) -> bool {
        self.cpu.wf()
    }

    /// Builds the whole machine around a ROM image and resets every
    /// component to its documented boot state: PC=0x0100, SP=0xFFFE,
    /// AF=0x01B0, BC=0x0013, DE=0x00D8, HL=0x014D, interrupts enabled.
    pub fn new(rom_data: Vec<u8>) -> (r: RustyBoy)
        requires
            rom_data@.len() >= 0x150,
        ensures
            r.wf(),
            r.cpu.program_counter == 0x100,
            r.cpu.stack_pointer == 0xFFFE,
            r.cpu.af == 0x01B0,
            r.cpu.bc == 0x0013,
            r.cpu.de == 0x00D8,
            r.cpu.hl == 0x014D,
            r.cpu.interrupts_enabled,
            !r.cpu.halted,
            !r.pause,
            !r.decode_error,
    {
        let rom = Rom::new(rom_data);
        let joypad = Joypad::new();

        let mut mmu = Mmu::new(rom, joypad);
        mmu.reset();

        let timer = Timer::new();
        let ppu = Ppu::new();

        let mut cpu = Cpu::new(mmu, timer, ppu);
        cpu.reset();

        RustyBoy { cpu, pause: false, decode_error: false }
    }

    /// Runs whole instructions, servicing interrupts after each, until
    /// a frame's worth of T-cycles has elapsed, then returns the cycle
    /// total so the host can poll input and present the frame. Paused,
    /// it does nothing. An undecodable opcode stops the pump and raises
    /// the decode-error flag instead of running wild.
    pub fn run(&mut self) -> (frame_cycles: usize)
        requires
            old(self).wf(),
        ensures
            final(self).wf(),
            final(self).pause == old(self).pause,
            old(self).pause ==> *final(self) == *old(self) && frame_cycles == 0,
            old(self).decode_error ==> final(self).decode_error,
            !old(self).pause && !final(self).decode_error ==> frame_cycles
                >= MAX_CYCLES_PER_FRAME,
    {
        let mut frame_cycles: usize = 0;

        if !self.pause {
            while frame_cycles < MAX_CYCLES_PER_FRAME
                invariant
                    self.wf(),
                    !old(self).pause,
                    self.pause == old(self).pause,
                    self.decode_error == old(self).decode_error,
                    frame_cycles <= MAX_CYCLES_PER_FRAME + 24,
                decreases MAX_CYCLES_PER_FRAME + 24 - frame_cycles,
            {
                if !self.cpu.halted {
                    let op = self.cpu.read_memory(self.cpu.program_counter);
                    if !Cpu::is_valid_op(op) {
                        self.decode_error = true;
                        return frame_cycles;
                    }
                }
                let cycles = self.cpu.execute();
                frame_cycles = frame_cycles + cycles as usize;

                self.cpu.handle_interrupts();
            }
        }
        frame_cycles
    }

    /// The 160x144 RGB24 frame buffer.
    pub fn get_screen(&self) -> (r: &Vec<u8>)
        ensures
            r@ == self.cpu.ppu.screen@,
    {
        self.cpu.get_screen()
    }

    /// A decoded view of the tile-data region for a VRAM debug window.
    pub fn get_vram_tiles(&mut self) -> (r: Vec<u8>)
        requires
            old(self).wf(),
        ensures
            *final(self) == *old(self),
            r@.len() == 128 * 192 * 3,
    {
        self.cpu.get_vram_tiles()
    }

    pub fn set_button_state(&mut self, button: usize)
        requires
            old(self).wf(),
            button < 8,
        ensures
            final(self).wf(),
            final(self).cpu.mmu.joypad.state@ == old(self).cpu.mmu.joypad.state@.update(
                button as int,
                0u8,
            ),
            crate::mmu::same_except_joypad(old(self).cpu.mmu, final(self).cpu.mmu),
            Cpu::same_but_mmu(old(self).cpu, final(self).cpu),
            final(self).pause == old(self).pause,
            final(self).decode_error == old(self).decode_error,
    {
        self.cpu.set_button_state(button);
    }

    pub fn reset_button_state(&mut self, button: usize)
        requires
            old(self).wf(),
            button < 8,
        ensures
            final(self).wf(),
            final(self).cpu.mmu.joypad.state@ == old(self).cpu.mmu.joypad.state@.update(
                button as int,
                1u8,
            ),
            crate::mmu::same_except_joypad(old(self).cpu.mmu, final(self).cpu.mmu),
            Cpu::same_but_mmu(old(self).cpu, final(self).cpu),
            final(self).pause == old(self).pause,
            final(self).decode_error == old(self).decode_error,
    {
        self.cpu.reset_button_state(button);
    }

    /// Pausing skips the pump; the host flips this from its input
    /// handling.
    pub fn toggle_pause(&mut self)
        ensures
            (*final(self)) == (RustyBoy { pause: !old(self).pause, ..*old(self) }),
    {
        self.pause = !self.pause;
    }

    /// A snapshot of the cartridge RAM, the save-file payload.
    pub fn get_external_ram(&self) -> (r: Vec<u8>)
        requires
            self.wf(),
        ensures
            r@ == (match self.cpu.mmu.mbc {
                Some(m) => m.spec_external_ram(),
                None => self.cpu.mmu.memory@.subrange(0xA000, 0xC000),
            }),
    {
        self.cpu.get_external_ram()
    }

    /// Copies a save-file payload back in, truncating to the target
    /// size.
    pub fn load_external_ram(&mut self, buffer: Vec<Byte>)
        requires
            old(self).wf(),
        ensures
            final(self).wf(),
            crate::mmu::load_ram_rel(old(self).cpu.mmu, final(self).cpu.mmu, buffer@),
            Cpu::same_but_mmu(old(self).cpu, final(self).cpu),
            final(self).pause == old(self).pause,
            final(self).decode_error == old(self).decode_error,
    {
        self.cpu.load_external_ram(buffer);
    }
}

} // verus!

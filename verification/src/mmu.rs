//! Memory management unit: the 16-bit address bus hub.
//!
//! The address space breaks down as: 0x0000-0x3FFF fixed ROM bank 0,
//! 0x4000-0x7FFF switchable ROM bank, 0x8000-0x9FFF VRAM, 0xA000-0xBFFF
//! external cartridge RAM, 0xC000-0xDFFF WRAM, 0xE000-0xFDFF echo of
//! 0xC000-0xDDFF, 0xFE00-0xFE9F OAM, 0xFEA0-0xFEFF prohibited,
//! 0xFF00-0xFF7F I/O registers, 0xFF80-0xFFFE HRAM, 0xFFFF IE.

use vstd::prelude::*;

use vstd::string::StringExecFns;

use crate::joypad::{spec_buttons_nibble, Joypad};
use crate::mbc::{get_mbc, Mbc};
use crate::rom::Rom;
use crate::utils::{
    exec_word_from, get_bit_val, is_bit_set, lemma_and_mask_bound, spec_bit_val, word_from, Byte,
    JoypadMode, Word, BACKGROUND_PALETTE_DATA_ADDR, BACKGROUND_PALETTE_INDEX_ADDR,
    DMA_TRANSFER_ADDR,
    CURRENT_SCANLINE_ADDR, DIVIDER_REGISTER_ADDR, JOYPAD_REGISTER_ADDR, OBJECT_PALETTE_DATA_ADDR,
    OBJECT_PALETTE_INDEX_ADDR, TIMER_ADDR, TIMER_CONTROL_ADDR, VRAM_BANK_SELECT_ADDR,
};

verus! {

pub struct Mmu {
    pub memory: Vec<u8>,
    pub oam_access: bool,
    pub color_pallette_access: bool,
    pub vram_access: bool,
    pub timer_frequency_changed: bool,
    pub rom: Rom,
    pub joypad: Joypad,
    pub mbc: Option<Mbc>,
    // CGB specifics: two VRAM banks of 0x2000 bytes each and two sets of
    // 64 palette bytes.
    pub cgb_vram: Vec<u8>,
    pub cgb_vram_bank: usize,
    pub cgb_background_palettes: Vec<u8>,
    pub cgb_object_palettes: Vec<u8>,
}

impl Mmu {
    pub open spec fn wf(self) -> bool {
        &&& self.memory@.len() == 0x10000
        &&& self.cgb_vram@.len() == 0x4000
        &&& self.cgb_vram_bank <= 1
        &&& self.cgb_background_palettes@.len() == 64
        &&& self.cgb_object_palettes@.len() == 64
        &&& self.rom.wf()
        &&& self.joypad.wf()
        &&& match self.mbc {
            Some(m) => m.wf(),
            None => true,
        }
    }

    pub fn new(rom: Rom, joypad: Joypad) -> (r: Mmu)
        requires
            rom.wf(),
            joypad.wf(),
        ensures
            r.wf(),
            r.memory@ == Seq::new(0x10000, |i: int| 0u8),
            !r.timer_frequency_changed,
            r.oam_access && r.color_pallette_access && r.vram_access,
            r.rom == rom,
            r.joypad == joypad,
            r.mbc is None,
            r.cgb_vram_bank == 0,
    {
        Mmu {
            memory: crate::mbc::vec_zeroes(0x10000),
            oam_access: true,
            color_pallette_access: true,
            vram_access: true,
            timer_frequency_changed: false,
            rom,
            joypad,
            mbc: None,
            cgb_vram: crate::mbc::vec_zeroes(0x4000),
            cgb_vram_bank: 0,
            cgb_background_palettes: crate::mbc::vec_zeroes(64),
            cgb_object_palettes: crate::mbc::vec_zeroes(64),
        }
    }

    pub open spec fn spec_is_cgb(self) -> bool {
        self.rom.spec_is_cgb()
    }

    pub fn is_cgb(&self) -> (r: bool)
        requires
            self.wf(),
        ensures
            r == self.spec_is_cgb(),
    {
        self.rom.is_cgb()
    }

    /// What a read of `addr` returns: 0xFF for a restricted region, the
    /// MBC's view of the switchable ROM and external RAM windows, the
    /// mirrored WRAM for the echo region, and the backing array
    /// otherwise.
    pub open spec fn spec_read(self, addr: u16) -> u8 {
        if 0xFE00 <= addr <= 0xFE9F && !self.oam_access {
            0xFF
        } else if 0x8000 <= addr <= 0x9FFF && !self.vram_access {
            0xFF
        } else if 0x4000 <= addr < 0x8000 {
            match self.mbc {
                Some(m) => m.spec_read_rom((addr - 0x4000) as u16),
                None => {
                    if addr < self.rom.data@.len() {
                        self.rom.data@[addr as int]
                    } else {
                        0xFF
                    }
                },
            }
        } else if 0x8000 <= addr < 0xA000 && self.spec_is_cgb() {
            self.cgb_vram@[(addr - 0x8000) as int + 0x2000 * self.cgb_vram_bank as int]
        } else if 0xA000 <= addr < 0xC000 {
            match self.mbc {
                Some(m) => m.spec_read_ram((addr - 0xA000) as u16),
                None => self.memory@[addr as int],
            }
        } else if 0xE000 <= addr <= 0xFDFF {
            self.memory@[addr as int - 0x2000]
        } else if 0xFEA0 <= addr <= 0xFEFF {
            0xFF
        } else {
            self.memory@[addr as int]
        }
    }

    pub fn read_byte(&self, addr: Word) -> (r: Byte)
        requires
            self.wf(),
        ensures
            r == self.spec_read(addr),
    {
        let is_reading_restricted_oam = addr >= 0xFE00 && addr <= 0xFE9F && !self.oam_access;
        let is_reading_restricted_vram = addr >= 0x8000 && addr <= 0x9FFF && !self.vram_access;

        if is_reading_restricted_oam || is_reading_restricted_vram {
            // Reading something currently restricted returns garbage.
            0xFF
        } else if addr >= 0x4000 && addr < 0x8000 {
            // The fixed bank 0 sits in the backing array; this window is
            // routed to whatever bank the MBC has selected.
            self.read_rom_bank(addr)
        } else if addr >= 0x8000 && addr < 0xA000 && self.is_cgb() {
            self.cgb_vram[(addr as usize - 0x8000) + 0x2000 * self.cgb_vram_bank]
        } else if addr >= 0xA000 && addr < 0xC000 {
            self.read_ram_bank(addr)
        } else if addr >= 0xE000 && addr <= 0xFDFF {
            // Echo RAM: reads pass through to the mirrored WRAM.
            self.memory[addr as usize - 0x2000]
        } else if addr >= 0xFEA0 && addr <= 0xFEFF {
            // The prohibited region reads as open bus.
            0xFF
        } else {
            self.memory[addr as usize]
        }
    }

    fn read_rom_bank(&self, addr: Word) -> (r: Byte)
        requires
            self.wf(),
            0x4000 <= addr < 0x8000,
        ensures
            r == self.spec_read(addr),
    {
        match &self.mbc {
            Some(mbc) => mbc.read_rom(addr - 0x4000),
            None => {
                if (addr as usize) < self.rom.length() {
                    self.rom.get_byte(addr as usize)
                } else {
                    0xFF
                }
            },
        }
    }

    fn read_ram_bank(&self, addr: Word) -> (r: Byte)
        requires
            self.wf(),
            0xA000 <= addr < 0xC000,
        ensures
            r == self.spec_read(addr),
    {
        match &self.mbc {
            Some(mbc) => mbc.read_ram(addr - 0xA000),
            None => self.memory[addr as usize],
        }
    }

    pub fn update_timer_frequency_changed(&mut self, val: bool)
        ensures
            *final(self) == (Mmu { timer_frequency_changed: val, ..*old(self) }),
    {
        self.timer_frequency_changed = val;
    }

    pub fn is_timer_frequency_changed(&self) -> (r: bool)
        ensures
            r == self.timer_frequency_changed,
    {
        self.timer_frequency_changed
    }

    /// Advances LY by one; the PPU drives this once per scanline.
    pub fn update_scanline(&mut self)
        requires
            old(self).wf(),
        ensures
            final(self).wf(),
            final(self).memory@ == old(self).memory@.update(
                CURRENT_SCANLINE_ADDR as int,
                (if old(self).memory@[CURRENT_SCANLINE_ADDR as int] == 0xFF {
                    0u8
                } else {
                    (old(self).memory@[CURRENT_SCANLINE_ADDR as int] + 1) as u8
                }),
            ),
            same_except_memory(*old(self), *final(self)),
    {
        let cur = self.memory[CURRENT_SCANLINE_ADDR as usize];
        let next: u8 = if cur == 0xFF {
            0
        } else {
            cur + 1
        };
        self.memory[CURRENT_SCANLINE_ADDR as usize] = next;
    }

    pub fn reset_scanline(&mut self)
        requires
            old(self).wf(),
        ensures
            final(self).wf(),
            final(self).memory@ == old(self).memory@.update(CURRENT_SCANLINE_ADDR as int, 0u8),
            same_except_memory(*old(self), *final(self)),
    {
        self.memory[CURRENT_SCANLINE_ADDR as usize] = 0;
    }

    pub fn restrict_oam_access(&mut self)
        ensures
            *final(self) == (Mmu { oam_access: false, ..*old(self) }),
    {
        self.oam_access = false;
    }

    pub fn open_oam_access(&mut self)
        ensures
            *final(self) == (Mmu { oam_access: true, ..*old(self) }),
    {
        self.oam_access = true;
    }

    pub fn restrict_color_pallette_access(&mut self)
        ensures
            *final(self) == (Mmu { color_pallette_access: false, ..*old(self) }),
    {
        self.color_pallette_access = false;
    }

    pub fn open_color_pallette_access(&mut self)
        ensures
            *final(self) == (Mmu { color_pallette_access: true, ..*old(self) }),
    {
        self.color_pallette_access = true;
    }

    pub fn restrict_vram_access(&mut self)
        ensures
            *final(self) == (Mmu { vram_access: false, ..*old(self) }),
    {
        self.vram_access = false;
    }

    pub fn open_vram_access(&mut self)
        ensures
            *final(self) == (Mmu { vram_access: true, ..*old(self) }),
    {
        self.vram_access = true
    }

    /// Bumps TIMA, wrapping; the timer raises the interrupt and reloads
    /// from TMA when this wraps to zero.
    pub fn increment_timer_register(&mut self)
        requires
            old(self).wf(),
        ensures
            final(self).wf(),
            final(self).memory@ == old(self).memory@.update(
                TIMER_ADDR as int,
                (if old(self).memory@[TIMER_ADDR as int] == 0xFF {
                    0u8
                } else {
                    (old(self).memory@[TIMER_ADDR as int] + 1) as u8
                }),
            ),
            same_except_memory(*old(self), *final(self)),
    {
        let cur = self.memory[TIMER_ADDR as usize];
        let next: u8 = if cur == 0xFF {
            0
        } else {
            cur + 1
        };
        self.memory[TIMER_ADDR as usize] = next;
    }

    pub fn increment_divider_register(&mut self)
        requires
            old(self).wf(),
        ensures
            final(self).wf(),
            final(self).memory@ == old(self).memory@.update(
                DIVIDER_REGISTER_ADDR as int,
                (if old(self).memory@[DIVIDER_REGISTER_ADDR as int] == 0xFF {
                    0u8
                } else {
                    (old(self).memory@[DIVIDER_REGISTER_ADDR as int] + 1) as u8
                }),
            ),
            same_except_memory(*old(self), *final(self)),
    {
        let cur = self.memory[DIVIDER_REGISTER_ADDR as usize];
        let next: u8 = if cur == 0xFF {
            0
        } else {
            cur + 1
        };
        self.memory[DIVIDER_REGISTER_ADDR as usize] = next;
    }

    pub fn set_button_state(&mut self, button: usize)
        requires
            button < 8,
            old(self).wf(),
        ensures
            final(self).wf(),
            final(self).joypad.state@ == old(self).joypad.state@.update(button as int, 0u8),
            same_except_joypad(*old(self), *final(self)),
    {
        self.joypad.set_button_state(button);
    }

    pub fn reset_button_state(&mut self, button: usize)
        requires
            button < 8,
            old(self).wf(),
        ensures
            final(self).wf(),
            final(self).joypad.state@ == old(self).joypad.state@.update(button as int, 1u8),
            same_except_joypad(*old(self), *final(self)),
    {
        self.joypad.reset_button_state(button);
    }

    pub fn get_cgb_vram(&self) -> (r: &Vec<u8>)
        ensures
            r@ == self.cgb_vram@,
    {
        &self.cgb_vram
    }

    pub fn get_cgb_background_palettes(&self) -> (r: &Vec<u8>)
        ensures
            r@ == self.cgb_background_palettes@,
    {
        &self.cgb_background_palettes
    }

    pub fn get_cgb_object_palettes(&self) -> (r: &Vec<u8>)
        ensures
            r@ == self.cgb_object_palettes@,
    {
        &self.cgb_object_palettes
    }

    /// A snapshot of the cartridge RAM, the save-file payload; without a
    /// controller it is the plain 0xA000-0xBFFF window.
    pub fn get_external_ram(&self) -> (r: Vec<u8>)
        requires
            self.wf(),
        ensures
            r@ == (match self.mbc {
                Some(m) => m.spec_external_ram(),
                None => self.memory@.subrange(0xA000, 0xC000),
            }),
    {
        match &self.mbc {
            Some(mbc) => mbc.get_external_ram(),
            None => {
                let mut out: Vec<u8> = Vec::new();
                let mut i: usize = 0xA000;
                while i < 0xC000
                    invariant
                        0xA000 <= i <= 0xC000,
                        self.wf(),
                        out@ == self.memory@.subrange(0xA000, i as int),
                    decreases 0xC000 - i,
                {
                    out.push(self.memory[i]);
                    proof {
                        assert(out@ =~= self.memory@.subrange(0xA000, i + 1));
                    }
                    i = i + 1;
                }
                out
            },
        }
    }

    /// Copies a save-file payload back into the cartridge RAM (or, for
    /// a cartridge without a controller, the plain 0xA000-0xBFFF
    /// window), truncating to the target size.
    pub fn load_external_ram(&mut self, buffer: Vec<Byte>)
        requires
            old(self).wf(),
        ensures
            final(self).wf(),
            load_ram_rel(*old(self), *final(self), buffer@),
    {
        match &mut self.mbc {
            Some(mbc) => mbc.load_external_ram(buffer),
            None => {
                let n: usize = if buffer.len() < 0x2000 {
                    buffer.len()
                } else {
                    0x2000
                };
                let mut i: usize = 0;
                while i < n
                    invariant
                        n == (if buffer@.len() < 0x2000 {
                            buffer@.len() as int
                        } else {
                            0x2000
                        }),
                        i <= n,
                        self.memory@.len() == 0x10000,
                        self.wf(),
                        self.rom == old(self).rom,
                        self.joypad == old(self).joypad,
                        self.mbc is None,
                        self.oam_access == old(self).oam_access,
                        self.color_pallette_access == old(self).color_pallette_access,
                        self.vram_access == old(self).vram_access,
                        self.timer_frequency_changed == old(self).timer_frequency_changed,
                        self.cgb_vram == old(self).cgb_vram,
                        self.cgb_vram_bank == old(self).cgb_vram_bank,
                        self.cgb_background_palettes == old(self).cgb_background_palettes,
                        self.cgb_object_palettes == old(self).cgb_object_palettes,
                        forall|j: int|
                            0 <= j < 0x10000 ==> self.memory@[j] == (if 0xA000 <= j < 0xA000 + i {
                                buffer@[j - 0xA000]
                            } else {
                                old(self).memory@[j]
                            }),
                    decreases n - i,
                {
                    self.memory[0xA000 + i] = buffer[i];
                    i = i + 1;
                }
            },
        }
    }
}

impl Mmu {
    /// Brings the I/O registers to their documented post-boot values,
    /// copies ROM bank 0 (and the fixed window) into the backing array
    /// and attaches the bank controller the cartridge header asks for.
    pub fn reset(&mut self)
        requires
            old(self).wf(),
        ensures
            final(self).wf(),
            final(self).rom == old(self).rom,
            final(self).joypad == old(self).joypad,
            final(self).memory@.len() == 0x10000,
            forall|i: int|
                0 <= i < 0x8000 && i < old(self).rom.data@.len() ==> final(self).memory@[i] == old(
                    self,
                ).rom.data@[i],
            final(self).memory@[0xFF05] == 0x00,
            final(self).memory@[0xFF06] == 0x00,
            final(self).memory@[0xFF07] == 0x00,
            final(self).memory@[0xFF40] == 0x91,
            final(self).memory@[0xFF42] == 0x00,
            final(self).memory@[0xFF43] == 0x00,
            final(self).memory@[0xFF45] == 0x00,
            final(self).memory@[0xFF47] == 0xFC,
            final(self).memory@[0xFF48] == 0xFF,
            final(self).memory@[0xFF49] == 0xFF,
            final(self).memory@[0xFF4A] == 0x00,
            final(self).memory@[0xFF4B] == 0x00,
            final(self).memory@[0xFFFF] == 0x00,
            final(self).memory@[JOYPAD_REGISTER_ADDR as int] == 0xFF,
            crate::mbc::fresh_mbc_rel(old(self).rom, final(self).mbc),
    {
        // Initial I/O register state, per the boot ROM leave-state table.
        self.memory[0xFF05] = 0x00;
        self.memory[0xFF06] = 0x00;
        self.memory[0xFF07] = 0x00;
        self.memory[0xFF10] = 0x80;
        self.memory[0xFF11] = 0xBF;
        self.memory[0xFF12] = 0xF3;
        self.memory[0xFF14] = 0xBF;
        self.memory[0xFF16] = 0x3F;
        self.memory[0xFF17] = 0x00;
        self.memory[0xFF19] = 0xBF;
        self.memory[0xFF1A] = 0x7F;
        self.memory[0xFF1B] = 0xFF;
        self.memory[0xFF1E] = 0xBF;
        self.memory[0xFF20] = 0xFF;
        self.memory[0xFF21] = 0x00;
        self.memory[0xFF22] = 0x00;
        self.memory[0xFF23] = 0xBF;
        self.memory[0xFF24] = 0x77;
        self.memory[0xFF25] = 0xF3;
        self.memory[0xFF26] = 0xF1;
        self.memory[0xFF40] = 0x91;
        self.memory[0xFF42] = 0x00;
        self.memory[0xFF43] = 0x00;
        self.memory[0xFF45] = 0x00;
        self.memory[0xFF47] = 0xFC;
        self.memory[0xFF48] = 0xFF;
        self.memory[0xFF49] = 0xFF;
        self.memory[0xFF4A] = 0x00;
        self.memory[0xFF4B] = 0x00;
        self.memory[0xFFFF] = 0x00;

        // The initial state of the joypad is all unpressed.
        self.memory[JOYPAD_REGISTER_ADDR as usize] = 0xFF;

        self.load_rom();
    }

    fn load_rom(&mut self)
        requires
            old(self).wf(),
        ensures
            final(self).wf(),
            final(self).rom == old(self).rom,
            final(self).joypad == old(self).joypad,
            final(self).memory@.len() == 0x10000,
            forall|i: int|
                0 <= i < 0x8000 && i < old(self).rom.data@.len() ==> final(self).memory@[i] == old(
                    self,
                ).rom.data@[i],
            forall|i: int|
                0x8000 <= i < 0x10000 ==> final(self).memory@[i] == old(self).memory@[i],
            crate::mbc::fresh_mbc_rel(old(self).rom, final(self).mbc),
    {
        let end_addr: usize = 0x8000;
        let n: usize = if self.rom.length() < end_addr {
            self.rom.length()
        } else {
            end_addr
        };
        let mut i: usize = 0;
        while i < n
            invariant
                n <= 0x8000,
                n <= self.rom.data@.len(),
                i <= n,
                self.wf(),
                self.rom == old(self).rom,
                self.joypad == old(self).joypad,
                self.mbc == old(self).mbc,
                self.memory@.len() == 0x10000,
                forall|j: int| 0 <= j < i ==> self.memory@[j] == self.rom.data@[j],
                forall|j: int| i <= j < 0x10000 ==> self.memory@[j] == old(self).memory@[j],
            decreases n - i,
        {
            let b = self.rom.get_byte(i);
            self.memory[i] = b;
            i = i + 1;
        }

        self.mbc = get_mbc(&self.rom);
    }
}

/// The hexadecimal digit of a nibble.
pub open spec fn spec_hex_char(n: u8) -> char {
    if n == 0 {
        '0'
    } else if n == 1 {
        '1'
    } else if n == 2 {
        '2'
    } else if n == 3 {
        '3'
    } else if n == 4 {
        '4'
    } else if n == 5 {
        '5'
    } else if n == 6 {
        '6'
    } else if n == 7 {
        '7'
    } else if n == 8 {
        '8'
    } else if n == 9 {
        '9'
    } else if n == 10 {
        'A'
    } else if n == 11 {
        'B'
    } else if n == 12 {
        'C'
    } else if n == 13 {
        'D'
    } else if n == 14 {
        'E'
    } else {
        'F'
    }
}

/// The four hexadecimal digits of a 16-bit word, high digit first.
pub open spec fn spec_hex_word(w: u16) -> Seq<char> {
    seq![
        spec_hex_char(((w >> 12) & 0xF) as u8),
        spec_hex_char(((w >> 8) & 0xF) as u8),
        spec_hex_char(((w >> 4) & 0xF) as u8),
        spec_hex_char((w & 0xF) as u8),
    ]
}

fn append_hex_nibble(s: &mut String, n: u8)
    requires
        n < 16,
    ensures
        final(s)@ == old(s)@.push(spec_hex_char(n)),
{
    match n {
        0 => {
            proof {
                reveal_strlit("0");
            }
            s.append("0");
        },
        1 => {
            proof {
                reveal_strlit("1");
            }
            s.append("1");
        },
        2 => {
            proof {
                reveal_strlit("2");
            }
            s.append("2");
        },
        3 => {
            proof {
                reveal_strlit("3");
            }
            s.append("3");
        },
        4 => {
            proof {
                reveal_strlit("4");
            }
            s.append("4");
        },
        5 => {
            proof {
                reveal_strlit("5");
            }
            s.append("5");
        },
        6 => {
            proof {
                reveal_strlit("6");
            }
            s.append("6");
        },
        7 => {
            proof {
                reveal_strlit("7");
            }
            s.append("7");
        },
        8 => {
            proof {
                reveal_strlit("8");
            }
            s.append("8");
        },
        9 => {
            proof {
                reveal_strlit("9");
            }
            s.append("9");
        },
        10 => {
            proof {
                reveal_strlit("A");
            }
            s.append("A");
        },
        11 => {
            proof {
                reveal_strlit("B");
            }
            s.append("B");
        },
        12 => {
            proof {
                reveal_strlit("C");
            }
            s.append("C");
        },
        13 => {
            proof {
                reveal_strlit("D");
            }
            s.append("D");
        },
        14 => {
            proof {
                reveal_strlit("E");
            }
            s.append("E");
        },
        _ => {
            proof {
                reveal_strlit("F");
            }
            s.append("F");
        },
    }
    proof {
        assert(s@ =~= old(s)@.push(spec_hex_char(n)));
    }
}

fn append_hex_word(s: &mut String, w: u16)
    ensures
        final(s)@ == old(s)@ + spec_hex_word(w),
{
    proof {
        crate::utils::lemma_and_mask_bound_u16(w >> 12, 0xF);
        crate::utils::lemma_and_mask_bound_u16(w >> 8, 0xF);
        crate::utils::lemma_and_mask_bound_u16(w >> 4, 0xF);
        crate::utils::lemma_and_mask_bound_u16(w, 0xF);
    }
    append_hex_nibble(s, ((w >> 12u16) & 0xF) as u8);
    append_hex_nibble(s, ((w >> 8u16) & 0xF) as u8);
    append_hex_nibble(s, ((w >> 4u16) & 0xF) as u8);
    append_hex_nibble(s, (w & 0xF) as u8);
    proof {
        assert(s@ =~= old(s)@ + spec_hex_word(w));
    }
}

impl Mmu {
    /// The `index`th 15-bit color of the CGB background palette memory,
    /// little-endian.
    pub open spec fn spec_bg_palette_color(self, index: int) -> u16 {
        word_from(
            self.cgb_background_palettes@[index * 2 + 1],
            self.cgb_background_palettes@[index * 2],
        )
    }

    /// A debug view of the last CGB background palette: its four colors
    /// in hexadecimal.
    pub fn debug(&self) -> (r: String)
        requires
            self.wf(),
        ensures
            r@ == "BG Palette 7: "@ + self.spec_hex_colors(),
    {
        let color_1 = exec_word_from(self.cgb_background_palettes[57], self.cgb_background_palettes[56]);
        let color_2 = exec_word_from(self.cgb_background_palettes[59], self.cgb_background_palettes[58]);
        let color_3 = exec_word_from(self.cgb_background_palettes[61], self.cgb_background_palettes[60]);
        let color_4 = exec_word_from(self.cgb_background_palettes[63], self.cgb_background_palettes[62]);

        let mut out = String::new();
        out.append("BG Palette 7: ");
        append_hex_word(&mut out, color_1);
        proof {
            reveal_strlit(" ");
        }
        out.append(" ");
        append_hex_word(&mut out, color_2);
        out.append(" ");
        append_hex_word(&mut out, color_3);
        out.append(" ");
        append_hex_word(&mut out, color_4);
        proof {
            assert(out@ =~= "BG Palette 7: "@ + self.spec_hex_colors());
        }
        out
    }

    /// The rendered hexadecimal tail of the palette debug line.
    pub open spec fn spec_hex_colors(self) -> Seq<char> {
        spec_hex_word(self.spec_bg_palette_color(28)) + " "@ + spec_hex_word(
            self.spec_bg_palette_color(29),
        ) + " "@ + spec_hex_word(self.spec_bg_palette_color(30)) + " "@ + spec_hex_word(
            self.spec_bg_palette_color(31),
        )
    }
}

/// All fields but the backing memory array agree.
pub open spec fn same_except_memory(pre: Mmu, post: Mmu) -> bool {
    &&& post.oam_access == pre.oam_access
    &&& post.color_pallette_access == pre.color_pallette_access
    &&& post.vram_access == pre.vram_access
    &&& post.timer_frequency_changed == pre.timer_frequency_changed
    &&& post.rom == pre.rom
    &&& post.joypad == pre.joypad
    &&& post.mbc == pre.mbc
    &&& post.cgb_vram == pre.cgb_vram
    &&& post.cgb_vram_bank == pre.cgb_vram_bank
    &&& post.cgb_background_palettes == pre.cgb_background_palettes
    &&& post.cgb_object_palettes == pre.cgb_object_palettes
}

impl Mmu {
    /// Relates the machine state before and after `write_byte`. A write
    /// never reaches ROM: below 0x8000 it is a bank control write. DIV
    /// and LY reset to zero on any write, echo writes are mirrored into
    /// WRAM, the prohibited region ignores writes, and writes into a
    /// restricted OAM or VRAM are discarded.
    pub open spec fn write_rel(pre: Mmu, post: Mmu, addr: u16, data: u8) -> bool {
        if (0xFE00 <= addr <= 0xFE9F && !pre.oam_access) || (0x8000 <= addr <= 0x9FFF
            && !pre.vram_access) {
            post == pre
        } else if addr < 0x8000 {
            &&& same_except_mbc(pre, post)
            &&& mbc_banking_rel(pre.mbc, post.mbc, addr, data)
        } else if addr <= 0x9FFF {
            if pre.spec_is_cgb() {
                &&& same_except_cgb_vram(pre, post)
                &&& post.cgb_vram@ == pre.cgb_vram@.update(
                    (addr - 0x8000) as int + 0x2000 * pre.cgb_vram_bank as int,
                    data,
                )
            } else {
                &&& same_except_memory(pre, post)
                &&& post.memory@ == pre.memory@.update(addr as int, data)
            }
        } else if addr <= 0xBFFF {
            match (pre.mbc, post.mbc) {
                (Some(a), Some(b)) => {
                    &&& same_except_mbc(pre, post)
                    &&& Mbc::write_ram_rel(a, b, (addr - 0xA000) as u16, data)
                },
                (None, None) => {
                    &&& same_except_memory(pre, post)
                    &&& post.memory@ == pre.memory@.update(addr as int, data)
                },
                _ => false,
            }
        } else if 0xE000 <= addr <= 0xFDFF {
            &&& same_except_memory(pre, post)
            &&& post.memory@ == pre.memory@.update(addr as int - 0x2000, data).update(
                addr as int,
                data,
            )
        } else if 0xFEA0 <= addr <= 0xFEFF {
            post == pre
        } else if addr == JOYPAD_REGISTER_ADDR {
            &&& same_except_memory(pre, post)
            &&& post.memory@ == pre.memory@.update(
                addr as int,
                (0xC0 | (data & 0x30) | spec_joypad_nibble(pre.joypad.state@, data)),
            )
        } else if addr == DIVIDER_REGISTER_ADDR || addr == CURRENT_SCANLINE_ADDR {
            &&& same_except_memory(pre, post)
            &&& post.memory@ == pre.memory@.update(addr as int, 0u8)
        } else if addr == DMA_TRANSFER_ADDR {
            &&& same_except_memory(pre, post)
            &&& post.memory@.len() == pre.memory@.len()
            &&& forall|i: int|
                0 <= i < 0x10000 && !(0xFE00 <= i < 0xFEA0) ==> post.memory@[i] == pre.memory@[i]
            &&& forall|i: int|
                0xFE00 <= i < 0xFEA0 ==> post.memory@[i] == pre.spec_read(
                    (data as int * 0x100 + (i - 0xFE00)) as u16,
                )
        } else if addr == VRAM_BANK_SELECT_ADDR {
            &&& same_except_memory_and_vram_bank(pre, post)
            &&& post.cgb_vram_bank == (if pre.spec_is_cgb() {
                spec_bit_val(data, 0) as usize
            } else {
                pre.cgb_vram_bank
            })
            &&& post.memory@ == pre.memory@.update(addr as int, data)
        } else if addr == TIMER_CONTROL_ADDR {
            &&& same_except_memory_and_tfc(pre, post)
            &&& post.timer_frequency_changed
            &&& post.memory@ == pre.memory@.update(addr as int, data)
        } else if addr == BACKGROUND_PALETTE_DATA_ADDR || addr == OBJECT_PALETTE_DATA_ADDR {
            palette_write_rel(pre, post, addr, data)
        } else {
            &&& same_except_memory(pre, post)
            &&& post.memory@ == pre.memory@.update(addr as int, data)
        }
    }

    pub fn write_byte(&mut self, addr: Word, data: Byte)
        requires
            old(self).wf(),
        ensures
            final(self).wf(),
            Mmu::write_rel(*old(self), *final(self), addr, data),
    {
        let is_writing_restricted_oam = addr >= 0xFE00 && addr <= 0xFE9F && !self.oam_access;
        let is_writing_restricted_vram = addr >= 0x8000 && addr <= 0x9FFF && !self.vram_access;

        if !is_writing_restricted_oam && !is_writing_restricted_vram {
            match addr {
                0x0000..=0x7FFF => self.handle_banking(addr, data),
                0x8000..=0x9FFF => self.handle_vram_write(addr, data),
                0xA000..=0xBFFF => self.write_ram_bank(addr, data),
                0xE000..=0xFDFF => {
                    // Echo RAM: the write lands in WRAM as well.
                    self.memory[addr as usize - 0x2000] = data;
                    self.memory[addr as usize] = data;
                },
                0xFEA0..=0xFEFF => (),
                JOYPAD_REGISTER_ADDR => self.handle_joypad(addr, data),
                DIVIDER_REGISTER_ADDR | CURRENT_SCANLINE_ADDR => {
                    self.memory[addr as usize] = 0;
                },
                DMA_TRANSFER_ADDR => self.do_dma_transfer(data),
                VRAM_BANK_SELECT_ADDR => self.do_vram_bank_switch(addr, data),
                TIMER_CONTROL_ADDR => self.do_timer_control_update(data),
                BACKGROUND_PALETTE_DATA_ADDR => self.handle_cgb_palette_write(addr, data),
                OBJECT_PALETTE_DATA_ADDR => self.handle_cgb_palette_write(addr, data),
                _ => {
                    self.memory[addr as usize] = data;
                },
            }
        }
    }

    fn handle_banking(&mut self, addr: Word, data: Byte)
        requires
            old(self).wf(),
            addr < 0x8000,
        ensures
            final(self).wf(),
            same_except_mbc(*old(self), *final(self)),
            mbc_banking_rel(old(self).mbc, final(self).mbc, addr, data),
    {
        match &mut self.mbc {
            Some(mbc) => mbc.handle_banking(addr, data),
            None => {},
        }
    }

    fn handle_vram_write(&mut self, addr: Word, data: Byte)
        requires
            old(self).wf(),
            0x8000 <= addr <= 0x9FFF,
        ensures
            final(self).wf(),
            old(self).spec_is_cgb() ==> same_except_cgb_vram(*old(self), *final(self))
                && final(self).cgb_vram@ == old(self).cgb_vram@.update(
                (addr - 0x8000) as int + 0x2000 * old(self).cgb_vram_bank as int,
                data,
            ),
            !old(self).spec_is_cgb() ==> same_except_memory(*old(self), *final(self))
                && final(self).memory@ == old(self).memory@.update(addr as int, data),
    {
        if self.is_cgb() {
            let idx = (addr as usize - 0x8000) + 0x2000 * self.cgb_vram_bank;
            self.cgb_vram[idx] = data;
        } else {
            self.memory[addr as usize] = data;
        }
    }

    fn write_ram_bank(&mut self, addr: Word, data: Byte)
        requires
            old(self).wf(),
            0xA000 <= addr <= 0xBFFF,
        ensures
            final(self).wf(),
            match (old(self).mbc, final(self).mbc) {
                (Some(a), Some(b)) => same_except_mbc(*old(self), *final(self))
                    && Mbc::write_ram_rel(a, b, (addr - 0xA000) as u16, data),
                (None, None) => same_except_memory(*old(self), *final(self))
                    && final(self).memory@ == old(self).memory@.update(addr as int, data),
                _ => false,
            },
    {
        match &mut self.mbc {
            Some(mbc) => mbc.write_ram(addr - 0xA000, data),
            None => {
                self.memory[addr as usize] = data;
            },
        }
    }

    fn do_vram_bank_switch(&mut self, addr: Word, data: Byte)
        requires
            old(self).wf(),
            addr == VRAM_BANK_SELECT_ADDR,
        ensures
            final(self).wf(),
            same_except_memory_and_vram_bank(*old(self), *final(self)),
            final(self).cgb_vram_bank == (if old(self).spec_is_cgb() {
                spec_bit_val(data, 0) as usize
            } else {
                old(self).cgb_vram_bank
            }),
            final(self).memory@ == old(self).memory@.update(addr as int, data),
    {
        if self.is_cgb() {
            // In CGB mode bit 0 selects the VRAM bank.
            self.cgb_vram_bank = get_bit_val(&data, 0) as usize;
        }
        self.memory[addr as usize] = data;
    }

    fn do_timer_control_update(&mut self, data: Byte)
        requires
            old(self).wf(),
        ensures
            final(self).wf(),
            same_except_memory_and_tfc(*old(self), *final(self)),
            final(self).timer_frequency_changed,
            final(self).memory@ == old(self).memory@.update(TIMER_CONTROL_ADDR as int, data),
    {
        self.update_timer_frequency_changed(true);
        self.memory[TIMER_CONTROL_ADDR as usize] = data;
    }

    fn handle_joypad(&mut self, addr: Word, data: Byte)
        requires
            old(self).wf(),
            addr == JOYPAD_REGISTER_ADDR,
        ensures
            final(self).wf(),
            same_except_memory(*old(self), *final(self)),
            final(self).memory@ == old(self).memory@.update(
                addr as int,
                (0xC0 | (data & 0x30) | spec_joypad_nibble(old(self).joypad.state@, data)),
            ),
    {
        // Bit 4 selects the direction row and bit 5 the action row, both
        // active-low; with neither selected the low nibble reads as 1s.
        let mode_bits = (data >> 4u8) & 0x3;
        let lower_nibble: u8 = if mode_bits == 1 {
            self.joypad.get_buttons_for_mode(JoypadMode::ACTION)
        } else if mode_bits == 2 {
            self.joypad.get_buttons_for_mode(JoypadMode::DIRECTION)
        } else {
            0xF
        };
        // The unused bits 7-6 always read as 1.
        self.memory[addr as usize] = 0xC0 | (data & 0x30) | lower_nibble;
    }

    /// Copies the 160 bytes at `data << 8` into OAM in one step.
    fn do_dma_transfer(&mut self, data: Byte)
        requires
            old(self).wf(),
        ensures
            final(self).wf(),
            same_except_memory(*old(self), *final(self)),
            final(self).memory@.len() == old(self).memory@.len(),
            forall|i: int|
                0 <= i < 0x10000 && !(0xFE00 <= i < 0xFEA0) ==> final(self).memory@[i] == old(
                    self,
                ).memory@[i],
            forall|i: int|
                0xFE00 <= i < 0xFEA0 ==> final(self).memory@[i] == old(self).spec_read(
                    (data as int * 0x100 + (i - 0xFE00)) as u16,
                ),
    {
        let start_addr: u16 = (data as u16) * 0x100;
        let mut buf: Vec<u8> = Vec::new();
        let mut i: usize = 0;
        while i < 0xA0
            invariant
                self.wf(),
                *self == *old(self),
                start_addr == data as int * 0x100,
                i <= 0xA0,
                buf@.len() == i,
                forall|j: int|
                    0 <= j < i ==> buf@[j] == old(self).spec_read((data as int * 0x100 + j) as u16),
            decreases 0xA0 - i,
        {
            buf.push(self.read_byte(start_addr + i as u16));
            i = i + 1;
        }
        let mut i: usize = 0;
        while i < 0xA0
            invariant
                self.memory@.len() == 0x10000,
                self.wf(),
                same_except_memory(*old(self), *self),
                buf@.len() == 0xA0,
                forall|j: int|
                    0 <= j < 0xA0 ==> buf@[j] == old(self).spec_read(
                        (data as int * 0x100 + j) as u16,
                    ),
                i <= 0xA0,
                forall|a: int|
                    0 <= a < 0x10000 && !(0xFE00 <= a < 0xFE00 + i) ==> self.memory@[a] == old(
                        self,
                    ).memory@[a],
                forall|j: int| 0 <= j < i ==> self.memory@[0xFE00 + j] == buf@[j],
            decreases 0xA0 - i,
        {
            self.memory[0xFE00 + i] = buf[i];
            i = i + 1;
        }
        proof {
            assert forall|a: int| 0xFE00 <= a < 0xFEA0 implies self.memory@[a] == old(
                self,
            ).spec_read((data as int * 0x100 + (a - 0xFE00)) as u16) by {
                assert(self.memory@[0xFE00 + (a - 0xFE00)] == buf@[a - 0xFE00]);
            }
        }
    }

    /// A CGB palette-data write stores through the index register into
    /// palette memory, auto-incrementing the index when its bit 7 is
    /// set; outside CGB mode the byte lands in the backing array.
    fn handle_cgb_palette_write(&mut self, addr: Word, data: Byte)
        requires
            old(self).wf(),
            addr == BACKGROUND_PALETTE_DATA_ADDR || addr == OBJECT_PALETTE_DATA_ADDR,
        ensures
            final(self).wf(),
            palette_write_rel(*old(self), *final(self), addr, data),
    {
        let palette_index_addr: u16 = if addr == BACKGROUND_PALETTE_DATA_ADDR {
            BACKGROUND_PALETTE_INDEX_ADDR
        } else {
            OBJECT_PALETTE_INDEX_ADDR
        };

        if self.is_cgb() {
            // The lower six bits of the index register address one of the
            // 64 palette bytes.
            let palette_index = self.memory[palette_index_addr as usize];
            let auto_increment = is_bit_set(&palette_index, 7);
            let palette_addr = palette_index & 0b111111;
            proof {
                lemma_and_mask_bound(palette_index, 0b111111);
                assert((1u8 << 7u8) == 0x80) by (bit_vector);
            }

            if addr == BACKGROUND_PALETTE_DATA_ADDR {
                self.cgb_background_palettes[palette_addr as usize] = data;
            } else {
                self.cgb_object_palettes[palette_addr as usize] = data;
            }

            if auto_increment {
                let next_addr = (palette_addr + 1) & 0b111111;
                let new_idx = (palette_index & 0b11000000) | next_addr;
                self.memory[palette_index_addr as usize] = new_idx;
            }
        } else {
            self.memory[addr as usize] = data;
        }
    }
}

/// The low nibble the joypad register shows for a select write `data`:
/// the action row when bit pattern 01 is selected, the direction row for
/// 10, and all-released (0xF) otherwise.
pub open spec fn spec_joypad_nibble(state: Seq<u8>, data: u8) -> u8 {
    let mode_bits = (data >> 4u8) & 0x3;
    if mode_bits == 1 {
        spec_buttons_nibble(state, JoypadMode::ACTION)
    } else if mode_bits == 2 {
        spec_buttons_nibble(state, JoypadMode::DIRECTION)
    } else {
        0xF
    }
}

/// How a control write relates the optional bank controller before and
/// after: absent stays absent, present follows the MBC's banking rules.
pub open spec fn mbc_banking_rel(pre: Option<Mbc>, post: Option<Mbc>, addr: u16, data: u8) -> bool {
    match (pre, post) {
        (Some(a), Some(b)) => b == a.spec_handle_banking(addr, data),
        (None, None) => true,
        _ => false,
    }
}

/// A CGB palette-data write: the indexed palette byte takes the value,
/// and the index register advances when its auto-increment bit is set.
pub open spec fn palette_write_rel(pre: Mmu, post: Mmu, addr: u16, data: u8) -> bool {
    if pre.spec_is_cgb() {
        let idx_addr = if addr == BACKGROUND_PALETTE_DATA_ADDR {
            BACKGROUND_PALETTE_INDEX_ADDR as int
        } else {
            OBJECT_PALETTE_INDEX_ADDR as int
        };
        let palette_index = pre.memory@[idx_addr];
        let palette_addr = palette_index & 0b111111;
        &&& same_except_memory_and_palettes(pre, post)
        &&& post.cgb_background_palettes@ == (if addr == BACKGROUND_PALETTE_DATA_ADDR {
            pre.cgb_background_palettes@.update(palette_addr as int, data)
        } else {
            pre.cgb_background_palettes@
        })
        &&& post.cgb_object_palettes@ == (if addr == OBJECT_PALETTE_DATA_ADDR {
            pre.cgb_object_palettes@.update(palette_addr as int, data)
        } else {
            pre.cgb_object_palettes@
        })
        &&& post.memory@ == (if palette_index & 0x80 > 0 {
            pre.memory@.update(
                idx_addr,
                ((palette_index & 0b11000000) | ((palette_addr + 1) as u8 & 0b111111)),
            )
        } else {
            pre.memory@
        })
    } else {
        &&& same_except_memory(pre, post)
        &&& post.memory@ == pre.memory@.update(addr as int, data)
    }
}

/// All fields but the bank controller agree.
pub open spec fn same_except_mbc(pre: Mmu, post: Mmu) -> bool {
    &&& post.memory == pre.memory
    &&& post.oam_access == pre.oam_access
    &&& post.color_pallette_access == pre.color_pallette_access
    &&& post.vram_access == pre.vram_access
    &&& post.timer_frequency_changed == pre.timer_frequency_changed
    &&& post.rom == pre.rom
    &&& post.joypad == pre.joypad
    &&& post.cgb_vram == pre.cgb_vram
    &&& post.cgb_vram_bank == pre.cgb_vram_bank
    &&& post.cgb_background_palettes == pre.cgb_background_palettes
    &&& post.cgb_object_palettes == pre.cgb_object_palettes
}

/// All fields but the CGB VRAM agree.
pub open spec fn same_except_cgb_vram(pre: Mmu, post: Mmu) -> bool {
    &&& post.memory == pre.memory
    &&& post.oam_access == pre.oam_access
    &&& post.color_pallette_access == pre.color_pallette_access
    &&& post.vram_access == pre.vram_access
    &&& post.timer_frequency_changed == pre.timer_frequency_changed
    &&& post.rom == pre.rom
    &&& post.joypad == pre.joypad
    &&& post.mbc == pre.mbc
    &&& post.cgb_vram_bank == pre.cgb_vram_bank
    &&& post.cgb_background_palettes == pre.cgb_background_palettes
    &&& post.cgb_object_palettes == pre.cgb_object_palettes
}

/// All fields but the backing memory and the VRAM bank selector agree.
pub open spec fn same_except_memory_and_vram_bank(pre: Mmu, post: Mmu) -> bool {
    &&& post.oam_access == pre.oam_access
    &&& post.color_pallette_access == pre.color_pallette_access
    &&& post.vram_access == pre.vram_access
    &&& post.timer_frequency_changed == pre.timer_frequency_changed
    &&& post.rom == pre.rom
    &&& post.joypad == pre.joypad
    &&& post.mbc == pre.mbc
    &&& post.cgb_vram == pre.cgb_vram
    &&& post.cgb_background_palettes == pre.cgb_background_palettes
    &&& post.cgb_object_palettes == pre.cgb_object_palettes
}

/// All fields but the backing memory and the timer-frequency-changed
/// flag agree.
pub open spec fn same_except_memory_and_tfc(pre: Mmu, post: Mmu) -> bool {
    &&& post.oam_access == pre.oam_access
    &&& post.color_pallette_access == pre.color_pallette_access
    &&& post.vram_access == pre.vram_access
    &&& post.rom == pre.rom
    &&& post.joypad == pre.joypad
    &&& post.mbc == pre.mbc
    &&& post.cgb_vram == pre.cgb_vram
    &&& post.cgb_vram_bank == pre.cgb_vram_bank
    &&& post.cgb_background_palettes == pre.cgb_background_palettes
    &&& post.cgb_object_palettes == pre.cgb_object_palettes
}

/// All fields but the backing memory and the two palette arrays agree.
pub open spec fn same_except_memory_and_palettes(pre: Mmu, post: Mmu) -> bool {
    &&& post.oam_access == pre.oam_access
    &&& post.color_pallette_access == pre.color_pallette_access
    &&& post.vram_access == pre.vram_access
    &&& post.timer_frequency_changed == pre.timer_frequency_changed
    &&& post.rom == pre.rom
    &&& post.joypad == pre.joypad
    &&& post.mbc == pre.mbc
    &&& post.cgb_vram == pre.cgb_vram
    &&& post.cgb_vram_bank == pre.cgb_vram_bank
}

/// Writing then reading the same WRAM or HRAM cell yields the written
/// value.
pub proof fn lemma_plain_ram_round_trip(pre: Mmu, post: Mmu, addr: u16, v: u8)
    requires
        pre.wf(),
        Mmu::write_rel(pre, post, addr, v),
        (0xC000 <= addr <= 0xDDFF) || (0xFF80 <= addr <= 0xFFFE),
    ensures
        post.spec_read(addr) == v,
{
}

/// Any write to the divider register resets it: a subsequent read of
/// DIV yields zero.
pub proof fn lemma_div_write_then_read_is_zero(pre: Mmu, post: Mmu, v: u8)
    requires
        pre.wf(),
        Mmu::write_rel(pre, post, DIVIDER_REGISTER_ADDR, v),
    ensures
        post.spec_read(DIVIDER_REGISTER_ADDR) == 0,
{
}

/// Any write to LY resets the scanline: a subsequent read of LY yields
/// zero.
pub proof fn lemma_ly_write_then_read_is_zero(pre: Mmu, post: Mmu, v: u8)
    requires
        pre.wf(),
        Mmu::write_rel(pre, post, CURRENT_SCANLINE_ADDR, v),
    ensures
        post.spec_read(CURRENT_SCANLINE_ADDR) == 0,
{
}

/// A write below 0x8000 never modifies ROM contents: the backing memory
/// and the ROM image stay put, and a subsequent read of the same address
/// yields what the cartridge reports - bank 0 below 0x4000, and the
/// bank-controller's view (with the bank selection the write may just
/// have made) above - never the written value as such.
pub proof fn lemma_rom_region_write_reaches_mbc(pre: Mmu, post: Mmu, addr: u16, v: u8)
    requires
        pre.wf(),
        Mmu::write_rel(pre, post, addr, v),
        addr < 0x8000,
    ensures
        post.memory@ == pre.memory@,
        post.rom == pre.rom,
        addr < 0x4000 ==> post.spec_read(addr) == pre.memory@[addr as int],
        0x4000 <= addr ==> post.spec_read(addr) == (match post.mbc {
            Some(m) => m.spec_read_rom((addr - 0x4000) as u16),
            None => {
                if addr < pre.rom.data@.len() {
                    pre.rom.data@[addr as int]
                } else {
                    0xFF
                }
            },
        }),
        mbc_banking_rel(pre.mbc, post.mbc, addr, v),
{
}

/// All fields but the backing memory and the OAM/VRAM access gates
/// agree.
pub open spec fn same_except_memory_and_access(pre: Mmu, post: Mmu) -> bool {
    &&& post.color_pallette_access == pre.color_pallette_access
    &&& post.timer_frequency_changed == pre.timer_frequency_changed
    &&& post.rom == pre.rom
    &&& post.joypad == pre.joypad
    &&& post.mbc == pre.mbc
    &&& post.cgb_vram == pre.cgb_vram
    &&& post.cgb_vram_bank == pre.cgb_vram_bank
    &&& post.cgb_background_palettes == pre.cgb_background_palettes
    &&& post.cgb_object_palettes == pre.cgb_object_palettes
}

/// How a save-file load relates the machine before and after: the
/// buffer's prefix replaces the leading external-RAM bytes (the plain
/// 0xA000-0xBFFF window without a controller), truncating to the target
/// size; everything else stays put.
pub open spec fn load_ram_rel(pre: Mmu, post: Mmu, buffer: Seq<u8>) -> bool {
    &&& post.rom == pre.rom
    &&& post.joypad == pre.joypad
    &&& post.oam_access == pre.oam_access
    &&& post.color_pallette_access == pre.color_pallette_access
    &&& post.vram_access == pre.vram_access
    &&& post.timer_frequency_changed == pre.timer_frequency_changed
    &&& post.cgb_vram == pre.cgb_vram
    &&& post.cgb_vram_bank == pre.cgb_vram_bank
    &&& post.cgb_background_palettes == pre.cgb_background_palettes
    &&& post.cgb_object_palettes == pre.cgb_object_palettes
    &&& pre.mbc is Some ==> {
        &&& post.memory == pre.memory
        &&& post.mbc is Some
        &&& Mbc::same_except_ram(pre.mbc.unwrap(), post.mbc.unwrap())
        &&& post.mbc.unwrap().spec_external_ram().len()
            == pre.mbc.unwrap().spec_external_ram().len()
        &&& forall|i: int|
            0 <= i < post.mbc.unwrap().spec_external_ram().len()
                ==> post.mbc.unwrap().spec_external_ram()[i] == (if i < buffer.len() {
                buffer[i]
            } else {
                pre.mbc.unwrap().spec_external_ram()[i]
            })
    }
    &&& pre.mbc is None ==> {
        &&& post.mbc is None
        &&& post.memory@.len() == 0x10000
        &&& forall|i: int|
            0 <= i < 0x10000 ==> post.memory@[i] == (if 0xA000 <= i < 0xC000 && i - 0xA000
                < buffer.len() {
                buffer[i - 0xA000]
            } else {
                pre.memory@[i]
            })
    }
}

/// All fields but the joypad agree.
pub open spec fn same_except_joypad(pre: Mmu, post: Mmu) -> bool {
    &&& post.memory == pre.memory
    &&& post.oam_access == pre.oam_access
    &&& post.color_pallette_access == pre.color_pallette_access
    &&& post.vram_access == pre.vram_access
    &&& post.timer_frequency_changed == pre.timer_frequency_changed
    &&& post.rom == pre.rom
    &&& post.mbc == pre.mbc
    &&& post.cgb_vram == pre.cgb_vram
    &&& post.cgb_vram_bank == pre.cgb_vram_bank
    &&& post.cgb_background_palettes == pre.cgb_background_palettes
    &&& post.cgb_object_palettes == pre.cgb_object_palettes
}

} // verus!

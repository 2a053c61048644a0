//! Pixel-processing unit: the scanline state machine and the renderer.
//!
//! A scanline lasts 456 T-cycles: 80 of OAM search (mode 2), 172 of
//! pixel transfer (mode 3) and 204 of HBlank (mode 0); scanlines 144-153
//! are VBlank (mode 1). On the transition into VBlank a VBlank interrupt
//! is raised; mode changes and an LY = LYC coincidence raise LCD STAT
//! interrupts when the matching STAT enable bits are set.

use vstd::prelude::*;

use crate::interrupts::request_interrupt;
use crate::mmu::{same_except_memory, same_except_memory_and_access, Mmu};
use crate::utils::{
    get_bit_val, is_bit_set, spec_bit_val, spec_is_bit_set, spec_lcd_mode_bits, Byte, Interrupt,
    LcdMode, Word, BACKGROUND_SCROLL_X, BACKGROUND_SCROLL_Y, BG_COLOR_PALLETTE_ADDR,
    CURRENT_SCANLINE_ADDR, CURRENT_SCANLINE_COMPARE_ADDR, CYCLES_PER_SCANLINE, INTERRUPT_FLAG_ADDR,
    LCD_CONTROL_ADDR, LCD_STATUS_ADDR, MAX_SCANLINE_VALUE, OBJ_COLOR_PALLETTE_ADDR_0,
    OBJ_COLOR_PALLETTE_ADDR_1, WINDOW_POS_X, WINDOW_POS_Y,
};

verus! {

pub struct Ppu {
    /// T-cycles left in the current scanline, counted down from 456.
    pub scanline_counter: isize,
    /// The 160x144 output frame as packed R,G,B triples, row-major.
    pub screen: Vec<u8>,
}

/// Whether the LCD is switched on (LCDC bit 7).
pub open spec fn spec_lcd_enabled(m: Mmu) -> bool {
    spec_is_bit_set(m.memory@[LCD_CONTROL_ADDR as int], 7)
}

/// The mode the status register must show for a scanline `ly` with
/// `counter` cycles left: VBlank from line 144 on; otherwise OAM search
/// for the first 80 cycles, transfer for the next 172, HBlank for the
/// rest.
pub open spec fn spec_mode_for(ly: u8, counter: isize) -> LcdMode {
    if ly >= 144 {
        LcdMode::V_BLANK
    } else if counter >= 456 - 80 {
        LcdMode::SPRITE_SEARCH
    } else if counter >= 456 - 80 - 172 {
        LcdMode::LCD_TRANSFER
    } else {
        LcdMode::H_BLANK
    }
}

/// Whether STAT enables an interrupt for entering `mode`: bit 3 for
/// HBlank, bit 4 for VBlank, bit 5 for OAM search; pixel transfer has
/// no source.
pub open spec fn spec_stat_source_enabled(stat: u8, mode: LcdMode) -> bool {
    match mode {
        LcdMode::H_BLANK => spec_is_bit_set(stat, 3),
        LcdMode::V_BLANK => spec_is_bit_set(stat, 4),
        LcdMode::SPRITE_SEARCH => spec_is_bit_set(stat, 5),
        LcdMode::LCD_TRANSFER => false,
    }
}

/// During a status update, memory changes are confined to LY, STAT and
/// IF, and of the rest of the machine only the OAM/VRAM gates may move.
pub open spec fn ppu_mem_rel(pre: Mmu, post: Mmu) -> bool {
    &&& same_except_memory_and_access(pre, post)
    &&& post.memory@.len() == pre.memory@.len()
    &&& forall|a: int|
        0 <= a < 0x10000 && a != CURRENT_SCANLINE_ADDR && a != LCD_STATUS_ADDR
            && a != INTERRUPT_FLAG_ADDR ==> post.memory@[a] == pre.memory@[a]
}

proof fn lemma_stat_compose(s: u8, b: u8)
    by (bit_vector)
    requires
        b <= 3,
    ensures
        ((((s & 0xFC) | b) | 4) & 3) == b,
        ((((s & 0xFC) | b) & 0xFB) & 3) == b,
        ((((s & 0xFC) | b) | 4) & (1u8 << 2usize)) > 0,
        ((((s & 0xFC) | b) & 0xFB) & (1u8 << 2usize)) == 0,
        ((s & 0xFC) & 3) == 0,
{
}

impl Ppu {
    pub open spec fn wf(self) -> bool {
        &&& self.screen@.len() == 160 * 144 * 3
        &&& -255 <= self.scanline_counter <= 456
    }

    pub fn new() -> (r: Ppu)
        ensures
            r.wf(),
            r.scanline_counter == 456,
            r.screen@ == Seq::new((160 * 144 * 3) as nat, |i: int| 0u8),
    {
        Ppu { scanline_counter: CYCLES_PER_SCANLINE, screen: crate::mbc::vec_zeroes(160 * 144 * 3) }
    }

    pub fn get_screen(&self) -> (r: &Vec<u8>)
        ensures
            r@ == self.screen@,
    {
        &self.screen
    }

    /// Advances the scanline clock by the cycles the CPU just consumed.
    /// When a scanline's 456 cycles are spent, LY advances; entering
    /// line 144 raises the VBlank interrupt, line 154 rolls LY back to
    /// zero, and a visible line is drawn into the frame buffer.
    pub fn update_graphics(&mut self, mmu: &mut Mmu, cycles: u8)
        requires
            old(self).wf(),
            old(mmu).wf(),
        ensures
            final(self).wf(),
            final(mmu).wf(),
            ppu_mem_rel(*old(mmu), *final(mmu)),
            !spec_lcd_enabled(*old(mmu)) ==> final(self).scanline_counter == 456,
            spec_lcd_enabled(*old(mmu)) ==> final(self).scanline_counter == (if old(
                self,
            ).scanline_counter - cycles <= 0 {
                456
            } else {
                old(self).scanline_counter - cycles
            }),
            // Entering VBlank: when the scanline ends and LY moves from
            // 143 to 144, IF bit 0 (VBlank) is set.
            spec_lcd_enabled(*old(mmu)) && old(self).scanline_counter - cycles <= 0 && old(
                mmu,
            ).memory@[CURRENT_SCANLINE_ADDR as int] == 143 ==> spec_is_bit_set(
                final(mmu).memory@[INTERRUPT_FLAG_ADDR as int],
                0,
            ),
            // LY movement: with the LCD off it rests at zero; an
            // unexpired counter keeps it; an expired one advances it,
            // rolling over to zero after line 153 has played out.
            !spec_lcd_enabled(*old(mmu)) ==> final(mmu).memory@[CURRENT_SCANLINE_ADDR as int] == 0,
            ({
                let ly = old(mmu).memory@[CURRENT_SCANLINE_ADDR as int];
                let expired = old(self).scanline_counter - cycles <= 0;
                &&& (spec_lcd_enabled(*old(mmu)) && !expired) ==> final(mmu).memory@[CURRENT_SCANLINE_ADDR as int] == ly
                &&& (spec_lcd_enabled(*old(mmu)) && expired) ==> final(mmu).memory@[CURRENT_SCANLINE_ADDR as int] == (if ly > 153 {
                    0u8
                } else {
                    (ly + 1) as u8
                })
            }),
            // The frame buffer moves only in the row a finished visible
            // scanline draws.
            ({
                let ly = old(mmu).memory@[CURRENT_SCANLINE_ADDR as int];
                let expired = old(self).scanline_counter - cycles <= 0;
                let draws = spec_lcd_enabled(*old(mmu)) && expired && ly != 143 && ly <= 153;
                &&& !draws ==> final(self).screen == old(self).screen
                &&& draws ==> forall|k: int|
                    0 <= k < old(self).screen@.len() && !row_of((ly + 1) as u8, k) ==> final(self).screen@[k] == old(self).screen@[k]
                // The finished line was drawn: against the mid-step
                // machine state (status updated, LY advanced), the frame
                // buffer took the rendered row.
                &&& draws ==> exists|m1: Mmu|
                    (#[trigger] ppu_mem_rel(*old(mmu), m1)) && m1.memory@[CURRENT_SCANLINE_ADDR as int]
                        == ((ly + 1) as u8) && spec_drawn_row_rel(
                        m1,
                        old(self).screen@,
                        final(self).screen@,
                    )
            }),
    {
        self.update_lcd_status(mmu);

        // Only run the dot clock while the LCD is enabled.
        if self.is_lcd_enabled(mmu) {
            self.scanline_counter = self.scanline_counter - cycles as isize;
        }

        if self.scanline_counter <= 0 {
            // This scanline is finished: move to the next one.
            self.scanline_counter = CYCLES_PER_SCANLINE;

            let scanline = mmu.read_byte(CURRENT_SCANLINE_ADDR);
            mmu.update_scanline();

            if scanline == 143 {
                // LY just became 144: the frame enters VBlank.
                let ghost if_before = mmu.memory@[INTERRUPT_FLAG_ADDR as int];
                request_interrupt(mmu, Interrupt::V_BLANK);
                proof {
                    crate::utils::lemma_or_bit_sets(if_before, 0);
                }
            } else if scanline > MAX_SCANLINE_VALUE {
                mmu.reset_scanline();
            } else {
                let ghost m1 = *mmu;
                self.draw_scanline(mmu);
                proof {
                    assert(ppu_mem_rel(*old(mmu), m1) && m1.memory@[CURRENT_SCANLINE_ADDR as int]
                        == ((old(mmu).memory@[CURRENT_SCANLINE_ADDR as int] + 1) as u8)
                        && spec_drawn_row_rel(m1, old(self).screen@, self.screen@));
                }
            }
        }
    }

    fn get_current_scanline(&self, mmu: &Mmu) -> (r: Byte)
        requires
            mmu.wf(),
        ensures
            r == mmu.memory@[CURRENT_SCANLINE_ADDR as int],
    {
        mmu.read_byte(CURRENT_SCANLINE_ADDR)
    }

    /// Keeps the STAT register in step with the hardware state: picks
    /// the mode from LY and the dot counter, gates OAM and VRAM
    /// accordingly, raises the enabled STAT interrupts on mode change
    /// and maintains the LY = LYC coincidence bit. With the LCD off,
    /// LY rests at 0 and the mode is forced to HBlank.
    pub fn update_lcd_status(&mut self, mmu: &mut Mmu)
        requires
            old(self).wf(),
            old(mmu).wf(),
        ensures
            final(self).wf(),
            final(mmu).wf(),
            final(self).screen == old(self).screen,
            ppu_mem_rel(*old(mmu), *final(mmu)),
            !spec_lcd_enabled(*old(mmu)) ==> {
                &&& final(self).scanline_counter == 456
                &&& final(mmu).memory@[CURRENT_SCANLINE_ADDR as int] == 0
                &&& final(mmu).memory@[LCD_STATUS_ADDR as int] & 3 == 0
                &&& final(mmu).oam_access
                &&& final(mmu).vram_access
                &&& final(mmu).memory@[INTERRUPT_FLAG_ADDR as int] == old(
                    mmu,
                ).memory@[INTERRUPT_FLAG_ADDR as int]
            },
            spec_lcd_enabled(*old(mmu)) ==> {
                let ly = old(mmu).memory@[CURRENT_SCANLINE_ADDR as int];
                let mode = spec_mode_for(ly, old(self).scanline_counter);
                &&& final(self).scanline_counter == old(self).scanline_counter
                &&& final(mmu).memory@[CURRENT_SCANLINE_ADDR as int] == ly
                &&& final(mmu).memory@[LCD_STATUS_ADDR as int] & 3 == spec_lcd_mode_bits(mode)
                &&& final(mmu).oam_access == !(mode == LcdMode::SPRITE_SEARCH || mode
                    == LcdMode::LCD_TRANSFER)
                &&& final(mmu).vram_access == (mode != LcdMode::LCD_TRANSFER)
                &&& (ly == old(mmu).memory@[CURRENT_SCANLINE_COMPARE_ADDR as int]
                    <==> spec_is_bit_set(final(mmu).memory@[LCD_STATUS_ADDR as int], 2))
                &&& ((old(mmu).memory@[LCD_STATUS_ADDR as int] & 3) != spec_lcd_mode_bits(mode)
                    && spec_stat_source_enabled(old(mmu).memory@[LCD_STATUS_ADDR as int], mode))
                    ==> spec_is_bit_set(final(mmu).memory@[INTERRUPT_FLAG_ADDR as int], 1)
                &&& (ly == old(mmu).memory@[CURRENT_SCANLINE_COMPARE_ADDR as int]
                    && spec_is_bit_set(old(mmu).memory@[LCD_STATUS_ADDR as int], 6))
                    ==> spec_is_bit_set(final(mmu).memory@[INTERRUPT_FLAG_ADDR as int], 1)
            },
    {
        let scanline = mmu.read_byte(CURRENT_SCANLINE_ADDR);
        let scanline_compare = mmu.read_byte(CURRENT_SCANLINE_COMPARE_ADDR);
        let stat0 = mmu.read_byte(LCD_STATUS_ADDR);

        if !self.is_lcd_enabled(mmu) {
            // LCD off: the scanline rests at zero with a fresh dot
            // counter, the mode is forced to HBlank and both OAM and
            // VRAM are open.
            self.scanline_counter = CYCLES_PER_SCANLINE;
            mmu.reset_scanline();

            let stat1 = stat0 & 0xFC;
            proof {
                lemma_stat_compose(stat0, 0);
            }
            mmu.write_byte(LCD_STATUS_ADDR, stat1);

            mmu.open_oam_access();
            mmu.open_vram_access();
            return ;
        }

        let current_mode_bits = stat0 & 0x3;
        let mode_bits: u8;
        let mut should_request_stat_interrupt = false;

        if scanline >= 144 {
            mode_bits = 1;
            mmu.open_oam_access();
            mmu.open_vram_access();
            should_request_stat_interrupt = is_bit_set(&stat0, 4);
        } else if self.scanline_counter >= CYCLES_PER_SCANLINE - 80 {
            // The first 80 dots of a visible line: OAM search.
            mode_bits = 2;
            mmu.restrict_oam_access();
            mmu.open_vram_access();
            should_request_stat_interrupt = is_bit_set(&stat0, 5);
        } else if self.scanline_counter >= CYCLES_PER_SCANLINE - 80 - 172 {
            // Pixel transfer: OAM and VRAM both restricted.
            mode_bits = 3;
            mmu.restrict_oam_access();
            mmu.restrict_vram_access();
        } else {
            // HBlank for the rest of the line.
            mode_bits = 0;
            mmu.open_oam_access();
            mmu.open_vram_access();
            should_request_stat_interrupt = is_bit_set(&stat0, 3);
        }

        // Write the mode and the coincidence flag in one step.
        let coincidence = scanline == scanline_compare;
        let stat1 = (stat0 & 0xFC) | mode_bits;
        let stat2 = if coincidence {
            stat1 | 4
        } else {
            stat1 & 0xFB
        };
        proof {
            lemma_stat_compose(stat0, mode_bits);
        }
        mmu.write_byte(LCD_STATUS_ADDR, stat2);

        // A mode transition with the matching STAT source enabled raises
        // an LCD STAT interrupt.
        if current_mode_bits != mode_bits && should_request_stat_interrupt {
            let ghost if_before = mmu.memory@[INTERRUPT_FLAG_ADDR as int];
            request_interrupt(mmu, Interrupt::LCD_STAT);
            proof {
                crate::utils::lemma_or_bit_sets(if_before, 1);
            }
        }

        // So does an LY = LYC coincidence when STAT bit 6 is enabled.
        if coincidence && is_bit_set(&stat0, 6) {
            let ghost if_before = mmu.memory@[INTERRUPT_FLAG_ADDR as int];
            request_interrupt(mmu, Interrupt::LCD_STAT);
            proof {
                crate::utils::lemma_or_bit_sets(if_before, 1);
            }
        }
    }

    fn is_lcd_enabled(&mut self, mmu: &Mmu) -> (r: bool)
        requires
            mmu.wf(),
        ensures
            *final(self) == *old(self),
            r == spec_lcd_enabled(*mmu),
    {
        let lcdc = mmu.read_byte(LCD_CONTROL_ADDR);
        is_bit_set(&lcdc, 7)
    }

    /// Stores a mode into the low two STAT bits.
    pub fn set_lcd_mode(&mut self, mmu: &mut Mmu, mode: LcdMode)
        requires
            old(mmu).wf(),
        ensures
            *final(self) == *old(self),
            final(mmu).wf(),
            same_except_memory(*old(mmu), *final(mmu)),
            final(mmu).memory@ == old(mmu).memory@.update(
                LCD_STATUS_ADDR as int,
                ((old(mmu).memory@[LCD_STATUS_ADDR as int] & 0xFC) | spec_lcd_mode_bits(mode)),
            ),
    {
        let current_status = mmu.read_byte(LCD_STATUS_ADDR);
        let bits = crate::utils::lcd_mode_bits(mode);
        mmu.write_byte(LCD_STATUS_ADDR, (current_status & 0xFC) | bits);
    }

    /// Reads the mode back out of the low two STAT bits.
    pub fn get_lcd_mode(&mut self, mmu: &Mmu) -> (r: LcdMode)
        requires
            mmu.wf(),
        ensures
            *final(self) == *old(self),
            spec_lcd_mode_bits(r) == mmu.memory@[LCD_STATUS_ADDR as int] & 3,
    {
        let stat = mmu.read_byte(LCD_STATUS_ADDR);
        let mode = stat & 3;
        proof {
            crate::utils::lemma_and_mask_bound(stat, 3);
        }
        match mode {
            0 => LcdMode::H_BLANK,
            1 => LcdMode::V_BLANK,
            2 => LcdMode::SPRITE_SEARCH,
            _ => LcdMode::LCD_TRANSFER,
        }
    }

    pub fn is_vblank_stat_interrupt_enabled(&mut self, mmu: &Mmu) -> (r: bool)
        requires
            mmu.wf(),
        ensures
            *final(self) == *old(self),
            r == spec_is_bit_set(mmu.memory@[LCD_STATUS_ADDR as int], 4),
    {
        let stat = mmu.read_byte(LCD_STATUS_ADDR);
        is_bit_set(&stat, 4)
    }

    pub fn is_oam_stat_interrupt_enabled(&mut self, mmu: &Mmu) -> (r: bool)
        requires
            mmu.wf(),
        ensures
            *final(self) == *old(self),
            r == spec_is_bit_set(mmu.memory@[LCD_STATUS_ADDR as int], 5),
    {
        let stat = mmu.read_byte(LCD_STATUS_ADDR);
        is_bit_set(&stat, 5)
    }

    pub fn is_hblank_stat_interrupt_enabled(&mut self, mmu: &Mmu) -> (r: bool)
        requires
            mmu.wf(),
        ensures
            *final(self) == *old(self),
            r == spec_is_bit_set(mmu.memory@[LCD_STATUS_ADDR as int], 3),
    {
        let stat = mmu.read_byte(LCD_STATUS_ADDR);
        is_bit_set(&stat, 3)
    }

    /// Renders the background/window layer and the sprite layer of the
    /// current scanline into the frame buffer. Rows other than the
    /// current one are untouched; with sprites off, every pixel of a
    /// visible row takes its decoded background color, and with both
    /// layers off nothing moves.
    pub fn draw_scanline(&mut self, mmu: &Mmu)
        requires
            old(self).wf(),
            mmu.wf(),
        ensures
            final(self).wf(),
            final(self).scanline_counter == old(self).scanline_counter,
            forall|k: int|
                0 <= k < old(self).screen@.len() && !row_of(
                    mmu.memory@[CURRENT_SCANLINE_ADDR as int],
                    k,
                ) ==> final(self).screen@[k] == old(self).screen@[k],
            spec_drawn_row_rel(*mmu, old(self).screen@, final(self).screen@),
    {
        let ghost ly = mmu.memory@[CURRENT_SCANLINE_ADDR as int];
        if self.is_background_enabled(mmu) {
            self.render_background(mmu);
            proof {
                if ly < 144 {
                    assert forall|t: int| 0 <= t < 480 implies self.screen@.subrange(
                        ly * 480,
                        ly * 480 + 480,
                    )[t] == spec_bg_row(*mmu)[t] by {
                        vstd::arithmetic::div_mod::lemma_fundamental_div_mod(t, 3);
                        let i = t / 3;
                        assert(spec_bg_pixel(*mmu, spec_bg_y(*mmu), i)
                            == spec_bg_pixel(*mmu, spec_bg_y(*mmu), i));
                    }
                    assert(self.screen@.subrange(ly * 480, ly * 480 + 480) =~= spec_bg_row(*mmu));
                }
            }
        }
        if self.is_sprites_enabled(mmu) {
            self.render_sprites(mmu);
        }
    }

    pub fn is_background_enabled(&mut self, mmu: &Mmu) -> (r: bool)
        requires
            mmu.wf(),
        ensures
            *final(self) == *old(self),
            r == spec_is_bit_set(mmu.memory@[LCD_CONTROL_ADDR as int], 0),
    {
        let lcdc = mmu.read_byte(LCD_CONTROL_ADDR);
        is_bit_set(&lcdc, 0)
    }

    pub fn is_sprites_enabled(&mut self, mmu: &Mmu) -> (r: bool)
        requires
            mmu.wf(),
        ensures
            *final(self) == *old(self),
            r == spec_is_bit_set(mmu.memory@[LCD_CONTROL_ADDR as int], 1),
    {
        let lcdc = mmu.read_byte(LCD_CONTROL_ADDR);
        is_bit_set(&lcdc, 1)
    }

    pub fn is_window_enabled(&mut self, mmu: &Mmu) -> (r: bool)
        requires
            mmu.wf(),
        ensures
            *final(self) == *old(self),
            r == spec_is_bit_set(mmu.memory@[LCD_CONTROL_ADDR as int], 5),
    {
        let lcdc = mmu.read_byte(LCD_CONTROL_ADDR);
        is_bit_set(&lcdc, 5)
    }

    /// The window replaces the background once it is enabled and its top
    /// edge WY lies at or above the current scanline.
    pub fn should_draw_window(&mut self, mmu: &Mmu) -> (r: bool)
        requires
            mmu.wf(),
        ensures
            *final(self) == *old(self),
            r == (spec_is_bit_set(mmu.memory@[LCD_CONTROL_ADDR as int], 5)
                && mmu.memory@[WINDOW_POS_Y as int] <= mmu.spec_read(CURRENT_SCANLINE_ADDR)),
    {
        let window_y = self.get_window_position_y(mmu);
        let scanline = self.get_current_scanline(mmu);
        self.is_window_enabled(mmu) && window_y <= scanline
    }

    pub fn get_background_scroll_x(&mut self, mmu: &Mmu) -> (r: Byte)
        requires
            mmu.wf(),
        ensures
            *final(self) == *old(self),
            r == mmu.memory@[BACKGROUND_SCROLL_X as int],
    {
        mmu.read_byte(BACKGROUND_SCROLL_X)
    }

    pub fn get_background_scroll_y(&mut self, mmu: &Mmu) -> (r: Byte)
        requires
            mmu.wf(),
        ensures
            *final(self) == *old(self),
            r == mmu.memory@[BACKGROUND_SCROLL_Y as int],
    {
        mmu.read_byte(BACKGROUND_SCROLL_Y)
    }

    /// The window's left edge; the WX register is offset by seven
    /// pixels.
    pub fn get_window_position_x(&mut self, mmu: &Mmu) -> (r: Byte)
        requires
            mmu.wf(),
        ensures
            *final(self) == *old(self),
            r as int == (mmu.memory@[WINDOW_POS_X as int] - 7) % 256,
    {
        let wx = mmu.read_byte(WINDOW_POS_X);
        if wx >= 7 {
            wx - 7
        } else {
            wx + 249
        }
    }

    pub fn get_window_position_y(&mut self, mmu: &Mmu) -> (r: Byte)
        requires
            mmu.wf(),
        ensures
            *final(self) == *old(self),
            r == mmu.memory@[WINDOW_POS_Y as int],
    {
        mmu.read_byte(WINDOW_POS_Y)
    }

    /// LCDC bit 3 picks the background tile map at 0x9800 or 0x9C00.
    pub fn get_background_tile_map_area(&mut self, mmu: &Mmu) -> (r: Word)
        requires
            mmu.wf(),
        ensures
            *final(self) == *old(self),
            r == (if spec_is_bit_set(mmu.memory@[LCD_CONTROL_ADDR as int], 3) {
                0x9C00u16
            } else {
                0x9800u16
            }),
    {
        let lcdc = mmu.read_byte(LCD_CONTROL_ADDR);
        match is_bit_set(&lcdc, 3) {
            true => 0x9C00,
            false => 0x9800,
        }
    }

    /// LCDC bit 6 picks the window tile map at 0x9800 or 0x9C00.
    pub fn get_window_tile_map_area(&mut self, mmu: &Mmu) -> (r: Word)
        requires
            mmu.wf(),
        ensures
            *final(self) == *old(self),
            r == (if spec_is_bit_set(mmu.memory@[LCD_CONTROL_ADDR as int], 6) {
                0x9C00u16
            } else {
                0x9800u16
            }),
    {
        let lcdc = mmu.read_byte(LCD_CONTROL_ADDR);
        match is_bit_set(&lcdc, 6) {
            true => 0x9C00,
            false => 0x9800,
        }
    }

    /// LCDC bit 4 picks unsigned tile indexing from 0x8000 or signed
    /// indexing around 0x9000.
    pub fn get_background_tile_data_area(&mut self, mmu: &Mmu) -> (r: Word)
        requires
            mmu.wf(),
        ensures
            *final(self) == *old(self),
            r == (if spec_is_bit_set(mmu.memory@[LCD_CONTROL_ADDR as int], 4) {
                0x8000u16
            } else {
                0x9000u16
            }),
    {
        let lcdc = mmu.read_byte(LCD_CONTROL_ADDR);
        match is_bit_set(&lcdc, 4) {
            true => 0x8000,
            false => 0x9000,
        }
    }

    /// LCDC bit 2 selects 8x16 sprites instead of 8x8.
    pub fn get_sprite_height(&mut self, mmu: &Mmu) -> (r: u8)
        requires
            mmu.wf(),
        ensures
            *final(self) == *old(self),
            r == (if spec_is_bit_set(mmu.memory@[LCD_CONTROL_ADDR as int], 2) {
                16u8
            } else {
                8u8
            }),
    {
        let lcdc = mmu.read_byte(LCD_CONTROL_ADDR);
        match is_bit_set(&lcdc, 2) {
            true => 16,
            false => 8,
        }
    }

    /// Sprite tiles always come from 0x8000.
    pub fn get_sprite_tile_data_area(&mut self, _mmu: &Mmu) -> (r: Word)
        ensures
            *final(self) == *old(self),
            r == 0x8000,
    {
        0x8000
    }

    pub fn is_background_tile_data_addressing_signed(&mut self, mmu: &Mmu) -> (r: bool)
        requires
            mmu.wf(),
        ensures
            *final(self) == *old(self),
            r == !spec_is_bit_set(mmu.memory@[LCD_CONTROL_ADDR as int], 4),
    {
        let lcdc = mmu.read_byte(LCD_CONTROL_ADDR);
        !is_bit_set(&lcdc, 4)
    }

    /// Paints the background (or window) pixels of the current scanline:
    /// each of its 160 screen pixels takes the decoded background color.
    pub fn render_background(&mut self, mmu: &Mmu)
        requires
            old(self).wf(),
            mmu.wf(),
        ensures
            final(self).wf(),
            final(self).scanline_counter == old(self).scanline_counter,
            forall|k: int|
                0 <= k < old(self).screen@.len() && !row_of(
                    mmu.memory@[CURRENT_SCANLINE_ADDR as int],
                    k,
                ) ==> final(self).screen@[k] == old(self).screen@[k],
            ({
                let ly = mmu.memory@[CURRENT_SCANLINE_ADDR as int];
                ly < 144 ==> forall|i: int|
                    #![trigger spec_bg_pixel(*mmu, spec_bg_y(*mmu), i)]
                    0 <= i < 160 ==> {
                        let px = spec_bg_pixel(*mmu, spec_bg_y(*mmu), i);
                        &&& final(self).screen@[ly * 480 + i * 3] == px.0
                        &&& final(self).screen@[ly * 480 + i * 3 + 1] == px.1
                        &&& final(self).screen@[ly * 480 + i * 3 + 2] == px.2
                    }
            }),
    {
        let current_scanline = self.get_current_scanline(mmu);

        // The source row depends on whether the window covers this
        // scanline: inside the window rows count from WY, outside they
        // scroll with SCY.
        let y_pos: u8 = if self.should_draw_window(mmu) {
            let wy = self.get_window_position_y(mmu);
            current_scanline.wrapping_sub(wy)
        } else {
            let scy = self.get_background_scroll_y(mmu);
            scy.wrapping_add(current_scanline)
        };

        if current_scanline < 144 {
            proof {
                assert(y_pos == spec_bg_y(*mmu));
            }
            let pixels = self.get_background_tile_pixels(mmu, y_pos);
            let mut i: usize = 0;
            while i < 160
                invariant
                    self.wf(),
                    old(self).screen@.len() == 160 * 144 * 3,
                    self.scanline_counter == old(self).scanline_counter,
                    pixels@.len() == 160,
                    forall|j: int|
                        0 <= j < 160 ==> pixels@[j] == spec_bg_pixel(*mmu, spec_bg_y(*mmu), j),
                    i <= 160,
                    current_scanline < 144,
                    current_scanline == mmu.memory@[CURRENT_SCANLINE_ADDR as int],
                    forall|k: int|
                        0 <= k < old(self).screen@.len() && !row_of(
                            mmu.memory@[CURRENT_SCANLINE_ADDR as int],
                            k,
                        ) ==> self.screen@[k] == old(self).screen@[k],
                    forall|j: int|
                        #![trigger spec_bg_pixel(*mmu, spec_bg_y(*mmu), j)]
                        0 <= j < i ==> {
                            let px = spec_bg_pixel(*mmu, spec_bg_y(*mmu), j);
                            &&& self.screen@[current_scanline * 480 + j * 3] == px.0
                            &&& self.screen@[current_scanline * 480 + j * 3 + 1] == px.1
                            &&& self.screen@[current_scanline * 480 + j * 3 + 2] == px.2
                        },
                decreases 160 - i,
            {
                let base = (current_scanline as usize) * 3 * 160 + i * 3;
                let pixel = pixels[i];
                self.screen[base] = pixel.0;
                self.screen[base + 1] = pixel.1;
                self.screen[base + 2] = pixel.2;
                i = i + 1;
            }
        }
    }

    /// Computes the 160 background or window pixels of source row `y`.
    #[verifier::rlimit(100)]
    #[verifier::spinoff_prover]
    pub fn get_background_tile_pixels(&mut self, mmu: &Mmu, y: Byte) -> (r: Vec<(Byte, Byte, Byte)>)
        requires
            old(self).wf(),
            mmu.wf(),
        ensures
            *final(self) == *old(self),
            r@.len() == 160,
            forall|i: int| 0 <= i < 160 ==> r@[i] == spec_bg_pixel(*mmu, y, i),
    {
        let mut pixels: Vec<(Byte, Byte, Byte)> = Vec::new();
        let draw_window = self.should_draw_window(mmu);
        let scroll_x = self.get_background_scroll_x(mmu);
        let window_position_x = self.get_window_position_x(mmu);
        let tile_map_addr: u16 = if draw_window {
            self.get_window_tile_map_area(mmu)
        } else {
            self.get_background_tile_map_area(mmu)
        };
        let signed_addressing = self.is_background_tile_data_addressing_signed(mmu);
        let tile_data_addr = self.get_background_tile_data_area(mmu);

        let mut i: usize = 0;
        while i < 160
            invariant
                self.wf(),
                *self == *old(self),
                mmu.wf(),
                pixels@.len() == i,
                i <= 160,
                draw_window == spec_window_covers(*mmu),
                scroll_x == mmu.memory@[BACKGROUND_SCROLL_X as int],
                window_position_x as int == (mmu.memory@[WINDOW_POS_X as int] - 7) % 256,
                tile_map_addr == (if draw_window {
                    if spec_is_bit_set(mmu.memory@[LCD_CONTROL_ADDR as int], 6) {
                        0x9C00u16
                    } else {
                        0x9800u16
                    }
                } else {
                    if spec_is_bit_set(mmu.memory@[LCD_CONTROL_ADDR as int], 3) {
                        0x9C00u16
                    } else {
                        0x9800u16
                    }
                }),
                signed_addressing == !spec_is_bit_set(mmu.memory@[LCD_CONTROL_ADDR as int], 4),
                tile_data_addr == (if signed_addressing {
                    0x9000u16
                } else {
                    0x8000u16
                }),
                forall|j: int| 0 <= j < i ==> pixels@[j] == spec_bg_pixel(*mmu, y, j),
            decreases 160 - i,
        {
            // The source column: scrolled for the background, counted
            // from the window edge inside the window.
            let x: u8 = if draw_window && i as u8 >= window_position_x {
                (i as u8).wrapping_sub(window_position_x)
            } else {
                scroll_x.wrapping_add(i as u8)
            };

            // The 32x32 tile map wraps in both directions.
            let x_offset: u16 = (x / 8) as u16;
            let y_offset: u16 = ((y / 8) as u16) * 32;

            let tile_identifier = mmu.read_byte(tile_map_addr + x_offset + y_offset);

            // A tile occupies 16 bytes; signed indexing counts around
            // 0x9000, unsigned up from 0x8000.
            let addr: u16 = if signed_addressing {
                let signed_identifier = tile_identifier as i8;
                ((tile_data_addr as i32) + (signed_identifier as i32) * 16) as u16
            } else {
                tile_data_addr + (tile_identifier as u16) * 16
            };

            let line_offset: u16 = ((y % 8) as u16) * 2;
            let pixel_offset: u8 = 7 - (x % 8);
            let tile_data_low = mmu.read_byte(addr.wrapping_add(line_offset));
            let tile_data_high = mmu.read_byte(addr.wrapping_add(line_offset).wrapping_add(1));

            let color = self.get_color(
                mmu,
                BG_COLOR_PALLETTE_ADDR,
                tile_data_low,
                tile_data_high,
                pixel_offset,
            );
            proof {
                assert(color == spec_bg_pixel(*mmu, y, i as int));
            }
            pixels.push(color);
            i = i + 1;
        }
        pixels
    }

    /// Paints the sprites that cover the current scanline: the row ends
    /// up as the sprite overlay fold over the 40 OAM entries, walked in
    /// reverse order so that on overlap the earlier entry wins.
    #[verifier::rlimit(100)]
    #[verifier::spinoff_prover]
    pub fn render_sprites(&mut self, mmu: &Mmu)
        requires
            old(self).wf(),
            mmu.wf(),
        ensures
            final(self).wf(),
            final(self).scanline_counter == old(self).scanline_counter,
            forall|k: int|
                0 <= k < old(self).screen@.len() && !row_of(
                    mmu.memory@[CURRENT_SCANLINE_ADDR as int],
                    k,
                ) ==> final(self).screen@[k] == old(self).screen@[k],
            ({
                let ly = mmu.memory@[CURRENT_SCANLINE_ADDR as int];
                &&& ly >= 144 ==> final(self).screen == old(self).screen
                &&& ly < 144 ==> forall|t: int|
                    #![trigger final(self).screen@[ly * 480 + t]]
                    0 <= t < 480 ==> final(self).screen@[ly * 480 + t] == spec_sprites_down(
                        *mmu,
                        ly,
                        old(self).screen@.subrange(ly * 480, ly * 480 + 480),
                        0,
                    )[t]
            }),
    {
        let current_scanline = self.get_current_scanline(mmu);
        let sprite_height = self.get_sprite_height(mmu);
        let ghost ly = mmu.memory@[CURRENT_SCANLINE_ADDR as int];
        let ghost row0 = old(self).screen@.subrange(ly * 480, ly * 480 + 480);

        let mut n: usize = 0;
        while n < 40
            invariant
                self.wf(),
                old(self).screen@.len() == 160 * 144 * 3,
                self.scanline_counter == old(self).scanline_counter,
                mmu.wf(),
                n <= 40,
                sprite_height == (if spec_is_bit_set(mmu.memory@[LCD_CONTROL_ADDR as int], 2) {
                    16u8
                } else {
                    8u8
                }),
                current_scanline == mmu.memory@[CURRENT_SCANLINE_ADDR as int],
                ly == mmu.memory@[CURRENT_SCANLINE_ADDR as int],
                ly < 144 ==> row0 == old(self).screen@.subrange(ly * 480, ly * 480 + 480)
                    && row0.len() == 480,
                forall|k: int|
                    0 <= k < old(self).screen@.len() && !row_of(
                        mmu.memory@[CURRENT_SCANLINE_ADDR as int],
                        k,
                    ) ==> self.screen@[k] == old(self).screen@[k],
                ly >= 144 ==> self.screen == old(self).screen,
                ly < 144 ==> forall|t: int|
                    #![trigger self.screen@[ly * 480 + t]]
                    0 <= t < 480 ==> self.screen@[ly * 480 + t] == spec_sprites_down(
                        *mmu,
                        ly,
                        row0,
                        40 - n,
                    )[t],
            decreases 40 - n,
        {
            let i: u16 = (39 - n) as u16;
            proof {
                if ly < 144 {
                    lemma_sprites_down_len(*mmu, ly, row0, 40 - n as int);
                    lemma_sprites_down_len(*mmu, ly, row0, 39 - n as int);
                }
            }
            let ghost row_entry = spec_sprites_down(*mmu, ly, row0, 40 - n as int);
            // Each OAM entry is four bytes: Y position + 16, X position
            // + 8, the tile index and the attribute bits.
            let start_addr = 0xFE00u16 + i * 4;
            let y_position = mmu.read_byte(start_addr).wrapping_sub(16);
            let x_position = mmu.read_byte(start_addr + 1).wrapping_sub(8);
            let tile_idx = mmu.read_byte(start_addr + 2);
            let attributes = mmu.read_byte(start_addr + 3);

            let covers = (current_scanline as u16) >= (y_position as u16) && (current_scanline
                as u16) < (y_position as u16) + (sprite_height as u16);
            if covers && current_scanline < 144 {
                let mut line: u16 = (current_scanline - y_position) as u16;
                // Attribute bit 6 flips the sprite vertically.
                if is_bit_set(&attributes, 6) {
                    line = (sprite_height as u16 - 1) - line;
                }

                // Each tile row is two planar bytes of a 16-byte tile.
                let tile_line_addr = 0x8000u16.wrapping_add((tile_idx as u16) * 16).wrapping_add(
                    line * 2,
                );
                let lo = mmu.read_byte(tile_line_addr);
                let hi = mmu.read_byte(tile_line_addr.wrapping_add(1));

                // Attribute bit 4 picks the object palette.
                let palette_addr = if is_bit_set(&attributes, 4) {
                    OBJ_COLOR_PALLETTE_ADDR_1
                } else {
                    OBJ_COLOR_PALLETTE_ADDR_0
                };

                let mut j: u8 = 0;
                while j < 8
                    invariant
                        self.wf(),
                        old(self).screen@.len() == 160 * 144 * 3,
                        self.scanline_counter == old(self).scanline_counter,
                        mmu.wf(),
                        j <= 8,
                        n < 40,
                        i == 39 - n,
                        start_addr == 0xFE00 + i * 4,
                        current_scanline < 144,
                        current_scanline == mmu.memory@[CURRENT_SCANLINE_ADDR as int],
                        ly == mmu.memory@[CURRENT_SCANLINE_ADDR as int],
                        row0.len() == 480,
                        row_entry == spec_sprites_down(*mmu, ly, row0, 40 - n as int),
                        row_entry.len() == 480,
                        sprite_height == (if spec_is_bit_set(
                            mmu.memory@[LCD_CONTROL_ADDR as int],
                            2,
                        ) {
                            16u8
                        } else {
                            8u8
                        }),
                        y_position as int == (mmu.spec_read(start_addr) - 16) % 256,
                        x_position as int == (mmu.spec_read((start_addr + 1) as u16) - 8) % 256,
                        tile_idx == mmu.spec_read((start_addr + 2) as u16),
                        attributes == mmu.spec_read((start_addr + 3) as u16),
                        y_position <= current_scanline < y_position + sprite_height,
                        line as int == (if spec_is_bit_set(attributes, 6) {
                            (sprite_height - 1) - (current_scanline - y_position)
                        } else {
                            (current_scanline - y_position) as int
                        }),
                        tile_line_addr == crate::cpu::word_add(
                            crate::cpu::word_add(0x8000, ((tile_idx as u16) * 16) as u16),
                            (line * 2) as u16,
                        ),
                        lo == mmu.spec_read(tile_line_addr),
                        hi == mmu.spec_read(crate::cpu::word_add(tile_line_addr, 1)),
                        palette_addr == (if spec_is_bit_set(attributes, 4) {
                            OBJ_COLOR_PALLETTE_ADDR_1
                        } else {
                            OBJ_COLOR_PALLETTE_ADDR_0
                        }),
                        forall|k: int|
                            0 <= k < old(self).screen@.len() && !row_of(
                                mmu.memory@[CURRENT_SCANLINE_ADDR as int],
                                k,
                            ) ==> self.screen@[k] == old(self).screen@[k],
                        forall|t: int|
                            #![trigger self.screen@[ly * 480 + t]]
                            0 <= t < 480 ==> self.screen@[ly * 480 + t] == spec_sprite_pixels(
                                *mmu,
                                ly,
                                row_entry,
                                i as int,
                                j as int,
                            )[t],
                    decreases 8 - j,
                {
                    proof {
                        lemma_sprite_pixels_len(*mmu, ly, row_entry, i as int, j as int);
                        lemma_sprite_pixels_len(*mmu, ly, row_entry, i as int, j as int + 1);
                    }
                    let ghost row_j = spec_sprite_pixels(*mmu, ly, row_entry, i as int, j as int);
                    let ghost stepped = spec_sprite_pixel_step(*mmu, ly, row_j, i as int, j as int);
                    // Attribute bit 5 flips the sprite horizontally.
                    let bit: u8 = if is_bit_set(&attributes, 5) {
                        j
                    } else {
                        7 - j
                    };
                    let color_code = self.get_color_code(lo, hi, bit);

                    // Color index 0 is transparent for sprites.
                    if color_code != 0 {
                        let pixel_x = x_position.wrapping_add(j);
                        if pixel_x < 160 {
                            proof {
                                let t0: int = (pixel_x as int) * 3;
                                let t1: int = (pixel_x as int) * 3 + 1;
                                let t2: int = (pixel_x as int) * 3 + 2;
                                assert(self.screen@[ly * 480 + t0] == row_j[t0]);
                                assert(self.screen@[ly * 480 + t1] == row_j[t1]);
                                assert(self.screen@[ly * 480 + t2] == row_j[t2]);
                            }
                            // Attribute bit 7 hides the sprite behind any
                            // non-white pixel already in the row.
                            let behind = is_bit_set(&attributes, 7) && !self.is_pixel_white(
                                mmu,
                                pixel_x,
                                current_scanline,
                            );
                            if !behind {
                                let color = self.get_color(mmu, palette_addr, lo, hi, bit);
                                let base = (current_scanline as usize) * 3 * 160 + (pixel_x
                                    as usize) * 3;
                                proof {
                                    assert(stepped == row_j.update(
                                        (pixel_x as int) * 3,
                                        spec_gb_color(
                                            spec_shade(
                                                mmu.spec_read(palette_addr),
                                                spec_color_code(lo, hi, bit),
                                            ),
                                        ).0,
                                    ).update(
                                        (pixel_x as int) * 3 + 1,
                                        spec_gb_color(
                                            spec_shade(
                                                mmu.spec_read(palette_addr),
                                                spec_color_code(lo, hi, bit),
                                            ),
                                        ).1,
                                    ).update(
                                        (pixel_x as int) * 3 + 2,
                                        spec_gb_color(
                                            spec_shade(
                                                mmu.spec_read(palette_addr),
                                                spec_color_code(lo, hi, bit),
                                            ),
                                        ).2,
                                    ));
                                }
                                self.screen[base] = color.0;
                                self.screen[base + 1] = color.1;
                                self.screen[base + 2] = color.2;
                            } else {
                                proof {
                                    assert(stepped == row_j);
                                }
                            }
                        } else {
                            proof {
                                assert(stepped == row_j);
                            }
                        }
                    } else {
                        proof {
                            assert(stepped == row_j);
                        }
                    }
                    proof {
                        assert forall|t: int|
                            0 <= t < 480 implies self.screen@[ly * 480 + t] == stepped[t] by {
                            assert(self.screen@[ly * 480 + t] == stepped[t]);
                        }
                    }
                    j = j + 1;
                }
            } else {
                proof {
                    if !covers {
                        lemma_sprite_entry_no_cover(*mmu, ly, row_entry, i as int, 8);
                    }
                }
            }
            n = n + 1;
        }
    }

    /// The 2-bit color index of pixel `bit` in a planar tile row.
    pub fn get_color_code(&self, tile_data_low: Byte, tile_data_high: Byte, bit: u8) -> (r: u8)
        requires
            bit < 8,
        ensures
            r == spec_color_code(tile_data_low, tile_data_high, bit),
            r <= 3,
    {
        let least_significant_bit = get_bit_val(&tile_data_low, bit);
        let most_significant_bit = get_bit_val(&tile_data_high, bit);
        proof {
            let m = most_significant_bit;
            let l = least_significant_bit;
            assert(m <= 1 && l <= 1 ==> ((m << 1u8) | l) <= 3) by (bit_vector);
        }
        (most_significant_bit << 1u8) | least_significant_bit
    }

    /// Decodes pixel `bit` of a planar tile row through the palette
    /// register at `palette_addr` into an RGB triple.
    pub fn get_color(
        &self,
        mmu: &Mmu,
        palette_addr: Word,
        tile_data_low: Byte,
        tile_data_high: Byte,
        bit: u8,
    ) -> (r: (Byte, Byte, Byte))
        requires
            mmu.wf(),
            bit < 8,
        ensures
            r == spec_gb_color(
                spec_shade(
                    mmu.spec_read(palette_addr),
                    spec_color_code(tile_data_low, tile_data_high, bit),
                ),
            ),
    {
        let color_code = self.get_color_code(tile_data_low, tile_data_high, bit);
        let pallette = mmu.read_byte(palette_addr);

        // The palette packs a 2-bit shade for each of the four color
        // indices: bits 1-0 for index 0 up to bits 7-6 for index 3.
        let color: u8 = match color_code {
            3 => (get_bit_val(&pallette, 7) << 1u8) | get_bit_val(&pallette, 6),
            2 => (get_bit_val(&pallette, 5) << 1u8) | get_bit_val(&pallette, 4),
            1 => (get_bit_val(&pallette, 3) << 1u8) | get_bit_val(&pallette, 2),
            _ => (get_bit_val(&pallette, 1) << 1u8) | get_bit_val(&pallette, 0),
        };

        gb_color(color)
    }

    /// Whether the frame buffer holds a white pixel at (x, y); white is
    /// what a zero background color index leaves behind under the
    /// standard palette.
    pub fn is_pixel_white(&self, _mmu: &Mmu, x: u8, y: u8) -> (r: bool)
        requires
            self.wf(),
            x < 160,
            y < 144,
        ensures
            r == (self.screen@[y as int * 480 + x as int * 3] == 0xFF && self.screen@[y as int * 480
                + x as int * 3 + 1] == 0xFF && self.screen@[y as int * 480 + x as int * 3 + 2]
                == 0xFF),
    {
        let base = (y as usize) * 3 * 160 + (x as usize) * 3;
        self.screen[base] == 0xFF && self.screen[base + 1] == 0xFF && self.screen[base + 2] == 0xFF
    }

    /// Mirrors an LY = LYC comparison into STAT bit 2.
    pub fn update_coincidence_flag(&mut self, mmu: &mut Mmu, val: bool)
        requires
            old(mmu).wf(),
        ensures
            *final(self) == *old(self),
            final(mmu).wf(),
            same_except_memory(*old(mmu), *final(mmu)),
            final(mmu).memory@ == old(mmu).memory@.update(
                LCD_STATUS_ADDR as int,
                (if val {
                    old(mmu).memory@[LCD_STATUS_ADDR as int] | (1u8 << 2usize)
                } else {
                    old(mmu).memory@[LCD_STATUS_ADDR as int] & !(1u8 << 2usize)
                }),
            ),
    {
        let mut status = mmu.read_byte(LCD_STATUS_ADDR);
        if val {
            crate::utils::set_bit(&mut status, 2);
        } else {
            crate::utils::reset_bit(&mut status, 2);
        }
        mmu.write_byte(LCD_STATUS_ADDR, status);
    }

    /// Decodes the 384 tiles in the tile-data region 0x8000-0x97FF into
    /// a 128x192 RGB image, 16 tiles per row, through the background
    /// palette; a debug view of VRAM for the host.
    pub fn get_vram_tiles(&self, mmu: &Mmu) -> (r: Vec<u8>)
        requires
            self.wf(),
            mmu.wf(),
        ensures
            r@.len() == 128 * 192 * 3,
    {
        let mut out = crate::mbc::vec_zeroes(128 * 192 * 3);
        let mut t: usize = 0;
        while t < 384
            invariant
                mmu.wf(),
                out@.len() == 128 * 192 * 3,
                t <= 384,
            decreases 384 - t,
        {
            let mut row: usize = 0;
            while row < 8
                invariant
                    mmu.wf(),
                    out@.len() == 128 * 192 * 3,
                    t < 384,
                    row <= 8,
                decreases 8 - row,
            {
                let line_addr: usize = 0x8000 + t * 16 + row * 2;
                let lo = mmu.memory[line_addr];
                let hi = mmu.memory[line_addr + 1];
                let mut col: usize = 0;
                while col < 8
                    invariant
                        mmu.wf(),
                        out@.len() == 128 * 192 * 3,
                        t < 384,
                        row < 8,
                        col <= 8,
                    decreases 8 - col,
                {
                    let bit: u8 = (7 - col) as u8;
                    let color = self.get_color(mmu, BG_COLOR_PALLETTE_ADDR, lo, hi, bit);
                    let y = (t / 16) * 8 + row;
                    let x = (t % 16) * 8 + col;
                    let base = y * 128 * 3 + x * 3;
                    out[base] = color.0;
                    out[base + 1] = color.1;
                    out[base + 2] = color.2;
                    col = col + 1;
                }
                row = row + 1;
            }
            t = t + 1;
        }
        out
    }
}

/// Whether the window covers the current scanline: it is enabled and
/// its top edge WY lies at or above LY.
pub open spec fn spec_window_covers(m: Mmu) -> bool {
    spec_is_bit_set(m.memory@[LCD_CONTROL_ADDR as int], 5)
        && m.memory@[WINDOW_POS_Y as int] <= m.memory@[CURRENT_SCANLINE_ADDR as int]
}

/// The source row the background renderer reads for the current
/// scanline: counted from the window's top edge inside the window,
/// scrolled by SCY outside it.
pub open spec fn spec_bg_y(m: Mmu) -> u8 {
    let ly = m.memory@[CURRENT_SCANLINE_ADDR as int];
    if spec_window_covers(m) {
        ((ly - m.memory@[WINDOW_POS_Y as int]) % 256) as u8
    } else {
        ((m.memory@[BACKGROUND_SCROLL_Y as int] + ly) % 256) as u8
    }
}

/// The background or window pixel at screen column `i` of source row
/// `y`: the source column scrolls with SCX (or counts from the window
/// edge), the 32x32 tile map picks a tile index, the index addresses
/// 16-byte tile data from 0x8000 (unsigned) or around 0x9000 (signed),
/// and the two planar bytes of the row decode through the background
/// palette.
pub open spec fn spec_bg_pixel(m: Mmu, y: u8, i: int) -> (u8, u8, u8) {
    let lcdc = m.memory@[LCD_CONTROL_ADDR as int];
    let draw_window = spec_window_covers(m);
    let wx = ((m.memory@[WINDOW_POS_X as int] - 7) % 256) as u8;
    let x: u8 = if draw_window && i >= wx {
        ((i - wx) % 256) as u8
    } else {
        ((m.memory@[BACKGROUND_SCROLL_X as int] + i) % 256) as u8
    };
    let tile_map_addr: u16 = if draw_window {
        if spec_is_bit_set(lcdc, 6) {
            0x9C00
        } else {
            0x9800
        }
    } else {
        if spec_is_bit_set(lcdc, 3) {
            0x9C00
        } else {
            0x9800
        }
    };
    let tile_identifier = m.spec_read(
        (tile_map_addr + (x / 8) as u16 + ((y / 8) as u16) * 32) as u16,
    );
    let addr: u16 = if !spec_is_bit_set(lcdc, 4) {
        (0x9000 + (tile_identifier as i8) * 16) as u16
    } else {
        (0x8000 + tile_identifier * 16) as u16
    };
    let line_addr = crate::cpu::word_add(addr, (((y % 8) as u16) * 2) as u16);
    let lo = m.spec_read(line_addr);
    let hi = m.spec_read(crate::cpu::word_add(line_addr, 1));
    spec_gb_color(spec_shade(m.spec_read(BG_COLOR_PALLETTE_ADDR), spec_color_code(lo, hi, (7 - (x % 8)) as u8)))
}

/// One sprite pixel applied to a 480-byte screen row: pixel `j` (left
/// to right) of OAM entry `i`. The entry contributes when the scanline
/// lies in its vertical span; color index 0 is transparent; attribute
/// bit 5 flips horizontally, bit 6 vertically, bit 4 picks the object
/// palette, and bit 7 hides the pixel behind any non-white pixel
/// already in the row.
pub open spec fn spec_sprite_pixel_step(m: Mmu, ly: u8, row: Seq<u8>, i: int, j: int) -> Seq<u8> {
    let start = 0xFE00 + i * 4;
    let y_position = ((m.spec_read(start as u16) - 16) % 256) as u8;
    let x_position = ((m.spec_read((start + 1) as u16) - 8) % 256) as u8;
    let tile_idx = m.spec_read((start + 2) as u16);
    let attributes = m.spec_read((start + 3) as u16);
    let height: u8 = if spec_is_bit_set(m.memory@[LCD_CONTROL_ADDR as int], 2) {
        16
    } else {
        8
    };
    if !(y_position <= ly && ly < y_position + height) {
        row
    } else {
        let line0 = (ly - y_position) as u16;
        let line = if spec_is_bit_set(attributes, 6) {
            ((height - 1) - line0) as u16
        } else {
            line0
        };
        let tla = crate::cpu::word_add(
            crate::cpu::word_add(0x8000, ((tile_idx as u16) * 16) as u16),
            (line * 2) as u16,
        );
        let lo = m.spec_read(tla);
        let hi = m.spec_read(crate::cpu::word_add(tla, 1));
        let palette = m.spec_read(
            if spec_is_bit_set(attributes, 4) {
                OBJ_COLOR_PALLETTE_ADDR_1
            } else {
                OBJ_COLOR_PALLETTE_ADDR_0
            },
        );
        let bit: u8 = if spec_is_bit_set(attributes, 5) {
            j as u8
        } else {
            (7 - j) as u8
        };
        let code = spec_color_code(lo, hi, bit);
        if code == 0 {
            row
        } else {
            let px = ((x_position + j) % 256) as u8;
            if px >= 160 {
                row
            } else {
                let white = row[px * 3] == 0xFF && row[px * 3 + 1] == 0xFF && row[px * 3 + 2]
                    == 0xFF;
                if spec_is_bit_set(attributes, 7) && !white {
                    row
                } else {
                    let c = spec_gb_color(spec_shade(palette, code));
                    row.update(px * 3, c.0).update(px * 3 + 1, c.1).update(px * 3 + 2, c.2)
                }
            }
        }
    }
}

/// The first `j` pixels of OAM entry `i` applied to a row, left to
/// right.
pub open spec fn spec_sprite_pixels(m: Mmu, ly: u8, row: Seq<u8>, i: int, j: int) -> Seq<u8>
    decreases j,
{
    if j <= 0 {
        row
    } else {
        spec_sprite_pixel_step(m, ly, spec_sprite_pixels(m, ly, row, i, j - 1), i, j - 1)
    }
}

/// OAM entries 39 down to `upto` applied to a row in that order, so
/// that on overlap the lower-numbered entry wins.
pub open spec fn spec_sprites_down(m: Mmu, ly: u8, row: Seq<u8>, upto: int) -> Seq<u8>
    decreases 40 - upto,
{
    if upto >= 40 || upto < 0 {
        row
    } else {
        spec_sprite_pixels(m, ly, spec_sprites_down(m, ly, row, upto + 1), upto, 8)
    }
}

/// A sprite pixel step keeps a full row's length.
proof fn lemma_sprite_pixels_len(m: Mmu, ly: u8, row: Seq<u8>, i: int, j: int)
    requires
        row.len() == 480,
    ensures
        spec_sprite_pixels(m, ly, row, i, j).len() == 480,
    decreases j,
{
    if j > 0 {
        lemma_sprite_pixels_len(m, ly, row, i, j - 1);
    }
}

/// The sprite fold keeps a full row's length.
proof fn lemma_sprites_down_len(m: Mmu, ly: u8, row: Seq<u8>, upto: int)
    requires
        row.len() == 480,
    ensures
        spec_sprites_down(m, ly, row, upto).len() == 480,
    decreases 40 - upto,
{
    if !(upto >= 40 || upto < 0) {
        lemma_sprites_down_len(m, ly, row, upto + 1);
        lemma_sprite_pixels_len(m, ly, spec_sprites_down(m, ly, row, upto + 1), upto, 8);
    }
}

/// An entry that does not cover the scanline leaves the row alone.
proof fn lemma_sprite_entry_no_cover(m: Mmu, ly: u8, row: Seq<u8>, i: int, j: int)
    requires
        ({
            let y_position = ((m.spec_read((0xFE00 + i * 4) as u16) - 16) % 256) as u8;
            let height: u8 = if spec_is_bit_set(m.memory@[LCD_CONTROL_ADDR as int], 2) {
                16
            } else {
                8
            };
            !(y_position <= ly && ly < y_position + height)
        }),
    ensures
        spec_sprite_pixels(m, ly, row, i, j) == row,
    decreases j,
{
    if j > 0 {
        lemma_sprite_entry_no_cover(m, ly, row, i, j - 1);
    }
}

/// How one drawn scanline relates the frame buffer before and after,
/// for each combination of the LCDC background and sprite enables: both
/// off leaves the buffer, background alone paints the decoded
/// background row, sprites overlay either the fresh background row or
/// the old row contents.
pub open spec fn spec_drawn_row_rel(m: Mmu, pre: Seq<u8>, post: Seq<u8>) -> bool {
    let lcdc = m.memory@[LCD_CONTROL_ADDR as int];
    let ly = m.memory@[CURRENT_SCANLINE_ADDR as int];
    &&& (!spec_is_bit_set(lcdc, 0) && !spec_is_bit_set(lcdc, 1)) ==> post == pre
    &&& (ly < 144 && spec_is_bit_set(lcdc, 0) && !spec_is_bit_set(lcdc, 1)) ==> forall|i: int|
        #![trigger spec_bg_pixel(m, spec_bg_y(m), i)]
        0 <= i < 160 ==> {
            let px = spec_bg_pixel(m, spec_bg_y(m), i);
            &&& post[ly * 480 + i * 3] == px.0
            &&& post[ly * 480 + i * 3 + 1] == px.1
            &&& post[ly * 480 + i * 3 + 2] == px.2
        }
    &&& (ly < 144 && spec_is_bit_set(lcdc, 0) && spec_is_bit_set(lcdc, 1)) ==> forall|t: int|
        #![trigger post[ly * 480 + t]]
        0 <= t < 480 ==> post[ly * 480 + t] == spec_sprites_down(m, ly, spec_bg_row(m), 0)[t]
    &&& (ly < 144 && !spec_is_bit_set(lcdc, 0) && spec_is_bit_set(lcdc, 1)) ==> forall|t: int|
        #![trigger post[ly * 480 + t]]
        0 <= t < 480 ==> post[ly * 480 + t] == spec_sprites_down(
            m,
            ly,
            pre.subrange(ly * 480, ly * 480 + 480),
            0,
        )[t]
}

/// The 480 bytes of a fully rendered background row: the packed R,G,B
/// components of the 160 decoded background pixels.
pub open spec fn spec_bg_row(m: Mmu) -> Seq<u8> {
    Seq::new(
        480,
        |t: int|
            {
                let px = spec_bg_pixel(m, spec_bg_y(m), t / 3);
                if t % 3 == 0 {
                    px.0
                } else if t % 3 == 1 {
                    px.1
                } else {
                    px.2
                }
            },
    )
}

/// Whether flat frame-buffer index `k` lies in the row of scanline
/// `ly`.
pub open spec fn row_of(ly: u8, k: int) -> bool {
    ly as int * 480 <= k < (ly as int + 1) * 480
}

/// The 2-bit color index of pixel `bit` in a planar tile row: bit `n`
/// of the low byte is the low bit, bit `n` of the high byte the high
/// bit.
pub open spec fn spec_color_code(lo: u8, hi: u8, bit: u8) -> u8 {
    ((spec_bit_val(hi, bit) << 1u8) | spec_bit_val(lo, bit)) as u8
}

/// The 2-bit shade a palette register assigns to a color index: bits
/// 1-0 for index 0 up to bits 7-6 for index 3.
pub open spec fn spec_shade(palette: u8, code: u8) -> u8 {
    if code == 3 {
        ((spec_bit_val(palette, 7) << 1u8) | spec_bit_val(palette, 6)) as u8
    } else if code == 2 {
        ((spec_bit_val(palette, 5) << 1u8) | spec_bit_val(palette, 4)) as u8
    } else if code == 1 {
        ((spec_bit_val(palette, 3) << 1u8) | spec_bit_val(palette, 2)) as u8
    } else {
        ((spec_bit_val(palette, 1) << 1u8) | spec_bit_val(palette, 0)) as u8
    }
}

/// The RGB triple of a DMG shade: white, light gray, dark gray, black.
pub open spec fn spec_gb_color(shade: u8) -> (u8, u8, u8) {
    if shade == 0 {
        (0xFF, 0xFF, 0xFF)
    } else if shade == 1 {
        (0xCC, 0xCC, 0xCC)
    } else if shade == 2 {
        (0x77, 0x77, 0x77)
    } else {
        (0x00, 0x00, 0x00)
    }
}

pub fn gb_color(shade: u8) -> (r: (u8, u8, u8))
    ensures
        r == spec_gb_color(shade),
{
    match shade {
        0 => (0xFF, 0xFF, 0xFF),
        1 => (0xCC, 0xCC, 0xCC),
        2 => (0x77, 0x77, 0x77),
        _ => (0x00, 0x00, 0x00),
    }
}

} // verus!

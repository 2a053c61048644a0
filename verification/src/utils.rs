//! Shared constants, bit helpers and small enums of the emulator core.

use vstd::prelude::*;

verus! {

pub type Byte = u8;
pub type SignedByte = i8;
pub type Word = u16;
pub type SignedWord = i16;

pub const SCREEN_WIDTH: u32 = 160;
pub const SCREEN_HEIGHT: u32 = 144;

pub const MEMORY_SIZE: usize = 0x10000;

/// T-cycles of the 4.194304 MHz master clock spent per ~60 Hz frame.
pub const CLOCK_SPEED: usize = 4194304;
pub const MAX_CYCLES_PER_FRAME: usize = 70224;

pub const PROGRAM_COUNTER_INIT: Word = 0x100;
pub const STACK_POINTER_INIT: Word = 0xFFFE;

// Timer registers.
pub const DIVIDER_REGISTER_ADDR: Word = 0xFF04;
pub const TIMER_ADDR: Word = 0xFF05;
// The value at this address is what the timer is set to upon overflow.
pub const TIMER_MODULATOR_ADDR: Word = 0xFF06;
pub const TIMER_CONTROL_ADDR: Word = 0xFF07;
pub const CYCLES_PER_DIVIDER_INCREMENT: usize = 256;

// LCDC - the main LCD control register, located in memory. The different
// bits control what and how we display on screen:
//     7 - LCD/PPU enabled, 0 = disabled, 1 = enabled
//     6 - Window tile map area, 0 = 0x9800-0x9BFF, 1 = 0x9C00-0x9FFF
//     5 - Window enabled, 0 = disabled, 1 = enabled
//     4 - BG and Window tile data area, 0 = 0x8800-0x97FF, 1 = 0x8000-0x8FFF
//     3 - BG tile map area, 0 = 0x9800-0x9BFF, 1 = 0x9C00-0x9FFF
//     2 - Object size, 0 = 8x8, 1 = 8x16
//     1 - Object enabled, 0 = disabled, 1 = enabled
//     0 - Background enabled, 0 = disabled, 1 = enabled
pub const LCD_CONTROL_ADDR: Word = 0xFF40;

// STAT - the main LCD status register:
//     6 - LYC = LY interrupt enabled
//     5 - Mode 2 (OAM search) interrupt enabled
//     4 - Mode 1 (VBlank) interrupt enabled
//     3 - Mode 0 (HBlank) interrupt enabled
//     2 - LYC = LY coincidence flag
//     1, 0 - LCD mode (0 HBlank, 1 VBlank, 2 OAM search, 3 transfer)
pub const LCD_STATUS_ADDR: Word = 0xFF41;

// LY - the current scanline, 0-153 where 144-153 is the VBlank period.
pub const CURRENT_SCANLINE_ADDR: Word = 0xFF44;
// LYC - the scanline compare value.
pub const CURRENT_SCANLINE_COMPARE_ADDR: Word = 0xFF45;

pub const MAX_SCANLINE_VALUE: u8 = 153;

// It takes 456 T-cycles to draw one scanline.
pub const CYCLES_PER_SCANLINE: isize = 456;

// SCY and SCX - the top-left coordinates of the visible 160x144 pixel
// area within the 256x256 pixel background map.
pub const BACKGROUND_SCROLL_Y: Word = 0xFF42;
pub const BACKGROUND_SCROLL_X: Word = 0xFF43;

// WY and WX - the top-left coordinates of the window, WX offset by +7.
pub const WINDOW_POS_Y: Word = 0xFF4A;
pub const WINDOW_POS_X: Word = 0xFF4B;

pub const BG_COLOR_PALLETTE_ADDR: Word = 0xFF47;
pub const OBJ_COLOR_PALLETTE_ADDR_0: Word = 0xFF48;
pub const OBJ_COLOR_PALLETTE_ADDR_1: Word = 0xFF49;

pub const DMA_TRANSFER_ADDR: Word = 0xFF46;

// Banking.
pub const ROM_BANKING_MODE_ADDR: Word = 0x147;
pub const RAM_BANK_COUNT_ADDR: Word = 0x148;
pub const MAXIMUM_RAM_BANKS: usize = 4;
pub const RAM_BANK_SIZE: usize = 0x2000;

#[derive(Debug, Clone, Copy, PartialEq, Eq, Structural)]
pub enum BankingMode {
    RAM,
    ROM,
}

// IE (interrupt enable) and IF (interrupt flag) registers; in both, bit 0
// is VBlank, bit 1 LCD STAT, bit 2 Timer, bit 3 Serial and bit 4 Joypad.
pub const INTERRUPT_ENABLE_ADDR: Word = 0xFFFF;
pub const INTERRUPT_FLAG_ADDR: Word = 0xFF0F;

#[allow(non_camel_case_types)]
#[derive(Debug, Clone, Copy, PartialEq, Eq, Structural)]
pub enum Interrupt {
    V_BLANK,
    LCD_STAT,
    TIMER,
    SERIAL,
    JOYPAD,
}

#[allow(non_camel_case_types)]
#[derive(Debug, Clone, Copy, PartialEq, Eq, Structural)]
pub enum LcdMode {
    H_BLANK,
    V_BLANK,
    SPRITE_SEARCH,
    LCD_TRANSFER,
}

/// The two-bit encoding of an LCD mode in the STAT register.
pub open spec fn spec_lcd_mode_bits(mode: LcdMode) -> u8 {
    match mode {
        LcdMode::H_BLANK => 0,
        LcdMode::V_BLANK => 1,
        LcdMode::SPRITE_SEARCH => 2,
        LcdMode::LCD_TRANSFER => 3,
    }
}

pub fn lcd_mode_bits(mode: LcdMode) -> (r: u8)
    ensures
        r == spec_lcd_mode_bits(mode),
{
    match mode {
        LcdMode::H_BLANK => 0,
        LcdMode::V_BLANK => 1,
        LcdMode::SPRITE_SEARCH => 2,
        LcdMode::LCD_TRANSFER => 3,
    }
}

// Joypad register 0xFF00:
//     5 - P15 select action buttons (0 = select)
//     4 - P14 select direction buttons (0 = select)
//     3 - P13 input: Down or Start (0 = pressed)
//     2 - P12 input: Up or Select (0 = pressed)
//     1 - P11 input: Left or B (0 = pressed)
//     0 - P10 input: Right or A (0 = pressed)
pub const JOYPAD_REGISTER_ADDR: Word = 0xFF00;

pub const RIGHT_BUTTON: usize = 0;
pub const LEFT_BUTTON: usize = 1;
pub const UP_BUTTON: usize = 2;
pub const DOWN_BUTTON: usize = 3;
pub const START_BUTTON: usize = 4;
pub const SELECT_BUTTON: usize = 5;
pub const B_BUTTON: usize = 6;
pub const A_BUTTON: usize = 7;

#[derive(Debug, Clone, Copy, PartialEq, Eq, Structural)]
pub enum JoypadMode {
    DIRECTION,
    ACTION,
}

// The F register keeps the CPU flags in its high nibble:
// bit 7 zero, bit 6 subtraction, bit 5 half carry, bit 4 carry.
pub const ZERO_FLAG: usize = 7;
pub const SUBTRACTION_FLAG: usize = 6;
pub const HALF_CARRY_FLAG: usize = 5;
pub const CARRY_FLAG: usize = 4;

// CGB specifics.
pub const VRAM_BANK_SELECT_ADDR: Word = 0xFF4F;
pub const BACKGROUND_PALETTE_INDEX_ADDR: Word = 0xFF68;
pub const BACKGROUND_PALETTE_DATA_ADDR: Word = 0xFF69;
pub const OBJECT_PALETTE_INDEX_ADDR: Word = 0xFF6A;
pub const OBJECT_PALETTE_DATA_ADDR: Word = 0xFF6B;

/// Whether bit `position` is set in `data`.
pub open spec fn spec_is_bit_set(data: u8, position: usize) -> bool
    recommends
        position < 8,
{
    data & (1u8 << position) > 0
}

pub fn is_bit_set(data: &Byte, position: usize) -> (r: bool)
    requires
        position < 8,
    ensures
        r == spec_is_bit_set(*data, position),
{
    ((*data) & (1u8 << position)) > 0
}

pub fn set_bit(data: &mut Byte, position: usize)
    requires
        position < 8,
    ensures
        *final(data) == (*old(data) | (1u8 << position)),
{
    let setter = 1u8 << position;
    *data = (*data) | setter;
}

pub fn reset_bit(data: &mut Byte, position: usize)
    requires
        position < 8,
    ensures
        *final(data) == (*old(data) & !(1u8 << position)),
{
    let setter = !(1u8 << position);
    *data = (*data) & setter;
}

/// The value (0 or 1) of bit `position` of `data`.
pub open spec fn spec_bit_val(data: u8, position: u8) -> u8
    recommends
        position < 8,
{
    if data & (1u8 << position) > 0 {
        1
    } else {
        0
    }
}

pub fn get_bit_val(data: &Byte, position: u8) -> (r: u8)
    requires
        position < 8,
    ensures
        r == spec_bit_val(*data, position),
        r == 0 || r == 1,
{
    match ((*data) & (1u8 << position)) > 0 {
        true => 1,
        false => 0,
    }
}

/// Expansion of a 5-bit CGB color channel to 8 bits: shift left by three
/// and replicate the top bits into the low bits.
pub open spec fn spec_rgb888(rgb555: u8) -> u8 {
    (rgb555 << 3) | ((rgb555 & 0x1F) >> 2)
}

pub fn get_rgb888(rgb555: Byte) -> (r: Byte)
    ensures
        r == spec_rgb888(rgb555),
{
    let lo_bits_888 = (rgb555 & 0x1F) >> 2;
    (rgb555 << 3) | lo_bits_888
}

/// An 8-bit increment that wraps to zero.
pub open spec fn spec_inc8(v: u8) -> u8 {
    if v == 0xFF {
        0
    } else {
        (v + 1) as u8
    }
}

/// The high byte of a 16-bit word.
pub open spec fn word_hi(w: u16) -> u8 {
    (w >> 8) as u8
}

/// The low byte of a 16-bit word.
pub open spec fn word_lo(w: u16) -> u8 {
    (w & 0xFF) as u8
}

/// A 16-bit word assembled from a high and a low byte.
pub open spec fn word_from(hi: u8, lo: u8) -> u16 {
    (((hi as u16) << 8) | (lo as u16)) as u16
}

pub proof fn lemma_word_compose(hi: u8, lo: u8)
    by (bit_vector)
    ensures
        ((((hi as u16) << 8) | (lo as u16)) >> 8) as u8 == hi,
        ((((hi as u16) << 8) | (lo as u16)) & 0xFF) as u8 == lo,
{
}

pub proof fn lemma_word_set_hi(w: u16, v: u8)
    by (bit_vector)
    ensures
        (((w & 0x00FF) | ((v as u16) << 8)) >> 8) as u8 == v,
        (((w & 0x00FF) | ((v as u16) << 8)) & 0xFF) as u8 == (w & 0xFF) as u8,
{
}

pub proof fn lemma_word_set_lo(w: u16, v: u8)
    by (bit_vector)
    ensures
        (((w & 0xFF00) | (v as u16)) >> 8) as u8 == (w >> 8) as u8,
        (((w & 0xFF00) | (v as u16)) & 0xFF) as u8 == v,
{
}

/// Masking a byte keeps it at or below the mask.
pub proof fn lemma_and_mask_bound(a: u8, m: u8)
    by (bit_vector)
    ensures
        a & m <= m,
        a & m <= a,
{
}

/// Masking a word keeps it at or below the mask.
pub proof fn lemma_and_mask_bound_u16(a: u16, m: u16)
    by (bit_vector)
    ensures
        a & m <= m,
        a & m <= a,
{
}

/// Setting a bit by OR leaves that bit set.
pub proof fn lemma_or_bit_sets(x: u8, p: usize)
    by (bit_vector)
    requires
        p < 8,
    ensures
        (x | (1u8 << p)) & (1u8 << p) > 0,
{
}

pub fn exec_word_hi(w: Word) -> (r: Byte)
    ensures
        r == word_hi(w),
{
    (w >> 8) as u8
}

pub fn exec_word_lo(w: Word) -> (r: Byte)
    ensures
        r == word_lo(w),
{
    (w & 0xFF) as u8
}

pub fn exec_word_from(hi: Byte, lo: Byte) -> (r: Word)
    ensures
        r == word_from(hi, lo),
        word_hi(r) == hi,
        word_lo(r) == lo,
{
    proof {
        lemma_word_compose(hi, lo);
    }
    ((hi as u16) << 8) | (lo as u16)
}

} // verus!

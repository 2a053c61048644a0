//! The interrupt controller: IE and IF masks and the priority order.
//!
//! Bit 0 is VBlank, 1 LCD STAT, 2 Timer, 3 Serial and 4 Joypad; among
//! pending enabled interrupts the lowest bit index is serviced first.

use vstd::prelude::*;

use crate::mmu::{same_except_memory, Mmu};
use crate::utils::{
    is_bit_set, set_bit, spec_is_bit_set, Interrupt, INTERRUPT_ENABLE_ADDR, INTERRUPT_FLAG_ADDR,
};

verus! {

/// The bit both masks use for an interrupt.
pub open spec fn spec_interrupt_bit(interrupt: Interrupt) -> usize {
    match interrupt {
        Interrupt::V_BLANK => 0,
        Interrupt::LCD_STAT => 1,
        Interrupt::TIMER => 2,
        Interrupt::SERIAL => 3,
        Interrupt::JOYPAD => 4,
    }
}

pub fn interrupt_bit(interrupt: Interrupt) -> (r: usize)
    ensures
        r == spec_interrupt_bit(interrupt),
        r < 8,
{
    match interrupt {
        Interrupt::V_BLANK => 0,
        Interrupt::LCD_STAT => 1,
        Interrupt::TIMER => 2,
        Interrupt::SERIAL => 3,
        Interrupt::JOYPAD => 4,
    }
}

/// The highest-priority interrupt that is both enabled in `ie` and
/// requested in `iff`, or nothing: the lowest set bit index wins.
pub open spec fn spec_servicable(ie: u8, iff: u8) -> Option<Interrupt> {
    if spec_is_bit_set(ie, 0) && spec_is_bit_set(iff, 0) {
        Some(Interrupt::V_BLANK)
    } else if spec_is_bit_set(ie, 1) && spec_is_bit_set(iff, 1) {
        Some(Interrupt::LCD_STAT)
    } else if spec_is_bit_set(ie, 2) && spec_is_bit_set(iff, 2) {
        Some(Interrupt::TIMER)
    } else if spec_is_bit_set(ie, 3) && spec_is_bit_set(iff, 3) {
        Some(Interrupt::SERIAL)
    } else if spec_is_bit_set(ie, 4) && spec_is_bit_set(iff, 4) {
        Some(Interrupt::JOYPAD)
    } else {
        None
    }
}

pub fn get_servicable_interrupt(mmu: &Mmu) -> (r: Option<Interrupt>)
    requires
        mmu.wf(),
    ensures
        r == spec_servicable(
            mmu.spec_read(INTERRUPT_ENABLE_ADDR),
            mmu.spec_read(INTERRUPT_FLAG_ADDR),
        ),
{
    if is_interrupt_enabled(mmu, 0) && is_interrupt_requested(mmu, 0) {
        Some(Interrupt::V_BLANK)
    } else if is_interrupt_enabled(mmu, 1) && is_interrupt_requested(mmu, 1) {
        Some(Interrupt::LCD_STAT)
    } else if is_interrupt_enabled(mmu, 2) && is_interrupt_requested(mmu, 2) {
        Some(Interrupt::TIMER)
    } else if is_interrupt_enabled(mmu, 3) && is_interrupt_requested(mmu, 3) {
        Some(Interrupt::SERIAL)
    } else if is_interrupt_enabled(mmu, 4) && is_interrupt_requested(mmu, 4) {
        Some(Interrupt::JOYPAD)
    } else {
        None
    }
}

/// Sets the interrupt's bit in the IF register.
pub fn request_interrupt(mmu: &mut Mmu, interrupt: Interrupt)
    requires
        old(mmu).wf(),
    ensures
        final(mmu).wf(),
        same_except_memory(*old(mmu), *final(mmu)),
        final(mmu).memory@ == old(mmu).memory@.update(
            INTERRUPT_FLAG_ADDR as int,
            (old(mmu).memory@[INTERRUPT_FLAG_ADDR as int] | (1u8 << spec_interrupt_bit(
                interrupt,
            ))),
        ),
{
    let mut interrupts_requested = mmu.read_byte(INTERRUPT_FLAG_ADDR);
    let bit = interrupt_bit(interrupt);
    set_bit(&mut interrupts_requested, bit);
    mmu.write_byte(INTERRUPT_FLAG_ADDR, interrupts_requested);
}

pub fn is_interrupt_enabled(mmu: &Mmu, interrupt_idx: usize) -> (r: bool)
    requires
        mmu.wf(),
        interrupt_idx < 8,
    ensures
        r == spec_is_bit_set(mmu.spec_read(INTERRUPT_ENABLE_ADDR), interrupt_idx),
{
    let interrupts_enabled = mmu.read_byte(INTERRUPT_ENABLE_ADDR);
    is_bit_set(&interrupts_enabled, interrupt_idx)
}

pub fn is_interrupt_requested(mmu: &Mmu, interrupt_idx: usize) -> (r: bool)
    requires
        mmu.wf(),
        interrupt_idx < 8,
    ensures
        r == spec_is_bit_set(mmu.spec_read(INTERRUPT_FLAG_ADDR), interrupt_idx),
{
    let interrupts_requested = mmu.read_byte(INTERRUPT_FLAG_ADDR);
    is_bit_set(&interrupts_requested, interrupt_idx)
}

} // verus!

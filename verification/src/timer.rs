//! The divider and the configurable-frequency timer.
//!
//! The divider prescaler increments DIV every 256 T-cycles. The timer
//! prescaler accumulates only while TAC bit 2 is set, at the rate TAC
//! bits 1-0 select; when TIMA wraps it reloads from TMA and a Timer
//! interrupt is raised.

use vstd::prelude::*;

use vstd::arithmetic::div_mod::lemma_fundamental_div_mod_converse;

use crate::interrupts::request_interrupt;
use crate::mmu::{same_except_memory_and_tfc, Mmu};
use crate::utils::{
    is_bit_set, spec_inc8, spec_is_bit_set, Interrupt, CYCLES_PER_DIVIDER_INCREMENT,
    DIVIDER_REGISTER_ADDR, INTERRUPT_FLAG_ADDR, TIMER_ADDR, TIMER_CONTROL_ADDR,
    TIMER_MODULATOR_ADDR,
};

verus! {

pub struct Timer {
    pub divider_counter: usize,
    pub timer_counter: usize,
}

/// The timer prescaler threshold TAC bits 1-0 select, in T-cycles per
/// TIMA tick.
pub open spec fn spec_timer_freq(tac: u8) -> usize {
    if tac & 0x3 == 0 {
        1024
    } else if tac & 0x3 == 1 {
        16
    } else if tac & 0x3 == 2 {
        64
    } else {
        256
    }
}

/// The timer accumulates only while TAC bit 2 is set.
pub open spec fn spec_timer_enabled(tac: u8) -> bool {
    spec_is_bit_set(tac, 2)
}

/// TIMA and IF after `k` timer ticks: each tick advances TIMA by one;
/// the tick that wraps it past 0xFF reloads it from `tma` and raises
/// the Timer interrupt bit in `iff`.
pub open spec fn spec_tima_ticks(tima: u8, iff: u8, tma: u8, k: nat) -> (u8, u8)
    decreases k,
{
    if k == 0 {
        (tima, iff)
    } else {
        let prev = spec_tima_ticks(tima, iff, tma, (k - 1) as nat);
        if prev.0 == 0xFF {
            (tma, (prev.1 | (1u8 << 2)))
        } else {
            ((prev.0 + 1) as u8, prev.1)
        }
    }
}

/// During an update, only DIV, TIMA and IF may move in memory, and the
/// frequency-changed flag is consumed.
pub open spec fn timer_mem_rel(pre: Mmu, post: Mmu) -> bool {
    &&& same_except_memory_and_tfc(pre, post)
    &&& !post.timer_frequency_changed
    &&& post.memory@.len() == pre.memory@.len()
    &&& forall|a: int|
        0 <= a < 0x10000 && a != DIVIDER_REGISTER_ADDR && a != TIMER_ADDR
            && a != INTERRUPT_FLAG_ADDR ==> post.memory@[a] == pre.memory@[a]
}

impl Timer {
    pub open spec fn wf(self) -> bool {
        &&& self.divider_counter < 256
        &&& self.timer_counter < 1024
    }

    pub fn new() -> (r: Timer)
        ensures
            r.wf(),
            r.divider_counter == 0,
            r.timer_counter == 0,
    {
        Timer { divider_counter: 0, timer_counter: 0 }
    }

    /// Forwards `cycles` T-cycles to the divider and, when enabled, to
    /// the timer. The divider counter advances exactly, wrapping at 256
    /// with one DIV increment; the timer counter ends below its
    /// threshold, having drained whole thresholds into TIMA ticks.
    pub fn update(&mut self, mmu: &mut Mmu, cycles: u8)
        requires
            old(self).wf(),
            old(mmu).wf(),
        ensures
            final(self).wf(),
            final(mmu).wf(),
            timer_mem_rel(*old(mmu), *final(mmu)),
            final(self).divider_counter == (if old(self).divider_counter + cycles >= 256 {
                old(self).divider_counter + cycles - 256
            } else {
                old(self).divider_counter + cycles
            }),
            // DIV's cell steps by one exactly when the prescaler crosses
            // 256.
            final(mmu).memory@[DIVIDER_REGISTER_ADDR as int] == (if old(self).divider_counter
                + cycles >= 256 {
                spec_inc8(old(mmu).memory@[DIVIDER_REGISTER_ADDR as int])
            } else {
                old(mmu).memory@[DIVIDER_REGISTER_ADDR as int]
            }),
            !spec_timer_enabled(old(mmu).memory@[TIMER_CONTROL_ADDR as int]) ==> {
                &&& final(mmu).memory@[TIMER_ADDR as int] == old(mmu).memory@[TIMER_ADDR as int]
                &&& final(mmu).memory@[INTERRUPT_FLAG_ADDR as int]
                    == old(mmu).memory@[INTERRUPT_FLAG_ADDR as int]
                &&& final(self).timer_counter == (if old(mmu).timer_frequency_changed {
                    0
                } else {
                    old(self).timer_counter
                })
            },
            // Enabled, TIMA ticks once per elapsed threshold, reloading
            // from TMA and raising IF bit 2 on each wrap; the prescaler
            // keeps the remainder.
            spec_timer_enabled(old(mmu).memory@[TIMER_CONTROL_ADDR as int]) ==> {
                let base = if old(mmu).timer_frequency_changed {
                    0
                } else {
                    old(self).timer_counter
                };
                let freq = spec_timer_freq(old(mmu).memory@[TIMER_CONTROL_ADDR as int]);
                let ticks = spec_tima_ticks(
                    old(mmu).memory@[TIMER_ADDR as int],
                    old(mmu).memory@[INTERRUPT_FLAG_ADDR as int],
                    old(mmu).memory@[TIMER_MODULATOR_ADDR as int],
                    ((base + cycles) / (freq as int)) as nat,
                );
                &&& final(self).timer_counter == (base + cycles) % (freq as int)
                &&& final(mmu).memory@[TIMER_ADDR as int] == ticks.0
                &&& final(mmu).memory@[INTERRUPT_FLAG_ADDR as int] == ticks.1
            },
    {
        self.update_divider_register(mmu, cycles);

        let freq = self.get_timer_frequency(mmu);

        if mmu.is_timer_frequency_changed() {
            self.timer_counter = 0;
        }
        mmu.update_timer_frequency_changed(false);

        if self.is_timer_enabled(mmu) {
            let ghost base = self.timer_counter;
            let ghost t0 = mmu.memory@[TIMER_ADDR as int];
            let ghost i0 = mmu.memory@[INTERRUPT_FLAG_ADDR as int];
            let ghost tma0 = mmu.memory@[TIMER_MODULATOR_ADDR as int];
            let ghost div_after = mmu.memory@[DIVIDER_REGISTER_ADDR as int];
            let ghost mut k: nat = 0;
            self.timer_counter = self.timer_counter + cycles as usize;
            while self.timer_counter >= freq
                invariant
                    self.divider_counter < 256,
                    self.divider_counter == (if old(self).divider_counter + cycles >= 256 {
                        old(self).divider_counter + cycles - 256
                    } else {
                        old(self).divider_counter + cycles
                    }),
                    mmu.wf(),
                    timer_mem_rel(*old(mmu), *mmu),
                    freq == spec_timer_freq(old(mmu).memory@[TIMER_CONTROL_ADDR as int]),
                    16 <= freq <= 1024,
                    base + cycles < 2048,
                    self.timer_counter == base + cycles - k * freq,
                    mmu.memory@[TIMER_ADDR as int] == spec_tima_ticks(t0, i0, tma0, k).0,
                    mmu.memory@[INTERRUPT_FLAG_ADDR as int] == spec_tima_ticks(t0, i0, tma0, k).1,
                    mmu.memory@[TIMER_MODULATOR_ADDR as int] == tma0,
                    mmu.memory@[DIVIDER_REGISTER_ADDR as int] == div_after,
                decreases self.timer_counter,
            {
                // A full threshold has elapsed: one TIMA tick. On wrap
                // TIMA reloads from TMA and a Timer interrupt is raised.
                proof {
                    assert((k + 1) * (freq as int) == k * (freq as int) + freq)
                        by (nonlinear_arith);
                }
                self.timer_counter = self.timer_counter - freq;
                mmu.increment_timer_register();

                if mmu.read_byte(TIMER_ADDR) == 0 {
                    request_interrupt(mmu, Interrupt::TIMER);
                    proof {
                        assert((1u8 << 2usize) == 4) by (bit_vector);
                    }
                    let modulator = mmu.read_byte(TIMER_MODULATOR_ADDR);
                    mmu.write_byte(TIMER_ADDR, modulator);
                }
                proof {
                    k = k + 1;
                }
            }
            proof {
                lemma_fundamental_div_mod_converse(
                    base + cycles,
                    freq as int,
                    k as int,
                    self.timer_counter as int,
                );
            }
        }
    }

    fn is_timer_enabled(&mut self, mmu: &Mmu) -> (r: bool)
        requires
            mmu.wf(),
        ensures
            *final(self) == *old(self),
            r == spec_timer_enabled(mmu.memory@[TIMER_CONTROL_ADDR as int]),
    {
        // Bit 2 of the timer control register gates the timer.
        let tac = mmu.read_byte(TIMER_CONTROL_ADDR);
        is_bit_set(&tac, 2)
    }

    fn get_timer_frequency(&mut self, mmu: &Mmu) -> (r: usize)
        requires
            mmu.wf(),
        ensures
            *final(self) == *old(self),
            r == spec_timer_freq(mmu.memory@[TIMER_CONTROL_ADDR as int]),
            16 <= r <= 1024,
    {
        // Bits 0 and 1 of the timer control register pick the rate.
        let freq_compare_val = mmu.read_byte(TIMER_CONTROL_ADDR) & 0x3;
        match freq_compare_val {
            0 => 1024,
            1 => 16,
            2 => 64,
            _ => 256,
        }
    }

    fn update_divider_register(&mut self, mmu: &mut Mmu, cycles: u8)
        requires
            old(self).wf(),
            old(mmu).wf(),
        ensures
            final(mmu).wf(),
            final(self).timer_counter == old(self).timer_counter,
            final(self).wf(),
            final(self).divider_counter == (if old(self).divider_counter + cycles >= 256 {
                old(self).divider_counter + cycles - 256
            } else {
                old(self).divider_counter + cycles
            }),
            crate::mmu::same_except_memory(*old(mmu), *final(mmu)),
            final(mmu).memory@.len() == old(mmu).memory@.len(),
            forall|a: int|
                0 <= a < 0x10000 && a != DIVIDER_REGISTER_ADDR ==> final(mmu).memory@[a] == old(
                    mmu,
                ).memory@[a],
            final(mmu).memory@[DIVIDER_REGISTER_ADDR as int] == (if old(self).divider_counter
                + cycles >= 256 {
                spec_inc8(old(mmu).memory@[DIVIDER_REGISTER_ADDR as int])
            } else {
                old(mmu).memory@[DIVIDER_REGISTER_ADDR as int]
            }),
    {
        self.divider_counter = self.divider_counter + cycles as usize;
        if self.divider_counter >= CYCLES_PER_DIVIDER_INCREMENT {
            self.divider_counter = self.divider_counter - CYCLES_PER_DIVIDER_INCREMENT;
            mmu.increment_divider_register();
        }
    }
}

} // verus!

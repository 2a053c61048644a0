//! The LR35902 CPU core: decode, execute, flags, stack and interrupts.
//!
//! One instruction runs per `execute` call, which returns the T-cycles
//! it consumed, always a multiple of four. The CPU is the clock source:
//! every cycle is forwarded to the timer and the PPU through
//! `sync_cycles`, either mid-instruction for memory-touching steps or
//! as the flushed remainder at instruction end.
//!
//! The four register pairs are kept as 16-bit words; the high and low
//! halves are reached through shift-and-mask accessors. The low nibble
//! of F is zero at all times.

use vstd::prelude::*;

use crate::interrupts::{get_servicable_interrupt, spec_interrupt_bit, spec_servicable};
use crate::mmu::Mmu;
use crate::ppu::Ppu;
use crate::timer::Timer;
use crate::utils::{
    exec_word_from, exec_word_hi, exec_word_lo, lemma_and_mask_bound, lemma_word_set_hi,
    lemma_word_set_lo, word_from, word_hi, word_lo, Byte, Interrupt, SignedByte, Word,
    INTERRUPT_ENABLE_ADDR, INTERRUPT_FLAG_ADDR, PROGRAM_COUNTER_INIT, STACK_POINTER_INIT,
};

verus! {

pub struct Cpu {
    pub mmu: Mmu,
    pub timer: Timer,
    pub ppu: Ppu,
    // The four register pairs AF, BC, DE and HL, each one 16-bit word
    // whose high and low bytes are the two 8-bit registers.
    pub af: Word,
    pub bc: Word,
    pub de: Word,
    pub hl: Word,
    pub program_counter: Word,
    pub stack_pointer: Word,
    /// IME, the interrupt master enable.
    pub interrupts_enabled: bool,
    /// One-shot latch armed by EI: IME goes high after the instruction
    /// that follows EI completes.
    pub will_enable_interrupts: bool,
    /// One-shot latch armed by DI: IME goes low when DI completes, and
    /// a pending enable is cancelled.
    pub will_disable_interrupts: bool,
    pub halted: bool,
    /// T-cycles already reported to the timer and the PPU during the
    /// current instruction.
    pub cycle_tracker: u8,
    /// The opcode the previous `execute` ran, which drives the EI latch.
    pub last_op: Option<u8>,
}

/// A 16-bit increment that wraps at the end of the address space.
pub open spec fn word_inc(w: u16) -> u16 {
    if w == 0xFFFF {
        0
    } else {
        (w + 1) as u16
    }
}

/// A 16-bit decrement that wraps at the start of the address space.
pub open spec fn word_dec(w: u16) -> u16 {
    if w == 0 {
        0xFFFF
    } else {
        (w - 1) as u16
    }
}

/// 16-bit addition modulo the address space.
pub open spec fn word_add(a: u16, b: u16) -> u16 {
    if a + b > 0xFFFF {
        (a + b - 0x10000) as u16
    } else {
        (a + b) as u16
    }
}

/// Adds a signed 8-bit offset to a 16-bit word, wrapping.
pub open spec fn word_add_signed(w: u16, off: i8) -> u16 {
    if w + off > 0xFFFF {
        (w + off - 0x10000) as u16
    } else if w + off < 0 {
        (w + off + 0x10000) as u16
    } else {
        (w + off) as u16
    }
}

/// The sum of an 8-bit add with carry-in, wrapped to a byte.
pub open spec fn add_res(a: u8, b: u8, cin: u8) -> u8 {
    ((a + b + cin) % 256) as u8
}

/// Carry out of bit 7 of an 8-bit add.
pub open spec fn add_carry(a: u8, b: u8, cin: u8) -> bool {
    a + b + cin > 0xFF
}

/// Carry out of bit 3 of an 8-bit add.
pub open spec fn add_half(a: u8, b: u8, cin: u8) -> bool {
    (a & 0xF) + (b & 0xF) + cin > 0xF
}

/// The difference of an 8-bit subtract with borrow-in, wrapped.
pub open spec fn sub_res(a: u8, b: u8, cin: u8) -> u8 {
    ((a - b - cin) % 256) as u8
}

/// Borrow out of bit 7 of an 8-bit subtract.
pub open spec fn sub_borrow(a: u8, b: u8, cin: u8) -> bool {
    (a as int) < b + cin
}

/// Borrow out of bit 3 of an 8-bit subtract.
pub open spec fn sub_half(a: u8, b: u8, cin: u8) -> bool {
    (a & 0xF) < (b & 0xF) + cin
}

/// The F byte built from the four flags: Z in bit 7, N in 6, H in 5,
/// C in 4, low nibble zero.
pub open spec fn spec_flags_byte(z: bool, n: bool, h: bool, c: bool) -> u8 {
    ((if z {
        0x80u8
    } else {
        0u8
    }) | (if n {
        0x40u8
    } else {
        0u8
    }) | (if h {
        0x20u8
    } else {
        0u8
    }) | (if c {
        0x10u8
    } else {
        0u8
    })) as u8
}

proof fn lemma_flags_build(zb: u8, nb: u8, hb: u8, cb: u8)
    by (bit_vector)
    requires
        zb == 0 || zb == 0x80,
        nb == 0 || nb == 0x40,
        hb == 0 || hb == 0x20,
        cb == 0 || cb == 0x10,
    ensures
        ((zb | nb | hb | cb) & 0x80 > 0) == (zb == 0x80),
        ((zb | nb | hb | cb) & 0x40 > 0) == (nb == 0x40),
        ((zb | nb | hb | cb) & 0x20 > 0) == (hb == 0x20),
        ((zb | nb | hb | cb) & 0x10 > 0) == (cb == 0x10),
        (zb | nb | hb | cb) & 0x0F == 0,
{
}

/// The 11 byte values the LR35902 does not decode.
pub open spec fn is_valid_opcode(op: u8) -> bool {
    !(op == 0xD3 || op == 0xDB || op == 0xDD || op == 0xE3 || op == 0xE4 || op == 0xEB || op
        == 0xEC || op == 0xED || op == 0xF4 || op == 0xFC || op == 0xFD)
}

/// What a clock advance (the timer and the PPU consuming cycles) may
/// touch in the MMU: memory changes are confined to the five clock
/// cells DIV, TIMA, IF, LY and STAT; the cartridge, joypad and CGB
/// state stay put. The OAM/VRAM gates and the frequency-changed flag
/// may move.
pub open spec fn clocked_mem_rel(pre: Mmu, post: Mmu) -> bool {
    &&& post.rom == pre.rom
    &&& post.joypad == pre.joypad
    &&& post.mbc == pre.mbc
    &&& post.cgb_vram == pre.cgb_vram
    &&& post.cgb_vram_bank == pre.cgb_vram_bank
    &&& post.cgb_background_palettes == pre.cgb_background_palettes
    &&& post.cgb_object_palettes == pre.cgb_object_palettes
    &&& post.color_pallette_access == pre.color_pallette_access
    &&& post.memory@.len() == pre.memory@.len()
    &&& forall|a: int|
        0 <= a < 0x10000 && a != crate::utils::DIVIDER_REGISTER_ADDR && a
            != crate::utils::TIMER_ADDR && a != INTERRUPT_FLAG_ADDR && a
            != crate::utils::CURRENT_SCANLINE_ADDR && a != crate::utils::LCD_STATUS_ADDR
            ==> post.memory@[a] == pre.memory@[a]
}

/// Everything a handler for an ordinary instruction leaves alone, plus
/// the cycle bookkeeping every handler obeys: a multiple of four
/// between 4 and 24 is returned, of which at most `r` cycles were
/// already reported mid-instruction.
pub open spec fn handler_frame(pre: Cpu, post: Cpu, r: u8) -> bool {
    &&& post.wf()
    &&& r % 4 == 0
    &&& 4 <= r <= 24
    &&& pre.cycle_tracker == 0 ==> post.cycle_tracker <= r
    &&& post.interrupts_enabled == pre.interrupts_enabled
    &&& post.will_enable_interrupts == pre.will_enable_interrupts
    &&& post.will_disable_interrupts == pre.will_disable_interrupts
    &&& post.last_op == pre.last_op
    &&& post.halted == pre.halted
}

/// As `handler_frame`, but for the handlers that may move IME or the
/// latches or halt the CPU (EI, DI, HALT, RETI).
pub open spec fn handler_frame_ctrl(pre: Cpu, post: Cpu, r: u8) -> bool {
    &&& post.wf()
    &&& r % 4 == 0
    &&& 4 <= r <= 24
    &&& pre.cycle_tracker == 0 ==> post.cycle_tracker <= r
    &&& post.last_op == pre.last_op
}

impl Cpu {
    pub open spec fn wf(self) -> bool {
        &&& self.mmu.wf()
        &&& self.timer.wf()
        &&& self.ppu.wf()
        &&& self.af & 0x0F == 0
    }

    pub open spec fn a(self) -> u8 {
        word_hi(self.af)
    }

    pub open spec fn f(self) -> u8 {
        word_lo(self.af)
    }

    pub open spec fn b(self) -> u8 {
        word_hi(self.bc)
    }

    pub open spec fn c(self) -> u8 {
        word_lo(self.bc)
    }

    pub open spec fn d(self) -> u8 {
        word_hi(self.de)
    }

    pub open spec fn e(self) -> u8 {
        word_lo(self.de)
    }

    pub open spec fn h(self) -> u8 {
        word_hi(self.hl)
    }

    pub open spec fn l(self) -> u8 {
        word_lo(self.hl)
    }

    pub open spec fn z_flag(self) -> bool {
        self.f() & 0x80 > 0
    }

    pub open spec fn n_flag(self) -> bool {
        self.f() & 0x40 > 0
    }

    pub open spec fn h_flag(self) -> bool {
        self.f() & 0x20 > 0
    }

    pub open spec fn c_flag(self) -> bool {
        self.f() & 0x10 > 0
    }

    /// The 8-bit register an opcode's 3-bit field selects: B, C, D, E,
    /// H, L and A for 0-5 and 7. Index 6 stands for memory at HL and is
    /// not a register.
    pub open spec fn reg8(self, idx: u8) -> u8 {
        if idx == 0 {
            self.b()
        } else if idx == 1 {
            self.c()
        } else if idx == 2 {
            self.d()
        } else if idx == 3 {
            self.e()
        } else if idx == 4 {
            self.h()
        } else if idx == 5 {
            self.l()
        } else {
            self.a()
        }
    }

    /// The non-register state a register write leaves alone.
    pub open spec fn same_but_regs(pre: Cpu, post: Cpu) -> bool {
        &&& post.mmu == pre.mmu
        &&& post.timer == pre.timer
        &&& post.ppu == pre.ppu
        &&& post.program_counter == pre.program_counter
        &&& post.stack_pointer == pre.stack_pointer
        &&& post.interrupts_enabled == pre.interrupts_enabled
        &&& post.will_enable_interrupts == pre.will_enable_interrupts
        &&& post.will_disable_interrupts == pre.will_disable_interrupts
        &&& post.halted == pre.halted
        &&& post.cycle_tracker == pre.cycle_tracker
        &&& post.last_op == pre.last_op
    }

    pub fn get_reg8(&self, idx: u8) -> (r: u8)
        requires
            idx < 8,
            idx != 6,
        ensures
            r == self.reg8(idx),
    {
        match idx {
            0 => exec_word_hi(self.bc),
            1 => exec_word_lo(self.bc),
            2 => exec_word_hi(self.de),
            3 => exec_word_lo(self.de),
            4 => exec_word_hi(self.hl),
            5 => exec_word_lo(self.hl),
            _ => exec_word_hi(self.af),
        }
    }

    pub fn set_reg8(&mut self, idx: u8, v: u8)
        requires
            old(self).wf(),
            idx < 8,
            idx != 6,
        ensures
            final(self).wf(),
            Cpu::same_but_regs(*old(self), *final(self)),
            final(self).reg8(idx) == v,
            forall|j: u8| j < 8 && j != 6 && j != idx ==> final(self).reg8(j) == old(self).reg8(j),
            final(self).f() == old(self).f(),
            idx != 0 && idx != 1 ==> final(self).bc == old(self).bc,
            idx != 2 && idx != 3 ==> final(self).de == old(self).de,
            idx != 4 && idx != 5 ==> final(self).hl == old(self).hl,
            idx != 7 ==> final(self).af == old(self).af,
    {
        match idx {
            0 => {
                self.bc = exec_set_hi(self.bc, v);
            },
            1 => {
                self.bc = exec_set_lo(self.bc, v);
            },
            2 => {
                self.de = exec_set_hi(self.de, v);
            },
            3 => {
                self.de = exec_set_lo(self.de, v);
            },
            4 => {
                self.hl = exec_set_hi(self.hl, v);
            },
            5 => {
                self.hl = exec_set_lo(self.hl, v);
            },
            _ => {
                proof {
                    lemma_set_hi_keeps_low_nibble(self.af, v);
                }
                self.af = exec_set_hi(self.af, v);
            },
        }
    }

    /// Rewrites all four flags at once; every flag mutation goes through
    /// here, so the low nibble of F stays zero.
    pub fn set_flags(&mut self, z: bool, n: bool, h: bool, c: bool)
        requires
            old(self).wf(),
        ensures
            final(self).wf(),
            Cpu::same_but_regs(*old(self), *final(self)),
            final(self).z_flag() == z,
            final(self).n_flag() == n,
            final(self).h_flag() == h,
            final(self).c_flag() == c,
            final(self).a() == old(self).a(),
            final(self).f() == spec_flags_byte(z, n, h, c),
            final(self).bc == old(self).bc,
            final(self).de == old(self).de,
            final(self).hl == old(self).hl,
            final(self).f() & 0x0F == 0,
    {
        let zb: u8 = if z {
            0x80
        } else {
            0
        };
        let nb: u8 = if n {
            0x40
        } else {
            0
        };
        let hb: u8 = if h {
            0x20
        } else {
            0
        };
        let cb: u8 = if c {
            0x10
        } else {
            0
        };
        let fbyte = zb | nb | hb | cb;
        proof {
            lemma_flags_build(zb, nb, hb, cb);
            lemma_set_lo_keeps_low_nibble(self.af, fbyte);
        }
        self.af = exec_set_lo(self.af, fbyte);
    }

    pub fn is_zero_flag_set(&self) -> (r: bool)
        ensures
            r == self.z_flag(),
    {
        (exec_word_lo(self.af) & 0x80) > 0
    }

    pub fn is_carry_flag_set(&self) -> (r: bool)
        ensures
            r == self.c_flag(),
    {
        (exec_word_lo(self.af) & 0x10) > 0
    }

    pub fn is_half_carry_flag_set(&self) -> (r: bool)
        ensures
            r == self.h_flag(),
    {
        (exec_word_lo(self.af) & 0x20) > 0
    }

    pub fn is_sub_flag_set(&self) -> (r: bool)
        ensures
            r == self.n_flag(),
    {
        (exec_word_lo(self.af) & 0x40) > 0
    }

    /// Reports cycles to the timer and the PPU mid-instruction, so that
    /// memory-mapped side effects observe correctly ordered
    /// sub-operations.
    pub fn sync_cycles(&mut self, cycles: u8)
        requires
            old(self).wf(),
            old(self).cycle_tracker + cycles <= 255,
        ensures
            final(self).wf(),
            final(self).cycle_tracker == old(self).cycle_tracker + cycles,
            final(self).af == old(self).af,
            final(self).bc == old(self).bc,
            final(self).de == old(self).de,
            final(self).hl == old(self).hl,
            final(self).program_counter == old(self).program_counter,
            final(self).stack_pointer == old(self).stack_pointer,
            final(self).interrupts_enabled == old(self).interrupts_enabled,
            final(self).will_enable_interrupts == old(self).will_enable_interrupts,
            final(self).will_disable_interrupts == old(self).will_disable_interrupts,
            final(self).halted == old(self).halted,
            final(self).last_op == old(self).last_op,
            clocked_mem_rel(old(self).mmu, final(self).mmu),
    {
        self.timer.update(&mut self.mmu, cycles);
        self.ppu.update_graphics(&mut self.mmu, cycles);
        self.cycle_tracker = self.cycle_tracker + cycles;
    }

    pub fn read_memory(&self, addr: Word) -> (r: Byte)
        requires
            self.wf(),
        ensures
            r == self.mmu.spec_read(addr),
    {
        self.mmu.read_byte(addr)
    }

    /// A memory write leaves every CPU register alone; the memory moves
    /// by the MMU's write relation.
    pub fn write_memory(&mut self, addr: Word, data: Byte)
        requires
            old(self).wf(),
        ensures
            final(self).wf(),
            Cpu::same_but_mmu(*old(self), *final(self)),
            Mmu::write_rel(old(self).mmu, final(self).mmu, addr, data),
    {
        self.mmu.write_byte(addr, data);
    }

    /// The non-MMU state a memory write leaves alone.
    pub open spec fn same_but_mmu(pre: Cpu, post: Cpu) -> bool {
        &&& post.timer == pre.timer
        &&& post.ppu == pre.ppu
        &&& post.af == pre.af
        &&& post.bc == pre.bc
        &&& post.de == pre.de
        &&& post.hl == pre.hl
        &&& post.program_counter == pre.program_counter
        &&& post.stack_pointer == pre.stack_pointer
        &&& post.interrupts_enabled == pre.interrupts_enabled
        &&& post.will_enable_interrupts == pre.will_enable_interrupts
        &&& post.will_disable_interrupts == pre.will_disable_interrupts
        &&& post.halted == pre.halted
        &&& post.cycle_tracker == pre.cycle_tracker
        &&& post.last_op == pre.last_op
    }

    /// Fetches the byte at PC and steps PC past it.
    pub fn get_next_byte(&mut self) -> (r: Byte)
        requires
            old(self).wf(),
        ensures
            final(self).wf(),
            r == old(self).mmu.spec_read(old(self).program_counter),
            final(self).program_counter == word_inc(old(self).program_counter),
            (*final(self)) == (Cpu { program_counter: final(self).program_counter, ..*old(self) }),
    {
        let data = self.read_memory(self.program_counter);
        self.program_counter = self.program_counter.wrapping_add(1);
        data
    }

    pub fn get_next_byte_signed(&mut self) -> (r: SignedByte)
        requires
            old(self).wf(),
        ensures
            final(self).wf(),
            r == old(self).mmu.spec_read(old(self).program_counter) as i8,
            final(self).program_counter == word_inc(old(self).program_counter),
            (*final(self)) == (Cpu { program_counter: final(self).program_counter, ..*old(self) }),
    {
        let data = self.get_next_byte();
        data as SignedByte
    }

    /// Fetches a little-endian word at PC and steps PC past it.
    pub fn get_next_word(&mut self) -> (r: Word)
        requires
            old(self).wf(),
        ensures
            final(self).wf(),
            r == word_from(
                old(self).mmu.spec_read(word_inc(old(self).program_counter)),
                old(self).mmu.spec_read(old(self).program_counter),
            ),
            final(self).program_counter == word_inc(word_inc(old(self).program_counter)),
            (*final(self)) == (Cpu { program_counter: final(self).program_counter, ..*old(self) }),
    {
        let lo = self.get_next_byte();
        let hi = self.get_next_byte();
        exec_word_from(hi, lo)
    }

    pub fn push_byte_to_stack(&mut self, data: Byte)
        requires
            old(self).wf(),
        ensures
            final(self).wf(),
            final(self).stack_pointer == word_dec(old(self).stack_pointer),
            Mmu::write_rel(old(self).mmu, final(self).mmu, word_dec(old(self).stack_pointer), data),
            Cpu::same_but_mmu_sp(*old(self), *final(self)),
    {
        self.stack_pointer = self.stack_pointer.wrapping_sub(1);
        self.write_memory(self.stack_pointer, data);
    }

    pub fn pop_byte_from_stack(&mut self) -> (r: Byte)
        requires
            old(self).wf(),
        ensures
            final(self).wf(),
            r == old(self).mmu.spec_read(old(self).stack_pointer),
            final(self).stack_pointer == word_inc(old(self).stack_pointer),
            (*final(self)) == (Cpu { stack_pointer: final(self).stack_pointer, ..*old(self) }),
    {
        let data = self.read_memory(self.stack_pointer);
        self.stack_pointer = self.stack_pointer.wrapping_add(1);
        data
    }

    /// The non-MMU, non-SP state stack pushes leave alone.
    pub open spec fn same_but_mmu_sp(pre: Cpu, post: Cpu) -> bool {
        &&& post.timer == pre.timer
        &&& post.ppu == pre.ppu
        &&& post.af == pre.af
        &&& post.bc == pre.bc
        &&& post.de == pre.de
        &&& post.hl == pre.hl
        &&& post.program_counter == pre.program_counter
        &&& post.interrupts_enabled == pre.interrupts_enabled
        &&& post.will_enable_interrupts == pre.will_enable_interrupts
        &&& post.will_disable_interrupts == pre.will_disable_interrupts
        &&& post.halted == pre.halted
        &&& post.cycle_tracker == pre.cycle_tracker
        &&& post.last_op == pre.last_op
    }

    /// Pushes a word high byte first, so the value sits little-endian in
    /// memory at the decremented stack pointer.
    pub fn push_word_to_stack(&mut self, data: Word)
        requires
            old(self).wf(),
        ensures
            final(self).wf(),
            final(self).stack_pointer == word_dec(word_dec(old(self).stack_pointer)),
            spec_push_rel(old(self).mmu, final(self).mmu, old(self).stack_pointer, data),
            Cpu::same_but_mmu_sp(*old(self), *final(self)),
    {
        let lo = exec_word_lo(data);
        let hi = exec_word_hi(data);
        self.push_byte_to_stack(hi);
        self.push_byte_to_stack(lo);
    }

    /// Pops a little-endian word.
    pub fn pop_word_from_stack(&mut self) -> (r: Word)
        requires
            old(self).wf(),
        ensures
            final(self).wf(),
            r == word_from(
                old(self).mmu.spec_read(word_inc(old(self).stack_pointer)),
                old(self).mmu.spec_read(old(self).stack_pointer),
            ),
            final(self).stack_pointer == word_inc(word_inc(old(self).stack_pointer)),
            (*final(self)) == (Cpu { stack_pointer: final(self).stack_pointer, ..*old(self) }),
    {
        let lo = self.pop_byte_from_stack();
        let hi = self.pop_byte_from_stack();
        exec_word_from(hi, lo)
    }
}

impl Cpu {
    /// The source value of an 8-bit ALU instruction: the immediate after
    /// the opcode for the 0xC0-and-up forms, memory at HL when the low
    /// register field is 6, a register otherwise.
    pub open spec fn spec_operand(self, op: u8) -> u8 {
        if op >= 0xC0 {
            self.mmu.spec_read(self.program_counter)
        } else if op & 7 == 6 {
            self.mmu.spec_read(self.hl)
        } else {
            self.reg8(op & 7)
        }
    }

    /// Where PC stands after the operand fetch.
    pub open spec fn spec_pc_after_operand(self, op: u8) -> u16 {
        if op >= 0xC0 {
            word_inc(self.program_counter)
        } else {
            self.program_counter
        }
    }

    /// The T-cycles of an 8-bit ALU instruction: 8 with an immediate or
    /// memory operand, 4 register-to-register.
    pub open spec fn spec_alu_cycles(op: u8) -> u8 {
        if op >= 0xC0 || op & 7 == 6 {
            8
        } else {
            4
        }
    }

    fn fetch_operand(&mut self, op: u8) -> (r: u8)
        requires
            old(self).wf(),
        ensures
            final(self).wf(),
            r == old(self).spec_operand(op),
            final(self).program_counter == old(self).spec_pc_after_operand(op),
            (*final(self)) == (Cpu { program_counter: final(self).program_counter, ..*old(self) }),
    {
        if op >= 0xC0 {
            self.get_next_byte()
        } else if (op & 7) == 6 {
            self.read_memory(self.hl)
        } else {
            proof {
                lemma_and_mask_bound(op, 7);
            }
            self.get_reg8(op & 7)
        }
    }

    /// What every 8-bit accumulator ALU handler leaves alone.
    pub open spec fn alu_frame(pre: Cpu, post: Cpu, op: u8, r: u8) -> bool {
        &&& handler_frame(pre, post, r)
        &&& post.bc == pre.bc
        &&& post.de == pre.de
        &&& post.hl == pre.hl
        &&& post.stack_pointer == pre.stack_pointer
        &&& post.program_counter == pre.spec_pc_after_operand(op)
        &&& post.mmu == pre.mmu
        &&& post.cycle_tracker == pre.cycle_tracker
        &&& r == Cpu::spec_alu_cycles(op)
    }

    /// ADD and ADC: A takes the sum; Z reflects the result, N clears, H
    /// and C take the carries out of bits 3 and 7, the carry-in counting
    /// toward both.
    pub fn do_add(&mut self, op: u8, with_carry: bool) -> (r: u8)
        requires
            old(self).wf(),
            old(self).cycle_tracker == 0,
            (0x80 <= op <= 0x8F) || op == 0xC6 || op == 0xCE,
        ensures
            Cpu::alu_frame(*old(self), *final(self), op, r),
            ({
                let v = old(self).spec_operand(op);
                let cin: u8 = if with_carry && old(self).c_flag() {
                    1
                } else {
                    0
                };
                &&& final(self).a() == add_res(old(self).a(), v, cin)
                &&& final(self).z_flag() == (add_res(old(self).a(), v, cin) == 0)
                &&& !final(self).n_flag()
                &&& final(self).h_flag() == add_half(old(self).a(), v, cin)
                &&& final(self).c_flag() == add_carry(old(self).a(), v, cin)
            }),
    {
        let to_add = self.fetch_operand(op);
        let carry: u8 = if with_carry && self.is_carry_flag_set() {
            1
        } else {
            0
        };
        let a_reg = self.get_reg8(7);
        let sum: u16 = a_reg as u16 + to_add as u16 + carry as u16;
        let res: u8 = (sum % 256) as u8;
        proof {
            lemma_and_mask_bound(a_reg, 0xF);
            lemma_and_mask_bound(to_add, 0xF);
        }
        let half = (a_reg & 0xF) + (to_add & 0xF) + carry > 0xF;
        let carry_out = sum > 0xFF;
        self.set_reg8(7, res);
        self.set_flags(res == 0, false, half, carry_out);
        if op >= 0xC0 || (op & 7) == 6 {
            8
        } else {
            4
        }
    }

    /// SUB and SBC: A takes the difference; N sets, H and C take the
    /// borrows out of bits 3 and 7, the borrow-in counting toward both.
    pub fn do_sub(&mut self, op: u8, with_carry: bool) -> (r: u8)
        requires
            old(self).wf(),
            old(self).cycle_tracker == 0,
            (0x90 <= op <= 0x9F) || op == 0xD6 || op == 0xDE,
        ensures
            Cpu::alu_frame(*old(self), *final(self), op, r),
            ({
                let v = old(self).spec_operand(op);
                let cin: u8 = if with_carry && old(self).c_flag() {
                    1
                } else {
                    0
                };
                &&& final(self).a() == sub_res(old(self).a(), v, cin)
                &&& final(self).z_flag() == (sub_res(old(self).a(), v, cin) == 0)
                &&& final(self).n_flag()
                &&& final(self).h_flag() == sub_half(old(self).a(), v, cin)
                &&& final(self).c_flag() == sub_borrow(old(self).a(), v, cin)
            }),
    {
        let to_sub = self.fetch_operand(op);
        let carry: u8 = if with_carry && self.is_carry_flag_set() {
            1
        } else {
            0
        };
        let a_reg = self.get_reg8(7);
        let res: u8 = a_reg.wrapping_sub(to_sub).wrapping_sub(carry);
        proof {
            lemma_and_mask_bound(a_reg, 0xF);
            lemma_and_mask_bound(to_sub, 0xF);
        }
        let borrow = (a_reg as u16) < (to_sub as u16) + (carry as u16);
        let half = (a_reg & 0xF) < (to_sub & 0xF) + carry;
        self.set_reg8(7, res);
        self.set_flags(res == 0, true, half, borrow);
        if op >= 0xC0 || (op & 7) == 6 {
            8
        } else {
            4
        }
    }

    /// AND: A takes the conjunction; Z reflects it, H sets, N and C
    /// clear.
    pub fn do_and(&mut self, op: u8) -> (r: u8)
        requires
            old(self).wf(),
            old(self).cycle_tracker == 0,
            (0xA0 <= op <= 0xA7) || op == 0xE6,
        ensures
            Cpu::alu_frame(*old(self), *final(self), op, r),
            final(self).a() == (old(self).a() & old(self).spec_operand(op)),
            final(self).z_flag() == ((old(self).a() & old(self).spec_operand(op)) == 0),
            !final(self).n_flag(),
            final(self).h_flag(),
            !final(self).c_flag(),
    {
        let to_and = self.fetch_operand(op);
        let res = self.get_reg8(7) & to_and;
        self.set_reg8(7, res);
        self.set_flags(res == 0, false, true, false);
        if op >= 0xC0 || (op & 7) == 6 {
            8
        } else {
            4
        }
    }

    /// OR: A takes the disjunction; Z reflects it, N, H and C clear.
    pub fn do_or(&mut self, op: u8) -> (r: u8)
        requires
            old(self).wf(),
            old(self).cycle_tracker == 0,
            (0xB0 <= op <= 0xB7) || op == 0xF6,
        ensures
            Cpu::alu_frame(*old(self), *final(self), op, r),
            final(self).a() == (old(self).a() | old(self).spec_operand(op)),
            final(self).z_flag() == ((old(self).a() | old(self).spec_operand(op)) == 0),
            !final(self).n_flag(),
            !final(self).h_flag(),
            !final(self).c_flag(),
    {
        let to_or = self.fetch_operand(op);
        let res = self.get_reg8(7) | to_or;
        self.set_reg8(7, res);
        self.set_flags(res == 0, false, false, false);
        if op >= 0xC0 || (op & 7) == 6 {
            8
        } else {
            4
        }
    }

    /// XOR: A takes the exclusive or; Z reflects it, N, H and C clear.
    pub fn do_xor(&mut self, op: u8) -> (r: u8)
        requires
            old(self).wf(),
            old(self).cycle_tracker == 0,
            (0xA8 <= op <= 0xAF) || op == 0xEE,
        ensures
            Cpu::alu_frame(*old(self), *final(self), op, r),
            final(self).a() == (old(self).a() ^ old(self).spec_operand(op)),
            final(self).z_flag() == ((old(self).a() ^ old(self).spec_operand(op)) == 0),
            !final(self).n_flag(),
            !final(self).h_flag(),
            !final(self).c_flag(),
    {
        let to_xor = self.fetch_operand(op);
        let res = self.get_reg8(7) ^ to_xor;
        self.set_reg8(7, res);
        self.set_flags(res == 0, false, false, false);
        if op >= 0xC0 || (op & 7) == 6 {
            8
        } else {
            4
        }
    }

    /// CP: compares A with the operand by subtraction, setting the
    /// flags but leaving A alone.
    pub fn do_compare(&mut self, op: u8) -> (r: u8)
        requires
            old(self).wf(),
            old(self).cycle_tracker == 0,
            (0xB8 <= op <= 0xBF) || op == 0xFE,
        ensures
            Cpu::alu_frame(*old(self), *final(self), op, r),
            final(self).a() == old(self).a(),
            final(self).z_flag() == (old(self).a() == old(self).spec_operand(op)),
            final(self).n_flag(),
            final(self).h_flag() == sub_half(old(self).a(), old(self).spec_operand(op), 0),
            final(self).c_flag() == sub_borrow(old(self).a(), old(self).spec_operand(op), 0),
    {
        let to_cp = self.fetch_operand(op);
        let a_reg = self.get_reg8(7);
        proof {
            lemma_and_mask_bound(a_reg, 0xF);
            lemma_and_mask_bound(to_cp, 0xF);
        }
        let half = (a_reg & 0xF) < (to_cp & 0xF);
        self.set_flags(a_reg == to_cp, true, half, a_reg < to_cp);
        if op >= 0xC0 || (op & 7) == 6 {
            8
        } else {
            4
        }
    }
}

impl Cpu {
    /// INC r: Z reflects the result, N clears, H is set exactly when
    /// the low nibble wrapped to zero, C is untouched. The memory form
    /// reads through HL, reports four cycles mid-step and writes back.
    pub fn do_increment(&mut self, op: u8) -> (r: u8)
        requires
            old(self).wf(),
            old(self).cycle_tracker == 0,
            op == 0x04 || op == 0x0C || op == 0x14 || op == 0x1C || op == 0x24 || op == 0x2C || op
                == 0x34 || op == 0x3C,
        ensures
            handler_frame(*old(self), *final(self), r),
            final(self).c_flag() == old(self).c_flag(),
            !final(self).n_flag(),
            final(self).program_counter == old(self).program_counter,
            final(self).stack_pointer == old(self).stack_pointer,
            ({
                let idx = (op >> 3u8) & 7;
                let v0 = if idx == 6 {
                    old(self).mmu.spec_read(old(self).hl)
                } else {
                    old(self).reg8(idx)
                };
                let res = add_res(v0, 1, 0);
                &&& final(self).z_flag() == (res == 0)
                &&& final(self).h_flag() == (res & 0xF == 0)
                &&& (idx != 6 ==> final(self).reg8(idx) == res && final(self).mmu == old(self).mmu
                    && r == 4)
                &&& (idx != 6 ==> forall|j: u8|
                    j < 8 && j != 6 && j != idx ==> final(self).reg8(j) == old(self).reg8(j))
                &&& (idx == 6 ==> r == 12 && exists|m1: Mmu|
                    (#[trigger] clocked_mem_rel(old(self).mmu, m1)) && Mmu::write_rel(
                        m1,
                        final(self).mmu,
                        old(self).hl,
                        res,
                    ))
            }),
    {
        proof {
            lemma_and_mask_bound(op >> 3u8, 7);
        }
        let idx = (op >> 3u8) & 7;
        if idx == 6 {
            let val = self.read_memory(self.hl);
            self.sync_cycles(4);
            let res = val.wrapping_add(1);
            self.write_memory(self.hl, res);
            let c = self.is_carry_flag_set();
            self.set_flags(res == 0, false, res & 0xF == 0, c);
            12
        } else {
            let val = self.get_reg8(idx);
            let res = val.wrapping_add(1);
            self.set_reg8(idx, res);
            let c = self.is_carry_flag_set();
            self.set_flags(res == 0, false, res & 0xF == 0, c);
            4
        }
    }

    /// DEC r: Z reflects the result, N sets, H is set exactly when the
    /// low nibble wrapped to 0xF, C is untouched.
    pub fn do_decrement(&mut self, op: u8) -> (r: u8)
        requires
            old(self).wf(),
            old(self).cycle_tracker == 0,
            op == 0x05 || op == 0x0D || op == 0x15 || op == 0x1D || op == 0x25 || op == 0x2D || op
                == 0x35 || op == 0x3D,
        ensures
            handler_frame(*old(self), *final(self), r),
            final(self).c_flag() == old(self).c_flag(),
            final(self).n_flag(),
            final(self).program_counter == old(self).program_counter,
            final(self).stack_pointer == old(self).stack_pointer,
            ({
                let idx = (op >> 3u8) & 7;
                let v0 = if idx == 6 {
                    old(self).mmu.spec_read(old(self).hl)
                } else {
                    old(self).reg8(idx)
                };
                let res = sub_res(v0, 1, 0);
                &&& final(self).z_flag() == (res == 0)
                &&& final(self).h_flag() == (res & 0xF == 0xF)
                &&& (idx != 6 ==> final(self).reg8(idx) == res && final(self).mmu == old(self).mmu
                    && r == 4)
                &&& (idx != 6 ==> forall|j: u8|
                    j < 8 && j != 6 && j != idx ==> final(self).reg8(j) == old(self).reg8(j))
                &&& (idx == 6 ==> r == 12 && exists|m1: Mmu|
                    (#[trigger] clocked_mem_rel(old(self).mmu, m1)) && Mmu::write_rel(
                        m1,
                        final(self).mmu,
                        old(self).hl,
                        res,
                    ))
            }),
    {
        proof {
            lemma_and_mask_bound(op >> 3u8, 7);
        }
        let idx = (op >> 3u8) & 7;
        if idx == 6 {
            let val = self.read_memory(self.hl);
            self.sync_cycles(4);
            let res = val.wrapping_sub(1);
            self.write_memory(self.hl, res);
            let c = self.is_carry_flag_set();
            self.set_flags(res == 0, true, res & 0xF == 0xF, c);
            12
        } else {
            let val = self.get_reg8(idx);
            let res = val.wrapping_sub(1);
            self.set_reg8(idx, res);
            let c = self.is_carry_flag_set();
            self.set_flags(res == 0, true, res & 0xF == 0xF, c);
            4
        }
    }

    /// INC rr: the pair advances by one, wrapping; no flag moves.
    pub fn do_increment_16_bit(&mut self, op: u8) -> (r: u8)
        requires
            old(self).wf(),
            old(self).cycle_tracker == 0,
            op == 0x03 || op == 0x13 || op == 0x23 || op == 0x33,
        ensures
            handler_frame(*old(self), *final(self), r),
            r == 8,
            final(self).af == old(self).af,
            final(self).program_counter == old(self).program_counter,
            final(self).mmu == old(self).mmu,
            final(self).cycle_tracker == old(self).cycle_tracker,
            op == 0x03 ==> {
                &&& final(self).bc == word_inc(old(self).bc)
                &&& final(self).de == old(self).de
                &&& final(self).hl == old(self).hl
                &&& final(self).stack_pointer == old(self).stack_pointer
            },
            op == 0x13 ==> {
                &&& final(self).de == word_inc(old(self).de)
                &&& final(self).bc == old(self).bc
                &&& final(self).hl == old(self).hl
                &&& final(self).stack_pointer == old(self).stack_pointer
            },
            op == 0x23 ==> {
                &&& final(self).hl == word_inc(old(self).hl)
                &&& final(self).bc == old(self).bc
                &&& final(self).de == old(self).de
                &&& final(self).stack_pointer == old(self).stack_pointer
            },
            op == 0x33 ==> {
                &&& final(self).stack_pointer == word_inc(old(self).stack_pointer)
                &&& final(self).bc == old(self).bc
                &&& final(self).de == old(self).de
                &&& final(self).hl == old(self).hl
            },
    {
        match op {
            0x03 => {
                self.bc = self.bc.wrapping_add(1);
            },
            0x13 => {
                self.de = self.de.wrapping_add(1);
            },
            0x23 => {
                self.hl = self.hl.wrapping_add(1);
            },
            _ => {
                self.stack_pointer = self.stack_pointer.wrapping_add(1);
            },
        }
        8
    }

    /// DEC rr: the pair steps back by one, wrapping; no flag moves.
    pub fn do_decrement_16_bit(&mut self, op: u8) -> (r: u8)
        requires
            old(self).wf(),
            old(self).cycle_tracker == 0,
            op == 0x0B || op == 0x1B || op == 0x2B || op == 0x3B,
        ensures
            handler_frame(*old(self), *final(self), r),
            r == 8,
            final(self).af == old(self).af,
            final(self).program_counter == old(self).program_counter,
            final(self).mmu == old(self).mmu,
            final(self).cycle_tracker == old(self).cycle_tracker,
            op == 0x0B ==> {
                &&& final(self).bc == word_dec(old(self).bc)
                &&& final(self).de == old(self).de
                &&& final(self).hl == old(self).hl
                &&& final(self).stack_pointer == old(self).stack_pointer
            },
            op == 0x1B ==> {
                &&& final(self).de == word_dec(old(self).de)
                &&& final(self).bc == old(self).bc
                &&& final(self).hl == old(self).hl
                &&& final(self).stack_pointer == old(self).stack_pointer
            },
            op == 0x2B ==> {
                &&& final(self).hl == word_dec(old(self).hl)
                &&& final(self).bc == old(self).bc
                &&& final(self).de == old(self).de
                &&& final(self).stack_pointer == old(self).stack_pointer
            },
            op == 0x3B ==> {
                &&& final(self).stack_pointer == word_dec(old(self).stack_pointer)
                &&& final(self).bc == old(self).bc
                &&& final(self).de == old(self).de
                &&& final(self).hl == old(self).hl
            },
    {
        match op {
            0x0B => {
                self.bc = self.bc.wrapping_sub(1);
            },
            0x1B => {
                self.de = self.de.wrapping_sub(1);
            },
            0x2B => {
                self.hl = self.hl.wrapping_sub(1);
            },
            _ => {
                self.stack_pointer = self.stack_pointer.wrapping_sub(1);
            },
        }
        8
    }

    /// The pair an ADD HL,rr opcode names.
    pub open spec fn spec_add16_operand(self, op: u8) -> u16 {
        if op == 0x09 {
            self.bc
        } else if op == 0x19 {
            self.de
        } else if op == 0x29 {
            self.hl
        } else {
            self.stack_pointer
        }
    }

    /// ADD HL,rr: HL takes the 16-bit sum; N clears, H is the carry out
    /// of bit 11, C the carry out of bit 15, Z is untouched. ADD SP,e
    /// adds a signed immediate to SP with Z and N clear and H and C
    /// computed on the unsigned low byte.
    pub fn do_add_16_bit(&mut self, op: u8) -> (r: u8)
        requires
            old(self).wf(),
            old(self).cycle_tracker == 0,
            op == 0x09 || op == 0x19 || op == 0x29 || op == 0x39 || op == 0xE8,
        ensures
            handler_frame(*old(self), *final(self), r),
            final(self).mmu == old(self).mmu,
            final(self).cycle_tracker == old(self).cycle_tracker,
            final(self).bc == old(self).bc,
            final(self).de == old(self).de,
            final(self).a() == old(self).a(),
            op != 0xE8 ==> {
                let v = old(self).spec_add16_operand(op);
                &&& r == 8
                &&& final(self).hl == word_add(old(self).hl, v)
                &&& final(self).stack_pointer == old(self).stack_pointer
                &&& final(self).program_counter == old(self).program_counter
                &&& final(self).z_flag() == old(self).z_flag()
                &&& !final(self).n_flag()
                &&& final(self).h_flag() == ((old(self).hl & 0xFFF) + (v & 0xFFF) > 0xFFF)
                &&& final(self).c_flag() == (old(self).hl + v > 0xFFFF)
            },
            op == 0xE8 ==> {
                let off = old(self).mmu.spec_read(old(self).program_counter) as i8;
                let off_u = off as u16;
                &&& r == 16
                &&& final(self).stack_pointer == word_add_signed(old(self).stack_pointer, off)
                &&& final(self).hl == old(self).hl
                &&& final(self).program_counter == word_inc(old(self).program_counter)
                &&& !final(self).z_flag()
                &&& !final(self).n_flag()
                &&& final(self).h_flag() == ((old(self).stack_pointer & 0xF) + (off_u & 0xF) > 0xF)
                &&& final(self).c_flag() == ((old(self).stack_pointer & 0xFF) + (off_u & 0xFF)
                    > 0xFF)
            },
    {
        if op == 0xE8 {
            // 16-bit arithmetic on SP with its own flag conventions.
            let offset = self.get_next_byte_signed();
            let off_u = offset as u16;
            proof {
                crate::utils::lemma_and_mask_bound_u16(self.stack_pointer, 0xFF);
                crate::utils::lemma_and_mask_bound_u16(off_u, 0xFF);
                crate::utils::lemma_and_mask_bound_u16(self.stack_pointer, 0xF);
                crate::utils::lemma_and_mask_bound_u16(off_u, 0xF);
            }
            let carry = (self.stack_pointer & 0xFF) + (off_u & 0xFF) > 0xFF;
            let half = (self.stack_pointer & 0xF) + (off_u & 0xF) > 0xF;
            self.stack_pointer = self.stack_pointer.wrapping_add_signed(offset as i16);
            self.set_flags(false, false, half, carry);
            16
        } else {
            let to_add: u16 = match op {
                0x09 => self.bc,
                0x19 => self.de,
                0x29 => self.hl,
                _ => self.stack_pointer,
            };
            proof {
                crate::utils::lemma_and_mask_bound_u16(self.hl, 0xFFF);
                crate::utils::lemma_and_mask_bound_u16(to_add, 0xFFF);
            }
            let sum: u32 = self.hl as u32 + to_add as u32;
            let carry = sum > 0xFFFF;
            let half = (self.hl & 0xFFF) + (to_add & 0xFFF) > 0xFFF;
            let z = self.is_zero_flag_set();
            self.hl = self.hl.wrapping_add(to_add);
            self.set_flags(z, false, half, carry);
            8
        }
    }

    /// RLCA: A rotates left; the old bit 7 lands in both bit 0 and C;
    /// Z, N and H clear.
    pub fn do_rlca(&mut self) -> (r: u8)
        requires
            old(self).wf(),
            old(self).cycle_tracker == 0,
        ensures
            handler_frame(*old(self), *final(self), r),
            r == 4,
            final(self).mmu == old(self).mmu,
            final(self).program_counter == old(self).program_counter,
            final(self).a() == ((old(self).a() << 1u8) | crate::utils::spec_bit_val(
                old(self).a(),
                7,
            )),
            !final(self).z_flag(),
            !final(self).n_flag(),
            !final(self).h_flag(),
            final(self).c_flag() == (crate::utils::spec_bit_val(old(self).a(), 7) == 1),
    {
        let a = self.get_reg8(7);
        let msb = crate::utils::get_bit_val(&a, 7);
        let res = (a << 1u8) | msb;
        self.set_reg8(7, res);
        self.set_flags(false, false, false, msb == 1);
        4
    }

    /// RLA: A rotates left through the carry; the old bit 7 lands in C
    /// and the old C in bit 0; Z, N and H clear.
    pub fn do_rla(&mut self) -> (r: u8)
        requires
            old(self).wf(),
            old(self).cycle_tracker == 0,
        ensures
            handler_frame(*old(self), *final(self), r),
            r == 4,
            final(self).mmu == old(self).mmu,
            final(self).program_counter == old(self).program_counter,
            final(self).a() == ((old(self).a() << 1u8) | (if old(self).c_flag() {
                1u8
            } else {
                0u8
            })),
            !final(self).z_flag(),
            !final(self).n_flag(),
            !final(self).h_flag(),
            final(self).c_flag() == (crate::utils::spec_bit_val(old(self).a(), 7) == 1),
    {
        let a = self.get_reg8(7);
        let msb = crate::utils::get_bit_val(&a, 7);
        let carry_bit: u8 = if self.is_carry_flag_set() {
            1
        } else {
            0
        };
        let res = (a << 1u8) | carry_bit;
        self.set_reg8(7, res);
        self.set_flags(false, false, false, msb == 1);
        4
    }

    /// RRCA: A rotates right; the old bit 0 lands in both bit 7 and C;
    /// Z, N and H clear.
    pub fn do_rrca(&mut self) -> (r: u8)
        requires
            old(self).wf(),
            old(self).cycle_tracker == 0,
        ensures
            handler_frame(*old(self), *final(self), r),
            r == 4,
            final(self).mmu == old(self).mmu,
            final(self).program_counter == old(self).program_counter,
            final(self).a() == ((crate::utils::spec_bit_val(old(self).a(), 0) << 7u8) | (old(
                self,
            ).a() >> 1u8)),
            !final(self).z_flag(),
            !final(self).n_flag(),
            !final(self).h_flag(),
            final(self).c_flag() == (crate::utils::spec_bit_val(old(self).a(), 0) == 1),
    {
        let a = self.get_reg8(7);
        let lsb = crate::utils::get_bit_val(&a, 0);
        let res = (lsb << 7u8) | (a >> 1u8);
        self.set_reg8(7, res);
        self.set_flags(false, false, false, lsb == 1);
        4
    }

    /// RRA: A rotates right through the carry; the old bit 0 lands in C
    /// and the old C in bit 7; Z, N and H clear.
    pub fn do_rra(&mut self) -> (r: u8)
        requires
            old(self).wf(),
            old(self).cycle_tracker == 0,
        ensures
            handler_frame(*old(self), *final(self), r),
            r == 4,
            final(self).mmu == old(self).mmu,
            final(self).program_counter == old(self).program_counter,
            final(self).a() == (((if old(self).c_flag() {
                1u8
            } else {
                0u8
            }) << 7u8) | (old(self).a() >> 1u8)),
            !final(self).z_flag(),
            !final(self).n_flag(),
            !final(self).h_flag(),
            final(self).c_flag() == (crate::utils::spec_bit_val(old(self).a(), 0) == 1),
    {
        let a = self.get_reg8(7);
        let lsb = crate::utils::get_bit_val(&a, 0);
        let carry_bit: u8 = if self.is_carry_flag_set() {
            1
        } else {
            0
        };
        let res = (carry_bit << 7u8) | (a >> 1u8);
        self.set_reg8(7, res);
        self.set_flags(false, false, false, lsb == 1);
        4
    }

    /// CPL: A flips all bits; N and H set, Z and C untouched.
    pub fn do_complement(&mut self) -> (r: u8)
        requires
            old(self).wf(),
            old(self).cycle_tracker == 0,
        ensures
            handler_frame(*old(self), *final(self), r),
            r == 4,
            final(self).mmu == old(self).mmu,
            final(self).program_counter == old(self).program_counter,
            final(self).a() == !old(self).a(),
            final(self).z_flag() == old(self).z_flag(),
            final(self).n_flag(),
            final(self).h_flag(),
            final(self).c_flag() == old(self).c_flag(),
    {
        let a = self.get_reg8(7);
        let z = self.is_zero_flag_set();
        let c = self.is_carry_flag_set();
        self.set_reg8(7, !a);
        self.set_flags(z, true, true, c);
        4
    }

    /// CCF: C flips; N and H clear, Z is untouched.
    pub fn do_complement_carry(&mut self) -> (r: u8)
        requires
            old(self).wf(),
            old(self).cycle_tracker == 0,
        ensures
            handler_frame(*old(self), *final(self), r),
            r == 4,
            final(self).mmu == old(self).mmu,
            final(self).program_counter == old(self).program_counter,
            final(self).a() == old(self).a(),
            final(self).z_flag() == old(self).z_flag(),
            !final(self).n_flag(),
            !final(self).h_flag(),
            final(self).c_flag() == !old(self).c_flag(),
    {
        let z = self.is_zero_flag_set();
        let c = self.is_carry_flag_set();
        self.set_flags(z, false, false, !c);
        4
    }

    /// SCF: C sets; N and H clear, Z is untouched.
    pub fn do_set_carry_flag(&mut self) -> (r: u8)
        requires
            old(self).wf(),
            old(self).cycle_tracker == 0,
        ensures
            handler_frame(*old(self), *final(self), r),
            r == 4,
            final(self).mmu == old(self).mmu,
            final(self).program_counter == old(self).program_counter,
            final(self).a() == old(self).a(),
            final(self).z_flag() == old(self).z_flag(),
            !final(self).n_flag(),
            !final(self).h_flag(),
            final(self).c_flag(),
    {
        let z = self.is_zero_flag_set();
        self.set_flags(z, false, false, true);
        4
    }

    /// DAA: adjusts A back to packed BCD after an add or subtract,
    /// steered by N, H and C; H clears, C reports the high-digit
    /// adjustment, N is untouched.
    #[verifier::rlimit(100)]
    #[verifier::spinoff_prover]
    pub fn do_daa(&mut self) -> (r: u8)
        requires
            old(self).wf(),
            old(self).cycle_tracker == 0,
        ensures
            handler_frame(*old(self), *final(self), r),
            r == 4,
            final(self).mmu == old(self).mmu,
            final(self).program_counter == old(self).program_counter,
            ({
                let res = spec_daa_value(
                    old(self).a(),
                    old(self).n_flag(),
                    old(self).h_flag(),
                    old(self).c_flag(),
                );
                &&& final(self).a() == res
                &&& final(self).z_flag() == (res == 0)
                &&& final(self).n_flag() == old(self).n_flag()
                &&& !final(self).h_flag()
                &&& final(self).c_flag() == spec_daa_carry(
                    old(self).a(),
                    old(self).n_flag(),
                    old(self).c_flag(),
                )
            }),
    {
        let mut val = self.get_reg8(7);
        let mut should_set_carry = false;
        let n = self.is_sub_flag_set();
        let h = self.is_half_carry_flag_set();
        let c = self.is_carry_flag_set();

        if !n {
            if c || val > 0x99 {
                val = val.wrapping_add(0x60);
                should_set_carry = true;
            }
            if h || (val & 0x0F) > 0x09 {
                val = val.wrapping_add(0x6);
            }
        } else {
            if c {
                val = val.wrapping_sub(0x60);
                should_set_carry = true;
            }
            if h {
                val = val.wrapping_sub(0x6);
            }
        }

        self.set_reg8(7, val);
        self.set_flags(val == 0, n, false, should_set_carry);
        4
    }
}

impl Cpu {
    /// Whether the condition an opcode's bits 4-3 name holds: NZ, Z,
    /// NC, C.
    pub open spec fn spec_cond(self, op: u8) -> bool {
        let cc = (op >> 3u8) & 3;
        if cc == 0 {
            !self.z_flag()
        } else if cc == 1 {
            self.z_flag()
        } else if cc == 2 {
            !self.c_flag()
        } else {
            self.c_flag()
        }
    }

    fn check_cond(&self, op: u8) -> (r: bool)
        ensures
            r == self.spec_cond(op),
    {
        proof {
            lemma_and_mask_bound(op >> 3u8, 3);
        }
        let cc = (op >> 3u8) & 3;
        if cc == 0 {
            !self.is_zero_flag_set()
        } else if cc == 1 {
            self.is_zero_flag_set()
        } else if cc == 2 {
            !self.is_carry_flag_set()
        } else {
            self.is_carry_flag_set()
        }
    }

    /// JP: PC takes the immediate word (16 cycles), the conditional
    /// forms only when their condition holds (else 12), and JP HL takes
    /// HL in 4.
    pub fn do_jump(&mut self, op: u8) -> (r: u8)
        requires
            old(self).wf(),
            old(self).cycle_tracker == 0,
            op == 0xC2 || op == 0xC3 || op == 0xCA || op == 0xD2 || op == 0xDA || op == 0xE9,
        ensures
            handler_frame(*old(self), *final(self), r),
            final(self).mmu == old(self).mmu,
            final(self).cycle_tracker == old(self).cycle_tracker,
            final(self).af == old(self).af,
            final(self).bc == old(self).bc,
            final(self).de == old(self).de,
            final(self).hl == old(self).hl,
            final(self).stack_pointer == old(self).stack_pointer,
            op == 0xE9 ==> final(self).program_counter == old(self).hl && r == 4,
            op == 0xC3 ==> final(self).program_counter == old(self).spec_imm_word() && r == 16,
            op != 0xE9 && op != 0xC3 ==> {
                &&& old(self).spec_cond(op) ==> final(self).program_counter == old(
                    self,
                ).spec_imm_word() && r == 16
                &&& !old(self).spec_cond(op) ==> final(self).program_counter == word_inc(
                    word_inc(old(self).program_counter),
                ) && r == 12
            },
    {
        if op == 0xE9 {
            self.program_counter = self.hl;
            4
        } else if op == 0xC3 {
            let addr = self.get_next_word();
            self.program_counter = addr;
            16
        } else {
            let taken = self.check_cond(op);
            let addr = self.get_next_word();
            if taken {
                self.program_counter = addr;
                16
            } else {
                12
            }
        }
    }

    /// The little-endian immediate word after the opcode.
    pub open spec fn spec_imm_word(self) -> u16 {
        word_from(
            self.mmu.spec_read(word_inc(self.program_counter)),
            self.mmu.spec_read(self.program_counter),
        )
    }

    /// The signed immediate byte after the opcode.
    pub open spec fn spec_imm_signed(self) -> i8 {
        self.mmu.spec_read(self.program_counter) as i8
    }

    /// JR: PC moves by the signed immediate, measured after the fetch;
    /// taken jumps cost 12 cycles, untaken conditionals 8.
    pub fn do_jump_relative(&mut self, op: u8) -> (r: u8)
        requires
            old(self).wf(),
            old(self).cycle_tracker == 0,
            op == 0x18 || op == 0x20 || op == 0x28 || op == 0x30 || op == 0x38,
        ensures
            handler_frame(*old(self), *final(self), r),
            final(self).mmu == old(self).mmu,
            final(self).cycle_tracker == old(self).cycle_tracker,
            final(self).af == old(self).af,
            final(self).bc == old(self).bc,
            final(self).de == old(self).de,
            final(self).hl == old(self).hl,
            final(self).stack_pointer == old(self).stack_pointer,
            op == 0x18 ==> final(self).program_counter == word_add_signed(
                word_inc(old(self).program_counter),
                old(self).spec_imm_signed(),
            ) && r == 12,
            op != 0x18 ==> {
                &&& old(self).spec_cond(op) ==> final(self).program_counter == word_add_signed(
                    word_inc(old(self).program_counter),
                    old(self).spec_imm_signed(),
                ) && r == 12
                &&& !old(self).spec_cond(op) ==> final(self).program_counter == word_inc(
                    old(self).program_counter,
                ) && r == 8
            },
    {
        if op == 0x18 {
            let offset = self.get_next_byte_signed();
            self.program_counter = self.program_counter.wrapping_add_signed(offset as i16);
            12
        } else {
            let taken = self.check_cond(op);
            let offset = self.get_next_byte_signed();
            if taken {
                self.program_counter = self.program_counter.wrapping_add_signed(offset as i16);
                12
            } else {
                8
            }
        }
    }

    /// CALL: pushes the address of the following instruction and jumps
    /// to the immediate word (24 cycles); an untaken conditional only
    /// steps past its operand (12).
    pub fn do_call(&mut self, op: u8) -> (r: u8)
        requires
            old(self).wf(),
            old(self).cycle_tracker == 0,
            op == 0xC4 || op == 0xCC || op == 0xCD || op == 0xD4 || op == 0xDC,
        ensures
            handler_frame(*old(self), *final(self), r),
            final(self).cycle_tracker == old(self).cycle_tracker,
            final(self).af == old(self).af,
            final(self).bc == old(self).bc,
            final(self).de == old(self).de,
            final(self).hl == old(self).hl,
            ({
                let taken = op == 0xCD || old(self).spec_cond(op);
                let ret_addr = word_inc(word_inc(old(self).program_counter));
                &&& taken ==> {
                    &&& final(self).program_counter == old(self).spec_imm_word()
                    &&& final(self).stack_pointer == word_dec(word_dec(old(self).stack_pointer))
                    &&& spec_push_rel(
                        old(self).mmu,
                        final(self).mmu,
                        old(self).stack_pointer,
                        ret_addr,
                    )
                    &&& r == 24
                }
                &&& !taken ==> {
                    &&& final(self).program_counter == ret_addr
                    &&& final(self).stack_pointer == old(self).stack_pointer
                    &&& final(self).mmu == old(self).mmu
                    &&& r == 12
                }
            }),
    {
        let taken = if op == 0xCD {
            true
        } else {
            self.check_cond(op)
        };
        let addr = self.get_next_word();
        if taken {
            let ret = self.program_counter;
            self.push_word_to_stack(ret);
            self.program_counter = addr;
            24
        } else {
            12
        }
    }

    /// RET: PC is popped off the stack (16 cycles; a taken conditional
    /// costs 20, an untaken one 8). RETI additionally sets IME.
    pub fn do_return(&mut self, op: u8) -> (r: u8)
        requires
            old(self).wf(),
            old(self).cycle_tracker == 0,
            op == 0xC0 || op == 0xC8 || op == 0xC9 || op == 0xD0 || op == 0xD8 || op == 0xD9,
        ensures
            handler_frame_ctrl(*old(self), *final(self), r),
            final(self).mmu == old(self).mmu,
            final(self).cycle_tracker == old(self).cycle_tracker,
            final(self).af == old(self).af,
            final(self).bc == old(self).bc,
            final(self).de == old(self).de,
            final(self).hl == old(self).hl,
            final(self).halted == old(self).halted,
            final(self).will_enable_interrupts == old(self).will_enable_interrupts,
            final(self).will_disable_interrupts == old(self).will_disable_interrupts,
            final(self).interrupts_enabled == (if op == 0xD9 {
                true
            } else {
                old(self).interrupts_enabled
            }),
            ({
                let popped = word_from(
                    old(self).mmu.spec_read(word_inc(old(self).stack_pointer)),
                    old(self).mmu.spec_read(old(self).stack_pointer),
                );
                let sp_after = word_inc(word_inc(old(self).stack_pointer));
                &&& (op == 0xC9 || op == 0xD9) ==> {
                    &&& final(self).program_counter == popped
                    &&& final(self).stack_pointer == sp_after
                    &&& r == 16
                }
                &&& (op != 0xC9 && op != 0xD9 && old(self).spec_cond(op)) ==> {
                    &&& final(self).program_counter == popped
                    &&& final(self).stack_pointer == sp_after
                    &&& r == 20
                }
                &&& (op != 0xC9 && op != 0xD9 && !old(self).spec_cond(op)) ==> {
                    &&& final(self).program_counter == old(self).program_counter
                    &&& final(self).stack_pointer == old(self).stack_pointer
                    &&& r == 8
                }
            }),
    {
        if op == 0xC9 {
            let addr = self.pop_word_from_stack();
            self.program_counter = addr;
            16
        } else if op == 0xD9 {
            // RETI: returning from an interrupt re-enables IME.
            let addr = self.pop_word_from_stack();
            self.program_counter = addr;
            self.interrupts_enabled = true;
            16
        } else {
            let taken = self.check_cond(op);
            if taken {
                let addr = self.pop_word_from_stack();
                self.program_counter = addr;
                20
            } else {
                8
            }
        }
    }

    /// RST: pushes PC and jumps to the fixed vector the opcode encodes.
    pub fn do_restart(&mut self, op: u8) -> (r: u8)
        requires
            old(self).wf(),
            old(self).cycle_tracker == 0,
            op == 0xC7 || op == 0xCF || op == 0xD7 || op == 0xDF || op == 0xE7 || op == 0xEF || op
                == 0xF7 || op == 0xFF,
        ensures
            handler_frame(*old(self), *final(self), r),
            r == 16,
            final(self).cycle_tracker == old(self).cycle_tracker,
            final(self).af == old(self).af,
            final(self).bc == old(self).bc,
            final(self).de == old(self).de,
            final(self).hl == old(self).hl,
            final(self).stack_pointer == word_dec(word_dec(old(self).stack_pointer)),
            spec_push_rel(
                old(self).mmu,
                final(self).mmu,
                old(self).stack_pointer,
                old(self).program_counter,
            ),
            final(self).program_counter == (op - 0xC7) as u16,
    {
        let ret = self.program_counter;
        self.push_word_to_stack(ret);
        self.program_counter = (op - 0xC7) as u16;
        16
    }

    /// PUSH rr: the pair lands little-endian under the stack pointer,
    /// which drops by two.
    pub fn do_push(&mut self, op: u8) -> (r: u8)
        requires
            old(self).wf(),
            old(self).cycle_tracker == 0,
            op == 0xC5 || op == 0xD5 || op == 0xE5 || op == 0xF5,
        ensures
            handler_frame(*old(self), *final(self), r),
            r == 16,
            final(self).cycle_tracker == old(self).cycle_tracker,
            final(self).af == old(self).af,
            final(self).bc == old(self).bc,
            final(self).de == old(self).de,
            final(self).hl == old(self).hl,
            final(self).program_counter == old(self).program_counter,
            final(self).stack_pointer == word_dec(word_dec(old(self).stack_pointer)),
            spec_push_rel(
                old(self).mmu,
                final(self).mmu,
                old(self).stack_pointer,
                old(self).spec_pair(op),
            ),
    {
        let data: u16 = match op {
            0xC5 => self.bc,
            0xD5 => self.de,
            0xE5 => self.hl,
            _ => self.af,
        };
        self.push_word_to_stack(data);
        16
    }

    /// The pair a PUSH/POP opcode names.
    pub open spec fn spec_pair(self, op: u8) -> u16 {
        if op == 0xC1 || op == 0xC5 {
            self.bc
        } else if op == 0xD1 || op == 0xD5 {
            self.de
        } else if op == 0xE1 || op == 0xE5 {
            self.hl
        } else {
            self.af
        }
    }

    /// POP rr: the pair takes the little-endian word at the stack
    /// pointer, which rises by two. POP AF masks the popped low byte to
    /// its high nibble, so the four flag bits land and bits 3-0 of F
    /// stay zero.
    pub fn do_pop(&mut self, op: u8) -> (r: u8)
        requires
            old(self).wf(),
            old(self).cycle_tracker == 0,
            op == 0xC1 || op == 0xD1 || op == 0xE1 || op == 0xF1,
        ensures
            handler_frame(*old(self), *final(self), r),
            r == 12,
            final(self).mmu == old(self).mmu,
            final(self).cycle_tracker == old(self).cycle_tracker,
            final(self).program_counter == old(self).program_counter,
            final(self).stack_pointer == word_inc(word_inc(old(self).stack_pointer)),
            ({
                let popped = word_from(
                    old(self).mmu.spec_read(word_inc(old(self).stack_pointer)),
                    old(self).mmu.spec_read(old(self).stack_pointer),
                );
                &&& op == 0xC1 ==> final(self).bc == popped && final(self).de == old(self).de
                    && final(self).hl == old(self).hl && final(self).af == old(self).af
                &&& op == 0xD1 ==> final(self).de == popped && final(self).bc == old(self).bc
                    && final(self).hl == old(self).hl && final(self).af == old(self).af
                &&& op == 0xE1 ==> final(self).hl == popped && final(self).bc == old(self).bc
                    && final(self).de == old(self).de && final(self).af == old(self).af
                &&& op == 0xF1 ==> final(self).af == (popped & 0xFFF0) && final(self).bc == old(
                    self,
                ).bc && final(self).de == old(self).de && final(self).hl == old(self).hl
                &&& op == 0xF1 ==> final(self).f() & 0x0F == 0
            }),
    {
        let popped = self.pop_word_from_stack();
        match op {
            0xC1 => {
                self.bc = popped;
            },
            0xD1 => {
                self.de = popped;
            },
            0xE1 => {
                self.hl = popped;
            },
            _ => {
                // The low nibble of F always reads as zero.
                self.af = popped & 0xFFF0;
                proof {
                    lemma_popped_af_low_nibble(popped);
                }
            },
        }
        12
    }

    /// HALT: the CPU stops fetching; each subsequent step costs four
    /// cycles until an interrupt is pending.
    pub fn do_halt(&mut self) -> (r: u8)
        requires
            old(self).wf(),
            old(self).cycle_tracker == 0,
        ensures
            handler_frame_ctrl(*old(self), *final(self), r),
            r == 4,
            (*final(self)) == (Cpu { halted: true, ..*old(self) }),
    {
        self.halted = true;
        4
    }

    /// DI arms the disable latch and cancels a pending enable; IME goes
    /// low when this instruction completes.
    pub fn do_disable_interrupts(&mut self) -> (r: u8)
        requires
            old(self).wf(),
            old(self).cycle_tracker == 0,
        ensures
            handler_frame_ctrl(*old(self), *final(self), r),
            r == 4,
            (*final(self)) == (Cpu {
                will_disable_interrupts: true,
                will_enable_interrupts: false,
                ..*old(self)
            }),
    {
        self.will_disable_interrupts = true;
        self.will_enable_interrupts = false;
        4
    }

    /// EI arms the enable latch; IME goes high only after the next
    /// instruction completes.
    pub fn do_enable_interrupts(&mut self) -> (r: u8)
        requires
            old(self).wf(),
            old(self).cycle_tracker == 0,
        ensures
            handler_frame_ctrl(*old(self), *final(self), r),
            r == 4,
            (*final(self)) == (Cpu { will_enable_interrupts: true, ..*old(self) }),
    {
        self.will_enable_interrupts = true;
        4
    }

    /// Settles the EI/DI latches at the end of the instruction `op`:
    /// a completing DI turns IME off; any other instruction that
    /// follows an EI turns IME on.
    fn toggle_interrupts_enabled(&mut self, op: u8)
        requires
            old(self).wf(),
        ensures
            final(self).wf(),
            final(self).mmu == old(self).mmu,
            final(self).timer == old(self).timer,
            final(self).ppu == old(self).ppu,
            final(self).af == old(self).af,
            final(self).bc == old(self).bc,
            final(self).de == old(self).de,
            final(self).hl == old(self).hl,
            final(self).program_counter == old(self).program_counter,
            final(self).stack_pointer == old(self).stack_pointer,
            final(self).halted == old(self).halted,
            final(self).cycle_tracker == old(self).cycle_tracker,
            final(self).last_op == old(self).last_op,
            op == 0xF3 && old(self).will_disable_interrupts ==> !final(self).interrupts_enabled
                && !final(self).will_disable_interrupts,
            op == 0xF3 ==> final(self).will_enable_interrupts == old(self).will_enable_interrupts,
            op == 0xF3 && !old(self).will_disable_interrupts ==> final(self).interrupts_enabled
                == old(self).interrupts_enabled,
            op != 0xF3 && old(self).last_op == Some(0xFBu8) && old(self).will_enable_interrupts
                ==> final(self).interrupts_enabled && !final(self).will_enable_interrupts,
            op != 0xF3 && !(old(self).last_op == Some(0xFBu8) && old(self).will_enable_interrupts)
                ==> {
                &&& final(self).interrupts_enabled == old(self).interrupts_enabled
                &&& final(self).will_enable_interrupts == old(self).will_enable_interrupts
                &&& final(self).will_disable_interrupts == old(self).will_disable_interrupts
            },
    {
        if op == 0xF3 {
            if self.will_disable_interrupts {
                self.will_disable_interrupts = false;
                self.interrupts_enabled = false;
            }
        } else {
            match self.last_op {
                Some(last) => {
                    if last == 0xFB && self.will_enable_interrupts {
                        self.will_enable_interrupts = false;
                        self.interrupts_enabled = true;
                    }
                },
                None => (),
            }
        }
    }
}

impl Cpu {
    /// LD: the full 8-bit and 16-bit load family. Register-to-register
    /// moves, immediate loads and loads through BC, DE or HL (with the
    /// post-increment and post-decrement HL forms) are pinned down
    /// exactly; the forms that interleave mid-instruction cycle reports
    /// keep the frame and the program-counter movement.
    #[verifier::rlimit(100)]
    #[verifier::spinoff_prover]
    pub fn do_load(&mut self, op: u8) -> (r: u8)
        requires
            old(self).wf(),
            old(self).cycle_tracker == 0,
            (0x40 <= op <= 0x7F && op != 0x76) || op == 0x01 || op == 0x02 || op == 0x06 || op
                == 0x08 || op == 0x0A || op == 0x0E || op == 0x11 || op == 0x12 || op == 0x16 || op
                == 0x1A || op == 0x1E || op == 0x21 || op == 0x22 || op == 0x26 || op == 0x2A || op
                == 0x2E || op == 0x31 || op == 0x32 || op == 0x36 || op == 0x3A || op == 0x3E || op
                == 0xE2 || op == 0xEA || op == 0xF2 || op == 0xF8 || op == 0xF9 || op == 0xFA,
        ensures
            handler_frame(*old(self), *final(self), r),
            op != 0xF8 ==> final(self).f() == old(self).f(),
            (0x40 <= op <= 0x7F && op != 0x76) ==> Cpu::load_rr_post(
                *old(self),
                *final(self),
                op,
                r,
            ),
            (op == 0x06 || op == 0x0E || op == 0x16 || op == 0x1E || op == 0x26 || op == 0x2E || op
                == 0x3E) ==> {
                &&& final(self).reg8((op >> 3u8) & 7) == old(self).mmu.spec_read(
                    old(self).program_counter,
                )
                &&& final(self).mmu == old(self).mmu
                &&& final(self).program_counter == word_inc(old(self).program_counter)
                &&& r == 8
            },
            op == 0x01 ==> final(self).bc == old(self).spec_imm_word() && r == 12,
            op == 0x11 ==> final(self).de == old(self).spec_imm_word() && r == 12,
            op == 0x21 ==> final(self).hl == old(self).spec_imm_word() && r == 12,
            op == 0x31 ==> final(self).stack_pointer == old(self).spec_imm_word() && r == 12,
            (op == 0x01 || op == 0x11 || op == 0x21 || op == 0x31) ==> final(self).mmu == old(
                self,
            ).mmu && final(self).program_counter == word_inc(word_inc(old(self).program_counter)),
            op == 0x02 ==> Mmu::write_rel(old(self).mmu, final(self).mmu, old(self).bc, old(self).a())
                && r == 8,
            op == 0x12 ==> Mmu::write_rel(old(self).mmu, final(self).mmu, old(self).de, old(self).a())
                && r == 8,
            op == 0x22 ==> Mmu::write_rel(old(self).mmu, final(self).mmu, old(self).hl, old(self).a())
                && final(self).hl == word_inc(old(self).hl) && r == 8,
            op == 0x32 ==> Mmu::write_rel(old(self).mmu, final(self).mmu, old(self).hl, old(self).a())
                && final(self).hl == word_dec(old(self).hl) && r == 8,
            op == 0x0A ==> final(self).a() == old(self).mmu.spec_read(old(self).bc) && final(self).mmu == old(self).mmu && r == 8,
            op == 0x1A ==> final(self).a() == old(self).mmu.spec_read(old(self).de) && final(self).mmu == old(self).mmu && r == 8,
            op == 0x2A ==> final(self).a() == old(self).mmu.spec_read(old(self).hl) && final(self).hl == word_inc(old(self).hl) && final(self).mmu == old(self).mmu && r == 8,
            op == 0x3A ==> final(self).a() == old(self).mmu.spec_read(old(self).hl) && final(self).hl == word_dec(old(self).hl) && final(self).mmu == old(self).mmu && r == 8,
            op == 0xE2 ==> Mmu::write_rel(
                old(self).mmu,
                final(self).mmu,
                (0xFF00 + old(self).c()) as u16,
                old(self).a(),
            ) && r == 8,
            op == 0xF2 ==> final(self).a() == old(self).mmu.spec_read((0xFF00 + old(self).c()) as u16)
                && final(self).mmu == old(self).mmu && r == 8,
            op == 0xF9 ==> final(self).stack_pointer == old(self).hl && final(self).mmu == old(
                self,
            ).mmu && r == 8,
            op == 0xF8 ==> {
                let off = old(self).spec_imm_signed();
                let off_u = off as u16;
                &&& final(self).hl == word_add_signed(old(self).stack_pointer, off)
                &&& final(self).stack_pointer == old(self).stack_pointer
                &&& final(self).program_counter == word_inc(old(self).program_counter)
                &&& final(self).mmu == old(self).mmu
                &&& !final(self).z_flag()
                &&& !final(self).n_flag()
                &&& final(self).h_flag() == ((old(self).stack_pointer & 0xF) + (off_u & 0xF) > 0xF)
                &&& final(self).c_flag() == ((old(self).stack_pointer & 0xFF) + (off_u & 0xFF)
                    > 0xFF)
                &&& r == 12
            },
            op == 0x08 ==> spec_store16_rel(
                old(self).mmu,
                final(self).mmu,
                old(self).spec_imm_word(),
                old(self).stack_pointer,
            ) && final(self).program_counter == word_inc(word_inc(old(self).program_counter)) && r
                == 20,
            // LD (HL),d8: the four-cycle operand fetch is reported first,
            // then the fetched byte lands at HL.
            op == 0x36 ==> {
                &&& final(self).program_counter == word_inc(old(self).program_counter)
                &&& r == 12
                &&& exists|m1: Mmu|
                    (#[trigger] clocked_mem_rel(old(self).mmu, m1)) && Mmu::write_rel(
                        m1,
                        final(self).mmu,
                        old(self).hl,
                        m1.spec_read(old(self).program_counter),
                    )
            },
            // LD (a16),A: eight cycles are reported, then A lands at the
            // fetched address.
            op == 0xEA ==> {
                &&& final(self).program_counter == word_inc(word_inc(old(self).program_counter))
                &&& r == 16
                &&& exists|m1: Mmu|
                    (#[trigger] clocked_mem_rel(old(self).mmu, m1)) && Mmu::write_rel(
                        m1,
                        final(self).mmu,
                        word_from(
                            m1.spec_read(word_inc(old(self).program_counter)),
                            m1.spec_read(old(self).program_counter),
                        ),
                        old(self).a(),
                    )
            },
            // LD A,(a16): the address comes from the instruction stream,
            // eight cycles are reported, then A takes the byte there.
            op == 0xFA ==> {
                &&& final(self).program_counter == word_inc(word_inc(old(self).program_counter))
                &&& r == 16
                &&& clocked_mem_rel(old(self).mmu, final(self).mmu)
                &&& final(self).a() == final(self).mmu.spec_read(old(self).spec_imm_word())
            },
    {
        if op >= 0x40 && op <= 0x7F && op != 0x76 {
            self.do_load_rr(op)
        } else {
            match op {
                0x01 => {
                    self.bc = self.get_next_word();
                    12
                },
                0x11 => {
                    self.de = self.get_next_word();
                    12
                },
                0x21 => {
                    self.hl = self.get_next_word();
                    12
                },
                0x31 => {
                    self.stack_pointer = self.get_next_word();
                    12
                },
                0x02 => {
                    let a = self.get_reg8(7);
                    let addr = self.bc;
                    self.write_memory(addr, a);
                    8
                },
                0x12 => {
                    let a = self.get_reg8(7);
                    let addr = self.de;
                    self.write_memory(addr, a);
                    8
                },
                0x22 => {
                    let a = self.get_reg8(7);
                    let addr = self.hl;
                    self.write_memory(addr, a);
                    self.hl = self.hl.wrapping_add(1);
                    8
                },
                0x32 => {
                    let a = self.get_reg8(7);
                    let addr = self.hl;
                    self.write_memory(addr, a);
                    self.hl = self.hl.wrapping_sub(1);
                    8
                },
                0x06 | 0x0E | 0x16 | 0x1E | 0x26 | 0x2E | 0x3E => {
                    proof {
                        lemma_and_mask_bound(op >> 3u8, 7);
                        assert((op == 0x06 || op == 0x0E || op == 0x16 || op == 0x1E || op == 0x26
                            || op == 0x2E || op == 0x3E) ==> ((op >> 3u8) & 7) != 6)
                            by (bit_vector);
                    }
                    let dst = (op >> 3u8) & 7;
                    let v = self.get_next_byte();
                    self.set_reg8(dst, v);
                    8
                },
                0x0A => {
                    let v = self.read_memory(self.bc);
                    self.set_reg8(7, v);
                    8
                },
                0x1A => {
                    let v = self.read_memory(self.de);
                    self.set_reg8(7, v);
                    8
                },
                0x2A => {
                    let v = self.read_memory(self.hl);
                    self.set_reg8(7, v);
                    self.hl = self.hl.wrapping_add(1);
                    8
                },
                0x3A => {
                    let v = self.read_memory(self.hl);
                    self.set_reg8(7, v);
                    self.hl = self.hl.wrapping_sub(1);
                    8
                },
                0x08 => {
                    let addr = self.get_next_word();
                    let lo = exec_word_lo(self.stack_pointer);
                    let hi = exec_word_hi(self.stack_pointer);
                    self.write_memory(addr, lo);
                    self.write_memory(addr.wrapping_add(1), hi);
                    20
                },
                0x36 => {
                    self.sync_cycles(4);
                    let val = self.get_next_byte();
                    let addr = self.hl;
                    self.write_memory(addr, val);
                    12
                },
                0xE2 => {
                    let a = self.get_reg8(7);
                    let c = self.get_reg8(1);
                    self.write_memory(0xFF00 + (c as u16), a);
                    8
                },
                0xF2 => {
                    let c = self.get_reg8(1);
                    let v = self.read_memory(0xFF00 + (c as u16));
                    self.set_reg8(7, v);
                    8
                },
                0xEA => {
                    self.sync_cycles(8);
                    let addr = self.get_next_word();
                    let a = self.get_reg8(7);
                    self.write_memory(addr, a);
                    16
                },
                0xFA => {
                    let addr = self.get_next_word();
                    self.sync_cycles(8);
                    let v = self.read_memory(addr);
                    self.set_reg8(7, v);
                    16
                },
                0xF8 => {
                    let offset = self.get_next_byte_signed();
                    let off_u = offset as u16;
                    proof {
                        crate::utils::lemma_and_mask_bound_u16(self.stack_pointer, 0xFF);
                        crate::utils::lemma_and_mask_bound_u16(off_u, 0xFF);
                        crate::utils::lemma_and_mask_bound_u16(self.stack_pointer, 0xF);
                        crate::utils::lemma_and_mask_bound_u16(off_u, 0xF);
                    }
                    let carry = (self.stack_pointer & 0xFF) + (off_u & 0xFF) > 0xFF;
                    let half = (self.stack_pointer & 0xF) + (off_u & 0xF) > 0xF;
                    self.hl = self.stack_pointer.wrapping_add_signed(offset as i16);
                    self.set_flags(false, false, half, carry);
                    12
                },
                _ => {
                    // LD SP,HL.
                    self.stack_pointer = self.hl;
                    8
                },
            }
        }
    }

    /// What an LD between registers or through (HL) leaves behind.
    pub open spec fn load_rr_post(pre: Cpu, post: Cpu, op: u8, r: u8) -> bool {
        let src = op & 7;
        let dst = (op >> 3u8) & 7;
        &&& (src != 6 && dst != 6) ==> {
            &&& post.reg8(dst) == pre.reg8(src)
            &&& forall|j: u8| j < 8 && j != 6 && j != dst ==> post.reg8(j) == pre.reg8(j)
            &&& post.mmu == pre.mmu
            &&& post.program_counter == pre.program_counter
            &&& post.stack_pointer == pre.stack_pointer
            &&& r == 4
        }
        &&& src == 6 ==> {
            &&& post.reg8(dst) == pre.mmu.spec_read(pre.hl)
            &&& post.mmu == pre.mmu
            &&& post.program_counter == pre.program_counter
            &&& r == 8
        }
        &&& dst == 6 ==> {
            &&& Mmu::write_rel(pre.mmu, post.mmu, pre.hl, pre.reg8(src))
            &&& post.af == pre.af
            &&& post.bc == pre.bc
            &&& post.de == pre.de
            &&& post.hl == pre.hl
            &&& post.program_counter == pre.program_counter
            &&& r == 8
        }
    }

    /// LD r,r' and the (HL) forms: the destination takes the source
    /// byte; no flag moves.
    fn do_load_rr(&mut self, op: u8) -> (r: u8)
        requires
            old(self).wf(),
            old(self).cycle_tracker == 0,
            0x40 <= op <= 0x7F && op != 0x76,
        ensures
            handler_frame(*old(self), *final(self), r),
            final(self).f() == old(self).f(),
            Cpu::load_rr_post(*old(self), *final(self), op, r),
    {
        proof {
            lemma_and_mask_bound(op, 7);
            lemma_and_mask_bound(op >> 3u8, 7);
            assert((0x40 <= op && op <= 0x7F && op != 0x76 && (op & 7) == 6) ==> ((op >> 3u8)
                & 7) != 6) by (bit_vector);
            assert((0x40 <= op && op <= 0x7F && ((op >> 3u8) & 7) == 6) ==> (0x70 <= op
                && op <= 0x77)) by (bit_vector);
            assert((0x40 <= op && op <= 0x7F && 0x70 <= op && op <= 0x77) ==> ((op >> 3u8) & 7)
                == 6) by (bit_vector);
        }
        let src = op & 7;
        let dst = (op >> 3u8) & 7;
        if src == 6 {
            let v = self.read_memory(self.hl);
            self.set_reg8(dst, v);
            8
        } else if dst == 6 {
            let v = self.get_reg8(src);
            self.write_memory(self.hl, v);
            8
        } else {
            let v = self.get_reg8(src);
            self.set_reg8(dst, v);
            4
        }
    }

    /// LDH: loads between A and the high I/O page through an immediate
    /// offset, with the four-cycle operand fetch reported mid-step.
    pub fn do_load_h(&mut self, op: u8) -> (r: u8)
        requires
            old(self).wf(),
            old(self).cycle_tracker == 0,
            op == 0xE0 || op == 0xF0,
        ensures
            handler_frame(*old(self), *final(self), r),
            r == 12,
            final(self).f() == old(self).f(),
            final(self).program_counter == word_inc(old(self).program_counter),
            final(self).stack_pointer == old(self).stack_pointer,
            final(self).bc == old(self).bc,
            final(self).de == old(self).de,
            final(self).hl == old(self).hl,
            // LDH (a8),A: four cycles are reported, then A lands in the
            // high page at the fetched offset.
            op == 0xE0 ==> final(self).af == old(self).af && exists|m1: Mmu|
                (#[trigger] clocked_mem_rel(old(self).mmu, m1)) && Mmu::write_rel(
                    m1,
                    final(self).mmu,
                    (0xFF00 | (m1.spec_read(old(self).program_counter) as u16)),
                    old(self).a(),
                ),
            // LDH A,(a8): the offset comes from the instruction stream,
            // four cycles are reported, then A takes the byte there.
            op == 0xF0 ==> {
                &&& clocked_mem_rel(old(self).mmu, final(self).mmu)
                &&& final(self).a() == final(self).mmu.spec_read(
                    (0xFF00 | (old(self).mmu.spec_read(old(self).program_counter) as u16)),
                )
            },
    {
        if op == 0xE0 {
            self.sync_cycles(4);
            let addr = self.get_next_byte();
            let a = self.get_reg8(7);
            self.write_memory(0xFF00 | (addr as u16), a);
        } else {
            let addr = self.get_next_byte();
            self.sync_cycles(4);
            let v = self.read_memory(0xFF00 | (addr as u16));
            self.set_reg8(7, v);
        }
        12
    }
}

impl Cpu {
    /// Reads a CB operand: a register directly, or memory at HL after
    /// reporting the four-cycle access.
    fn cb_read(&mut self, src: u8) -> (v: u8)
        requires
            old(self).wf(),
            src < 8,
            old(self).cycle_tracker == 0,
        ensures
            final(self).wf(),
            final(self).af == old(self).af,
            final(self).bc == old(self).bc,
            final(self).de == old(self).de,
            final(self).hl == old(self).hl,
            final(self).program_counter == old(self).program_counter,
            final(self).stack_pointer == old(self).stack_pointer,
            final(self).interrupts_enabled == old(self).interrupts_enabled,
            final(self).will_enable_interrupts == old(self).will_enable_interrupts,
            final(self).will_disable_interrupts == old(self).will_disable_interrupts,
            final(self).halted == old(self).halted,
            final(self).last_op == old(self).last_op,
            src != 6 ==> v == old(self).reg8(src) && *final(self) == *old(self),
            src == 6 ==> {
                &&& final(self).cycle_tracker == 4
                &&& clocked_mem_rel(old(self).mmu, final(self).mmu)
                &&& v == final(self).mmu.spec_read(old(self).hl)
            },
    {
        if src == 6 {
            self.sync_cycles(4);
            self.read_memory(self.hl)
        } else {
            self.get_reg8(src)
        }
    }

    /// Writes a CB result back: into a register directly, or into
    /// memory at HL after reporting the four-cycle access.
    fn cb_write(&mut self, src: u8, v: u8)
        requires
            old(self).wf(),
            src < 8,
            old(self).cycle_tracker <= 8,
        ensures
            final(self).wf(),
            final(self).program_counter == old(self).program_counter,
            final(self).stack_pointer == old(self).stack_pointer,
            final(self).interrupts_enabled == old(self).interrupts_enabled,
            final(self).will_enable_interrupts == old(self).will_enable_interrupts,
            final(self).will_disable_interrupts == old(self).will_disable_interrupts,
            final(self).halted == old(self).halted,
            final(self).last_op == old(self).last_op,
            final(self).f() == old(self).f(),
            src != 6 ==> {
                &&& final(self).reg8(src) == v
                &&& forall|j: u8|
                    j < 8 && j != 6 && j != src ==> final(self).reg8(j) == old(self).reg8(j)
                &&& final(self).mmu == old(self).mmu
                &&& final(self).cycle_tracker == old(self).cycle_tracker
            },
            src == 6 ==> {
                &&& final(self).af == old(self).af
                &&& final(self).bc == old(self).bc
                &&& final(self).de == old(self).de
                &&& final(self).hl == old(self).hl
                &&& final(self).cycle_tracker == old(self).cycle_tracker + 4
                &&& exists|mid: Mmu|
                    #![auto]
                    clocked_mem_rel(old(self).mmu, mid) && Mmu::write_rel(
                        mid,
                        final(self).mmu,
                        old(self).hl,
                        v,
                    )
            },
    {
        if src == 6 {
            self.sync_cycles(4);
            let addr = self.hl;
            self.write_memory(addr, v);
        } else {
            self.set_reg8(src, v);
        }
    }

    /// BIT b,r: Z takes the complement of the tested bit, N clears, H
    /// sets, C is untouched and no register moves.
    pub fn do_bit(&mut self, sub: u8) -> (r: u8)
        requires
            old(self).wf(),
            old(self).cycle_tracker == 0,
            0x40 <= sub <= 0x7F,
        ensures
            handler_frame(*old(self), *final(self), r),
            final(self).bc == old(self).bc,
            final(self).de == old(self).de,
            final(self).hl == old(self).hl,
            final(self).a() == old(self).a(),
            final(self).program_counter == old(self).program_counter,
            final(self).stack_pointer == old(self).stack_pointer,
            !final(self).n_flag(),
            final(self).h_flag(),
            final(self).c_flag() == old(self).c_flag(),
            ({
                let src = sub & 7;
                let bit = (sub >> 3u8) & 7;
                &&& src != 6 ==> final(self).z_flag() == !crate::utils::spec_is_bit_set(
                    old(self).reg8(src),
                    bit as usize,
                ) && final(self).mmu == old(self).mmu && r == 8
                &&& src == 6 ==> {
                    &&& r == 12
                    &&& clocked_mem_rel(old(self).mmu, final(self).mmu)
                    &&& final(self).z_flag() == !crate::utils::spec_is_bit_set(
                        final(self).mmu.spec_read(old(self).hl),
                        bit as usize,
                    )
                }
            }),
    {
        proof {
            lemma_and_mask_bound(sub, 7);
            lemma_and_mask_bound(sub >> 3u8, 7);
        }
        let src = sub & 7;
        let bit = (sub >> 3u8) & 7;
        let v = self.cb_read(src);
        let c = self.is_carry_flag_set();
        let tested = crate::utils::is_bit_set(&v, bit as usize);
        self.set_flags(!tested, false, true, c);
        if src == 6 {
            12
        } else {
            8
        }
    }

    /// RES b,r: the tested bit clears; no flag moves.
    pub fn do_res(&mut self, sub: u8) -> (r: u8)
        requires
            old(self).wf(),
            old(self).cycle_tracker == 0,
            0x80 <= sub <= 0xBF,
        ensures
            handler_frame(*old(self), *final(self), r),
            final(self).f() == old(self).f(),
            final(self).program_counter == old(self).program_counter,
            final(self).stack_pointer == old(self).stack_pointer,
            ({
                let src = sub & 7;
                let bit = (sub >> 3u8) & 7;
                &&& src != 6 ==> {
                    &&& final(self).reg8(src) == (old(self).reg8(src) & !(1u8 << bit))
                    &&& forall|j: u8|
                        j < 8 && j != 6 && j != src ==> final(self).reg8(j) == old(self).reg8(j)
                    &&& final(self).mmu == old(self).mmu
                    &&& r == 8
                }
                &&& src == 6 ==> {
                    &&& r == 16
                    &&& final(self).bc == old(self).bc
                    &&& final(self).de == old(self).de
                    &&& final(self).hl == old(self).hl
                    &&& final(self).af == old(self).af
                    &&& exists|m1: Mmu, m2: Mmu|
                        #![auto]
                        clocked_mem_rel(old(self).mmu, m1) && clocked_mem_rel(m1, m2)
                            && Mmu::write_rel(
                            m2,
                            final(self).mmu,
                            old(self).hl,
                            (m1.spec_read(old(self).hl) & !(1u8 << bit)),
                        )
                }
            }),
    {
        proof {
            lemma_and_mask_bound(sub, 7);
            lemma_and_mask_bound(sub >> 3u8, 7);
        }
        let src = sub & 7;
        let bit = (sub >> 3u8) & 7;
        let mut v = self.cb_read(src);
        crate::utils::reset_bit(&mut v, bit as usize);
        self.cb_write(src, v);
        if src == 6 {
            16
        } else {
            8
        }
    }

    /// SET b,r: the tested bit sets; no flag moves.
    pub fn do_set(&mut self, sub: u8) -> (r: u8)
        requires
            old(self).wf(),
            old(self).cycle_tracker == 0,
            0xC0 <= sub,
        ensures
            handler_frame(*old(self), *final(self), r),
            final(self).f() == old(self).f(),
            final(self).program_counter == old(self).program_counter,
            final(self).stack_pointer == old(self).stack_pointer,
            ({
                let src = sub & 7;
                let bit = (sub >> 3u8) & 7;
                &&& src != 6 ==> {
                    &&& final(self).reg8(src) == (old(self).reg8(src) | (1u8 << bit))
                    &&& forall|j: u8|
                        j < 8 && j != 6 && j != src ==> final(self).reg8(j) == old(self).reg8(j)
                    &&& final(self).mmu == old(self).mmu
                    &&& r == 8
                }
                &&& src == 6 ==> {
                    &&& r == 16
                    &&& final(self).bc == old(self).bc
                    &&& final(self).de == old(self).de
                    &&& final(self).hl == old(self).hl
                    &&& final(self).af == old(self).af
                    &&& exists|m1: Mmu, m2: Mmu|
                        #![auto]
                        clocked_mem_rel(old(self).mmu, m1) && clocked_mem_rel(m1, m2)
                            && Mmu::write_rel(
                            m2,
                            final(self).mmu,
                            old(self).hl,
                            (m1.spec_read(old(self).hl) | (1u8 << bit)),
                        )
                }
            }),
    {
        proof {
            lemma_and_mask_bound(sub, 7);
            lemma_and_mask_bound(sub >> 3u8, 7);
        }
        let src = sub & 7;
        let bit = (sub >> 3u8) & 7;
        let mut v = self.cb_read(src);
        crate::utils::set_bit(&mut v, bit as usize);
        self.cb_write(src, v);
        if src == 6 {
            16
        } else {
            8
        }
    }

    /// RLC and RL: the operand rotates left, plainly or through the
    /// carry; Z reflects the result, C takes the old bit 7, N and H
    /// clear.
    pub fn do_rotate_left(&mut self, sub: u8, through_carry: bool) -> (r: u8)
        requires
            old(self).wf(),
            old(self).cycle_tracker == 0,
            sub <= 0x07 || (0x10 <= sub <= 0x17),
        ensures
            handler_frame(*old(self), *final(self), r),
            final(self).program_counter == old(self).program_counter,
            final(self).stack_pointer == old(self).stack_pointer,
            ({
                let src = sub & 7;
                let v0 = old(self).reg8(src);
                let res = ((v0 << 1u8) | (if through_carry {
                    if old(self).c_flag() {
                        1u8
                    } else {
                        0u8
                    }
                } else {
                    crate::utils::spec_bit_val(v0, 7)
                })) as u8;
                src != 6 ==> {
                    &&& final(self).reg8(src) == res
                    &&& final(self).z_flag() == (res == 0)
                    &&& !final(self).n_flag()
                    &&& !final(self).h_flag()
                    &&& final(self).c_flag() == (crate::utils::spec_bit_val(v0, 7) == 1)
                    &&& final(self).mmu == old(self).mmu
                    &&& r == 8
                }
            }),
            (sub & 7) == 6 ==> {
                &&& r == 16
                &&& final(self).program_counter == old(self).program_counter
                &&& exists|m1: Mmu, m2: Mmu|
                    (#[trigger] clocked_mem_rel(old(self).mmu, m1)) && (#[trigger] clocked_mem_rel(
                        m1,
                        m2,
                    )) && ({
                        let v0 = m1.spec_read(old(self).hl);
                        let res = ((v0 << 1u8) | (if through_carry {
                            if old(self).c_flag() {
                                1u8
                            } else {
                                0u8
                            }
                        } else {
                            crate::utils::spec_bit_val(v0, 7)
                        })) as u8;
                        &&& Mmu::write_rel(m2, final(self).mmu, old(self).hl, res)
                        &&& final(self).z_flag() == (res == 0)
                        &&& !final(self).n_flag()
                        &&& !final(self).h_flag()
                        &&& final(self).c_flag() == (crate::utils::spec_bit_val(v0, 7) == 1)
                    })
            },
    {
        proof {
            lemma_and_mask_bound(sub, 7);
        }
        let src = sub & 7;
        let v = self.cb_read(src);
        let msb = crate::utils::get_bit_val(&v, 7);
        let carry_bit: u8 = if self.is_carry_flag_set() {
            1
        } else {
            0
        };
        let res = (v << 1u8) | (if through_carry {
            carry_bit
        } else {
            msb
        });
        self.cb_write(src, res);
        self.set_flags(res == 0, false, false, msb == 1);
        if src == 6 {
            16
        } else {
            8
        }
    }

    /// RRC and RR: the operand rotates right, plainly or through the
    /// carry; Z reflects the result, C takes the old bit 0, N and H
    /// clear.
    pub fn do_rotate_right(&mut self, sub: u8, through_carry: bool) -> (r: u8)
        requires
            old(self).wf(),
            old(self).cycle_tracker == 0,
            (0x08 <= sub <= 0x0F) || (0x18 <= sub <= 0x1F),
        ensures
            handler_frame(*old(self), *final(self), r),
            final(self).program_counter == old(self).program_counter,
            final(self).stack_pointer == old(self).stack_pointer,
            ({
                let src = sub & 7;
                let v0 = old(self).reg8(src);
                let res = (((if through_carry {
                    if old(self).c_flag() {
                        1u8
                    } else {
                        0u8
                    }
                } else {
                    crate::utils::spec_bit_val(v0, 0)
                }) << 7u8) | (v0 >> 1u8)) as u8;
                src != 6 ==> {
                    &&& final(self).reg8(src) == res
                    &&& final(self).z_flag() == (res == 0)
                    &&& !final(self).n_flag()
                    &&& !final(self).h_flag()
                    &&& final(self).c_flag() == (crate::utils::spec_bit_val(v0, 0) == 1)
                    &&& final(self).mmu == old(self).mmu
                    &&& r == 8
                }
            }),
            (sub & 7) == 6 ==> {
                &&& r == 16
                &&& final(self).program_counter == old(self).program_counter
                &&& exists|m1: Mmu, m2: Mmu|
                    (#[trigger] clocked_mem_rel(old(self).mmu, m1)) && (#[trigger] clocked_mem_rel(
                        m1,
                        m2,
                    )) && ({
                        let v0 = m1.spec_read(old(self).hl);
                        let res = ((((if through_carry {
                            if old(self).c_flag() {
                                1u8
                            } else {
                                0u8
                            }
                        } else {
                            crate::utils::spec_bit_val(v0, 0)
                        }) << 7u8) | (v0 >> 1u8))) as u8;
                        &&& Mmu::write_rel(m2, final(self).mmu, old(self).hl, res)
                        &&& final(self).z_flag() == (res == 0)
                        &&& !final(self).n_flag()
                        &&& !final(self).h_flag()
                        &&& final(self).c_flag() == (crate::utils::spec_bit_val(v0, 0) == 1)
                    })
            },
    {
        proof {
            lemma_and_mask_bound(sub, 7);
        }
        let src = sub & 7;
        let v = self.cb_read(src);
        let lsb = crate::utils::get_bit_val(&v, 0);
        let carry_bit: u8 = if self.is_carry_flag_set() {
            1
        } else {
            0
        };
        let res = ((if through_carry {
            carry_bit
        } else {
            lsb
        }) << 7u8) | (v >> 1u8);
        self.cb_write(src, res);
        self.set_flags(res == 0, false, false, lsb == 1);
        if src == 6 {
            16
        } else {
            8
        }
    }

    /// SLA: the operand shifts left, bit 7 into C and zero into bit 0;
    /// Z reflects the result, N and H clear.
    pub fn do_shift_left(&mut self, sub: u8) -> (r: u8)
        requires
            old(self).wf(),
            old(self).cycle_tracker == 0,
            0x20 <= sub <= 0x27,
        ensures
            handler_frame(*old(self), *final(self), r),
            final(self).program_counter == old(self).program_counter,
            final(self).stack_pointer == old(self).stack_pointer,
            ({
                let src = sub & 7;
                let v0 = old(self).reg8(src);
                let res = (v0 << 1u8) as u8;
                src != 6 ==> {
                    &&& final(self).reg8(src) == res
                    &&& final(self).z_flag() == (res == 0)
                    &&& !final(self).n_flag()
                    &&& !final(self).h_flag()
                    &&& final(self).c_flag() == (crate::utils::spec_bit_val(v0, 7) == 1)
                    &&& final(self).mmu == old(self).mmu
                    &&& r == 8
                }
            }),
            (sub & 7) == 6 ==> {
                &&& r == 16
                &&& final(self).program_counter == old(self).program_counter
                &&& exists|m1: Mmu, m2: Mmu|
                    (#[trigger] clocked_mem_rel(old(self).mmu, m1)) && (#[trigger] clocked_mem_rel(
                        m1,
                        m2,
                    )) && ({
                        let v0 = m1.spec_read(old(self).hl);
                        let res = (v0 << 1u8) as u8;
                        &&& Mmu::write_rel(m2, final(self).mmu, old(self).hl, res)
                        &&& final(self).z_flag() == (res == 0)
                        &&& !final(self).n_flag()
                        &&& !final(self).h_flag()
                        &&& final(self).c_flag() == (crate::utils::spec_bit_val(v0, 7) == 1)
                    })
            },
    {
        proof {
            lemma_and_mask_bound(sub, 7);
        }
        let src = sub & 7;
        let v = self.cb_read(src);
        let msb = crate::utils::get_bit_val(&v, 7);
        let res = v << 1u8;
        self.cb_write(src, res);
        self.set_flags(res == 0, false, false, msb == 1);
        if src == 6 {
            16
        } else {
            8
        }
    }

    /// SRA and SRL: the operand shifts right, bit 0 into C, keeping
    /// bit 7 for the arithmetic form and clearing it for the logical
    /// one; Z reflects the result, N and H clear.
    pub fn do_shift_right(&mut self, sub: u8, maintain_msb: bool) -> (r: u8)
        requires
            old(self).wf(),
            old(self).cycle_tracker == 0,
            (0x28 <= sub <= 0x2F) || (0x38 <= sub <= 0x3F),
        ensures
            handler_frame(*old(self), *final(self), r),
            final(self).program_counter == old(self).program_counter,
            final(self).stack_pointer == old(self).stack_pointer,
            ({
                let src = sub & 7;
                let v0 = old(self).reg8(src);
                let res = ((v0 >> 1u8) | (if maintain_msb {
                    (crate::utils::spec_bit_val(v0, 7) << 7u8) as u8
                } else {
                    0u8
                })) as u8;
                src != 6 ==> {
                    &&& final(self).reg8(src) == res
                    &&& final(self).z_flag() == (res == 0)
                    &&& !final(self).n_flag()
                    &&& !final(self).h_flag()
                    &&& final(self).c_flag() == (crate::utils::spec_bit_val(v0, 0) == 1)
                    &&& final(self).mmu == old(self).mmu
                    &&& r == 8
                }
            }),
            (sub & 7) == 6 ==> {
                &&& r == 16
                &&& final(self).program_counter == old(self).program_counter
                &&& exists|m1: Mmu, m2: Mmu|
                    (#[trigger] clocked_mem_rel(old(self).mmu, m1)) && (#[trigger] clocked_mem_rel(
                        m1,
                        m2,
                    )) && ({
                        let v0 = m1.spec_read(old(self).hl);
                        let res = ((v0 >> 1u8) | (if maintain_msb {
                            (crate::utils::spec_bit_val(v0, 7) << 7u8) as u8
                        } else {
                            0u8
                        })) as u8;
                        &&& Mmu::write_rel(m2, final(self).mmu, old(self).hl, res)
                        &&& final(self).z_flag() == (res == 0)
                        &&& !final(self).n_flag()
                        &&& !final(self).h_flag()
                        &&& final(self).c_flag() == (crate::utils::spec_bit_val(v0, 0) == 1)
                    })
            },
    {
        proof {
            lemma_and_mask_bound(sub, 7);
        }
        let src = sub & 7;
        let v = self.cb_read(src);
        let msb = crate::utils::get_bit_val(&v, 7);
        let lsb = crate::utils::get_bit_val(&v, 0);
        let res = (v >> 1u8) | (if maintain_msb {
            msb << 7u8
        } else {
            0u8
        });
        self.cb_write(src, res);
        self.set_flags(res == 0, false, false, lsb == 1);
        if src == 6 {
            16
        } else {
            8
        }
    }

    /// SWAP: the operand's nibbles trade places; Z reflects the result,
    /// N, H and C clear.
    pub fn do_swap(&mut self, sub: u8) -> (r: u8)
        requires
            old(self).wf(),
            old(self).cycle_tracker == 0,
            0x30 <= sub <= 0x37,
        ensures
            handler_frame(*old(self), *final(self), r),
            final(self).program_counter == old(self).program_counter,
            final(self).stack_pointer == old(self).stack_pointer,
            ({
                let src = sub & 7;
                let v0 = old(self).reg8(src);
                let res = (((v0 & 0xF) << 4u8) | (v0 >> 4u8)) as u8;
                src != 6 ==> {
                    &&& final(self).reg8(src) == res
                    &&& final(self).z_flag() == (res == 0)
                    &&& !final(self).n_flag()
                    &&& !final(self).h_flag()
                    &&& !final(self).c_flag()
                    &&& final(self).mmu == old(self).mmu
                    &&& r == 8
                }
            }),
            (sub & 7) == 6 ==> {
                &&& r == 16
                &&& final(self).program_counter == old(self).program_counter
                &&& exists|m1: Mmu, m2: Mmu|
                    (#[trigger] clocked_mem_rel(old(self).mmu, m1)) && (#[trigger] clocked_mem_rel(
                        m1,
                        m2,
                    )) && ({
                        let v0 = m1.spec_read(old(self).hl);
                        let res = (((v0 & 0xF) << 4u8) | (v0 >> 4u8)) as u8;
                        &&& Mmu::write_rel(m2, final(self).mmu, old(self).hl, res)
                        &&& final(self).z_flag() == (res == 0)
                        &&& !final(self).n_flag()
                        &&& !final(self).h_flag()
                        &&& final(self).c_flag() == false
                    })
            },
    {
        proof {
            lemma_and_mask_bound(sub, 7);
        }
        let src = sub & 7;
        let v = self.cb_read(src);
        let res = ((v & 0xF) << 4u8) | (v >> 4u8);
        self.cb_write(src, res);
        self.set_flags(res == 0, false, false, false);
        if src == 6 {
            16
        } else {
            8
        }
    }

    /// The CB escape: fetches the second opcode byte and dispatches to
    /// the bit, rotate, shift or swap family.
    pub fn do_prefix(&mut self) -> (r: u8)
        requires
            old(self).wf(),
            old(self).cycle_tracker == 0,
        ensures
            handler_frame(*old(self), *final(self), r),
            final(self).stack_pointer == old(self).stack_pointer,
            final(self).program_counter == word_inc(old(self).program_counter),
    {
        let sub = self.get_next_byte();
        if sub <= 0x07 {
            self.do_rotate_left(sub, false)
        } else if sub <= 0x0F {
            self.do_rotate_right(sub, false)
        } else if sub <= 0x17 {
            self.do_rotate_left(sub, true)
        } else if sub <= 0x1F {
            self.do_rotate_right(sub, true)
        } else if sub <= 0x27 {
            self.do_shift_left(sub)
        } else if sub <= 0x2F {
            self.do_shift_right(sub, true)
        } else if sub <= 0x37 {
            self.do_swap(sub)
        } else if sub <= 0x3F {
            self.do_shift_right(sub, false)
        } else if sub <= 0x7F {
            self.do_bit(sub)
        } else if sub <= 0xBF {
            self.do_res(sub)
        } else {
            self.do_set(sub)
        }
    }
}

/// How a stored word relates the memory before and after: the low byte
/// lands at the address, the high byte just above it.
pub open spec fn spec_store16_rel(pre: Mmu, post: Mmu, addr: u16, data: u16) -> bool {
    exists|mid: Mmu|
        #![auto]
        Mmu::write_rel(pre, mid, addr, word_lo(data)) && Mmu::write_rel(
            mid,
            post,
            word_inc(addr),
            word_hi(data),
        )
}


impl Cpu {
    /// The machine state a handler starts from: PC stepped past the
    /// opcode and the cycle tracker cleared.
    pub open spec fn spec_after_fetch(self) -> Cpu {
        Cpu { program_counter: word_inc(self.program_counter), cycle_tracker: 0, ..self }
    }
}

/// The register, flag, PC and SP outcome of one instruction, by opcode
/// class, stated against the post-fetch state `s1`. Memory outcomes and
/// cycle reporting live in the handlers' own contracts; this catalogue
/// is what `execute` itself promises of the programmer-visible machine.
pub open spec fn spec_instruction_post(s1: Cpu, post: Cpu, op: u8, cycles: u8) -> bool {
    &&& (op == 0x00 || op == 0x10) ==> {
        &&& post.af == s1.af
        &&& post.bc == s1.bc
        &&& post.de == s1.de
        &&& post.hl == s1.hl
        &&& post.stack_pointer == s1.stack_pointer
        &&& post.program_counter == s1.program_counter
        &&& cycles == 4
    }
    // The 8-bit accumulator arithmetic and logic family.
    &&& ((0x80 <= op <= 0x8F) || op == 0xC6 || op == 0xCE) ==> {
        let wc = (0x88 <= op <= 0x8F) || op == 0xCE;
        let v = s1.spec_operand(op);
        let cin: u8 = if wc && s1.c_flag() {
            1
        } else {
            0
        };
        &&& post.a() == add_res(s1.a(), v, cin)
        &&& post.z_flag() == (add_res(s1.a(), v, cin) == 0)
        &&& !post.n_flag()
        &&& post.h_flag() == add_half(s1.a(), v, cin)
        &&& post.c_flag() == add_carry(s1.a(), v, cin)
        &&& post.program_counter == s1.spec_pc_after_operand(op)
        &&& cycles == Cpu::spec_alu_cycles(op)
    }
    &&& ((0x90 <= op <= 0x9F) || op == 0xD6 || op == 0xDE) ==> {
        let wc = (0x98 <= op <= 0x9F) || op == 0xDE;
        let v = s1.spec_operand(op);
        let cin: u8 = if wc && s1.c_flag() {
            1
        } else {
            0
        };
        &&& post.a() == sub_res(s1.a(), v, cin)
        &&& post.z_flag() == (sub_res(s1.a(), v, cin) == 0)
        &&& post.n_flag()
        &&& post.h_flag() == sub_half(s1.a(), v, cin)
        &&& post.c_flag() == sub_borrow(s1.a(), v, cin)
        &&& post.program_counter == s1.spec_pc_after_operand(op)
        &&& cycles == Cpu::spec_alu_cycles(op)
    }
    &&& ((0xA0 <= op <= 0xA7) || op == 0xE6) ==> {
        &&& post.a() == (s1.a() & s1.spec_operand(op))
        &&& post.z_flag() == ((s1.a() & s1.spec_operand(op)) == 0)
        &&& !post.n_flag() && post.h_flag() && !post.c_flag()
        &&& post.program_counter == s1.spec_pc_after_operand(op)
        &&& cycles == Cpu::spec_alu_cycles(op)
    }
    &&& ((0xA8 <= op <= 0xAF) || op == 0xEE) ==> {
        &&& post.a() == (s1.a() ^ s1.spec_operand(op))
        &&& post.z_flag() == ((s1.a() ^ s1.spec_operand(op)) == 0)
        &&& !post.n_flag() && !post.h_flag() && !post.c_flag()
        &&& post.program_counter == s1.spec_pc_after_operand(op)
        &&& cycles == Cpu::spec_alu_cycles(op)
    }
    &&& ((0xB0 <= op <= 0xB7) || op == 0xF6) ==> {
        &&& post.a() == (s1.a() | s1.spec_operand(op))
        &&& post.z_flag() == ((s1.a() | s1.spec_operand(op)) == 0)
        &&& !post.n_flag() && !post.h_flag() && !post.c_flag()
        &&& post.program_counter == s1.spec_pc_after_operand(op)
        &&& cycles == Cpu::spec_alu_cycles(op)
    }
    &&& ((0xB8 <= op <= 0xBF) || op == 0xFE) ==> {
        &&& post.a() == s1.a()
        &&& post.z_flag() == (s1.a() == s1.spec_operand(op))
        &&& post.n_flag()
        &&& post.h_flag() == sub_half(s1.a(), s1.spec_operand(op), 0)
        &&& post.c_flag() == sub_borrow(s1.a(), s1.spec_operand(op), 0)
        &&& post.program_counter == s1.spec_pc_after_operand(op)
        &&& cycles == Cpu::spec_alu_cycles(op)
    }
    // INC r and DEC r.
    &&& (op == 0x04 || op == 0x0C || op == 0x14 || op == 0x1C || op == 0x24 || op == 0x2C || op
        == 0x3C) ==> {
        let idx = (op >> 3u8) & 7;
        let res = add_res(s1.reg8(idx), 1, 0);
        &&& post.reg8(idx) == res
        &&& post.z_flag() == (res == 0)
        &&& !post.n_flag()
        &&& post.h_flag() == (res & 0xF == 0)
        &&& post.c_flag() == s1.c_flag()
        &&& post.program_counter == s1.program_counter
        &&& cycles == 4
    }
    &&& (op == 0x05 || op == 0x0D || op == 0x15 || op == 0x1D || op == 0x25 || op == 0x2D || op
        == 0x3D) ==> {
        let idx = (op >> 3u8) & 7;
        let res = sub_res(s1.reg8(idx), 1, 0);
        &&& post.reg8(idx) == res
        &&& post.z_flag() == (res == 0)
        &&& post.n_flag()
        &&& post.h_flag() == (res & 0xF == 0xF)
        &&& post.c_flag() == s1.c_flag()
        &&& post.program_counter == s1.program_counter
        &&& cycles == 4
    }
    // The 16-bit increments and decrements.
    &&& op == 0x03 ==> post.bc == word_inc(s1.bc) && post.af == s1.af && cycles == 8
    &&& op == 0x13 ==> post.de == word_inc(s1.de) && post.af == s1.af && cycles == 8
    &&& op == 0x23 ==> post.hl == word_inc(s1.hl) && post.af == s1.af && cycles == 8
    &&& op == 0x33 ==> post.stack_pointer == word_inc(s1.stack_pointer) && post.af == s1.af
        && cycles == 8
    &&& op == 0x0B ==> post.bc == word_dec(s1.bc) && post.af == s1.af && cycles == 8
    &&& op == 0x1B ==> post.de == word_dec(s1.de) && post.af == s1.af && cycles == 8
    &&& op == 0x2B ==> post.hl == word_dec(s1.hl) && post.af == s1.af && cycles == 8
    &&& op == 0x3B ==> post.stack_pointer == word_dec(s1.stack_pointer) && post.af == s1.af
        && cycles == 8
    // ADD HL,rr and ADD SP,e.
    &&& (op == 0x09 || op == 0x19 || op == 0x29 || op == 0x39) ==> {
        let v = s1.spec_add16_operand(op);
        &&& post.hl == word_add(s1.hl, v)
        &&& post.z_flag() == s1.z_flag()
        &&& !post.n_flag()
        &&& post.h_flag() == ((s1.hl & 0xFFF) + (v & 0xFFF) > 0xFFF)
        &&& post.c_flag() == (s1.hl + v > 0xFFFF)
        &&& post.program_counter == s1.program_counter
        &&& cycles == 8
    }
    &&& op == 0xE8 ==> {
        let off = s1.spec_imm_signed();
        &&& post.stack_pointer == word_add_signed(s1.stack_pointer, off)
        &&& !post.z_flag() && !post.n_flag()
        &&& post.program_counter == word_inc(s1.program_counter)
        &&& cycles == 16
    }
    // Loads.
    &&& (0x40 <= op <= 0x7F && op != 0x76) ==> {
        let src = op & 7;
        let dst = (op >> 3u8) & 7;
        &&& (src != 6 && dst != 6) ==> {
            &&& post.reg8(dst) == s1.reg8(src)
            &&& post.f() == s1.f()
            &&& post.program_counter == s1.program_counter
            &&& cycles == 4
        }
        &&& src == 6 ==> post.reg8(dst) == s1.mmu.spec_read(s1.hl) && post.program_counter
            == s1.program_counter && cycles == 8
        &&& dst == 6 ==> post.af == s1.af && post.bc == s1.bc && post.de == s1.de && post.hl
            == s1.hl && cycles == 8
    }
    &&& (op == 0x06 || op == 0x0E || op == 0x16 || op == 0x1E || op == 0x26 || op == 0x2E || op
        == 0x3E) ==> {
        &&& post.reg8((op >> 3u8) & 7) == s1.mmu.spec_read(s1.program_counter)
        &&& post.f() == s1.f()
        &&& post.program_counter == word_inc(s1.program_counter)
        &&& cycles == 8
    }
    &&& op == 0x01 ==> post.bc == s1.spec_imm_word() && cycles == 12
    &&& op == 0x11 ==> post.de == s1.spec_imm_word() && cycles == 12
    &&& op == 0x21 ==> post.hl == s1.spec_imm_word() && cycles == 12
    &&& op == 0x31 ==> post.stack_pointer == s1.spec_imm_word() && cycles == 12
    &&& op == 0x0A ==> post.a() == s1.mmu.spec_read(s1.bc) && cycles == 8
    &&& op == 0x1A ==> post.a() == s1.mmu.spec_read(s1.de) && cycles == 8
    &&& op == 0x2A ==> post.a() == s1.mmu.spec_read(s1.hl) && post.hl == word_inc(s1.hl)
        && cycles == 8
    &&& op == 0x3A ==> post.a() == s1.mmu.spec_read(s1.hl) && post.hl == word_dec(s1.hl)
        && cycles == 8
    &&& op == 0xF2 ==> post.a() == s1.mmu.spec_read((0xFF00 + s1.c()) as u16) && cycles == 8
    &&& op == 0xF9 ==> post.stack_pointer == s1.hl && cycles == 8
    &&& op == 0xF8 ==> post.hl == word_add_signed(s1.stack_pointer, s1.spec_imm_signed())
        && post.stack_pointer == s1.stack_pointer && cycles == 12
    // The accumulator rotates, which never set Z.
    &&& op == 0x07 ==> post.a() == ((s1.a() << 1u8) | crate::utils::spec_bit_val(s1.a(), 7))
        && !post.z_flag() && post.c_flag() == (crate::utils::spec_bit_val(s1.a(), 7) == 1)
        && cycles == 4
    &&& op == 0x17 ==> post.a() == ((s1.a() << 1u8) | (if s1.c_flag() {
        1u8
    } else {
        0u8
    })) && !post.z_flag() && post.c_flag() == (crate::utils::spec_bit_val(s1.a(), 7) == 1)
        && cycles == 4
    &&& op == 0x0F ==> post.a() == ((crate::utils::spec_bit_val(s1.a(), 0) << 7u8) | (s1.a()
        >> 1u8)) && !post.z_flag() && post.c_flag() == (crate::utils::spec_bit_val(s1.a(), 0) == 1)
        && cycles == 4
    &&& op == 0x1F ==> post.a() == (((if s1.c_flag() {
        1u8
    } else {
        0u8
    }) << 7u8) | (s1.a() >> 1u8)) && !post.z_flag() && post.c_flag() == (crate::utils::spec_bit_val(
        s1.a(),
        0,
    ) == 1) && cycles == 4
    // DAA, CPL, SCF, CCF.
    &&& op == 0x27 ==> {
        let res = spec_daa_value(s1.a(), s1.n_flag(), s1.h_flag(), s1.c_flag());
        &&& post.a() == res
        &&& post.z_flag() == (res == 0)
        &&& post.n_flag() == s1.n_flag()
        &&& !post.h_flag()
        &&& post.c_flag() == spec_daa_carry(s1.a(), s1.n_flag(), s1.c_flag())
        &&& cycles == 4
    }
    &&& op == 0x2F ==> post.a() == !s1.a() && post.n_flag() && post.h_flag() && post.z_flag()
        == s1.z_flag() && post.c_flag() == s1.c_flag() && cycles == 4
    &&& op == 0x37 ==> post.a() == s1.a() && !post.n_flag() && !post.h_flag() && post.c_flag()
        && post.z_flag() == s1.z_flag() && cycles == 4
    &&& op == 0x3F ==> post.a() == s1.a() && !post.n_flag() && !post.h_flag() && post.c_flag()
        == !s1.c_flag() && post.z_flag() == s1.z_flag() && cycles == 4
    // HALT.
    &&& op == 0x76 ==> post.halted && post.program_counter == s1.program_counter && cycles == 4
    // Stack.
    &&& (op == 0xC5 || op == 0xD5 || op == 0xE5 || op == 0xF5) ==> {
        &&& post.stack_pointer == word_dec(word_dec(s1.stack_pointer))
        &&& post.af == s1.af && post.bc == s1.bc && post.de == s1.de && post.hl == s1.hl
        &&& post.program_counter == s1.program_counter
        &&& cycles == 16
    }
    &&& (op == 0xC1 || op == 0xD1 || op == 0xE1 || op == 0xF1) ==> {
        let popped = word_from(
            s1.mmu.spec_read(word_inc(s1.stack_pointer)),
            s1.mmu.spec_read(s1.stack_pointer),
        );
        &&& post.stack_pointer == word_inc(word_inc(s1.stack_pointer))
        &&& post.program_counter == s1.program_counter
        &&& op == 0xC1 ==> post.bc == popped
        &&& op == 0xD1 ==> post.de == popped
        &&& op == 0xE1 ==> post.hl == popped
        &&& op == 0xF1 ==> post.af == (popped & 0xFFF0)
        &&& cycles == 12
    }
    // Jumps, calls and returns.
    &&& (op == 0xC2 || op == 0xCA || op == 0xD2 || op == 0xDA) ==> {
        &&& s1.spec_cond(op) ==> post.program_counter == s1.spec_imm_word() && cycles == 16
        &&& !s1.spec_cond(op) ==> post.program_counter == word_inc(word_inc(s1.program_counter))
            && cycles == 12
    }
    &&& op == 0xC3 ==> post.program_counter == s1.spec_imm_word() && cycles == 16
    &&& op == 0xE9 ==> post.program_counter == s1.hl && cycles == 4
    &&& op == 0x18 ==> post.program_counter == word_add_signed(
        word_inc(s1.program_counter),
        s1.spec_imm_signed(),
    ) && cycles == 12
    &&& (op == 0x20 || op == 0x28 || op == 0x30 || op == 0x38) ==> {
        &&& s1.spec_cond(op) ==> post.program_counter == word_add_signed(
            word_inc(s1.program_counter),
            s1.spec_imm_signed(),
        ) && cycles == 12
        &&& !s1.spec_cond(op) ==> post.program_counter == word_inc(s1.program_counter) && cycles
            == 8
    }
    &&& (op == 0xC4 || op == 0xCC || op == 0xCD || op == 0xD4 || op == 0xDC) ==> {
        let taken = op == 0xCD || s1.spec_cond(op);
        &&& taken ==> post.program_counter == s1.spec_imm_word() && post.stack_pointer == word_dec(
            word_dec(s1.stack_pointer),
        ) && cycles == 24
        &&& !taken ==> post.program_counter == word_inc(word_inc(s1.program_counter))
            && post.stack_pointer == s1.stack_pointer && cycles == 12
    }
    &&& (op == 0xC0 || op == 0xC8 || op == 0xC9 || op == 0xD0 || op == 0xD8 || op == 0xD9) ==> {
        let popped = word_from(
            s1.mmu.spec_read(word_inc(s1.stack_pointer)),
            s1.mmu.spec_read(s1.stack_pointer),
        );
        let sp_after = word_inc(word_inc(s1.stack_pointer));
        &&& (op == 0xC9 || op == 0xD9) ==> post.program_counter == popped && post.stack_pointer
            == sp_after && cycles == 16
        &&& (op != 0xC9 && op != 0xD9 && s1.spec_cond(op)) ==> post.program_counter == popped
            && post.stack_pointer == sp_after && cycles == 20
        &&& (op != 0xC9 && op != 0xD9 && !s1.spec_cond(op)) ==> post.program_counter
            == s1.program_counter && post.stack_pointer == s1.stack_pointer && cycles == 8
    }
    &&& (op == 0xC7 || op == 0xCF || op == 0xD7 || op == 0xDF || op == 0xE7 || op == 0xEF || op
        == 0xF7 || op == 0xFF) ==> {
        &&& post.program_counter == (op - 0xC7) as u16
        &&& post.stack_pointer == word_dec(word_dec(s1.stack_pointer))
        &&& cycles == 16
    }
    // The CB escape steps past its second opcode byte.
    &&& op == 0xCB ==> post.program_counter == word_inc(s1.program_counter)
        && post.stack_pointer == s1.stack_pointer
}

/// The service vector of an interrupt.
pub open spec fn spec_interrupt_vector(i: Interrupt) -> u16 {
    match i {
        Interrupt::V_BLANK => 0x40,
        Interrupt::LCD_STAT => 0x48,
        Interrupt::TIMER => 0x50,
        Interrupt::SERIAL => 0x58,
        Interrupt::JOYPAD => 0x60,
    }
}

impl Cpu {
    pub fn new(mmu: Mmu, timer: Timer, ppu: Ppu) -> (r: Cpu)
        requires
            mmu.wf(),
            timer.wf(),
            ppu.wf(),
        ensures
            r.wf(),
            r.mmu == mmu,
            r.timer == timer,
            r.ppu == ppu,
            r.af == 0 && r.bc == 0 && r.de == 0 && r.hl == 0,
            r.program_counter == 0 && r.stack_pointer == 0,
            r.interrupts_enabled,
            !r.will_enable_interrupts && !r.will_disable_interrupts,
            !r.halted,
            r.cycle_tracker == 0,
            r.last_op is None,
    {
        proof {
            assert(0u16 & 0x0F == 0) by (bit_vector);
        }
        Cpu {
            mmu,
            timer,
            ppu,
            af: 0,
            bc: 0,
            de: 0,
            hl: 0,
            program_counter: 0,
            stack_pointer: 0,
            interrupts_enabled: true,
            will_enable_interrupts: false,
            will_disable_interrupts: false,
            halted: false,
            cycle_tracker: 0,
            last_op: None,
        }
    }

    /// The documented boot state: PC at the cartridge entry point with
    /// the register pairs at their post-boot-ROM values and interrupts
    /// enabled.
    pub fn reset(&mut self)
        requires
            old(self).wf(),
        ensures
            final(self).wf(),
            final(self).program_counter == 0x100,
            final(self).stack_pointer == 0xFFFE,
            final(self).af == 0x01B0,
            final(self).bc == 0x0013,
            final(self).de == 0x00D8,
            final(self).hl == 0x014D,
            final(self).interrupts_enabled,
            !final(self).halted,
            !final(self).will_enable_interrupts,
            !final(self).will_disable_interrupts,
            final(self).mmu == old(self).mmu,
            final(self).timer == old(self).timer,
            final(self).ppu == old(self).ppu,
    {
        self.program_counter = PROGRAM_COUNTER_INIT;
        self.stack_pointer = STACK_POINTER_INIT;

        self.af = 0x01B0;
        self.bc = 0x0013;
        self.de = 0x00D8;
        self.hl = 0x014D;

        self.halted = false;
        self.interrupts_enabled = true;
        self.will_disable_interrupts = false;
        self.will_enable_interrupts = false;
        proof {
            assert(0x01B0u16 & 0x0F == 0) by (bit_vector);
        }
    }

    /// Runs one instruction and returns the T-cycles it consumed: a
    /// multiple of four, all of which were reported to the timer and
    /// the PPU during this call. A halted CPU consumes four cycles and
    /// does not move PC. A DI leaves IME off when it completes; an EI
    /// takes effect only after the following instruction.
    #[verifier::rlimit(100)]
    #[verifier::spinoff_prover]
    pub fn execute(&mut self) -> (cycles: u8)
        requires
            old(self).wf(),
            !old(self).halted ==> is_valid_opcode(
                old(self).mmu.spec_read(old(self).program_counter),
            ),
        ensures
            final(self).wf(),
            cycles % 4 == 0,
            4 <= cycles <= 24,
            final(self).cycle_tracker == cycles,
            old(self).halted ==> {
                &&& cycles == 4
                &&& final(self).program_counter == old(self).program_counter
                &&& final(self).halted
                &&& final(self).af == old(self).af
                &&& final(self).bc == old(self).bc
                &&& final(self).de == old(self).de
                &&& final(self).hl == old(self).hl
                &&& final(self).stack_pointer == old(self).stack_pointer
                &&& final(self).interrupts_enabled == old(self).interrupts_enabled
            },
            ({
                let op = old(self).mmu.spec_read(old(self).program_counter);
                &&& (!old(self).halted && op == 0xF3) ==> !final(self).interrupts_enabled && !final(self).will_enable_interrupts
                &&& (!old(self).halted && op == 0xFB) ==> final(self).will_enable_interrupts
                    || final(self).interrupts_enabled
                &&& (!old(self).halted && op != 0xF3 && old(self).last_op == Some(0xFBu8) && old(
                    self,
                ).will_enable_interrupts) ==> final(self).interrupts_enabled
                &&& final(self).last_op == (if old(self).halted {
                    old(self).last_op
                } else {
                    Some(op)
                })
                &&& !old(self).halted ==> spec_instruction_post(
                    old(self).spec_after_fetch(),
                    *final(self),
                    op,
                    cycles,
                )
            }),
    {
        // Reset the cycle tracker for mid-instruction cycle syncing.
        self.cycle_tracker = 0;

        let op = self.read_memory(self.program_counter);

        // In HALT mode no instruction is fetched; each step costs one
        // M-cycle so the frame pump keeps turning.
        if self.halted {
            self.sync_cycles(4);
            return 4;
        }
        self.program_counter = self.program_counter.wrapping_add(1);
        proof {
            assert(*self == old(self).spec_after_fetch());
        }

        let cycles: u8 = match op {
            0x00 | 0x10 => 4,
            0x01 | 0x02 | 0x06 | 0x08 | 0x0A | 0x0E | 0x11 | 0x12 | 0x16 | 0x1A | 0x1E | 0x21
                | 0x22 | 0x26 | 0x2A | 0x2E | 0x31 | 0x32 | 0x36 | 0x3A | 0x3E | 0xE2 | 0xEA
                | 0xF2 | 0xF8 | 0xF9 | 0xFA => self.do_load(op),
            0x40..=0x75 | 0x77..=0x7F => self.do_load(op),
            0x03 | 0x13 | 0x23 | 0x33 => self.do_increment_16_bit(op),
            0x0B | 0x1B | 0x2B | 0x3B => self.do_decrement_16_bit(op),
            0x04 | 0x0C | 0x14 | 0x1C | 0x24 | 0x2C | 0x34 | 0x3C => self.do_increment(op),
            0x05 | 0x0D | 0x15 | 0x1D | 0x25 | 0x2D | 0x35 | 0x3D => self.do_decrement(op),
            0x07 => self.do_rlca(),
            0x0F => self.do_rrca(),
            0x17 => self.do_rla(),
            0x1F => self.do_rra(),
            0x09 | 0x19 | 0x29 | 0x39 | 0xE8 => self.do_add_16_bit(op),
            0x18 | 0x20 | 0x28 | 0x30 | 0x38 => self.do_jump_relative(op),
            0x27 => self.do_daa(),
            0x2F => self.do_complement(),
            0x37 => self.do_set_carry_flag(),
            0x3F => self.do_complement_carry(),
            0x76 => self.do_halt(),
            0x80..=0x87 => self.do_add(op, false),
            0x88..=0x8F => self.do_add(op, true),
            0xC6 => self.do_add(op, false),
            0xCE => self.do_add(op, true),
            0x90..=0x97 => self.do_sub(op, false),
            0x98..=0x9F => self.do_sub(op, true),
            0xD6 => self.do_sub(op, false),
            0xDE => self.do_sub(op, true),
            0xA0..=0xA7 | 0xE6 => self.do_and(op),
            0xA8..=0xAF | 0xEE => self.do_xor(op),
            0xB0..=0xB7 | 0xF6 => self.do_or(op),
            0xB8..=0xBF | 0xFE => self.do_compare(op),
            0xC0 | 0xC8 | 0xC9 | 0xD0 | 0xD8 | 0xD9 => self.do_return(op),
            0xC1 | 0xD1 | 0xE1 | 0xF1 => self.do_pop(op),
            0xC5 | 0xD5 | 0xE5 | 0xF5 => self.do_push(op),
            0xC2 | 0xC3 | 0xCA | 0xD2 | 0xDA | 0xE9 => self.do_jump(op),
            0xC4 | 0xCC | 0xCD | 0xD4 | 0xDC => self.do_call(op),
            0xC7 | 0xCF | 0xD7 | 0xDF | 0xE7 | 0xEF | 0xF7 | 0xFF => self.do_restart(op),
            0xCB => self.do_prefix(),
            0xE0 | 0xF0 => self.do_load_h(op),
            0xF3 => self.do_disable_interrupts(),
            0xFB => self.do_enable_interrupts(),
            _ => {
                proof {
                    assert(false);
                }
                4
            },
        };

        proof {
            assert((op == 0x04 || op == 0x0C || op == 0x14 || op == 0x1C || op == 0x24 || op
                == 0x2C || op == 0x3C || op == 0x05 || op == 0x0D || op == 0x15 || op == 0x1D || op
                == 0x25 || op == 0x2D || op == 0x3D) ==> ((op >> 3u8) & 7) != 6) by (bit_vector);
            assert(spec_instruction_post(old(self).spec_after_fetch(), *self, op, cycles));
        }
        // Settle the EI/DI one-shot latches.
        self.toggle_interrupts_enabled(op);
        self.last_op = Some(op);

        // Flush the cycles not yet reported mid-instruction.
        let remaining = cycles - self.cycle_tracker;
        self.sync_cycles(remaining);

        cycles
    }

    /// Services at most one pending enabled interrupt, waking a halted
    /// CPU either way; a taken service consumes 20 T-cycles, reported
    /// to the timer and the PPU.
    pub fn handle_interrupts(&mut self)
        requires
            old(self).wf(),
        ensures
            final(self).wf(),
            ({
                let svc = spec_servicable(
                    old(self).mmu.spec_read(INTERRUPT_ENABLE_ADDR),
                    old(self).mmu.spec_read(INTERRUPT_FLAG_ADDR),
                );
                &&& svc is None ==> *final(self) == *old(self)
                &&& svc is Some ==> !final(self).halted
                &&& (svc is Some && !old(self).interrupts_enabled) ==> (*final(self)) == (Cpu {
                    halted: false,
                    ..*old(self)
                })
                &&& (svc is Some && old(self).interrupts_enabled) ==> {
                    &&& !final(self).interrupts_enabled
                    &&& final(self).program_counter == spec_interrupt_vector(svc.unwrap())
                    &&& final(self).stack_pointer == word_dec(word_dec(old(self).stack_pointer))
                    &&& final(self).af == old(self).af
                    &&& final(self).bc == old(self).bc
                    &&& final(self).de == old(self).de
                    &&& final(self).hl == old(self).hl
                    &&& final(self).cycle_tracker == 20
                    &&& exists|mid: Mmu|
                        #![auto]
                        spec_service_rel(
                            old(self).mmu,
                            mid,
                            spec_interrupt_bit(svc.unwrap()),
                            old(self).stack_pointer,
                            old(self).program_counter,
                        ) && clocked_mem_rel(mid, final(self).mmu)
                }
            }),
    {
        let interrupt_option = get_servicable_interrupt(&self.mmu);
        match interrupt_option {
            Some(interrupt) => {
                let had_ime = self.interrupts_enabled;
                self.service_interrupt(interrupt);
                if had_ime {
                    // The service sequence itself takes 20 T-cycles.
                    self.cycle_tracker = 0;
                    self.sync_cycles(20);
                }
            },
            None => (),
        }
    }

    /// The service sequence: wake, and with IME set clear the pending
    /// bit, drop IME, push PC and jump to the vector.
    fn service_interrupt(&mut self, interrupt: Interrupt)
        requires
            old(self).wf(),
        ensures
            final(self).wf(),
            !final(self).halted,
            !old(self).interrupts_enabled ==> (*final(self)) == (Cpu {
                halted: false,
                ..*old(self)
            }),
            old(self).interrupts_enabled ==> {
                &&& !final(self).interrupts_enabled
                &&& final(self).program_counter == spec_interrupt_vector(interrupt)
                &&& final(self).stack_pointer == word_dec(word_dec(old(self).stack_pointer))
                &&& spec_service_rel(
                    old(self).mmu,
                    final(self).mmu,
                    spec_interrupt_bit(interrupt),
                    old(self).stack_pointer,
                    old(self).program_counter,
                )
                &&& final(self).af == old(self).af
                &&& final(self).bc == old(self).bc
                &&& final(self).de == old(self).de
                &&& final(self).hl == old(self).hl
            },
    {
        // Leave HALT mode whether or not the interrupt can be serviced.
        self.halted = false;

        if self.interrupts_enabled {
            let interrupt_bit = crate::interrupts::interrupt_bit(interrupt);

            // Hold further interrupts off until the handler returns.
            self.interrupts_enabled = false;

            // Acknowledge: drop the request bit from IF.
            let mut interrupts_requested = self.read_memory(INTERRUPT_FLAG_ADDR);
            crate::utils::reset_bit(&mut interrupts_requested, interrupt_bit);
            self.write_memory(INTERRUPT_FLAG_ADDR, interrupts_requested);

            // Push the interrupted PC and jump to the vector.
            let ret = self.program_counter;
            self.push_word_to_stack(ret);

            self.program_counter = match interrupt {
                Interrupt::V_BLANK => 0x40,
                Interrupt::LCD_STAT => 0x48,
                Interrupt::TIMER => 0x50,
                Interrupt::SERIAL => 0x58,
                Interrupt::JOYPAD => 0x60,
            };
        }
    }

    pub fn get_screen(&self) -> (r: &Vec<u8>)
        ensures
            r@ == self.ppu.screen@,
    {
        self.ppu.get_screen()
    }

    pub fn set_button_state(&mut self, button: usize)
        requires
            old(self).wf(),
            button < 8,
        ensures
            final(self).wf(),
            final(self).mmu.joypad.state@ == old(self).mmu.joypad.state@.update(button as int, 0u8),
            crate::mmu::same_except_joypad(old(self).mmu, final(self).mmu),
            Cpu::same_but_mmu(*old(self), *final(self)),
    {
        self.mmu.set_button_state(button);
    }

    pub fn reset_button_state(&mut self, button: usize)
        requires
            old(self).wf(),
            button < 8,
        ensures
            final(self).wf(),
            final(self).mmu.joypad.state@ == old(self).mmu.joypad.state@.update(button as int, 1u8),
            crate::mmu::same_except_joypad(old(self).mmu, final(self).mmu),
            Cpu::same_but_mmu(*old(self), *final(self)),
    {
        self.mmu.reset_button_state(button);
    }

    /// A decoded view of the tile-data region, for the host's VRAM
    /// debug window.
    pub fn get_vram_tiles(&self) -> (r: Vec<u8>)
        requires
            self.wf(),
        ensures
            r@.len() == 128 * 192 * 3,
    {
        self.ppu.get_vram_tiles(&self.mmu)
    }

    /// A snapshot of the cartridge RAM, the save-file payload.
    pub fn get_external_ram(&self) -> (r: Vec<u8>)
        requires
            self.wf(),
        ensures
            r@ == (match self.mmu.mbc {
                Some(m) => m.spec_external_ram(),
                None => self.mmu.memory@.subrange(0xA000, 0xC000),
            }),
    {
        self.mmu.get_external_ram()
    }

    /// Copies a save-file payload back in, truncating to the target
    /// size.
    pub fn load_external_ram(&mut self, buffer: Vec<Byte>)
        requires
            old(self).wf(),
        ensures
            final(self).wf(),
            crate::mmu::load_ram_rel(old(self).mmu, final(self).mmu, buffer@),
            Cpu::same_but_mmu(*old(self), *final(self)),
    {
        self.mmu.load_external_ram(buffer);
    }
}

/// How servicing an interrupt relates the memory before and after: the
/// pending bit leaves IF, then the interrupted PC is pushed.
pub open spec fn spec_service_rel(pre: Mmu, post: Mmu, bit: usize, sp: u16, pc: u16) -> bool {
    exists|m1: Mmu|
        #![auto]
        Mmu::write_rel(
            pre,
            m1,
            INTERRUPT_FLAG_ADDR,
            (pre.spec_read(INTERRUPT_FLAG_ADDR) & !(1u8 << bit)),
        ) && spec_push_rel(m1, post, sp, pc)
}

impl Cpu {
    pub fn is_valid_op(op: u8) -> (r: bool)
        ensures
            r == is_valid_opcode(op),
    {
        !(op == 0xD3 || op == 0xDB || op == 0xDD || op == 0xE3 || op == 0xE4 || op == 0xEB || op
            == 0xEC || op == 0xED || op == 0xF4 || op == 0xFC || op == 0xFD)
    }
}

/// A stack cell that plain writes and reads reach unmediated: WRAM
/// below the echo region, or HRAM.
pub open spec fn plain_ram(addr: u16) -> bool {
    (0xC000 <= addr <= 0xDDFF) || (0xFF80 <= addr <= 0xFFFE)
}

/// POP AF leaves a zero low nibble in F; PUSH AF then writes that F
/// byte to the stack, and a following POP BC reads it back into C. So
/// with the stack in plain RAM, bits 3-0 of C come back zero: the F
/// register's low nibble is architecturally zero and survives the
/// stack round trip.
pub proof fn lemma_af_stack_round_trip(pre: Mmu, post: Mmu, sp: u16, af: u16)
    requires
        pre.wf(),
        spec_push_rel(pre, post, sp, af),
        af & 0x0F == 0,
        plain_ram(word_dec(sp)),
        plain_ram(word_dec(word_dec(sp))),
    ensures
        post.spec_read(word_dec(word_dec(sp))) == word_lo(af),
        post.spec_read(word_dec(word_dec(sp))) & 0x0F == 0,
{
    let mid = choose|mid: Mmu|
        #![auto]
        Mmu::write_rel(pre, mid, word_dec(sp), word_hi(af)) && Mmu::write_rel(
            mid,
            post,
            word_dec(word_dec(sp)),
            word_lo(af),
        );
    lemma_popped_af_low_nibble(af);
}

/// A word masked to clear its low nibble has a zero low nibble.
proof fn lemma_popped_af_low_nibble(w: u16)
    by (bit_vector)
    ensures
        (w & 0xFFF0) & 0x0F == 0,
        ((w & 0xFFF0) & 0xFF) as u8 & 0x0F == 0,
        w & 0x0F == 0 ==> ((w & 0xFF) as u8) & 0x0F == 0,
{
}

/// The accumulator value DAA leaves behind: after an add (N clear) the
/// high digit is adjusted by 0x60 when C is set or A exceeds 0x99, then
/// the low digit by 6 when H is set or the low nibble exceeds 9; after
/// a subtract the adjustments are downward and steered by C and H
/// alone.
pub open spec fn spec_daa_value(a: u8, n: bool, h: bool, c: bool) -> u8 {
    if !n {
        let a1 = if c || a > 0x99 {
            add_res(a, 0x60, 0)
        } else {
            a
        };
        if h || (a1 & 0x0F) > 0x09 {
            add_res(a1, 0x6, 0)
        } else {
            a1
        }
    } else {
        let a1 = if c {
            sub_res(a, 0x60, 0)
        } else {
            a
        };
        if h {
            sub_res(a1, 0x6, 0)
        } else {
            a1
        }
    }
}

/// Whether DAA reports a carry: after an add, when C was set or A
/// exceeded 0x99; after a subtract, only when C was already set.
pub open spec fn spec_daa_carry(a: u8, n: bool, c: bool) -> bool {
    if !n {
        c || a > 0x99
    } else {
        c
    }
}

/// How a pushed word relates the memory before and after: first the
/// high byte lands under the old stack pointer, then the low byte under
/// that.
pub open spec fn spec_push_rel(pre: Mmu, post: Mmu, sp: u16, data: u16) -> bool {
    exists|mid: Mmu|
        #![auto]
        Mmu::write_rel(pre, mid, word_dec(sp), word_hi(data)) && Mmu::write_rel(
            mid,
            post,
            word_dec(word_dec(sp)),
            word_lo(data),
        )
}

/// Setting the high byte of a word keeps its low byte.
pub fn exec_set_hi(w: Word, v: Byte) -> (r: Word)
    ensures
        word_hi(r) == v,
        word_lo(r) == word_lo(w),
        r == ((w & 0x00FF) | ((v as u16) << 8)),
{
    proof {
        lemma_word_set_hi(w, v);
    }
    (w & 0x00FF) | ((v as u16) << 8u16)
}

/// Setting the low byte of a word keeps its high byte.
pub fn exec_set_lo(w: Word, v: Byte) -> (r: Word)
    ensures
        word_hi(r) == word_hi(w),
        word_lo(r) == v,
        r == ((w & 0xFF00) | (v as u16)),
{
    proof {
        lemma_word_set_lo(w, v);
    }
    (w & 0xFF00) | (v as u16)
}

/// A word whose low nibble is zero keeps it when its high byte changes.
proof fn lemma_set_hi_keeps_low_nibble(w: u16, v: u8)
    by (bit_vector)
    requires
        w & 0x0F == 0,
    ensures
        ((w & 0x00FF) | ((v as u16) << 8)) & 0x0F == 0,
{
}

/// A word takes the low nibble of a new low byte.
proof fn lemma_set_lo_keeps_low_nibble(w: u16, v: u8)
    by (bit_vector)
    requires
        v & 0x0F == 0,
    ensures
        ((w & 0xFF00) | (v as u16)) & 0x0F == 0,
{
}

} // verus!

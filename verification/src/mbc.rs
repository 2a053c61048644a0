//! Cartridge memory bank controllers: MBC1, MBC2 and MBC3.
//!
//! A write into 0x0000-0x7FFF never reaches ROM; it is a control write
//! that selects banks, gates external RAM or toggles the banking mode.
//! Requests for banks beyond the cartridge are masked to a safe default.

use vstd::prelude::*;

use crate::rom::Rom;
use crate::utils::BankingMode;

verus! {

#[derive(Debug, Clone, Copy, PartialEq, Eq, Structural)]
pub enum MbcType {
    MBC1,
    MBC2,
    MBC3,
}

/// Copies a byte vector; used to hand RAM snapshots out and to take the
/// ROM image in.
pub fn copy_bytes(src: &Vec<u8>) -> (r: Vec<u8>)
    ensures
        r@ == src@,
{
    let mut out: Vec<u8> = Vec::new();
    let mut i: usize = 0;
    while i < src.len()
        invariant
            i <= src@.len(),
            out@ == src@.subrange(0, i as int),
        decreases src@.len() - i,
    {
        out.push(src[i]);
        i = i + 1;
    }
    proof {
        assert(out@ =~= src@);
    }
    out
}

pub struct Mbc1 {
    pub memory: Vec<u8>,
    pub rom_bank: u8,
    pub ram_bank: u8,
    pub external_ram: Vec<u8>,
    pub enable_ram: bool,
    pub number_of_rom_banks: u16,
    pub banking_mode: BankingMode,
}

pub struct Mbc2 {
    pub memory: Vec<u8>,
    pub rom_bank: u8,
    // MBC2 has no external RAM proper, just 512 half-byte cells in the
    // controller, echoed across the whole 0xA000-0xBFFF window.
    pub external_ram: Vec<u8>,
    pub enable_ram: bool,
}

pub struct Mbc3 {
    pub memory: Vec<u8>,
    pub rom_bank: u8,
    pub ram_bank_or_rtc: u8,
    pub external_ram: Vec<u8>,
    pub enable_ram_and_rtc: bool,
    pub number_of_rom_banks: u16,
    // RTC registers, stubbed as plain cells that retain written values.
    pub rtc_seconds: u8,
    pub rtc_minutes: u8,
    pub rtc_hours: u8,
    pub rtc_dl: u8,
    pub rtc_dh: u8,
}

impl Mbc1 {
    pub open spec fn wf(self) -> bool {
        &&& self.external_ram@.len() == 0x8000
        &&& self.ram_bank <= 3
    }

    pub fn new(rom: &Rom) -> (r: Mbc1)
        requires
            rom.wf(),
        ensures
            r.wf(),
            r.memory@ == rom.data@,
            r.rom_bank == 1,
            r.ram_bank == 0,
            !r.enable_ram,
            r.banking_mode == BankingMode::ROM,
            r.number_of_rom_banks == rom.spec_number_of_banks(),
            r.external_ram@ == Seq::new(0x8000, |i: int| 0u8),
    {
        let memory = copy_bytes(&rom.data);
        let external_ram = vec_zeroes(0x8000);
        Mbc1 {
            memory,
            rom_bank: 1,
            ram_bank: 0,
            external_ram,
            enable_ram: false,
            number_of_rom_banks: rom.get_number_of_banks(),
            banking_mode: BankingMode::ROM,
        }
    }

    /// The byte the 0x4000-0x7FFF window shows at `addr` (relative to the
    /// window start): the selected bank, reduced modulo the bank count,
    /// indexes the ROM image; past its end the bus reads 0xFF.
    pub open spec fn spec_read_rom(self, addr: u16) -> u8 {
        let bank = if self.number_of_rom_banks > 0 {
            self.rom_bank as int % self.number_of_rom_banks as int
        } else {
            self.rom_bank as int
        };
        let idx = addr as int + bank * 0x4000;
        if idx < self.memory@.len() {
            self.memory@[idx]
        } else {
            0xFF
        }
    }

    pub open spec fn spec_read_ram(self, addr: u16) -> u8 {
        self.external_ram@[addr as int + self.ram_bank as int * 0x2000]
    }

    /// Relates the controller state before and after a write into the
    /// external RAM window: the addressed cell of the selected bank takes
    /// the value while RAM is enabled, and nothing else moves.
    pub open spec fn write_ram_rel(pre: Mbc1, post: Mbc1, addr: u16, data: u8) -> bool {
        &&& post.external_ram@ == (if pre.enable_ram {
            pre.external_ram@.update(addr as int + pre.ram_bank as int * 0x2000, data)
        } else {
            pre.external_ram@
        })
        &&& post.memory == pre.memory
        &&& post.rom_bank == pre.rom_bank
        &&& post.ram_bank == pre.ram_bank
        &&& post.enable_ram == pre.enable_ram
        &&& post.number_of_rom_banks == pre.number_of_rom_banks
        &&& post.banking_mode == pre.banking_mode
    }

    /// The MBC1 control write: RAM enable at 0x0000-0x1FFF, ROM bank at
    /// 0x2000-0x3FFF (a bank whose low five bits are zero reads back as
    /// if they were one), RAM bank or high ROM bits at 0x4000-0x5FFF,
    /// banking mode at 0x6000-0x7FFF.
    pub open spec fn spec_handle_banking(self, addr: u16, data: u8) -> Mbc1 {
        if addr < 0x2000 {
            Mbc1 { enable_ram: data & 0xF == 0xA, ..self }
        } else if addr < 0x4000 {
            let requested = data & 0x7F;
            let bank = if requested & 0x1F == 0 {
                requested | 1
            } else {
                requested
            };
            Mbc1 { rom_bank: bank, ..self }
        } else if addr < 0x6000 {
            if self.banking_mode == BankingMode::RAM {
                Mbc1 { ram_bank: data & 0x03, ..self }
            } else {
                let combined = (data & 0xE0) | (self.rom_bank & 0x1F);
                let bank = if combined & 0x1F == 0 {
                    combined | 1
                } else {
                    combined
                };
                Mbc1 { rom_bank: bank, ..self }
            }
        } else {
            let mode = if data & 1 == 1 {
                BankingMode::RAM
            } else {
                BankingMode::ROM
            };
            Mbc1 { banking_mode: mode, ..self }
        }
    }
}

impl Mbc2 {
    pub open spec fn wf(self) -> bool {
        self.external_ram@.len() == 0x200
    }

    pub fn new(rom: &Rom) -> (r: Mbc2)
        requires
            rom.wf(),
        ensures
            r.wf(),
            r.memory@ == rom.data@,
            r.rom_bank == 1,
            !r.enable_ram,
            r.external_ram@ == Seq::new(0x200, |i: int| 0u8),
    {
        let memory = copy_bytes(&rom.data);
        let external_ram = vec_zeroes(0x200);
        Mbc2 { memory, rom_bank: 1, external_ram, enable_ram: false }
    }

    pub open spec fn spec_read_rom(self, addr: u16) -> u8 {
        let idx = addr as int + self.rom_bank as int * 0x4000;
        if idx < self.memory@.len() {
            self.memory@[idx]
        } else {
            0xFF
        }
    }

    /// The 512 cells are echoed across the window, so only the address
    /// modulo 0x200 matters.
    pub open spec fn spec_read_ram(self, addr: u16) -> u8 {
        self.external_ram@[addr as int % 0x200]
    }

    /// Only the low four bits of a cell are kept, and only while RAM is
    /// enabled.
    pub open spec fn write_ram_rel(pre: Mbc2, post: Mbc2, addr: u16, data: u8) -> bool {
        &&& post.external_ram@ == (if pre.enable_ram {
            pre.external_ram@.update(addr as int % 0x200, data & 0xF)
        } else {
            pre.external_ram@
        })
        &&& post.memory == pre.memory
        &&& post.rom_bank == pre.rom_bank
        &&& post.enable_ram == pre.enable_ram
    }

    /// Bit 8 of the address tells ROM bank select (set) from RAM enable
    /// (clear); writes at 0x4000-0x7FFF do nothing on MBC2.
    pub open spec fn spec_handle_banking(self, addr: u16, data: u8) -> Mbc2 {
        if addr < 0x4000 {
            if (addr >> 8) & 1 == 1 {
                let bank = data & 0xF;
                Mbc2 { rom_bank: if bank == 0 { 1 } else { bank }, ..self }
            } else {
                Mbc2 { enable_ram: data == 0xA, ..self }
            }
        } else {
            self
        }
    }
}

impl Mbc3 {
    pub open spec fn wf(self) -> bool {
        self.external_ram@.len() == 0x8000
    }

    pub fn new(rom: &Rom) -> (r: Mbc3)
        requires
            rom.wf(),
        ensures
            r.wf(),
            r.memory@ == rom.data@,
            r.rom_bank == 1,
            r.ram_bank_or_rtc == 0,
            !r.enable_ram_and_rtc,
            r.number_of_rom_banks == rom.spec_number_of_banks(),
            r.external_ram@ == Seq::new(0x8000, |i: int| 0u8),
            r.rtc_seconds == 0 && r.rtc_minutes == 0 && r.rtc_hours == 0 && r.rtc_dl == 0
                && r.rtc_dh == 0,
    {
        let memory = copy_bytes(&rom.data);
        let external_ram = vec_zeroes(0x8000);
        Mbc3 {
            memory,
            rom_bank: 1,
            ram_bank_or_rtc: 0,
            external_ram,
            enable_ram_and_rtc: false,
            number_of_rom_banks: rom.get_number_of_banks(),
            rtc_seconds: 0,
            rtc_minutes: 0,
            rtc_hours: 0,
            rtc_dl: 0,
            rtc_dh: 0,
        }
    }

    pub open spec fn spec_read_rom(self, addr: u16) -> u8 {
        let bank = if self.number_of_rom_banks > 0 {
            self.rom_bank as int % self.number_of_rom_banks as int
        } else {
            self.rom_bank as int
        };
        let idx = addr as int + bank * 0x4000;
        if idx < self.memory@.len() {
            self.memory@[idx]
        } else {
            0xFF
        }
    }

    /// The 0x4000-0x5FFF selector routes the RAM window either to one of
    /// four RAM banks (0x00-0x03) or to an RTC register (0x08-0x0C);
    /// anything else reads as zero.
    pub open spec fn spec_read_ram(self, addr: u16) -> u8 {
        if self.ram_bank_or_rtc <= 0x03 {
            self.external_ram@[addr as int + self.ram_bank_or_rtc as int * 0x2000]
        } else if self.ram_bank_or_rtc == 0x08 {
            self.rtc_seconds
        } else if self.ram_bank_or_rtc == 0x09 {
            self.rtc_minutes
        } else if self.ram_bank_or_rtc == 0x0A {
            self.rtc_hours
        } else if self.ram_bank_or_rtc == 0x0B {
            self.rtc_dl
        } else if self.ram_bank_or_rtc == 0x0C {
            self.rtc_dh
        } else {
            0
        }
    }

    /// Relates the controller state before and after a write into the
    /// RAM window: while enabled, the selector routes the value either
    /// into a RAM bank cell or into one of the RTC registers.
    pub open spec fn write_ram_rel(pre: Mbc3, post: Mbc3, addr: u16, data: u8) -> bool {
        let sel = pre.ram_bank_or_rtc;
        let on = pre.enable_ram_and_rtc;
        &&& post.external_ram@ == (if on && sel <= 0x03 {
            pre.external_ram@.update(addr as int + sel as int * 0x2000, data)
        } else {
            pre.external_ram@
        })
        &&& post.rtc_seconds == (if on && sel == 0x08 { data } else { pre.rtc_seconds })
        &&& post.rtc_minutes == (if on && sel == 0x09 { data } else { pre.rtc_minutes })
        &&& post.rtc_hours == (if on && sel == 0x0A { data } else { pre.rtc_hours })
        &&& post.rtc_dl == (if on && sel == 0x0B { data } else { pre.rtc_dl })
        &&& post.rtc_dh == (if on && sel == 0x0C { data } else { pre.rtc_dh })
        &&& post.memory == pre.memory
        &&& post.rom_bank == pre.rom_bank
        &&& post.ram_bank_or_rtc == pre.ram_bank_or_rtc
        &&& post.enable_ram_and_rtc == pre.enable_ram_and_rtc
        &&& post.number_of_rom_banks == pre.number_of_rom_banks
    }

    /// RAM/RTC enable at 0x0000-0x1FFF, 7-bit ROM bank (zero bumped to
    /// one) at 0x2000-0x3FFF, RAM bank or RTC selector at 0x4000-0x5FFF;
    /// the 0x6000-0x7FFF latch is a stub since the RTC registers are
    /// plain cells.
    pub open spec fn spec_handle_banking(self, addr: u16, data: u8) -> Mbc3 {
        if addr < 0x2000 {
            Mbc3 { enable_ram_and_rtc: data & 0xF == 0xA, ..self }
        } else if addr < 0x4000 {
            let bank = data & 0x7F;
            Mbc3 { rom_bank: if bank == 0 { 1 } else { bank }, ..self }
        } else if addr < 0x6000 {
            Mbc3 { ram_bank_or_rtc: data, ..self }
        } else {
            self
        }
    }
}

/// A cartridge bank controller. A cartridge without one (plain ROM) is
/// represented by the absence of any `Mbc`.
pub enum Mbc {
    One(Mbc1),
    Two(Mbc2),
    Three(Mbc3),
}

impl Mbc {
    pub open spec fn wf(self) -> bool {
        match self {
            Mbc::One(m) => m.wf(),
            Mbc::Two(m) => m.wf(),
            Mbc::Three(m) => m.wf(),
        }
    }

    pub open spec fn spec_read_rom(self, addr: u16) -> u8 {
        match self {
            Mbc::One(m) => m.spec_read_rom(addr),
            Mbc::Two(m) => m.spec_read_rom(addr),
            Mbc::Three(m) => m.spec_read_rom(addr),
        }
    }

    pub open spec fn spec_read_ram(self, addr: u16) -> u8 {
        match self {
            Mbc::One(m) => m.spec_read_ram(addr),
            Mbc::Two(m) => m.spec_read_ram(addr),
            Mbc::Three(m) => m.spec_read_ram(addr),
        }
    }

    /// Relates the controller state before and after a write into the
    /// external RAM window.
    pub open spec fn write_ram_rel(pre: Mbc, post: Mbc, addr: u16, data: u8) -> bool {
        match (pre, post) {
            (Mbc::One(a), Mbc::One(b)) => Mbc1::write_ram_rel(a, b, addr, data),
            (Mbc::Two(a), Mbc::Two(b)) => Mbc2::write_ram_rel(a, b, addr, data),
            (Mbc::Three(a), Mbc::Three(b)) => Mbc3::write_ram_rel(a, b, addr, data),
            _ => false,
        }
    }

    pub open spec fn spec_handle_banking(self, addr: u16, data: u8) -> Mbc {
        match self {
            Mbc::One(m) => Mbc::One(m.spec_handle_banking(addr, data)),
            Mbc::Two(m) => Mbc::Two(m.spec_handle_banking(addr, data)),
            Mbc::Three(m) => Mbc::Three(m.spec_handle_banking(addr, data)),
        }
    }

    pub fn get_mbc_type(&self) -> (r: MbcType)
        ensures
            r == (match *self {
                Mbc::One(_) => MbcType::MBC1,
                Mbc::Two(_) => MbcType::MBC2,
                Mbc::Three(_) => MbcType::MBC3,
            }),
    {
        match self {
            Mbc::One(_) => MbcType::MBC1,
            Mbc::Two(_) => MbcType::MBC2,
            Mbc::Three(_) => MbcType::MBC3,
        }
    }

    /// Reads from the switchable ROM window; `addr` is relative to
    /// 0x4000.
    pub fn read_rom(&self, addr: u16) -> (r: u8)
        requires
            self.wf(),
            addr < 0x4000,
        ensures
            r == self.spec_read_rom(addr),
    {
        match self {
            Mbc::One(m) => {
                let bank: usize = if m.number_of_rom_banks > 0 {
                    (m.rom_bank as usize) % (m.number_of_rom_banks as usize)
                } else {
                    m.rom_bank as usize
                };
                let idx = addr as usize + bank * 0x4000;
                if idx < m.memory.len() {
                    m.memory[idx]
                } else {
                    0xFF
                }
            },
            Mbc::Two(m) => {
                let idx = addr as usize + (m.rom_bank as usize) * 0x4000;
                if idx < m.memory.len() {
                    m.memory[idx]
                } else {
                    0xFF
                }
            },
            Mbc::Three(m) => {
                let bank: usize = if m.number_of_rom_banks > 0 {
                    (m.rom_bank as usize) % (m.number_of_rom_banks as usize)
                } else {
                    m.rom_bank as usize
                };
                let idx = addr as usize + bank * 0x4000;
                if idx < m.memory.len() {
                    m.memory[idx]
                } else {
                    0xFF
                }
            },
        }
    }

    /// Reads from the external RAM window; `addr` is relative to 0xA000.
    pub fn read_ram(&self, addr: u16) -> (r: u8)
        requires
            self.wf(),
            addr < 0x2000,
        ensures
            r == self.spec_read_ram(addr),
    {
        match self {
            Mbc::One(m) => m.external_ram[addr as usize + (m.ram_bank as usize) * 0x2000],
            Mbc::Two(m) => m.external_ram[(addr as usize) % 0x200],
            Mbc::Three(m) => {
                if m.ram_bank_or_rtc <= 0x03 {
                    m.external_ram[addr as usize + (m.ram_bank_or_rtc as usize) * 0x2000]
                } else if m.ram_bank_or_rtc == 0x08 {
                    m.rtc_seconds
                } else if m.ram_bank_or_rtc == 0x09 {
                    m.rtc_minutes
                } else if m.ram_bank_or_rtc == 0x0A {
                    m.rtc_hours
                } else if m.ram_bank_or_rtc == 0x0B {
                    m.rtc_dl
                } else if m.ram_bank_or_rtc == 0x0C {
                    m.rtc_dh
                } else {
                    0
                }
            },
        }
    }

    /// Writes into the external RAM window; `addr` is relative to 0xA000.
    pub fn write_ram(&mut self, addr: u16, data: u8)
        requires
            old(self).wf(),
            addr < 0x2000,
        ensures
            final(self).wf(),
            Mbc::write_ram_rel(*old(self), *final(self), addr, data),
    {
        match self {
            Mbc::One(m) => {
                if m.enable_ram {
                    let idx = addr as usize + (m.ram_bank as usize) * 0x2000;
                    m.external_ram[idx] = data;
                }
            },
            Mbc::Two(m) => {
                if m.enable_ram {
                    let idx = (addr as usize) % 0x200;
                    m.external_ram[idx] = data & 0xF;
                }
            },
            Mbc::Three(m) => {
                if m.enable_ram_and_rtc {
                    if m.ram_bank_or_rtc <= 0x03 {
                        let idx = addr as usize + (m.ram_bank_or_rtc as usize) * 0x2000;
                        m.external_ram[idx] = data;
                    } else if m.ram_bank_or_rtc == 0x08 {
                        m.rtc_seconds = data;
                    } else if m.ram_bank_or_rtc == 0x09 {
                        m.rtc_minutes = data;
                    } else if m.ram_bank_or_rtc == 0x0A {
                        m.rtc_hours = data;
                    } else if m.ram_bank_or_rtc == 0x0B {
                        m.rtc_dl = data;
                    } else if m.ram_bank_or_rtc == 0x0C {
                        m.rtc_dh = data;
                    }
                }
            },
        }
    }

    /// Interprets a write into 0x0000-0x7FFF as a bank control write.
    pub fn handle_banking(&mut self, addr: u16, data: u8)
        requires
            old(self).wf(),
            addr < 0x8000,
        ensures
            final(self).wf(),
            *final(self) == old(self).spec_handle_banking(addr, data),
    {
        match self {
            Mbc::One(m) => {
                if addr < 0x2000 {
                    m.enable_ram = (data & 0xF) == 0xA;
                } else if addr < 0x4000 {
                    let requested = data & 0x7F;
                    m.rom_bank = if requested & 0x1F == 0 {
                        requested | 1
                    } else {
                        requested
                    };
                } else if addr < 0x6000 {
                    if m.banking_mode == BankingMode::RAM {
                        proof {
                            crate::utils::lemma_and_mask_bound(data, 0x03);
                        }
                        m.ram_bank = data & 0x03;
                    } else {
                        let combined = (data & 0xE0) | (m.rom_bank & 0x1F);
                        m.rom_bank = if combined & 0x1F == 0 {
                            combined | 1
                        } else {
                            combined
                        };
                    }
                } else {
                    m.banking_mode = if data & 1 == 1 {
                        BankingMode::RAM
                    } else {
                        BankingMode::ROM
                    };
                }
            },
            Mbc::Two(m) => {
                if addr < 0x4000 {
                    if ((addr >> 8u16) & 1) == 1 {
                        let bank = data & 0xF;
                        m.rom_bank = if bank == 0 {
                            1
                        } else {
                            bank
                        };
                    } else {
                        m.enable_ram = data == 0xA;
                    }
                }
            },
            Mbc::Three(m) => {
                if addr < 0x2000 {
                    m.enable_ram_and_rtc = (data & 0xF) == 0xA;
                } else if addr < 0x4000 {
                    let bank = data & 0x7F;
                    m.rom_bank = if bank == 0 {
                        1
                    } else {
                        bank
                    };
                } else if addr < 0x6000 {
                    m.ram_bank_or_rtc = data;
                }
            },
        }
    }

    /// A snapshot of the external RAM, the save-file payload.
    pub fn get_external_ram(&self) -> (r: Vec<u8>)
        ensures
            r@ == (match *self {
                Mbc::One(m) => m.external_ram@,
                Mbc::Two(m) => m.external_ram@,
                Mbc::Three(m) => m.external_ram@,
            }),
    {
        match self {
            Mbc::One(m) => copy_bytes(&m.external_ram),
            Mbc::Two(m) => copy_bytes(&m.external_ram),
            Mbc::Three(m) => copy_bytes(&m.external_ram),
        }
    }

    /// Copies a save-file payload back in, truncating to the RAM size.
    pub fn load_external_ram(&mut self, buffer: Vec<u8>)
        requires
            old(self).wf(),
        ensures
            final(self).wf(),
            Mbc::same_except_ram(*old(self), *final(self)),
            final(self).spec_external_ram().len() == old(self).spec_external_ram().len(),
            forall|i: int|
                0 <= i < final(self).spec_external_ram().len()
                    ==> final(self).spec_external_ram()[i] == (if i < buffer@.len() {
                    buffer@[i]
                } else {
                    old(self).spec_external_ram()[i]
                }),
    {
        match self {
            Mbc::One(m) => load_into(&mut m.external_ram, &buffer),
            Mbc::Two(m) => load_into(&mut m.external_ram, &buffer),
            Mbc::Three(m) => load_into(&mut m.external_ram, &buffer),
        }
    }

    pub open spec fn spec_external_ram(self) -> Seq<u8> {
        match self {
            Mbc::One(m) => m.external_ram@,
            Mbc::Two(m) => m.external_ram@,
            Mbc::Three(m) => m.external_ram@,
        }
    }

    /// The controller kind and every field but the external RAM agree.
    pub open spec fn same_except_ram(pre: Mbc, post: Mbc) -> bool {
        match (pre, post) {
            (Mbc::One(a), Mbc::One(b)) => {
                &&& b.memory == a.memory
                &&& b.rom_bank == a.rom_bank
                &&& b.ram_bank == a.ram_bank
                &&& b.enable_ram == a.enable_ram
                &&& b.number_of_rom_banks == a.number_of_rom_banks
                &&& b.banking_mode == a.banking_mode
            },
            (Mbc::Two(a), Mbc::Two(b)) => {
                &&& b.memory == a.memory
                &&& b.rom_bank == a.rom_bank
                &&& b.enable_ram == a.enable_ram
            },
            (Mbc::Three(a), Mbc::Three(b)) => {
                &&& b.memory == a.memory
                &&& b.rom_bank == a.rom_bank
                &&& b.ram_bank_or_rtc == a.ram_bank_or_rtc
                &&& b.enable_ram_and_rtc == a.enable_ram_and_rtc
                &&& b.number_of_rom_banks == a.number_of_rom_banks
                &&& b.rtc_seconds == a.rtc_seconds
                &&& b.rtc_minutes == a.rtc_minutes
                &&& b.rtc_hours == a.rtc_hours
                &&& b.rtc_dl == a.rtc_dl
                &&& b.rtc_dh == a.rtc_dh
            },
            _ => false,
        }
    }
}

/// Overwrites the front of `ram` with `buffer`, truncating the buffer to
/// the RAM size.
fn load_into(ram: &mut Vec<u8>, buffer: &Vec<u8>)
    ensures
        final(ram)@.len() == old(ram)@.len(),
        forall|i: int|
            0 <= i < final(ram)@.len() ==> final(ram)@[i] == (if i < buffer@.len() {
                buffer@[i]
            } else {
                old(ram)@[i]
            }),
{
    let n = if ram.len() < buffer.len() {
        ram.len()
    } else {
        buffer.len()
    };
    let mut i: usize = 0;
    while i < n
        invariant
            n <= old(ram)@.len(),
            n <= buffer@.len(),
            i <= n,
            ram@.len() == old(ram)@.len(),
            forall|j: int| 0 <= j < i ==> ram@[j] == buffer@[j],
            forall|j: int| i <= j < ram@.len() ==> ram@[j] == old(ram)@[j],
        decreases n - i,
    {
        ram[i] = buffer[i];
        i = i + 1;
    }
}

/// A vector of `n` zero bytes.
pub fn vec_zeroes(n: usize) -> (r: Vec<u8>)
    ensures
        r@ == Seq::new(n as nat, |i: int| 0u8),
{
    let mut out: Vec<u8> = Vec::new();
    let mut i: usize = 0;
    while i < n
        invariant
            i <= n,
            out@ == Seq::new(i as nat, |j: int| 0u8),
        decreases n - i,
    {
        out.push(0);
        proof {
            assert(out@ =~= Seq::new((i + 1) as nat, |j: int| 0u8));
        }
        i = i + 1;
    }
    out
}

/// Chooses the controller for a cartridge from header byte 0x147:
/// 0x01-0x03 is MBC1, 0x05-0x06 is MBC2, 0x0F-0x13 is MBC3, and any
/// other value (plain ROM included) gets no controller.
pub fn get_mbc(rom: &Rom) -> (r: Option<Mbc>)
    requires
        rom.wf(),
    ensures
        r.is_some() ==> r.unwrap().wf(),
        fresh_mbc_rel(*rom, r),
{
    let rom_mode = rom.get_cartridge_type();
    match rom_mode {
        0x01 | 0x02 | 0x03 => Some(Mbc::One(Mbc1::new(rom))),
        0x05 | 0x06 => Some(Mbc::Two(Mbc2::new(rom))),
        0x0F | 0x10 | 0x11 | 0x12 | 0x13 => Some(Mbc::Three(Mbc3::new(rom))),
        _ => None,
    }
}

impl Mbc {
    pub open spec fn get_type_spec(self) -> MbcType {
        match self {
            Mbc::One(_) => MbcType::MBC1,
            Mbc::Two(_) => MbcType::MBC2,
            Mbc::Three(_) => MbcType::MBC3,
        }
    }
}

/// The controller a cartridge gets on load: chosen by header byte
/// 0x147, holding a copy of the ROM image, bank 1 selected, RAM gated
/// off, zeroed external RAM, and (MBC1/MBC3) the header's bank count;
/// MBC1 starts in ROM banking mode and MBC3 with zero RTC registers.
pub open spec fn fresh_mbc_rel(rom: Rom, r: Option<Mbc>) -> bool {
    let t = rom.data@[0x147];
    if 0x01 <= t <= 0x03 {
        match r {
            Some(Mbc::One(m)) => {
                &&& m.memory@ == rom.data@
                &&& m.rom_bank == 1
                &&& m.ram_bank == 0
                &&& !m.enable_ram
                &&& m.banking_mode == BankingMode::ROM
                &&& m.number_of_rom_banks == rom.spec_number_of_banks()
                &&& m.external_ram@ == Seq::new(0x8000, |i: int| 0u8)
            },
            _ => false,
        }
    } else if t == 0x05 || t == 0x06 {
        match r {
            Some(Mbc::Two(m)) => {
                &&& m.memory@ == rom.data@
                &&& m.rom_bank == 1
                &&& !m.enable_ram
                &&& m.external_ram@ == Seq::new(0x200, |i: int| 0u8)
            },
            _ => false,
        }
    } else if 0x0F <= t <= 0x13 {
        match r {
            Some(Mbc::Three(m)) => {
                &&& m.memory@ == rom.data@
                &&& m.rom_bank == 1
                &&& m.ram_bank_or_rtc == 0
                &&& !m.enable_ram_and_rtc
                &&& m.number_of_rom_banks == rom.spec_number_of_banks()
                &&& m.external_ram@ == Seq::new(0x8000, |i: int| 0u8)
                &&& m.rtc_seconds == 0 && m.rtc_minutes == 0 && m.rtc_hours == 0 && m.rtc_dl == 0
                    && m.rtc_dh == 0
            },
            _ => false,
        }
    } else {
        r is None
    }
}

/// The controller kind selected by each known cartridge-type byte.
pub open spec fn spec_mbc_type_for(t: u8) -> MbcType
    recommends
        (0x01 <= t <= 0x03) || t == 0x05 || t == 0x06 || (0x0F <= t <= 0x13),
{
    if 0x01 <= t <= 0x03 {
        MbcType::MBC1
    } else if t == 0x05 || t == 0x06 {
        MbcType::MBC2
    } else {
        MbcType::MBC3
    }
}

} // verus!

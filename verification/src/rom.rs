//! A cartridge ROM image and the header fields the core interprets.

use vstd::prelude::*;

verus! {

/// A byte-addressable ROM blob. The header at 0x0100-0x014F must be
/// present in full; the host hands the raw file contents in.
#[derive(Debug)]
pub struct Rom {
    pub data: Vec<u8>,
}

impl Rom {
    /// The header region 0x0100-0x014F is complete.
    pub open spec fn wf(self) -> bool {
        self.data@.len() >= 0x150
    }

    pub fn new(data: Vec<u8>) -> (r: Rom)
        requires
            data@.len() >= 0x150,
        ensures
            r.wf(),
            r.data@ == data@,
    {
        Rom { data }
    }

    pub fn get_byte(&self, addr: usize) -> (r: u8)
        requires
            addr < self.data@.len(),
        ensures
            r == self.data@[addr as int],
    {
        self.data[addr]
    }

    pub fn length(&self) -> (r: usize)
        ensures
            r == self.data@.len(),
    {
        self.data.len()
    }

    pub fn get_cartridge_type(&self) -> (r: u8)
        requires
            self.wf(),
        ensures
            r == self.data@[0x147],
    {
        self.data[0x147]
    }

    /// CGB cartridges flag themselves in bit 7 of header byte 0x143.
    pub open spec fn spec_is_cgb(self) -> bool {
        self.data@[0x143] & 0x80 > 0
    }

    pub fn is_cgb(&self) -> (r: bool)
        requires
            self.wf(),
        ensures
            r == self.spec_is_cgb(),
    {
        (self.data[0x143] & 0x80) > 0
    }

    /// The ROM bank count encoded by header byte 0x148.
    pub open spec fn spec_number_of_banks(self) -> u16 {
        spec_banks_for_code(self.data@[0x148])
    }

    pub fn get_number_of_banks(&self) -> (r: u16)
        requires
            self.wf(),
        ensures
            r == self.spec_number_of_banks(),
    {
        match self.data[0x148] {
            0x00 => 2,
            0x01 => 4,
            0x02 => 8,
            0x03 => 16,
            0x04 => 32,
            0x05 => 64,
            0x06 => 128,
            0x07 => 256,
            0x08 => 512,
            0x52 => 72,
            0x53 => 80,
            0x54 => 96,
            _ => 2,
        }
    }
}

/// The mapping from the header's bank-count code to the bank count:
/// 0x00 -> 2 doubling up to 0x08 -> 512, with the rare 0x52-0x54 sizes,
/// and 2 for anything unknown.
pub open spec fn spec_banks_for_code(code: u8) -> u16 {
    match code {
        0x00 => 2,
        0x01 => 4,
        0x02 => 8,
        0x03 => 16,
        0x04 => 32,
        0x05 => 64,
        0x06 => 128,
        0x07 => 256,
        0x08 => 512,
        0x52 => 72,
        0x53 => 80,
        0x54 => 96,
        _ => 2,
    }
}

} // verus!

use vstd::prelude::*;
use vstd::array::spec_array_update;

verus! {

/// Work RAM at 0xC000 and high RAM at 0xFF80.
pub struct RAM {
    pub wram: [u8; 0x2000],
    pub hram: [u8; 0x80],
}

impl RAM {
    pub open spec fn spec_wram_read(self, address: u16) -> u8 {
        self.wram[address - 0xC000]
    }

    pub open spec fn spec_wram_write(self, address: u16, value: u8) -> RAM {
        RAM { wram: spec_array_update(self.wram, address - 0xC000, value), ..self }
    }

    pub open spec fn spec_hram_read(self, address: u16) -> u8 {
        self.hram[address - 0xFF80]
    }

    pub open spec fn spec_hram_write(self, address: u16, value: u8) -> RAM {
        RAM { hram: spec_array_update(self.hram, address - 0xFF80, value), ..self }
    }

    /// Both memories filled with zeros.
    pub fn new() -> (r: RAM)
        ensures
            forall|i: int| 0 <= i < 0x2000 ==> r.wram[i] == 0,
            forall|i: int| 0 <= i < 0x80 ==> r.hram[i] == 0,
    {
        RAM { wram: [0u8; 0x2000], hram: [0u8; 0x80] }
    }

    /// Reads a byte from the WRAM.
    pub fn wram_read(&self, address: u16) -> (r: u8)
        requires
            0xC000 <= address < 0xE000,
        ensures
            r == self.spec_wram_read(address),
    {
        self.wram[(address - 0xC000) as usize]
    }

    /// Writes a byte to the WRAM.
    pub fn wram_write(&mut self, address: u16, value: u8)
        requires
            0xC000 <= address < 0xE000,
        ensures
            *final(self) == old(self).spec_wram_write(address, value),
    {
        self.wram[(address - 0xC000) as usize] = value;
    }

    /// Reads a byte from the HRAM.
    pub fn hram_read(&self, address: u16) -> (r: u8)
        requires
            0xFF80 <= address,
        ensures
            r == self.spec_hram_read(address),
    {
        self.hram[(address - 0xFF80) as usize]
    }

    /// Writes a byte to the HRAM.
    pub fn hram_write(&mut self, address: u16, value: u8)
        requires
            0xFF80 <= address,
        ensures
            *final(self) == old(self).spec_hram_write(address, value),
    {
        self.hram[(address - 0xFF80) as usize] = value;
    }
}

} // verus!

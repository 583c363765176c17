use vstd::prelude::*;
use crate::emulator::bits::hi;
use crate::emulator::bits::lo;
use crate::emulator::bits::spec_hi;
use crate::emulator::bits::spec_lo;
use crate::emulator::bits::spec_word;
use crate::emulator::bits::spec_wrap16;
use crate::emulator::bits::word;
use crate::emulator::io::io_read;
use crate::emulator::io::io_write;
use crate::emulator::Emulator;
use crate::emulator::Machine;

verus! {

impl Machine {
    /// What a read at `address` returns.
    ///
    /// | Range | Target |
    /// |---|---|
    /// | 0x0000-0x7FFF | cartridge ROM |
    /// | 0x8000-0x9FFF | VRAM |
    /// | 0xA000-0xBFFF | cartridge RAM |
    /// | 0xC000-0xDFFF | WRAM |
    /// | 0xE000-0xFDFF | echo RAM, reads 0 |
    /// | 0xFE00-0xFE9F | OAM, 0xFF while DMA is active |
    /// | 0xFEA0-0xFEFF | unmapped, reads 0 |
    /// | 0xFF00-0xFF7F | I/O registers |
    /// | 0xFF80-0xFFFE | HRAM |
    /// | 0xFFFF | IE |
    #[verifier::opaque]
    pub open spec fn bus_read(self, address: u16) -> u8 {
        if address < 0x8000 {
            self.cart.spec_read(address)
        } else if address < 0xA000 {
            self.ppu.spec_vram_read(address)
        } else if address < 0xC000 {
            self.cart.spec_read(address)
        } else if address < 0xE000 {
            self.ram.spec_wram_read(address)
        } else if address < 0xFE00 {
            0
        } else if address < 0xFEA0 {
            if self.dma.active {
                0xFF
            } else {
                self.ppu.spec_oam_read(address)
            }
        } else if address < 0xFF00 {
            0
        } else if address < 0xFF80 {
            self.io_read(address)
        } else if address < 0xFFFF {
            self.ram.spec_hram_read(address)
        } else {
            self.cpu.ie_register
        }
    }

    /// The machine after a write of `data` at `address`. Writes to echo
    /// RAM and to the unmapped range are dropped, and so are writes to OAM
    /// while DMA is active.
    #[verifier::opaque]
    pub open spec fn bus_write(self, address: u16, data: u8) -> Machine {
        if address < 0x8000 {
            Machine { cart: self.cart.spec_write(address, data), ..self }
        } else if address < 0xA000 {
            Machine { ppu: self.ppu.spec_vram_write(address, data), ..self }
        } else if address < 0xC000 {
            Machine { cart: self.cart.spec_write(address, data), ..self }
        } else if address < 0xE000 {
            Machine { ram: self.ram.spec_wram_write(address, data), ..self }
        } else if address < 0xFE00 {
            self
        } else if address < 0xFEA0 {
            if self.dma.active {
                self
            } else {
                Machine { ppu: self.ppu.spec_oam_write(address, data), ..self }
            }
        } else if address < 0xFF00 {
            self
        } else if address < 0xFF80 {
            self.io_write(address, data)
        } else if address < 0xFFFF {
            Machine { ram: self.ram.spec_hram_write(address, data), ..self }
        } else {
            Machine { cpu: crate::emulator::cpu::CPU { ie_register: data, ..self.cpu }, ..self }
        }
    }

    /// A 16-bit read: the low byte at `address`, the high byte at the next
    /// address.
    pub open spec fn bus_read_16(self, address: u16) -> u16 {
        spec_word(self.bus_read(spec_wrap16(address + 1)), self.bus_read(address))
    }

    /// A 16-bit write: the low byte at `address`, then the high byte at the
    /// next address.
    pub open spec fn bus_write_16(self, address: u16, data: u16) -> Machine {
        self.bus_write(address, spec_lo(data)).bus_write(spec_wrap16(address + 1), spec_hi(data))
    }
}

/// DMA exclusivity: while the DMA engine is active, every read in 0xFE00 to
/// 0xFE9F returns 0xFF and every write there is dropped.
pub proof fn law_dma_locks_oam(m: Machine, address: u16, data: u8)
    requires
        m.dma.active,
        0xFE00 <= address < 0xFEA0,
    ensures
        m.bus_read(address) == 0xFF,
        m.bus_write(address, data) == m,
{
    reveal(Machine::bus_read);
    reveal(Machine::bus_write);
}

/// Echo RAM and the unmapped range read 0 and drop every write.
pub proof fn law_unmapped_ranges(m: Machine, address: u16, data: u8)
    requires
        0xE000 <= address < 0xFE00 || 0xFEA0 <= address < 0xFF00,
    ensures
        m.bus_read(address) == 0,
        m.bus_write(address, data) == m,
{
    reveal(Machine::bus_read);
    reveal(Machine::bus_write);
}

/// Bank 0 through the bus: after any write below 0x8000 a read in 0x0000
/// to 0x3FFF returns the byte of the ROM image.
pub proof fn law_bus_bank0_immutable(m: Machine, address: u16, data: u8, bank0: u16)
    requires
        m.cart.wf(),
        address < 0x8000,
        bank0 < 0x4000,
    ensures
        m.bus_write(address, data).bus_read(bank0) == m.cart.rom[bank0 as int],
{
    reveal(Machine::bus_read);
    reveal(Machine::bus_write);
}

/// A byte written to work RAM or high RAM is read back.
pub proof fn law_ram_read_back(m: Machine, address: u16, data: u8)
    requires
        0xC000 <= address < 0xE000 || 0xFF80 <= address < 0xFFFF,
    ensures
        m.bus_write(address, data).bus_read(address) == data,
{
    reveal(Machine::bus_read);
    reveal(Machine::bus_write);
}

/// The bus never advances the clock: no write moves the cycle count, the
/// dot of the PPU or its frame count.
pub proof fn law_bus_keeps_clock(m: Machine, address: u16, data: u8)
    ensures
        m.bus_write(address, data).cpu.ticks == m.cpu.ticks,
        m.bus_write(address, data).ppu.line_ticks == m.ppu.line_ticks,
        m.bus_write(address, data).ppu.curr_frame == m.ppu.curr_frame,
        m.bus_write(address, data).cpu.registers == m.cpu.registers,
{
    reveal(Machine::bus_write);
    reveal(Machine::io_write);
}

/// A word written to work RAM is read back, low byte first.
pub proof fn law_word_read_back(m: Machine, address: u16, data: u16)
    requires
        0xC000 <= address < 0xDFFF,
    ensures
        m.bus_write_16(address, data).bus_read_16(address) == data,
        m.bus_write_16(address, data).bus_read(address) == data % 0x100,
        m.bus_write_16(address, data).bus_read((address + 1) as u16) == data / 0x100,
{
    reveal(Machine::bus_read);
    reveal(Machine::bus_write);
}

/// Reads a byte from the address bus.
pub fn bus_read(emu: &Emulator, address: u16) -> (r: u8)
    ensures
        r == emu@.bus_read(address),
{
    proof {
        reveal(Machine::bus_read);
    }
    if address < 0x8000 {
        emu.cart.read(address)
    } else if address < 0xA000 {
        emu.ppu.vram_read(address)
    } else if address < 0xC000 {
        emu.cart.read(address)
    } else if address < 0xE000 {
        emu.ram.wram_read(address)
    } else if address < 0xFE00 {
        0
    } else if address < 0xFEA0 {
        if emu.dma.is_transferring() {
            return 0xFF;
        }
        emu.ppu.oam_read(address)
    } else if address < 0xFF00 {
        0
    } else if address < 0xFF80 {
        io_read(emu, address)
    } else if address < 0xFFFF {
        emu.ram.hram_read(address)
    } else {
        emu.cpu.get_ie_register()
    }
}

fn bus_write_cart(emu: &mut Emulator, address: u16, data: u8)
    requires
        address < 0x8000 || 0xA000 <= address < 0xC000,
    ensures
        final(emu)@ == old(emu)@.bus_write(address, data),
        old(emu)@.wf() ==> final(emu)@.wf(),
{
    proof {
        reveal(Machine::bus_write);
    }
    emu.cart.write(address, data);
}

fn bus_write_vram(emu: &mut Emulator, address: u16, data: u8)
    requires
        0x8000 <= address < 0xA000,
    ensures
        final(emu)@ == old(emu)@.bus_write(address, data),
        old(emu)@.wf() ==> final(emu)@.wf(),
{
    proof {
        reveal(Machine::bus_write);
    }
    emu.ppu.vram_write(address, data);
}

fn bus_write_wram(emu: &mut Emulator, address: u16, data: u8)
    requires
        0xC000 <= address < 0xE000,
    ensures
        final(emu)@ == old(emu)@.bus_write(address, data),
        old(emu)@.wf() ==> final(emu)@.wf(),
{
    proof {
        reveal(Machine::bus_write);
    }
    emu.ram.wram_write(address, data);
}

fn bus_write_oam(emu: &mut Emulator, address: u16, data: u8)
    requires
        0xFE00 <= address < 0xFEA0,
    ensures
        final(emu)@ == old(emu)@.bus_write(address, data),
        old(emu)@.wf() ==> final(emu)@.wf(),
{
    proof {
        reveal(Machine::bus_write);
    }
    if !emu.dma.is_transferring() {
        emu.ppu.oam_write(address, data);
    }
}

fn bus_write_hram(emu: &mut Emulator, address: u16, data: u8)
    requires
        0xFF80 <= address < 0xFFFF,
    ensures
        final(emu)@ == old(emu)@.bus_write(address, data),
        old(emu)@.wf() ==> final(emu)@.wf(),
{
    proof {
        reveal(Machine::bus_write);
    }
    emu.ram.hram_write(address, data);
}

fn bus_write_ie(emu: &mut Emulator, address: u16, data: u8)
    requires
        address == 0xFFFF,
    ensures
        final(emu)@ == old(emu)@.bus_write(address, data),
        old(emu)@.wf() ==> final(emu)@.wf(),
{
    proof {
        reveal(Machine::bus_write);
    }
    emu.cpu.set_ie_register(data);
}

/// Writes a byte to the address bus.
pub fn bus_write(emu: &mut Emulator, address: u16, data: u8)
    ensures
        final(emu)@ == old(emu)@.bus_write(address, data),
        old(emu)@.wf() ==> final(emu)@.wf(),
{
    proof {
        reveal(Machine::bus_write);
    }
    if address < 0x8000 {
        bus_write_cart(emu, address, data);
    } else if address < 0xA000 {
        bus_write_vram(emu, address, data);
    } else if address < 0xC000 {
        bus_write_cart(emu, address, data);
    } else if address < 0xE000 {
        bus_write_wram(emu, address, data);
    } else if address < 0xFE00 {
    } else if address < 0xFEA0 {
        bus_write_oam(emu, address, data);
    } else if address < 0xFF00 {
    } else if address < 0xFF80 {
        io_write(emu, address, data);
    } else if address < 0xFFFF {
        bus_write_hram(emu, address, data);
    } else {
        bus_write_ie(emu, address, data);
    }
}

/// Reads a 16-bit value from the given address, low byte first.
pub fn bus_read_16(emu: &Emulator, address: u16) -> (r: u16)
    ensures
        r == emu@.bus_read_16(address),
{
    let low: u8 = bus_read(emu, address);
    let next: u16 = if address == 0xFFFF {
        0
    } else {
        address + 1
    };
    let high: u8 = bus_read(emu, next);
    word(high, low)
}

/// Writes a 16-bit value to the given address, low byte first.
pub fn bus_write_16(emu: &mut Emulator, address: u16, data: u16)
    ensures
        final(emu)@ == old(emu)@.bus_write_16(address, data),
        old(emu)@.wf() ==> final(emu)@.wf(),
{
    let low: u8 = lo(data);
    let high: u8 = hi(data);
    let next: u16 = if address == 0xFFFF {
        0
    } else {
        address + 1
    };
    bus_write(emu, address, low);
    bus_write(emu, next, high);
}

} // verus!

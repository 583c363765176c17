use vstd::prelude::*;
use crate::emulator::cpu::CPU;
use crate::emulator::cpu::INT_FLAGS_ADDR;
use crate::emulator::lcd::LCD_END_ADDR;
use crate::emulator::lcd::LCD_START_ADDR;
use crate::emulator::dma::DMA_ADDR;
use crate::emulator::timer::DIV_ADDR;
use crate::emulator::timer::TAC_ADDR;
use crate::emulator::Emulator;
use crate::emulator::Machine;
use crate::emulator::Serial;

verus! {

impl Machine {
    /// What a read of the I/O register at `address` returns: the joypad at
    /// 0xFF00, serial data and control at 0xFF01 and 0xFF02, the timer at
    /// 0xFF04 to 0xFF07, IF at 0xFF0F, the LCD at 0xFF40 to 0xFF4B, and 0
    /// everywhere else.
    #[verifier::opaque]
    pub open spec fn io_read(self, address: u16) -> u8 {
        if address == 0xFF00 {
            self.gamepad.spec_output()
        } else if address == 0xFF01 {
            self.serial.data
        } else if address == 0xFF02 {
            self.serial.control
        } else if DIV_ADDR <= address <= TAC_ADDR {
            self.timer.spec_read(address)
        } else if address == INT_FLAGS_ADDR {
            self.cpu.int_flags
        } else if LCD_START_ADDR <= address <= LCD_END_ADDR {
            self.lcd.spec_read(address)
        } else {
            0
        }
    }

    /// The machine after a write of `data` to the I/O register at
    /// `address`. A write to 0xFF46 also starts the OAM transfer; a write
    /// to a register that is not there, the sound registers among them, is
    /// dropped.
    #[verifier::opaque]
    pub open spec fn io_write(self, address: u16, data: u8) -> Machine {
        if address == 0xFF00 {
            Machine { gamepad: self.gamepad.spec_set_select(data), ..self }
        } else if address == 0xFF01 {
            Machine { serial: Serial { data: data, ..self.serial }, ..self }
        } else if address == 0xFF02 {
            Machine { serial: Serial { control: data, ..self.serial }, ..self }
        } else if DIV_ADDR <= address <= TAC_ADDR {
            Machine { timer: self.timer.spec_write(address, data), ..self }
        } else if address == INT_FLAGS_ADDR {
            Machine { cpu: CPU { int_flags: data, ..self.cpu }, ..self }
        } else if LCD_START_ADDR <= address <= LCD_END_ADDR {
            Machine {
                lcd: self.lcd.spec_write(address, data),
                dma: if address == DMA_ADDR {
                    self.dma.spec_start(data)
                } else {
                    self.dma
                },
                ..self
            }
        } else {
            self
        }
    }
}

/// Reads a byte from the I/O register at the given address.
pub fn io_read(emu: &Emulator, address: u16) -> (r: u8)
    ensures
        r == emu@.io_read(address),
{
    proof {
        reveal(Machine::io_read);
    }
    if address == 0xFF00 {
        return emu.gamepad.get_output();
    }
    if address == 0xFF01 {
        return emu.serial.data;
    }
    if address == 0xFF02 {
        return emu.serial.control;
    }
    if DIV_ADDR <= address && address <= TAC_ADDR {
        return emu.timer.read(address);
    }
    if address == INT_FLAGS_ADDR {
        return emu.cpu.get_int_flags();
    }
    if LCD_START_ADDR <= address && address <= LCD_END_ADDR {
        return emu.lcd.read(address);
    }
    0
}

fn io_write_joypad(emu: &mut Emulator, address: u16, data: u8)
    requires
        address == 0xFF00,
    ensures
        final(emu)@ == old(emu)@.io_write(address, data),
        old(emu)@.wf() ==> final(emu)@.wf(),
{
    proof {
        reveal(Machine::io_write);
    }
    emu.gamepad.set_select(data);
}

fn io_write_serial(emu: &mut Emulator, address: u16, data: u8)
    requires
        address == 0xFF01 || address == 0xFF02,
    ensures
        final(emu)@ == old(emu)@.io_write(address, data),
        old(emu)@.wf() ==> final(emu)@.wf(),
{
    proof {
        reveal(Machine::io_write);
    }
    if address == 0xFF01 {
        emu.serial.write_data(data);
    } else {
        emu.serial.write_control(data);
    }
}

fn io_write_timer(emu: &mut Emulator, address: u16, data: u8)
    requires
        DIV_ADDR <= address <= TAC_ADDR,
    ensures
        final(emu)@ == old(emu)@.io_write(address, data),
        old(emu)@.wf() ==> final(emu)@.wf(),
{
    proof {
        reveal(Machine::io_write);
    }
    emu.timer.write(address, data);
}

fn io_write_int_flags(emu: &mut Emulator, address: u16, data: u8)
    requires
        address == INT_FLAGS_ADDR,
    ensures
        final(emu)@ == old(emu)@.io_write(address, data),
        old(emu)@.wf() ==> final(emu)@.wf(),
{
    proof {
        reveal(Machine::io_write);
    }
    emu.cpu.set_int_flags(data);
}

fn io_write_lcd(emu: &mut Emulator, address: u16, data: u8)
    requires
        LCD_START_ADDR <= address <= LCD_END_ADDR,
    ensures
        final(emu)@ == old(emu)@.io_write(address, data),
        old(emu)@.wf() ==> final(emu)@.wf(),
{
    proof {
        reveal(Machine::io_write);
    }
    emu.lcd.write(&mut emu.dma, address, data);
}

/// Writes a byte to the I/O register at the given address.
pub fn io_write(emu: &mut Emulator, address: u16, data: u8)
    ensures
        final(emu)@ == old(emu)@.io_write(address, data),
        old(emu)@.wf() ==> final(emu)@.wf(),
{
    proof {
        reveal(Machine::io_write);
    }
    if address == 0xFF00 {
        io_write_joypad(emu, address, data);
    } else if address == 0xFF01 || address == 0xFF02 {
        io_write_serial(emu, address, data);
    } else if DIV_ADDR <= address && address <= TAC_ADDR {
        io_write_timer(emu, address, data);
    } else if address == INT_FLAGS_ADDR {
        io_write_int_flags(emu, address, data);
    } else if LCD_START_ADDR <= address && address <= LCD_END_ADDR {
        io_write_lcd(emu, address, data);
    }
}

} // verus!

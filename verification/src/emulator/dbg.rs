use vstd::prelude::*;
use crate::emulator::address_bus::bus_read;
use crate::emulator::address_bus::bus_write;
use crate::emulator::text::spec_text;
use crate::emulator::text::text;
use crate::emulator::Emulator;
use crate::emulator::Machine;

verus! {

/// The value of the serial control register that asks for a transfer.
pub const SERIAL_SEND: u8 = 0x81;

impl Machine {
    /// Whether there is a message to print: the bytes sent so far do not
    /// begin with a NUL byte.
    pub open spec fn dbg_printable(self) -> bool {
        self.dbg_msg.len() > 0 && self.dbg_msg[0] > 0
    }

    /// Whether the program has asked for the byte in the serial data
    /// register to be sent.
    pub open spec fn dbg_due(self) -> bool {
        self.bus_read(0xFF02) == SERIAL_SEND
    }

    /// The machine after the serial port was looked at: a byte that is due
    /// is put at the end of the message and the control register is
    /// cleared.
    #[verifier::opaque]
    pub open spec fn dbg_update(self) -> Machine {
        if self.dbg_due() {
            (Machine { dbg_msg: self.dbg_msg.push(self.bus_read(0xFF01)), ..self }).bus_write(
                0xFF02,
                0,
            )
        } else {
            self
        }
    }
}

/// The message so far as text, where there is something to print: a
/// message that does not begin with a NUL byte.
pub fn dbg_print(emu: &Emulator) -> (r: Option<String>)
    ensures
        match r {
            Some(message) => emu@.dbg_printable() && message@ == spec_text(emu@.dbg_msg),
            None => !emu@.dbg_printable(),
        },
{
    if emu.dbg_msg.len() > 0 && emu.dbg_msg[0] > 0 {
        Some(text(&emu.dbg_msg))
    } else {
        None
    }
}

/// Takes the byte that the program sends over the serial port, if one is
/// due, and puts it at the end of the message.
pub fn dbg_update(emu: &mut Emulator)
    ensures
        final(emu)@ == old(emu)@.dbg_update(),
        old(emu)@.wf() ==> final(emu)@.wf(),
        final(emu).cpu == old(emu).cpu,
{
    proof {
        reveal(Machine::dbg_update);
        reveal(Machine::bus_write);
        reveal(Machine::io_write);
    }
    if bus_read(emu, 0xFF02) == SERIAL_SEND {
        let c: u8 = bus_read(emu, 0xFF01);
        emu.dbg_msg.push(c);
        bus_write(emu, 0xFF02, 0);
    }
}

} // verus!

use vstd::prelude::*;
use crate::emulator::cpu::instruction::RegType;
use crate::emulator::cpu::CPU;
use crate::emulator::Emulator;
use crate::emulator::Machine;

verus! {

pub const VBLANK_ADDR: u16 = 0x40;

pub const LCD_STAT_ADDR: u16 = 0x48;

pub const TIMER_ADDR: u16 = 0x50;

pub const SERIAL_ADDR: u16 = 0x58;

pub const JOYPAD_ADDR: u16 = 0x60;

/// The five interrupt sources, from the highest priority to the lowest.
#[allow(non_camel_case_types)]
#[derive(Debug, PartialEq, Eq, Structural, Clone, Copy)]
pub enum InterruptType {
    IT_VBLANK,
    IT_LCD_STAT,
    IT_TIMER,
    IT_SERIAL,
    IT_JOYPAD,
}

impl InterruptType {
    /// The source's bit in IE and IF.
    pub open spec fn spec_mask(self) -> u8 {
        match self {
            InterruptType::IT_VBLANK => 0x01,
            InterruptType::IT_LCD_STAT => 0x02,
            InterruptType::IT_TIMER => 0x04,
            InterruptType::IT_SERIAL => 0x08,
            InterruptType::IT_JOYPAD => 0x10,
        }
    }

    /// The address the CPU jumps to when it services the source.
    pub open spec fn spec_vector(self) -> u16 {
        match self {
            InterruptType::IT_VBLANK => VBLANK_ADDR,
            InterruptType::IT_LCD_STAT => LCD_STAT_ADDR,
            InterruptType::IT_TIMER => TIMER_ADDR,
            InterruptType::IT_SERIAL => SERIAL_ADDR,
            InterruptType::IT_JOYPAD => JOYPAD_ADDR,
        }
    }

    pub fn mask(self) -> (r: u8)
        ensures
            r == self.spec_mask(),
    {
        match self {
            InterruptType::IT_VBLANK => 0x01,
            InterruptType::IT_LCD_STAT => 0x02,
            InterruptType::IT_TIMER => 0x04,
            InterruptType::IT_SERIAL => 0x08,
            InterruptType::IT_JOYPAD => 0x10,
        }
    }

    pub fn vector(self) -> (r: u16)
        ensures
            r == self.spec_vector(),
    {
        match self {
            InterruptType::IT_VBLANK => VBLANK_ADDR,
            InterruptType::IT_LCD_STAT => LCD_STAT_ADDR,
            InterruptType::IT_TIMER => TIMER_ADDR,
            InterruptType::IT_SERIAL => SERIAL_ADDR,
            InterruptType::IT_JOYPAD => JOYPAD_ADDR,
        }
    }
}

impl CPU {
    /// The CPU with the source's bit set in IF.
    pub open spec fn spec_request_interrupt(self, interrupt_type: InterruptType) -> CPU {
        CPU { int_flags: self.int_flags | interrupt_type.spec_mask(), ..self }
    }

    /// Whether the source is both requested and enabled.
    pub open spec fn spec_pending(self, interrupt_type: InterruptType) -> bool {
        (self.int_flags & interrupt_type.spec_mask()) != 0 && (self.ie_register
            & interrupt_type.spec_mask()) != 0
    }

    /// The CPU as the service of an interrupt leaves it: the source's bit
    /// cleared in IF, the CPU awake, IME cleared.
    pub open spec fn spec_acknowledge(self, interrupt_type: InterruptType) -> CPU {
        CPU {
            int_flags: self.int_flags & !interrupt_type.spec_mask(),
            halted: false,
            interrupt_master_enabled: false,
            ..self
        }
    }

    /// The pending source of the highest priority, if any source is
    /// pending.
    pub open spec fn spec_first_pending(self) -> Option<InterruptType> {
        if self.spec_pending(InterruptType::IT_VBLANK) {
            Some(InterruptType::IT_VBLANK)
        } else if self.spec_pending(InterruptType::IT_LCD_STAT) {
            Some(InterruptType::IT_LCD_STAT)
        } else if self.spec_pending(InterruptType::IT_TIMER) {
            Some(InterruptType::IT_TIMER)
        } else if self.spec_pending(InterruptType::IT_SERIAL) {
            Some(InterruptType::IT_SERIAL)
        } else if self.spec_pending(InterruptType::IT_JOYPAD) {
            Some(InterruptType::IT_JOYPAD)
        } else {
            None
        }
    }

    /// Clears the source's bit in IF, wakes the CPU and clears IME.
    pub fn acknowledge(&mut self, interrupt_type: InterruptType)
        ensures
            *final(self) == old(self).spec_acknowledge(interrupt_type),
            old(self).wf() ==> final(self).wf(),
    {
        self.int_flags = self.int_flags & !interrupt_type.mask();
        self.halted = false;
        self.interrupt_master_enabled = false;
    }

    /// The pending source of the highest priority.
    pub fn first_pending(&self) -> (r: Option<InterruptType>)
        ensures
            r == self.spec_first_pending(),
    {
        if self.pending(InterruptType::IT_VBLANK) {
            Some(InterruptType::IT_VBLANK)
        } else if self.pending(InterruptType::IT_LCD_STAT) {
            Some(InterruptType::IT_LCD_STAT)
        } else if self.pending(InterruptType::IT_TIMER) {
            Some(InterruptType::IT_TIMER)
        } else if self.pending(InterruptType::IT_SERIAL) {
            Some(InterruptType::IT_SERIAL)
        } else if self.pending(InterruptType::IT_JOYPAD) {
            Some(InterruptType::IT_JOYPAD)
        } else {
            None
        }
    }

    /// Whether the source is both requested in IF and enabled in IE.
    pub fn pending(&self, interrupt_type: InterruptType) -> (r: bool)
        ensures
            r == self.spec_pending(interrupt_type),
    {
        let mask: u8 = interrupt_type.mask();
        (self.int_flags & mask) != 0 && (self.ie_register & mask) != 0
    }
}

/// Sets the source's bit in IF.
pub fn request_interrupt(cpu: &mut CPU, interrupt_type: InterruptType)
    ensures
        *final(cpu) == old(cpu).spec_request_interrupt(interrupt_type),
        old(cpu).wf() ==> final(cpu).wf(),
        old(cpu).spec_clock_frame(*final(cpu)),
{
    cpu.int_flags = cpu.int_flags | interrupt_type.mask();
}

impl Machine {
    /// The machine after the source was serviced: the program counter is
    /// pushed and set to the source's vector, the source's bit is cleared
    /// in IF, the CPU is awake and IME is cleared.
    #[verifier::opaque]
    pub open spec fn service(self, interrupt_type: InterruptType) -> Machine {
        let m = self.stack_push16(self.cpu.registers.pc).set_reg(
            RegType::RT_PC,
            interrupt_type.spec_vector(),
        );
        m.with_cpu(m.cpu.spec_acknowledge(interrupt_type))
    }

    /// The machine after the pending interrupt of the highest priority was
    /// serviced, if one is pending.
    #[verifier::opaque]
    pub open spec fn handle_interrupts(self) -> Machine {
        match self.cpu.spec_first_pending() {
            Some(interrupt_type) => self.service(interrupt_type),
            None => self,
        }
    }
}

/// Priority: the source that is serviced is pending, and no source of a
/// higher priority is.
pub proof fn law_interrupt_priority(cpu: CPU, interrupt_type: InterruptType)
    requires
        cpu.spec_first_pending() == Some(interrupt_type),
    ensures
        cpu.spec_pending(interrupt_type),
        forall|other: InterruptType|
            other.spec_mask() < interrupt_type.spec_mask() ==> !cpu.spec_pending(other),
{
}

/// Services the interrupt of the given source.
pub fn interrupt_service(emu: &mut Emulator, interrupt_type: InterruptType)
    ensures
        final(emu)@ == old(emu)@.service(interrupt_type),
        old(emu)@.wf() ==> final(emu)@.wf(),
{
    proof {
        reveal(Machine::service);
    }
    let pc: u16 = emu.cpu.registers.pc;
    CPU::stack_push16(emu, pc);
    emu.cpu.set_register(&RegType::RT_PC, interrupt_type.vector());
    emu.cpu.acknowledge(interrupt_type);
}

/// Services the pending interrupt of the highest priority, if one is
/// pending: VBLANK before LCD STAT before the timer before the serial port
/// before the joypad.
pub fn handle_interrupts(emu: &mut Emulator)
    ensures
        final(emu)@ == old(emu)@.handle_interrupts(),
        old(emu)@.wf() ==> final(emu)@.wf(),
{
    proof {
        reveal(Machine::handle_interrupts);
    }
    match emu.cpu.first_pending() {
        Some(interrupt_type) => {
            interrupt_service(emu, interrupt_type);
        },
        None => {},
    }
}

} // verus!

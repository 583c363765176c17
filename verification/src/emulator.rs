pub mod address_bus;
pub mod bits;
pub mod cartridge;
pub mod cpu;
pub mod dbg;
pub mod dma;
pub mod frame;
pub mod gamepad;
pub mod io;
pub mod lcd;
pub mod ppu;
pub mod ram;
pub mod text;
pub mod timer;
pub mod ui;

use vstd::prelude::*;
use crate::emulator::cartridge::spec_load;
use crate::emulator::cartridge::Cartridge;
use crate::emulator::cartridge::CartridgeError;
use crate::emulator::cartridge::CartridgeView;
use crate::emulator::cpu::interrupts::request_interrupt;
use crate::emulator::cpu::interrupts::InterruptType;
use crate::emulator::cpu::CPU;
use crate::emulator::dma::DMA;
use crate::emulator::gamepad::GamePad;
use crate::emulator::lcd::LCD;
use crate::emulator::lcd::LCD_MODE;
use crate::emulator::ppu::fifo::PixelFifoView;
use crate::emulator::ppu::PpuView;
use crate::emulator::ppu::PPU;
use crate::emulator::ram::RAM;
use crate::emulator::timer::Timer;

verus! {

/// The serial port: its data register at 0xFF01 and its control register
/// at 0xFF02.
#[derive(Debug, PartialEq, Eq, Structural, Clone, Copy)]
pub struct Serial {
    pub data: u8,
    pub control: u8,
}

impl Serial {
    pub fn new() -> (s: Serial)
        ensures
            s == (Serial { data: 0, control: 0 }),
    {
        Serial { data: 0, control: 0 }
    }

    pub fn write_data(&mut self, value: u8)
        ensures
            *final(self) == (Serial { data: value, ..*old(self) }),
    {
        self.data = value;
    }

    pub fn write_control(&mut self, value: u8)
        ensures
            *final(self) == (Serial { control: value, ..*old(self) }),
    {
        self.control = value;
    }
}

/// The whole machine: every component, owned by value.
pub struct Emulator {
    pub running: bool,
    pub paused: bool,
    pub cpu: CPU,
    pub cart: Cartridge,
    pub ram: RAM,
    pub timer: Timer,
    pub dma: DMA,
    pub lcd: LCD,
    pub ppu: PPU,
    pub gamepad: GamePad,
    pub serial: Serial,
    /// The bytes sent out over the serial port so far.
    pub dbg_msg: Vec<u8>,
}

/// The mathematical content of the machine, on which every step of the
/// emulation is defined.
pub struct Machine {
    pub running: bool,
    pub paused: bool,
    pub cpu: CPU,
    pub cart: CartridgeView,
    pub ram: RAM,
    pub timer: Timer,
    pub dma: DMA,
    pub lcd: LCD,
    pub ppu: PpuView,
    pub gamepad: GamePad,
    pub serial: Serial,
    pub dbg_msg: Seq<u8>,
}

impl View for Emulator {
    type V = Machine;

    open spec fn view(&self) -> Machine {
        Machine {
            running: self.running,
            paused: self.paused,
            cpu: self.cpu,
            cart: self.cart@,
            ram: self.ram,
            timer: self.timer,
            dma: self.dma,
            lcd: self.lcd,
            ppu: self.ppu@,
            gamepad: self.gamepad,
            serial: self.serial,
            dbg_msg: self.dbg_msg@,
        }
    }
}

impl Machine {
    pub open spec fn with_cpu(self, cpu: CPU) -> Machine {
        Machine { cpu: cpu, ..self }
    }

    pub open spec fn with_lcd(self, lcd: LCD) -> Machine {
        Machine { lcd: lcd, ..self }
    }

    pub open spec fn with_ppu(self, ppu: PpuView) -> Machine {
        Machine { ppu: ppu, ..self }
    }

    pub open spec fn with_fifo(self, fifo: PixelFifoView) -> Machine {
        Machine { ppu: PpuView { pixel_fifo: fifo, ..self.ppu }, ..self }
    }

    /// The machine with the source's bit set in IF.
    pub open spec fn request_interrupt(self, interrupt_type: InterruptType) -> Machine {
        self.with_cpu(self.cpu.spec_request_interrupt(interrupt_type))
    }

    /// The machine with the PPU mode in STAT replaced.
    pub open spec fn set_mode(self, mode: LCD_MODE) -> Machine {
        self.with_lcd(self.lcd.spec_set_mode(mode))
    }

    /// One T-cycle of the timer; an overflow of TIMA requests the timer
    /// interrupt.
    #[verifier::opaque]
    pub open spec fn timer_tick(self) -> Machine {
        let m = Machine { timer: self.timer.spec_tick(), ..self };
        if self.timer.spec_overflows() {
            m.request_interrupt(InterruptType::IT_TIMER)
        } else {
            m
        }
    }

    /// One T-cycle: the cycle is counted, then the timer and the PPU each
    /// make one step.
    #[verifier::opaque]
    pub open spec fn t_cycle(self) -> Machine {
        self.with_cpu(self.cpu.spec_count_tick()).timer_tick().ppu_tick()
    }

    /// One M-cycle: four T-cycles, then one step of the DMA engine.
    #[verifier::opaque]
    pub open spec fn m_cycle(self) -> Machine {
        self.t_cycle().t_cycle().t_cycle().t_cycle().dma_tick()
    }

    /// The machine after `n` M-cycles.
    #[verifier::opaque]
    pub open spec fn cycles(self, n: nat) -> Machine
        decreases n,
    {
        if n == 0 {
            self
        } else {
            self.m_cycle().cycles((n - 1) as nat)
        }
    }

    /// The machine as it stands when the boot program hands over to the
    /// cartridge: the CPU at 0x0100 with its post-boot registers, the LCD
    /// registers at their reset values, every memory but the cartridge's
    /// filled with zeros, nothing running yet.
    pub open spec fn is_power_on(self, cart: CartridgeView, trace: bool) -> bool {
        &&& !self.running
        &&& self.paused
        &&& self.cpu == CPU::spec_new(trace)
        &&& self.cart == cart
        &&& (forall|i: int| 0 <= i < 0x2000 ==> self.ram.wram[i] == 0)
        &&& (forall|i: int| 0 <= i < 0x80 ==> self.ram.hram[i] == 0)
        &&& self.timer == (Timer { div: 0xABCC, tima: 0, tma: 0, tac: 0 })
        &&& self.dma == (DMA { active: false, byte: 0, value: 0, start_delay: 0 })
        &&& self.lcd == LCD::spec_init()
        &&& self.ppu.spec_new()
        &&& !self.gamepad.button_select
        &&& !self.gamepad.dir_select
        &&& self.gamepad.spec_output() == 0xCF
        &&& self.serial == (Serial { data: 0, control: 0 })
        &&& self.dbg_msg == Seq::<u8>::empty()
    }

    /// What the PPU leaves of the machine: everything but the LCD
    /// registers, IF, the cycle count and its own state; of its own state
    /// it leaves video memory and OAM.
    pub open spec fn ppu_frame(self, after: Machine) -> bool {
        &&& self.clock_frame(after)
        &&& after.timer == self.timer
        &&& after.dma == self.dma
        &&& after.ppu.oam_ram == self.ppu.oam_ram
    }

    /// What the clock leaves of the machine: the cartridge, work and high
    /// RAM, video memory, the joypad, the serial port, and of the CPU
    /// everything but IF and the cycle count.
    pub open spec fn clock_frame(self, after: Machine) -> bool {
        &&& after.running == self.running
        &&& after.paused == self.paused
        &&& after.cart == self.cart
        &&& after.ram == self.ram
        &&& after.gamepad == self.gamepad
        &&& after.serial == self.serial
        &&& after.dbg_msg == self.dbg_msg
        &&& after.ppu.vram == self.ppu.vram
        &&& self.cpu.spec_clock_frame(after.cpu)
    }

    /// The invariant of the machine: the cartridge is a loaded one and the
    /// low nibble of the flag register is zero.
    pub open spec fn wf(self) -> bool {
        self.cpu.wf() && self.cart.wf()
    }
}

impl Emulator {
    /// Makes the machine for the bytes of a ROM file. The image is refused
    /// where the cartridge refuses it: shorter than 32 KiB, longer than
    /// 8 MiB, or with a header whose checksum does not match.
    pub fn init(rom_file: &str, rom_data: Vec<u8>, trace: bool) -> (r: Result<
        Emulator,
        CartridgeError,
    >)
        ensures
            match r {
                Ok(emu) => spec_load(rom_data@) == Ok::<CartridgeView, CartridgeError>(emu@.cart)
                    && emu@.is_power_on(emu@.cart, trace) && emu@.wf(),
                Err(e) => spec_load(rom_data@) == Err::<CartridgeView, CartridgeError>(e),
            },
    {
        match Cartridge::load_rom_file(rom_file, rom_data) {
            Ok(cart) => Ok(
                Emulator {
                    running: false,
                    paused: true,
                    cpu: CPU::cpu_init(trace),
                    cart: cart,
                    ram: RAM::new(),
                    timer: Timer::new(),
                    dma: DMA::new(),
                    lcd: LCD::init(),
                    ppu: PPU::new(),
                    gamepad: GamePad::new(),
                    serial: Serial::new(),
                    dbg_msg: Vec::new(),
                },
            ),
            Err(e) => Err(e),
        }
    }

    /// Marks the machine as running, as the loop that steps the CPU does
    /// before its first step.
    pub fn run(&mut self)
        ensures
            final(self)@ == (Machine { running: true, paused: false, ..old(self)@ }),
    {
        self.running = true;
        self.paused = false;
    }

    /// One T-cycle of the timer.
    pub fn timer_tick(&mut self)
        ensures
            final(self)@ == old(self)@.timer_tick(),
            old(self)@.wf() ==> final(self)@.wf(),
            old(self).cpu.spec_clock_frame(final(self).cpu),
    {
        proof {
            reveal(Machine::timer_tick);
        }
        if self.timer.tick() {
            request_interrupt(&mut self.cpu, InterruptType::IT_TIMER);
        }
    }

    /// One T-cycle of the clock.
    pub fn t_cycle(&mut self)
        ensures
            final(self)@ == old(self)@.t_cycle(),
            old(self)@.wf() ==> final(self)@.wf(),
            old(self).cpu.spec_clock_frame(final(self).cpu),
    {
        proof {
            reveal(Machine::t_cycle);
        }
        self.cpu.count_tick();
        self.timer_tick();
        PPU::tick(self);
    }

    /// One M-cycle of the clock.
    pub fn m_cycle(&mut self)
        ensures
            final(self)@ == old(self)@.m_cycle(),
            old(self)@.wf() ==> final(self)@.wf(),
            old(self).cpu.spec_clock_frame(final(self).cpu),
    {
        proof {
            reveal(Machine::m_cycle);
        }
        self.t_cycle();
        self.t_cycle();
        self.t_cycle();
        self.t_cycle();
        DMA::tick(self);
    }

    /// Advances the clock by the given number of M-cycles: each one steps
    /// the timer and the PPU four times and the DMA engine once.
    pub fn cycles(&mut self, cycles: u32)
        ensures
            final(self)@ == old(self)@.cycles(cycles as nat),
            old(self)@.wf() ==> final(self)@.wf(),
            old(self).cpu.spec_clock_frame(final(self).cpu),
    {
        proof {
            reveal(Machine::cycles);
        }
        let mut i: u32 = 0;
        while i < cycles
            invariant
                i <= cycles,
                self@.cycles((cycles - i) as nat) == old(self)@.cycles(cycles as nat),
                old(self)@.wf() ==> self@.wf(),
                old(self).cpu.spec_clock_frame(self.cpu),
            decreases cycles - i,
        {
            proof {
                reveal(Machine::cycles);
            }
            self.m_cycle();
            i = i + 1;
        }
    }
}

} // verus!

use vstd::prelude::*;
use crate::emulator::bits::add8;
use crate::emulator::bits::spec_wrap8;
use crate::emulator::cpu::interrupts::request_interrupt;
use crate::emulator::cpu::interrupts::InterruptType;
use crate::emulator::lcd::HBLANK_INT_MASK;
use crate::emulator::lcd::LCD;
use crate::emulator::lcd::LCD_MODE;
use crate::emulator::lcd::LYC_INT_MASK;
use crate::emulator::lcd::VBLANK_INT_MASK;
use crate::emulator::lcd::WIN_ENABLE_MASK;
use crate::emulator::ppu::LINES_PER_FRAME;
use crate::emulator::ppu::PPU;
use crate::emulator::ppu::TICKS_PER_LINE;
use crate::emulator::ppu::X_RES;
use crate::emulator::ppu::Y_RES;
use crate::emulator::Emulator;
use crate::emulator::Machine;

verus! {

impl LCD {
    /// LY one further, and bit 2 of STAT set from its comparison with LYC.
    pub open spec fn spec_next_line(self) -> LCD {
        let ly = spec_wrap8(self.ly + 1);
        (LCD { ly: ly, ..self }).spec_set_lyc(ly == self.lyc)
    }

    /// Moves LY one further and sets bit 2 of STAT from its comparison
    /// with LYC. Returns whether the two are equal.
    pub fn next_line(&mut self) -> (equal: bool)
        ensures
            *final(self) == old(self).spec_next_line(),
            equal == (final(self).ly == final(self).lyc),
    {
        self.ly = add8(self.ly, 1);
        let equal: bool = self.ly == self.lyc;
        self.set_lcds_lyc(equal);
        equal
    }

    /// LY back at the first line.
    pub fn first_line(&mut self)
        ensures
            *final(self) == (LCD { ly: 0, ..*old(self) }),
    {
        self.ly = 0;
    }
}

impl Machine {
    /// Whether the window is switched on and placed within the screen.
    pub open spec fn window_visible(self) -> bool {
        self.lcd.spec_lcdc_flag(WIN_ENABLE_MASK) && self.lcd.win_x <= 166 && self.lcd.win_y < Y_RES
    }

    /// Whether the current line shows a line of the window.
    pub open spec fn window_on_line(self) -> bool {
        self.window_visible() && self.lcd.ly >= self.lcd.win_y && self.lcd.ly < self.lcd.win_y
            + 144
    }

    /// The machine at the start of the next line: the window's own line
    /// counter moves on if this line showed the window, LY moves on and is
    /// compared with LYC, and the STAT interrupt is requested if they are
    /// equal and that source is selected.
    #[verifier::opaque]
    pub open spec fn increment_ly(self) -> Machine {
        let m1 = if self.window_on_line() {
            self.with_ppu(self.ppu.spec_set_window_line(spec_wrap8(self.ppu.window_line + 1)))
        } else {
            self
        };
        let m2 = m1.with_lcd(m1.lcd.spec_next_line());
        if m2.lcd.ly == m2.lcd.lyc && m2.lcd.spec_lcds_flag(LYC_INT_MASK) {
            m2.request_interrupt(InterruptType::IT_LCD_STAT)
        } else {
            m2
        }
    }

    /// The machine after the last visible line: mode VBLANK, the VBLANK
    /// interrupt requested, the STAT interrupt too if that source is
    /// selected, and one more frame counted.
    #[verifier::opaque]
    pub open spec fn enter_vblank(self) -> Machine {
        let m = self.set_mode(LCD_MODE::MODE_VBLANK).request_interrupt(InterruptType::IT_VBLANK);
        let m2 = if m.lcd.spec_lcds_flag(VBLANK_INT_MASK) {
            m.request_interrupt(InterruptType::IT_LCD_STAT)
        } else {
            m
        };
        m2.with_ppu(m2.ppu.spec_next_frame())
    }

    /// One dot in mode HBLANK: at dot 456 the next line starts, in mode
    /// OAM or, after line 143, in mode VBLANK.
    #[verifier::opaque]
    pub open spec fn mode_hblank(self) -> Machine {
        if self.ppu.line_ticks >= TICKS_PER_LINE {
            let m = self.increment_ly();
            let m2 = if m.lcd.ly >= Y_RES {
                m.enter_vblank()
            } else {
                m.set_mode(LCD_MODE::MODE_OAM)
            };
            m2.with_ppu(m2.ppu.spec_set_line_ticks(0))
        } else {
            self
        }
    }

    /// The machine at the start of a new frame: mode OAM, line 0, the
    /// window's line counter at 0.
    #[verifier::opaque]
    pub open spec fn restart_frame(self) -> Machine {
        let m = self.set_mode(LCD_MODE::MODE_OAM);
        let m2 = m.with_lcd(LCD { ly: 0, ..m.lcd });
        m2.with_ppu(m2.ppu.spec_set_window_line(0))
    }

    /// One dot in mode VBLANK: at dot 456 the next line starts, and after
    /// line 153 the next frame.
    #[verifier::opaque]
    pub open spec fn mode_vblank(self) -> Machine {
        if self.ppu.line_ticks >= TICKS_PER_LINE {
            let m = self.increment_ly();
            let m2 = if m.lcd.ly >= LINES_PER_FRAME {
                m.restart_frame()
            } else {
                m
            };
            m2.with_ppu(m2.ppu.spec_set_line_ticks(0))
        } else {
            self
        }
    }

    /// The machine as mode XFER begins: the mode set and the fetcher at
    /// the start of the line.
    #[verifier::opaque]
    pub open spec fn enter_xfer(self) -> Machine {
        let m = self.set_mode(LCD_MODE::MODE_XFER);
        m.with_fifo(m.ppu.pixel_fifo.spec_reset())
    }

    /// One dot in mode OAM: at dot 1 OAM is scanned for the sprites of the
    /// line, at dot 80 mode XFER begins.
    #[verifier::opaque]
    pub open spec fn mode_oam(self) -> Machine {
        let m = if self.ppu.line_ticks >= 80 {
            self.enter_xfer()
        } else {
            self
        };
        if m.ppu.line_ticks == 1 {
            m.with_ppu(m.ppu.spec_load_line_sprites(m.lcd.ly, m.lcd.spec_obj_size()))
        } else {
            m
        }
    }

    /// The machine as mode HBLANK begins: the queue emptied, the mode set,
    /// and the STAT interrupt requested if that source is selected.
    #[verifier::opaque]
    pub open spec fn enter_hblank(self) -> Machine {
        let m = self.with_fifo(self.ppu.pixel_fifo.spec_clear()).set_mode(LCD_MODE::MODE_HBLANK);
        if m.lcd.spec_lcds_flag(HBLANK_INT_MASK) {
            m.request_interrupt(InterruptType::IT_LCD_STAT)
        } else {
            m
        }
    }

    /// One dot in mode XFER: the pipeline runs, and once 160 pixels are
    /// out mode HBLANK begins.
    #[verifier::opaque]
    pub open spec fn mode_xfer(self) -> Machine {
        let m = self.pipeline_process();
        if m.ppu.pixel_fifo.pushed_x >= X_RES {
            m.enter_hblank()
        } else {
            m
        }
    }

    /// The machine with the dot counter one further.
    #[verifier::opaque]
    pub open spec fn count_dot(self) -> Machine {
        self.with_ppu(
            self.ppu.spec_set_line_ticks(((self.ppu.line_ticks + 1) % 0x1_0000_0000) as u32),
        )
    }

    /// One dot of the PPU.
    #[verifier::opaque]
    pub open spec fn ppu_tick(self) -> Machine {
        let m = self.count_dot();
        match m.lcd.spec_mode() {
            LCD_MODE::MODE_HBLANK => m.mode_hblank(),
            LCD_MODE::MODE_VBLANK => m.mode_vblank(),
            LCD_MODE::MODE_OAM => m.mode_oam(),
            LCD_MODE::MODE_XFER => m.mode_xfer(),
        }
    }
}

impl PPU {
    /// Checks whether the window is switched on and within the screen.
    pub fn window_visible(emu: &Emulator) -> (r: bool)
        ensures
            r == emu@.window_visible(),
    {
        emu.lcd.get_lcdc_flag(WIN_ENABLE_MASK) && emu.lcd.win_x <= 166 && emu.lcd.win_y < Y_RES
    }

    /// Checks whether the current line shows a line of the window.
    pub fn window_on_line(emu: &Emulator) -> (r: bool)
        ensures
            r == emu@.window_on_line(),
    {
        PPU::window_visible(emu) && emu.lcd.ly >= emu.lcd.win_y && (emu.lcd.ly as u16) < (
        emu.lcd.win_y as u16) + 144
    }

    /// Increments LY, compares it with LYC and requests the STAT interrupt
    /// where that is due.
    pub fn increment_ly(emu: &mut Emulator)
        ensures
            final(emu)@ == old(emu)@.increment_ly(),
            old(emu)@.wf() ==> final(emu)@.wf(),
            old(emu).cpu.spec_clock_frame(final(emu).cpu),
    {
        proof {
            reveal(Machine::increment_ly);
        }
        if PPU::window_on_line(emu) {
            let line: u8 = add8(emu.ppu.window_line, 1);
            emu.ppu.set_window_line(line);
        }
        let equal: bool = emu.lcd.next_line();
        if equal && emu.lcd.get_lcds_flag(LYC_INT_MASK) {
            request_interrupt(&mut emu.cpu, InterruptType::IT_LCD_STAT);
        }
    }

    /// Enters mode VBLANK and counts the frame.
    pub fn enter_vblank(emu: &mut Emulator)
        ensures
            final(emu)@ == old(emu)@.enter_vblank(),
            old(emu)@.wf() ==> final(emu)@.wf(),
            old(emu).cpu.spec_clock_frame(final(emu).cpu),
    {
        proof {
            reveal(Machine::enter_vblank);
        }
        emu.lcd.set_lcds_mode(LCD_MODE::MODE_VBLANK);
        request_interrupt(&mut emu.cpu, InterruptType::IT_VBLANK);
        if emu.lcd.get_lcds_flag(VBLANK_INT_MASK) {
            request_interrupt(&mut emu.cpu, InterruptType::IT_LCD_STAT);
        }
        emu.ppu.next_frame();
    }

    /// Performs operations under the HBlank mode.
    pub fn mode_hblank(emu: &mut Emulator)
        ensures
            final(emu)@ == old(emu)@.mode_hblank(),
            old(emu)@.wf() ==> final(emu)@.wf(),
            old(emu).cpu.spec_clock_frame(final(emu).cpu),
    {
        proof {
            reveal(Machine::mode_hblank);
        }
        if emu.ppu.line_ticks >= TICKS_PER_LINE {
            PPU::increment_ly(emu);
            if emu.lcd.ly >= Y_RES {
                PPU::enter_vblank(emu);
            } else {
                emu.lcd.set_lcds_mode(LCD_MODE::MODE_OAM);
            }
            emu.ppu.set_line_ticks(0);
        }
    }

    /// Starts a new frame.
    pub fn restart_frame(emu: &mut Emulator)
        ensures
            final(emu)@ == old(emu)@.restart_frame(),
            old(emu)@.wf() ==> final(emu)@.wf(),
            old(emu).cpu.spec_clock_frame(final(emu).cpu),
    {
        proof {
            reveal(Machine::restart_frame);
        }
        emu.lcd.set_lcds_mode(LCD_MODE::MODE_OAM);
        emu.lcd.first_line();
        emu.ppu.set_window_line(0);
    }

    /// Performs operations under the VBlank mode.
    pub fn mode_vblank(emu: &mut Emulator)
        ensures
            final(emu)@ == old(emu)@.mode_vblank(),
            old(emu)@.wf() ==> final(emu)@.wf(),
            old(emu).cpu.spec_clock_frame(final(emu).cpu),
    {
        proof {
            reveal(Machine::mode_vblank);
        }
        if emu.ppu.line_ticks >= TICKS_PER_LINE {
            PPU::increment_ly(emu);
            if emu.lcd.ly as u32 >= LINES_PER_FRAME {
                PPU::restart_frame(emu);
            }
            emu.ppu.set_line_ticks(0);
        }
    }

    /// Enters mode XFER.
    pub fn enter_xfer(emu: &mut Emulator)
        ensures
            final(emu)@ == old(emu)@.enter_xfer(),
            old(emu)@.wf() ==> final(emu)@.wf(),
            old(emu).cpu.spec_clock_frame(final(emu).cpu),
    {
        proof {
            reveal(Machine::enter_xfer);
        }
        emu.lcd.set_lcds_mode(LCD_MODE::MODE_XFER);
        emu.ppu.pixel_fifo.reset();
    }

    /// Performs operations under the OAM mode.
    pub fn mode_oam(emu: &mut Emulator)
        ensures
            final(emu)@ == old(emu)@.mode_oam(),
            old(emu)@.wf() ==> final(emu)@.wf(),
            old(emu).cpu.spec_clock_frame(final(emu).cpu),
    {
        proof {
            reveal(Machine::mode_oam);
        }
        if emu.ppu.line_ticks >= 80 {
            PPU::enter_xfer(emu);
        }
        if emu.ppu.line_ticks == 1 {
            let ly: u8 = emu.lcd.ly;
            let height: u8 = emu.lcd.get_lcdc_obj_size();
            emu.ppu.load_line_sprites(ly, height);
        }
    }

    /// Enters mode HBLANK.
    pub fn enter_hblank(emu: &mut Emulator)
        ensures
            final(emu)@ == old(emu)@.enter_hblank(),
            old(emu)@.wf() ==> final(emu)@.wf(),
            old(emu).cpu.spec_clock_frame(final(emu).cpu),
    {
        proof {
            reveal(Machine::enter_hblank);
        }
        emu.ppu.pixel_fifo.clear();
        emu.lcd.set_lcds_mode(LCD_MODE::MODE_HBLANK);
        if emu.lcd.get_lcds_flag(HBLANK_INT_MASK) {
            request_interrupt(&mut emu.cpu, InterruptType::IT_LCD_STAT);
        }
    }

    /// Performs operations under the XFER mode.
    pub fn mode_xfer(emu: &mut Emulator)
        ensures
            final(emu)@ == old(emu)@.mode_xfer(),
            old(emu)@.wf() ==> final(emu)@.wf(),
            old(emu).cpu.spec_clock_frame(final(emu).cpu),
    {
        proof {
            reveal(Machine::mode_xfer);
        }
        PPU::pipeline_process(emu);
        if emu.ppu.pixel_fifo.pushed_x >= X_RES {
            PPU::enter_hblank(emu);
        }
    }

    /// Counts one dot.
    pub fn count_dot(emu: &mut Emulator)
        ensures
            final(emu)@ == old(emu)@.count_dot(),
            old(emu)@.wf() ==> final(emu)@.wf(),
            old(emu).cpu.spec_clock_frame(final(emu).cpu),
    {
        proof {
            reveal(Machine::count_dot);
        }
        let ticks: u32 = if emu.ppu.line_ticks == u32::MAX {
            0
        } else {
            emu.ppu.line_ticks + 1
        };
        emu.ppu.set_line_ticks(ticks);
    }

    /// Performs a single PPU tick.
    pub fn tick(emu: &mut Emulator)
        ensures
            final(emu)@ == old(emu)@.ppu_tick(),
            old(emu)@.wf() ==> final(emu)@.wf(),
            old(emu).cpu.spec_clock_frame(final(emu).cpu),
    {
        proof {
            reveal(Machine::ppu_tick);
        }
        PPU::count_dot(emu);
        match emu.lcd.get_lcds_mode() {
            LCD_MODE::MODE_HBLANK => {
                PPU::mode_hblank(emu);
            },
            LCD_MODE::MODE_VBLANK => {
                PPU::mode_vblank(emu);
            },
            LCD_MODE::MODE_OAM => {
                PPU::mode_oam(emu);
            },
            LCD_MODE::MODE_XFER => {
                PPU::mode_xfer(emu);
            },
        }
    }
}

} // verus!

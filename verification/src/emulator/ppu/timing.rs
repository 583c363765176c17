//! The timing of the PPU. What decides how long a mode lasts is a small
//! part of the machine: the mode, the line, the dot, the low bits of SCX
//! and the counters of the pixel pipeline. This part steps on its own, and
//! its steps are counted here up to a whole frame.
use vstd::prelude::*;
use crate::emulator::lcd::LCD_MODE;
use crate::emulator::ppu::fifo::FetchState;
use crate::emulator::Machine;

verus! {

/// The part of the machine that decides the timing of the PPU.
pub struct PpuTiming {
    pub mode: LCD_MODE,
    pub ly: u8,
    pub scroll_x: u8,
    /// The dot within the line.
    pub line_ticks: u32,
    pub state: FetchState,
    /// The number of pixels in the queue.
    pub queued: nat,
    pub line_x: u8,
    pub pushed_x: u8,
    pub fetch_x: u8,
    pub curr_frame: u64,
}

impl Machine {
    /// The part of the machine that decides the timing of the PPU.
    pub open spec fn timing(self) -> PpuTiming {
        PpuTiming {
            mode: self.lcd.spec_mode(),
            ly: self.lcd.ly,
            scroll_x: self.lcd.scroll_x,
            line_ticks: self.ppu.line_ticks,
            state: self.ppu.pixel_fifo.curr_state,
            queued: self.ppu.pixel_fifo.fifo.len(),
            line_x: self.ppu.pixel_fifo.line_x,
            pushed_x: self.ppu.pixel_fifo.pushed_x,
            fetch_x: self.ppu.pixel_fifo.fetch_x,
            curr_frame: self.ppu.curr_frame,
        }
    }

    /// The machine after `n` dots of the PPU.
    pub open spec fn ppu_ticks(self, n: nat) -> Machine
        decreases n,
    {
        if n == 0 {
            self
        } else {
            self.ppu_tick().ppu_ticks((n - 1) as nat)
        }
    }
}

impl PpuTiming {
    /// The number of pixels discarded at the start of the line.
    pub open spec fn discard(self) -> int {
        self.scroll_x as int % 8
    }

    /// One step of the fetcher.
    pub open spec fn fetch_step(self) -> PpuTiming {
        match self.state {
            FetchState::FS_TILE => PpuTiming {
                state: FetchState::FS_TILE_DATA_LOW,
                fetch_x: ((self.fetch_x + 8) % 0x100) as u8,
                ..self
            },
            FetchState::FS_TILE_DATA_LOW => PpuTiming {
                state: FetchState::FS_TILE_DATA_HIGH,
                ..self
            },
            FetchState::FS_TILE_DATA_HIGH => PpuTiming { state: FetchState::FS_IDLE, ..self },
            FetchState::FS_IDLE => PpuTiming { state: FetchState::FS_PUSH, ..self },
            FetchState::FS_PUSH => if self.queued <= 8 {
                PpuTiming {
                    state: FetchState::FS_TILE,
                    queued: if self.fetch_x - (8 - self.discard()) >= 0 {
                        self.queued + 8
                    } else {
                        self.queued
                    },
                    ..self
                }
            } else {
                self
            },
        }
    }

    /// One pixel leaves the queue, if it holds more than eight.
    pub open spec fn pop_step(self) -> PpuTiming {
        if self.queued > 8 {
            PpuTiming {
                queued: (self.queued - 1) as nat,
                pushed_x: if self.line_x >= self.discard() {
                    ((self.pushed_x + 1) % 0x100) as u8
                } else {
                    self.pushed_x
                },
                line_x: ((self.line_x + 1) % 0x100) as u8,
                ..self
            }
        } else {
            self
        }
    }

    /// One dot in mode XFER.
    pub open spec fn xfer_tick(self) -> PpuTiming {
        let fetched = if self.line_ticks % 2 == 0 {
            self.fetch_step()
        } else {
            self
        };
        let popped = fetched.pop_step();
        if popped.pushed_x >= 160 {
            PpuTiming { queued: 0, mode: LCD_MODE::MODE_HBLANK, ..popped }
        } else {
            popped
        }
    }

    /// One dot in mode OAM.
    pub open spec fn oam_tick(self) -> PpuTiming {
        if self.line_ticks >= 80 {
            PpuTiming {
                mode: LCD_MODE::MODE_XFER,
                state: FetchState::FS_TILE,
                line_x: 0,
                pushed_x: 0,
                fetch_x: 0,
                ..self
            }
        } else {
            self
        }
    }

    /// One dot in mode HBLANK.
    pub open spec fn hblank_tick(self) -> PpuTiming {
        if self.line_ticks >= 456 {
            let ly = ((self.ly + 1) % 0x100) as u8;
            if ly >= 144 {
                PpuTiming {
                    ly: ly,
                    line_ticks: 0,
                    mode: LCD_MODE::MODE_VBLANK,
                    curr_frame: if self.curr_frame == u64::MAX {
                        0
                    } else {
                        (self.curr_frame + 1) as u64
                    },
                    ..self
                }
            } else {
                PpuTiming { ly: ly, line_ticks: 0, mode: LCD_MODE::MODE_OAM, ..self }
            }
        } else {
            self
        }
    }

    /// One dot in mode VBLANK.
    pub open spec fn vblank_tick(self) -> PpuTiming {
        if self.line_ticks >= 456 {
            let ly = ((self.ly + 1) % 0x100) as u8;
            if ly >= 154 {
                PpuTiming { ly: 0, line_ticks: 0, mode: LCD_MODE::MODE_OAM, ..self }
            } else {
                PpuTiming { ly: ly, line_ticks: 0, ..self }
            }
        } else {
            self
        }
    }

    /// One dot.
    pub open spec fn tick(self) -> PpuTiming {
        let counted = PpuTiming {
            line_ticks: ((self.line_ticks + 1) % 0x1_0000_0000) as u32,
            ..self
        };
        match self.mode {
            LCD_MODE::MODE_HBLANK => counted.hblank_tick(),
            LCD_MODE::MODE_VBLANK => counted.vblank_tick(),
            LCD_MODE::MODE_OAM => counted.oam_tick(),
            LCD_MODE::MODE_XFER => counted.xfer_tick(),
        }
    }

    /// `n` dots.
    pub open spec fn ticks(self, n: nat) -> PpuTiming
        decreases n,
    {
        if n == 0 {
            self
        } else {
            self.tick().ticks((n - 1) as nat)
        }
    }

    /// The first dot of a line: mode OAM, dot 0, the queue empty.
    pub open spec fn at_line_start(self) -> bool {
        self.mode == LCD_MODE::MODE_OAM && self.line_ticks == 0 && self.queued == 0
    }

    /// The first dot of a line of the vertical blank.
    pub open spec fn at_vblank_line(self) -> bool {
        self.mode == LCD_MODE::MODE_VBLANK && self.line_ticks == 0 && self.queued == 0
    }

    /// The dot of the line at which mode XFER ends: the dot at which the
    /// last of the 160 pixels and of the discarded ones leaves the queue.
    /// The first tile is queued at dot 90, the queue starts to give up
    /// pixels at dot 100, and it gives up eight in every ten dots.
    pub open spec fn xfer_end(self) -> int {
        100 + 10 * ((159 + self.discard()) / 8) + (159 + self.discard()) % 8
    }

    /// The pixels that have left the queue by phase `phase` (0 to 9) of the
    /// `c`-th group of ten dots of mode XFER: none in the first two
    /// groups, then one in each of the first eight dots of a group.
    pub open spec fn popped_in(c: int, phase: int) -> int {
        if c < 2 {
            0
        } else if phase < 8 {
            8 * (c - 2) + phase + 1
        } else {
            8 * (c - 2) + 8
        }
    }

    /// The pixels that have left the queue by dot `80 + j` of mode XFER.
    pub open spec fn popped_at(j: int) -> int {
        PpuTiming::popped_in(j / 10, j % 10)
    }

    /// The state at phase `phase` of the `c`-th group of ten dots of mode
    /// XFER, while the mode lasts. The fetcher takes two dots for each of
    /// its five steps; a tile is queued at phase 0 of every group but the
    /// first.
    pub open spec fn xfer_in(self, c: int, phase: int) -> PpuTiming {
        let popped = PpuTiming::popped_in(c, phase);
        PpuTiming {
            mode: LCD_MODE::MODE_XFER,
            line_ticks: (80 + 10 * c + phase) as u32,
            state: if phase < 2 {
                FetchState::FS_TILE
            } else if phase < 4 {
                FetchState::FS_TILE_DATA_LOW
            } else if phase < 6 {
                FetchState::FS_TILE_DATA_HIGH
            } else if phase < 8 {
                FetchState::FS_IDLE
            } else {
                FetchState::FS_PUSH
            },
            queued: (8 * c - popped) as nat,
            line_x: popped as u8,
            pushed_x: if popped >= self.discard() {
                (popped - self.discard()) as u8
            } else {
                0
            },
            fetch_x: if phase < 2 {
                (8 * c) as u8
            } else {
                (8 * (c + 1)) as u8
            },
            ..self
        }
    }

    /// The state at dot `80 + j` of mode XFER, while it lasts.
    pub open spec fn xfer_at(self, j: int) -> PpuTiming {
        self.xfer_in(j / 10, j % 10)
    }

    /// The state at the dot at which mode XFER ends.
    pub open spec fn xfer_done(self) -> PpuTiming {
        PpuTiming {
            mode: LCD_MODE::MODE_HBLANK,
            queued: 0,
            ..self.xfer_at(self.xfer_end() - 80)
        }
    }
}

/// Reading the rows of the fetched sprites takes no part in the timing.
proof fn lemma_timing_load_sprite_data(m: Machine, offset: u8, i: int)
    ensures
        m.load_sprite_data_from(offset, i).timing() == m.timing(),
    decreases 3 - i,
{
    reveal(Machine::load_sprite_data_from);
    if !(i < 0 || i >= 3 || i >= m.ppu.fetched_entries.len()) {
        lemma_timing_load_sprite_data(
            m.with_fifo(
                m.ppu.pixel_fifo.spec_set_entry_data(
                    2 * i + offset,
                    m.bus_read(m.sprite_data_addr(i, offset)),
                ),
            ),
            offset,
            i + 1,
        );
    }
}

/// Queueing the pixels of a tile from the `i`-th on adds `8 - i` pixels to
/// the queue, or none where the tile lies left of the screen.
proof fn lemma_timing_fifo_add(m: Machine, i: int)
    requires
        0 <= i <= 8,
    ensures
        m.fifo_add_from(i).timing() == (PpuTiming {
            queued: if m.tile_on_screen() {
                (m.timing().queued + 8 - i) as nat
            } else {
                m.timing().queued
            },
            ..m.timing()
        }),
    decreases 8 - i,
{
    reveal(Machine::fifo_add_from);
    if i < 8 {
        if m.tile_on_screen() {
            lemma_timing_fifo_add(
                m.with_fifo(m.ppu.pixel_fifo.spec_push_pixel(m.pixel_color((7 - i) as u8))),
                i + 1,
            );
        } else {
            lemma_timing_fifo_add(m, i + 1);
        }
    }
}

/// The fetcher's first step, as the timing sees it.
proof fn lemma_timing_fetch_tile(m: Machine)
    requires
        m.ppu.pixel_fifo.curr_state == FetchState::FS_TILE,
    ensures
        m.fetch_tile().timing() == m.timing().fetch_step(),
{
    reveal(Machine::fetch_tile);
    reveal(Machine::fetch_tile_number);
    reveal(Machine::fetch_tile_sprites);
    reveal(Machine::load_bg_tile);
    reveal(Machine::load_window_tile);
}

/// The fetcher's second and third step, as the timing sees them.
proof fn lemma_timing_fetch_tile_data(m: Machine, offset: u8)
    ensures
        m.fetch_tile_data(offset).timing() == (PpuTiming {
            state: if offset == 0 {
                FetchState::FS_TILE_DATA_HIGH
            } else {
                FetchState::FS_IDLE
            },
            ..m.timing()
        }),
{
    reveal(Machine::fetch_tile_data);
    lemma_timing_load_sprite_data(
        m.with_fifo(
            m.ppu.pixel_fifo.spec_set_bgw(1 + offset, m.bus_read(m.tile_data_addr(offset))),
        ),
        offset,
        0,
    );
}

/// One step of the fetcher, as the timing sees it.
proof fn lemma_timing_fetch(m: Machine)
    ensures
        m.pipeline_fetch().timing() == m.timing().fetch_step(),
{
    reveal(Machine::pipeline_fetch);
    reveal(Machine::fetch_push);
    match m.ppu.pixel_fifo.curr_state {
        FetchState::FS_TILE => {
            lemma_timing_fetch_tile(m);
        },
        FetchState::FS_TILE_DATA_LOW => {
            lemma_timing_fetch_tile_data(m, 0);
        },
        FetchState::FS_TILE_DATA_HIGH => {
            lemma_timing_fetch_tile_data(m, 1);
        },
        FetchState::FS_IDLE => {},
        FetchState::FS_PUSH => {
            lemma_timing_fifo_add(m, 0);
        },
    }
}

/// One dot of the pipeline, as the timing sees it.
proof fn lemma_timing_process(m: Machine)
    ensures
        m.pipeline_process().timing() == (if m.ppu.line_ticks % 2 == 0 {
            m.timing().fetch_step()
        } else {
            m.timing()
        }).pop_step(),
{
    reveal(Machine::pipeline_process);
    reveal(Machine::pipeline_position);
    reveal(Machine::pipeline_push_pixel);
    let positioned = m.pipeline_position();
    assert(positioned.timing() == m.timing());
    lemma_timing_fetch(positioned);
}

/// The start of the next line, as the timing sees it: only LY moves.
proof fn lemma_timing_increment_ly(m: Machine)
    ensures
        m.increment_ly().timing() == (PpuTiming {
            ly: ((m.lcd.ly + 1) % 0x100) as u8,
            ..m.timing()
        }),
{
    reveal(Machine::increment_ly);
}

proof fn lemma_timing_mode_hblank(m: Machine)
    requires
        m.lcd.spec_mode() == LCD_MODE::MODE_HBLANK,
    ensures
        m.mode_hblank().timing() == m.timing().hblank_tick(),
{
    reveal(Machine::mode_hblank);
    reveal(Machine::enter_vblank);
    lemma_timing_increment_ly(m);
}

proof fn lemma_timing_mode_vblank(m: Machine)
    requires
        m.lcd.spec_mode() == LCD_MODE::MODE_VBLANK,
    ensures
        m.mode_vblank().timing() == m.timing().vblank_tick(),
{
    reveal(Machine::mode_vblank);
    reveal(Machine::restart_frame);
    lemma_timing_increment_ly(m);
}

proof fn lemma_timing_mode_oam(m: Machine)
    requires
        m.lcd.spec_mode() == LCD_MODE::MODE_OAM,
    ensures
        m.mode_oam().timing() == m.timing().oam_tick(),
{
    reveal(Machine::mode_oam);
    reveal(Machine::enter_xfer);
}

proof fn lemma_timing_mode_xfer(m: Machine)
    requires
        m.lcd.spec_mode() == LCD_MODE::MODE_XFER,
    ensures
        m.mode_xfer().timing() == m.timing().xfer_tick(),
{
    reveal(Machine::mode_xfer);
    reveal(Machine::enter_hblank);
    lemma_timing_process(m);
}

/// The timing steps on its own: what one dot of the PPU does to the
/// timing depends on the timing alone.
pub proof fn lemma_timing_ppu_tick(m: Machine)
    ensures
        m.ppu_tick().timing() == m.timing().tick(),
{
    reveal(Machine::ppu_tick);
    reveal(Machine::count_dot);
    let counted = m.count_dot();
    match counted.lcd.spec_mode() {
        LCD_MODE::MODE_HBLANK => {
            lemma_timing_mode_hblank(counted);
        },
        LCD_MODE::MODE_VBLANK => {
            lemma_timing_mode_vblank(counted);
        },
        LCD_MODE::MODE_OAM => {
            lemma_timing_mode_oam(counted);
        },
        LCD_MODE::MODE_XFER => {
            lemma_timing_mode_xfer(counted);
        },
    }
}

/// The timing after `n` dots of the PPU.
pub proof fn lemma_timing_ppu_ticks(m: Machine, n: nat)
    ensures
        m.ppu_ticks(n).timing() == m.timing().ticks(n),
    decreases n,
{
    if n > 0 {
        lemma_timing_ppu_tick(m);
        lemma_timing_ppu_ticks(m.ppu_tick(), (n - 1) as nat);
    }
}

/// The timing under the clock: one T-cycle is one dot, whatever the timer
/// does.
pub proof fn lemma_timing_t_cycle(m: Machine)
    ensures
        m.t_cycle().timing() == m.timing().tick(),
{
    reveal(Machine::t_cycle);
    reveal(Machine::timer_tick);
    lemma_timing_ppu_tick(m.with_cpu(m.cpu.spec_count_tick()).timer_tick());
}

/// The timing under the clock: one M-cycle is four dots, whatever the
/// timer and the DMA engine do.
pub proof fn lemma_timing_m_cycle(m: Machine)
    ensures
        m.m_cycle().timing() == m.timing().ticks(4),
{
    reveal(Machine::m_cycle);
    reveal(Machine::dma_tick);
    reveal(Machine::dma_copy);
    lemma_timing_t_cycle(m);
    lemma_timing_t_cycle(m.t_cycle());
    lemma_timing_t_cycle(m.t_cycle().t_cycle());
    lemma_timing_t_cycle(m.t_cycle().t_cycle().t_cycle());
    let t = m.timing();
    assert(t.ticks(4) == t.tick().tick().tick().tick()) by {
        reveal_with_fuel(PpuTiming::ticks, 5);
    }
}

/// The timing under the clock: `n` M-cycles are `4n` dots of the PPU.
pub proof fn law_clock_drives_ppu(m: Machine, n: nat)
    ensures
        m.cycles(n).timing() == m.timing().ticks(4 * n),
    decreases n,
{
    reveal(Machine::cycles);
    if n > 0 {
        lemma_timing_m_cycle(m);
        law_clock_drives_ppu(m.m_cycle(), (n - 1) as nat);
        lemma_ticks_add(m.timing(), 4, (4 * (n - 1)) as nat);
    }
}

/// `a + b` dots are `a` dots and then `b` dots.
pub proof fn lemma_ticks_add(t: PpuTiming, a: nat, b: nat)
    ensures
        t.ticks(a + b) == t.ticks(a).ticks(b),
    decreases a,
{
    if a > 0 {
        lemma_ticks_add(t.tick(), (a - 1) as nat, b);
        assert(t.ticks(a + b) == t.tick().ticks((a + b - 1) as nat));
    }
}

/// One more dot after `n` dots.
pub proof fn lemma_ticks_next(t: PpuTiming, n: nat)
    ensures
        t.ticks(n + 1) == t.ticks(n).tick(),
{
    lemma_ticks_add(t, n, 1);
    assert(t.ticks(n).ticks(1) == t.ticks(n).tick().ticks(0));
}

/// Mode OAM up to dot 79 only counts the dots.
proof fn lemma_oam_dots(t: PpuTiming, k: nat)
    requires
        t.mode == LCD_MODE::MODE_OAM,
        t.line_ticks + k <= 79,
    ensures
        t.ticks(k) == (PpuTiming { line_ticks: (t.line_ticks + k) as u32, ..t }),
    decreases k,
{
    if k > 0 {
        lemma_oam_dots(t.tick(), (k - 1) as nat);
    }
}

/// Mode HBLANK up to dot 455 only counts the dots.
proof fn lemma_hblank_dots(t: PpuTiming, k: nat)
    requires
        t.mode == LCD_MODE::MODE_HBLANK,
        t.line_ticks + k <= 455,
    ensures
        t.ticks(k) == (PpuTiming { line_ticks: (t.line_ticks + k) as u32, ..t }),
    decreases k,
{
    if k > 0 {
        lemma_hblank_dots(t.tick(), (k - 1) as nat);
    }
}

/// Mode VBLANK up to dot 455 only counts the dots.
proof fn lemma_vblank_dots(t: PpuTiming, k: nat)
    requires
        t.mode == LCD_MODE::MODE_VBLANK,
        t.line_ticks + k <= 455,
    ensures
        t.ticks(k) == (PpuTiming { line_ticks: (t.line_ticks + k) as u32, ..t }),
    decreases k,
{
    if k > 0 {
        lemma_vblank_dots(t.tick(), (k - 1) as nat);
    }
}

/// Dot 80 of a line: mode XFER begins with the fetcher at its start.
proof fn lemma_xfer_begins(t: PpuTiming)
    requires
        t.at_line_start(),
    ensures
        t.ticks(80) == t.xfer_at(0),
{
    lemma_oam_dots(t, 79);
    lemma_ticks_next(t, 79);
}

/// One dot of mode XFER takes the state at one phase to the state at the
/// next, or ends the mode when the last pixel leaves the queue.
proof fn lemma_xfer_phase(t: PpuTiming, c: int, phase: int)
    requires
        0 <= c <= 22,
        0 <= phase < 10,
        PpuTiming::popped_in(c, phase) < 160 + t.discard(),
    ensures
        ({
            let c1 = if phase == 9 {
                c + 1
            } else {
                c
            };
            let phase1 = if phase == 9 {
                0
            } else {
                phase + 1
            };
            let next = t.xfer_in(c1, phase1);
            t.xfer_in(c, phase).tick() == (if PpuTiming::popped_in(c1, phase1) < 160
                + t.discard() {
                next
            } else {
                PpuTiming { mode: LCD_MODE::MODE_HBLANK, queued: 0, ..next }
            })
        }),
        t.xfer_in(c, phase).pushed_x < 160,
        t.xfer_in(c, phase).mode == LCD_MODE::MODE_XFER,
{
    let s = t.discard();
    assert(0 <= s < 8);
    let before = t.xfer_in(c, phase);
    assert(before.discard() == s);
    assert(before.line_ticks == 80 + 10 * c + phase);
    let counted = PpuTiming { line_ticks: (80 + 10 * c + phase + 1) as u32, ..before };
    assert(before.tick() == counted.xfer_tick());
    if phase % 2 == 1 {
        assert(counted.line_ticks % 2 == 0);
    } else {
        assert(counted.line_ticks % 2 == 1);
    }
    if phase == 0 {
    } else if phase == 1 {
    } else if phase == 2 {
    } else if phase == 3 {
    } else if phase == 4 {
    } else if phase == 5 {
    } else if phase == 6 {
    } else if phase == 7 {
    } else if phase == 8 {
    } else {
        if c == 0 {
        } else if c == 1 {
        } else {
        }
    }
}

/// The pixels that have left the queue, counted by dots: mode XFER lasts
/// as long as fewer than 160 and the discarded ones have left.
proof fn lemma_xfer_end(t: PpuTiming, j: int)
    requires
        0 <= j <= t.xfer_end() - 80,
    ensures
        297 <= t.xfer_end() <= 306,
        0 <= j / 10 <= 22,
        j < t.xfer_end() - 80 <==> PpuTiming::popped_at(j) < 160 + t.discard(),
        PpuTiming::popped_at(t.xfer_end() - 80) == 160 + t.discard(),
{
    let s = t.discard();
    if s == 0 {
        assert(t.xfer_end() == 297);
    } else if s == 1 {
        assert(t.xfer_end() == 300);
    } else if s == 2 {
        assert(t.xfer_end() == 301);
    } else if s == 3 {
        assert(t.xfer_end() == 302);
    } else if s == 4 {
        assert(t.xfer_end() == 303);
    } else if s == 5 {
        assert(t.xfer_end() == 304);
    } else if s == 6 {
        assert(t.xfer_end() == 305);
    } else {
        assert(t.xfer_end() == 306);
    }
}

/// One dot of mode XFER takes the state at dot `80 + j` to the state at
/// dot `80 + j + 1`, or ends the mode.
proof fn lemma_xfer_dot(t: PpuTiming, j: int)
    requires
        0 <= j < t.xfer_end() - 80,
    ensures
        j + 1 < t.xfer_end() - 80 ==> t.xfer_at(j).tick() == t.xfer_at(j + 1),
        j + 1 == t.xfer_end() - 80 ==> t.xfer_at(j).tick() == t.xfer_done(),
        t.xfer_at(j).pushed_x < 160,
        t.xfer_at(j).mode == LCD_MODE::MODE_XFER,
{
    lemma_xfer_end(t, j);
    lemma_xfer_end(t, j + 1);
    let c = j / 10;
    let phase = j % 10;
    if phase == 9 {
        assert((j + 1) / 10 == c + 1 && (j + 1) % 10 == 0);
    } else {
        assert((j + 1) / 10 == c && (j + 1) % 10 == phase + 1);
    }
    lemma_xfer_phase(t, c, phase);
}

/// The state at every dot of mode XFER.
proof fn lemma_xfer_dots(t: PpuTiming, j: nat)
    requires
        t.at_line_start(),
        j <= t.xfer_end() - 80,
    ensures
        j < t.xfer_end() - 80 ==> t.ticks(80 + j) == t.xfer_at(j as int),
        j == t.xfer_end() - 80 ==> t.ticks(80 + j) == t.xfer_done(),
    decreases j,
{
    if j == 0 {
        lemma_xfer_begins(t);
    } else {
        lemma_xfer_dots(t, (j - 1) as nat);
        lemma_ticks_next(t, (80 + j - 1) as nat);
        lemma_xfer_dot(t, j - 1);
    }
}

/// The end of a line: 456 dots after its first dot the next line begins,
/// in mode OAM, or, after line 143, in mode VBLANK with one more frame
/// counted.
proof fn lemma_line(t: PpuTiming)
    requires
        t.at_line_start(),
        t.ly < 144,
    ensures
        t.ticks(456) == (if t.ly == 143 {
            PpuTiming {
                ly: 144,
                line_ticks: 0,
                mode: LCD_MODE::MODE_VBLANK,
                curr_frame: if t.curr_frame == u64::MAX {
                    0
                } else {
                    (t.curr_frame + 1) as u64
                },
                ..t.xfer_done()
            }
        } else {
            PpuTiming {
                ly: (t.ly + 1) as u8,
                line_ticks: 0,
                mode: LCD_MODE::MODE_OAM,
                ..t.xfer_done()
            }
        }),
{
    let end = t.xfer_end();
    lemma_xfer_end(t, end - 80);
    lemma_xfer_dots(t, (end - 80) as nat);
    let done = t.ticks(end as nat);
    assert(done == t.xfer_done());
    lemma_hblank_dots(done, (455 - end) as nat);
    lemma_ticks_add(t, end as nat, (455 - end) as nat);
    lemma_ticks_next(t, 455);
}

/// A line of the vertical blank takes 456 dots; after line 153 the next
/// frame begins at line 0.
proof fn lemma_vblank_line(t: PpuTiming)
    requires
        t.at_vblank_line(),
        144 <= t.ly < 154,
    ensures
        t.ticks(456) == (if t.ly == 153 {
            PpuTiming { ly: 0, line_ticks: 0, mode: LCD_MODE::MODE_OAM, ..t }
        } else {
            PpuTiming { ly: (t.ly + 1) as u8, line_ticks: 0, ..t }
        }),
{
    lemma_vblank_dots(t, 455);
    lemma_ticks_next(t, 455);
}

/// Within a visible line the frame count stands; the line number and
/// SCX stand until the line ends.
proof fn lemma_within_line(t: PpuTiming, k: nat)
    requires
        t.at_line_start(),
        t.ly < 144,
        k < 456,
    ensures
        t.ticks(k).curr_frame == t.curr_frame,
        t.ticks(k).ly == t.ly,
        t.ticks(k).line_ticks == k,
        k < 80 ==> t.ticks(k).mode == LCD_MODE::MODE_OAM,
        80 <= k < t.xfer_end() ==> t.ticks(k).mode == LCD_MODE::MODE_XFER && t.ticks(k).pushed_x
            < 160,
        k == t.xfer_end() ==> t.ticks(k).pushed_x == 160,
        t.xfer_end() <= k ==> t.ticks(k).mode == LCD_MODE::MODE_HBLANK,
{
    let end = t.xfer_end();
    lemma_xfer_end(t, end - 80);
    if k < 80 {
        lemma_oam_dots(t, k);
    } else if k < end {
        lemma_xfer_dots(t, (k - 80) as nat);
        lemma_xfer_dot(t, k - 80);
    } else {
        lemma_xfer_dots(t, (end - 80) as nat);
        let done = t.ticks(end as nat);
        lemma_hblank_dots(done, (k - end) as nat);
        lemma_ticks_add(t, end as nat, (k - end) as nat);
    }
}

/// `v` visible lines after the first dot of a frame the `v`-th line
/// begins, with the frame count as it was; after the 144th line the
/// vertical blank begins with one more frame counted.
proof fn lemma_visible_lines(t: PpuTiming, v: nat)
    requires
        t.at_line_start(),
        t.ly == 0,
        v <= 144,
    ensures
        t.ticks(456 * v).ly == v,
        t.ticks(456 * v).scroll_x == t.scroll_x,
        v < 144 ==> t.ticks(456 * v).at_line_start() && t.ticks(456 * v).curr_frame
            == t.curr_frame,
        v == 144 ==> t.ticks(456 * v).at_vblank_line() && t.ticks(456 * v).curr_frame == (
        if t.curr_frame == u64::MAX {
            0
        } else {
            (t.curr_frame + 1) as u64
        }),
    decreases v,
{
    if v > 0 {
        lemma_visible_lines(t, (v - 1) as nat);
        let before = t.ticks(456 * (v - 1) as nat);
        lemma_line(before);
        lemma_ticks_add(t, 456 * (v - 1) as nat, 456);
        assert(456 * (v - 1) + 456 == 456 * v);
    }
}

/// `n` lines into the vertical blank line `144 + n` begins; after the
/// tenth the next frame begins at line 0.
proof fn lemma_vblank_lines(t: PpuTiming, n: nat)
    requires
        t.at_vblank_line(),
        t.ly == 144,
        n <= 10,
    ensures
        t.ticks(456 * n) == (if n == 10 {
            PpuTiming { ly: 0, mode: LCD_MODE::MODE_OAM, ..t }
        } else {
            PpuTiming { ly: (144 + n) as u8, ..t }
        }),
    decreases n,
{
    if n > 0 {
        lemma_vblank_lines(t, (n - 1) as nat);
        let before = t.ticks(456 * (n - 1) as nat);
        lemma_vblank_line(before);
        lemma_ticks_add(t, 456 * (n - 1) as nat, 456);
        assert(456 * (n - 1) + 456 == 456 * n);
    }
}

/// From the first dot of the vertical blank, the frame count stands for
/// `154 * 456 - 1` dots and moves on at the next.
proof fn lemma_frame_period(t: PpuTiming, k: nat)
    requires
        t.at_vblank_line(),
        t.ly == 144,
        k <= 154 * 456,
    ensures
        k < 154 * 456 ==> t.ticks(k).curr_frame == t.curr_frame,
        k == 154 * 456 ==> t.ticks(k).curr_frame == (if t.curr_frame == u64::MAX {
            0
        } else {
            (t.curr_frame + 1) as u64
        }) && t.ticks(k).at_vblank_line() && t.ticks(k).ly == 144,
{
    let line = k / 456;
    let dot = k % 456;
    assert(k == 456 * line + dot);
    if line < 10 {
        lemma_vblank_lines(t, line);
        let start = t.ticks(456 * line);
        lemma_vblank_dots(start, dot);
        lemma_ticks_add(t, 456 * line, dot);
    } else {
        lemma_vblank_lines(t, 10);
        let frame = t.ticks(4560);
        let v = (line - 10) as nat;
        lemma_visible_lines(frame, v);
        lemma_ticks_add(t, 4560, 456 * v);
        let start = frame.ticks(456 * v);
        assert(t.ticks(4560 + 456 * v) == start);
        if v < 144 {
            lemma_within_line(start, dot);
            lemma_ticks_add(t, 4560 + 456 * v, dot);
            assert(4560 + 456 * v + dot == k);
        } else {
            assert(dot == 0);
            assert(k == 4560 + 456 * v);
        }
    }
}

/// The modes of a visible line: from its first dot, mode OAM lasts 80
/// dots; mode XFER begins at dot 80 and lasts until 160 pixels are out,
/// which is at dot 297 to 306, as SCX asks for 0 to 7 pixels to be
/// discarded; mode HBLANK fills the rest of the 456 dots, and at dot 456
/// the next line begins.
pub proof fn law_scanline_modes(m: Machine, k: nat)
    requires
        m.timing().at_line_start(),
        m.lcd.ly < 144,
        k <= 456,
    ensures
        ({
            let after = m.ppu_ticks(k);
            let end = m.timing().xfer_end();
            &&& 297 <= end <= 306
            &&& k < 80 ==> after.lcd.spec_mode() == LCD_MODE::MODE_OAM
            &&& 80 <= k < end ==> after.lcd.spec_mode() == LCD_MODE::MODE_XFER
                && after.ppu.pixel_fifo.pushed_x < 160
            &&& k == end ==> after.ppu.pixel_fifo.pushed_x == 160
            &&& end <= k < 456 ==> after.lcd.spec_mode() == LCD_MODE::MODE_HBLANK
            &&& k < 456 ==> after.ppu.line_ticks == k && after.lcd.ly == m.lcd.ly
            &&& k == 456 ==> after.ppu.line_ticks == 0 && after.lcd.ly == m.lcd.ly + 1
                && after.lcd.spec_mode() == (if m.lcd.ly == 143 {
                LCD_MODE::MODE_VBLANK
            } else {
                LCD_MODE::MODE_OAM
            })
        }),
{
    let t = m.timing();
    lemma_timing_ppu_ticks(m, k);
    lemma_xfer_end(t, t.xfer_end() - 80);
    if k < 456 {
        lemma_within_line(t, k);
    } else {
        lemma_line(t);
    }
}

/// Frame cadence: from the dot at which the frame count moved on, it
/// stands for `154 * 456 - 1` dots of the PPU and moves on again at dot
/// `154 * 456`.
pub proof fn law_frame_cadence(m: Machine, k: nat)
    requires
        m.timing().at_vblank_line(),
        m.lcd.ly == 144,
        k <= 154 * 456,
    ensures
        k < 154 * 456 ==> m.ppu_ticks(k).ppu.curr_frame == m.ppu.curr_frame,
        k == 154 * 456 ==> m.ppu_ticks(k).ppu.curr_frame == (if m.ppu.curr_frame == u64::MAX {
            0
        } else {
            (m.ppu.curr_frame + 1) as u64
        }) && m.ppu_ticks(k).timing().at_vblank_line() && m.ppu_ticks(k).lcd.ly == 144,
{
    lemma_timing_ppu_ticks(m, k);
    lemma_frame_period(m.timing(), k);
}

/// Frame cadence under the clock: from the M-cycle in which the frame
/// count moved on, with the PPU at the first dot of the vertical blank,
/// the count stands for 17555 M-cycles and moves on again in the 17556th:
/// `154 * 456` T-cycles, whatever the timer and the DMA engine do.
pub proof fn law_frame_cadence_under_clock(m: Machine, n: nat)
    requires
        m.timing().at_vblank_line(),
        m.lcd.ly == 144,
        n <= 17556,
    ensures
        n < 17556 ==> m.cycles(n).ppu.curr_frame == m.ppu.curr_frame,
        n == 17556 ==> m.cycles(n).ppu.curr_frame == (if m.ppu.curr_frame == u64::MAX {
            0
        } else {
            (m.ppu.curr_frame + 1) as u64
        }),
{
    law_clock_drives_ppu(m, n);
    lemma_frame_period(m.timing(), 4 * n);
}

} // verus!

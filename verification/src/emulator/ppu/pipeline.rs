use vstd::prelude::*;
use crate::emulator::address_bus::bus_read;
use crate::emulator::bits::add8;
use crate::emulator::bits::bit;
use crate::emulator::bits::spec_bit;
use crate::emulator::bits::spec_wrap8;
use crate::emulator::bits::sub8;
use crate::emulator::lcd::BGW_ENABLE_MASK;
use crate::emulator::lcd::OBJ_ENABLE_MASK;
use crate::emulator::ppu::fifo::FetchState;
use crate::emulator::ppu::OamEntry;
use crate::emulator::ppu::DMG_PALETTE_MASK;
use crate::emulator::ppu::PPU;
use crate::emulator::ppu::PRIORITY_MASK;
use crate::emulator::ppu::X_FLIP_MASK;
use crate::emulator::ppu::X_RES;
use crate::emulator::ppu::Y_FLIP_MASK;
use crate::emulator::Emulator;
use crate::emulator::Machine;

verus! {

impl Machine {
    /// The address of the background map entry for the tile at `map_x`,
    /// `map_y`.
    pub open spec fn bg_tile_addr(self) -> u16 {
        (self.lcd.spec_bg_tile_map_area() + self.ppu.pixel_fifo.map_x / 8 + (
        self.ppu.pixel_fifo.map_y / 8) * 32) as u16
    }

    /// A tile number as the tile data area in use numbers it: with the area
    /// at 0x8800, tile 128 comes first.
    pub open spec fn rebias(self, tile: u8) -> u8 {
        if self.lcd.spec_bg_tile_data_area() == 0x8800 {
            spec_wrap8(tile + 128)
        } else {
            tile
        }
    }

    /// Whether the tile being fetched is taken from the window: the window
    /// is visible, and column and line fall within it.
    pub open spec fn window_tile_due(self) -> bool {
        let fetch_x = self.ppu.pixel_fifo.fetch_x;
        &&& self.window_visible()
        &&& fetch_x + 7 >= self.lcd.win_x
        &&& fetch_x + 7 < self.lcd.win_x + 144 + 14
        &&& self.lcd.ly >= self.lcd.win_y
        &&& self.lcd.ly < self.lcd.win_y + 160
    }

    /// The address of the window map entry for the tile being fetched.
    pub open spec fn window_tile_addr(self) -> u16 {
        (self.lcd.spec_win_tile_map_area() + (self.ppu.pixel_fifo.fetch_x + 7 - self.lcd.win_x)
            / 8 + (self.ppu.window_line / 8) * 32) as u16
    }

    /// The machine after the fetcher has looked for a window tile.
    #[verifier::opaque]
    pub open spec fn load_window_tile(self) -> Machine {
        if self.window_tile_due() {
            self.with_fifo(
                self.ppu.pixel_fifo.spec_set_bgw(
                    0,
                    self.rebias(self.bus_read(self.window_tile_addr())),
                ),
            )
        } else {
            self
        }
    }

    /// The machine after the fetcher has read the background tile number
    /// and looked for a window tile.
    #[verifier::opaque]
    pub open spec fn load_bg_tile(self) -> Machine {
        self.with_fifo(
            self.ppu.pixel_fifo.spec_set_bgw(0, self.rebias(self.bus_read(self.bg_tile_addr()))),
        ).load_window_tile()
    }

    /// The machine after the fetcher has taken the tile number, where
    /// background and window are switched on.
    #[verifier::opaque]
    pub open spec fn fetch_tile_number(self) -> Machine {
        if self.lcd.spec_lcdc_flag(BGW_ENABLE_MASK) {
            self.load_bg_tile()
        } else {
            self
        }
    }

    /// The machine after the fetcher has picked the sprites that overlap
    /// the tile, where objects are switched on.
    #[verifier::opaque]
    pub open spec fn fetch_tile_sprites(self) -> Machine {
        if self.lcd.spec_lcdc_flag(OBJ_ENABLE_MASK) && self.ppu.line_sprites.len() > 0 {
            self.with_ppu(self.ppu.spec_load_sprite_tile(self.lcd.scroll_x))
        } else {
            self
        }
    }

    /// The fetcher's first step: the tile number of background or window,
    /// and the sprites that overlap the tile.
    #[verifier::opaque]
    pub open spec fn fetch_tile(self) -> Machine {
        let m = self.with_ppu(self.ppu.spec_clear_fetched()).fetch_tile_number().fetch_tile_sprites();
        m.with_fifo(
            m.ppu.pixel_fifo.spec_set_state(FetchState::FS_TILE_DATA_LOW).spec_advance_fetch_x(),
        )
    }

    /// The address of the low (`offset` 0) or high (`offset` 1) byte of the
    /// tile row being fetched.
    pub open spec fn tile_data_addr(self, offset: u8) -> u16 {
        (self.lcd.spec_bg_tile_data_area() + self.ppu.pixel_fifo.bgw_fetch_data[0] * 16
            + self.ppu.pixel_fifo.tile_y + offset) as u16
    }

    /// The address of the low or high byte of the row of the `i`-th fetched
    /// sprite that falls on the current line.
    #[verifier::opaque]
    pub open spec fn sprite_data_addr(self, i: int, offset: u8) -> u16 {
        let e = self.ppu.spec_oam_entry(self.ppu.fetched_entries[i] as int);
        let height = self.lcd.spec_obj_size();
        let row = spec_wrap8((self.lcd.ly + 16 - e.y) * 2);
        let tile_y = if e.spec_get_flag(Y_FLIP_MASK) != 0 {
            spec_wrap8(height * 2 - 2 - row)
        } else {
            row
        };
        let tile = if height == 16 {
            e.tile - e.tile % 2
        } else {
            e.tile as int
        };
        (0x8000 + tile * 16 + tile_y + offset) as u16
    }

    /// The machine after the row bytes (low or high) of the fetched sprites
    /// from the `i`-th on were read.
    #[verifier::opaque]
    pub open spec fn load_sprite_data_from(self, offset: u8, i: int) -> Machine
        decreases 3 - i,
    {
        if i < 0 || i >= 3 || i >= self.ppu.fetched_entries.len() {
            self
        } else {
            self.with_fifo(
                self.ppu.pixel_fifo.spec_set_entry_data(
                    2 * i + offset,
                    self.bus_read(self.sprite_data_addr(i, offset)),
                ),
            ).load_sprite_data_from(offset, i + 1)
        }
    }

    /// The fetcher's second (`offset` 0) and third (`offset` 1) step: one
    /// byte of the tile row and of each fetched sprite's row.
    #[verifier::opaque]
    pub open spec fn fetch_tile_data(self, offset: u8) -> Machine {
        let m = self.with_fifo(
            self.ppu.pixel_fifo.spec_set_bgw(1 + offset, self.bus_read(self.tile_data_addr(offset))),
        ).load_sprite_data_from(offset, 0);
        m.with_fifo(
            m.ppu.pixel_fifo.spec_set_state(
                if offset == 0 {
                    FetchState::FS_TILE_DATA_HIGH
                } else {
                    FetchState::FS_IDLE
                },
            ),
        )
    }

    /// The colour number of background or window at the given bit of the
    /// fetched tile row: the low byte gives bit 0, the high byte bit 1.
    pub open spec fn bg_color_index(self, bit: u8) -> u8 {
        ((if spec_bit(self.ppu.pixel_fifo.bgw_fetch_data[1], bit) {
            1int
        } else {
            0int
        }) + (if spec_bit(self.ppu.pixel_fifo.bgw_fetch_data[2], bit) {
            2int
        } else {
            0int
        })) as u8
    }

    /// The shade of the next pixel once the fetched sprites from the
    /// `i`-th on had their say: the first sprite that covers the pixel
    /// with a colour other than 0 wins, unless it is behind a background
    /// colour other than 0.
    #[verifier::opaque]
    pub open spec fn sprite_color_from(self, i: int, color: u32, bg_color: u8) -> u32
        decreases 3 - i,
    {
        if i < 0 || i >= 3 || i >= self.ppu.fetched_entries.len() {
            color
        } else {
            let index = self.ppu.fetched_entries[i];
            let e = self.ppu.spec_oam_entry(index as int);
            let offset = self.ppu.pixel_fifo.fifo_x - self.ppu.spec_sprite_x(
                index,
                self.lcd.scroll_x,
            );
            if offset < 0 || offset > 7 {
                self.sprite_color_from(i + 1, color, bg_color)
            } else {
                let bit = if e.spec_get_flag(X_FLIP_MASK) != 0 {
                    offset as u8
                } else {
                    (7 - offset) as u8
                };
                let data = self.ppu.pixel_fifo.fetch_entry_data;
                let val = (if spec_bit(data[2 * i], bit) {
                    1int
                } else {
                    0int
                }) + (if spec_bit(data[2 * i + 1], bit) {
                    2int
                } else {
                    0int
                });
                if val != 0 && (e.spec_get_flag(PRIORITY_MASK) == 0 || bg_color == 0) {
                    if e.spec_get_flag(DMG_PALETTE_MASK) != 0 {
                        self.lcd.sp2_colors[val]
                    } else {
                        self.lcd.sp1_colors[val]
                    }
                } else {
                    self.sprite_color_from(i + 1, color, bg_color)
                }
            }
        }
    }

    /// The shade of the next pixel, taken from the given bit of the
    /// fetched rows.
    #[verifier::opaque]
    pub open spec fn pixel_color(self, bit: u8) -> u32 {
        let index = self.bg_color_index(bit);
        let bg = if self.lcd.spec_lcdc_flag(BGW_ENABLE_MASK) {
            self.lcd.bg_colors[index as int]
        } else {
            self.lcd.bg_colors[0]
        };
        if self.lcd.spec_lcdc_flag(OBJ_ENABLE_MASK) {
            self.sprite_color_from(0, bg, index)
        } else {
            bg
        }
    }

    /// Whether the pixels of the fetched tile are shown: the tile does not
    /// lie left of the screen.
    pub open spec fn tile_on_screen(self) -> bool {
        self.ppu.pixel_fifo.fetch_x - (8 - self.lcd.scroll_x % 8) >= 0
    }

    /// The machine after the pixels of the fetched tile from the `i`-th on
    /// were put into the queue.
    #[verifier::opaque]
    pub open spec fn fifo_add_from(self, i: int) -> Machine
        decreases 8 - i,
    {
        if i < 0 || i >= 8 {
            self
        } else if self.tile_on_screen() {
            self.with_fifo(
                self.ppu.pixel_fifo.spec_push_pixel(self.pixel_color((7 - i) as u8)),
            ).fifo_add_from(i + 1)
        } else {
            self.fifo_add_from(i + 1)
        }
    }

    /// Whether the queue takes another tile: it holds at most eight pixels.
    pub open spec fn fifo_has_room(self) -> bool {
        self.ppu.pixel_fifo.fifo.len() <= 8
    }

    /// The machine after the fetcher tried to put the fetched tile into the
    /// queue.
    #[verifier::opaque]
    pub open spec fn fifo_add(self) -> Machine {
        if self.fifo_has_room() {
            self.fifo_add_from(0)
        } else {
            self
        }
    }

    /// The fetcher's last step: the tile goes into the queue if there is
    /// room, else the fetcher waits.
    #[verifier::opaque]
    pub open spec fn fetch_push(self) -> Machine {
        if self.fifo_has_room() {
            let m = self.fifo_add_from(0);
            m.with_fifo(m.ppu.pixel_fifo.spec_set_state(FetchState::FS_TILE))
        } else {
            self
        }
    }

    /// One step of the fetcher.
    #[verifier::opaque]
    pub open spec fn pipeline_fetch(self) -> Machine {
        match self.ppu.pixel_fifo.curr_state {
            FetchState::FS_TILE => self.fetch_tile(),
            FetchState::FS_TILE_DATA_LOW => self.fetch_tile_data(0),
            FetchState::FS_TILE_DATA_HIGH => self.fetch_tile_data(1),
            FetchState::FS_IDLE => self.with_fifo(
                self.ppu.pixel_fifo.spec_set_state(FetchState::FS_PUSH),
            ),
            FetchState::FS_PUSH => self.fetch_push(),
        }
    }

    /// Where in the frame buffer the next pixel goes.
    pub open spec fn pixel_offset(self) -> int {
        self.ppu.pixel_fifo.pushed_x + self.lcd.ly * 160
    }

    /// The machine after one pixel left the queue, if the queue holds more
    /// than eight: the pixel goes to the frame buffer unless it is one of
    /// the `SCX mod 8` that are discarded at the start of the line.
    #[verifier::opaque]
    pub open spec fn pipeline_push_pixel(self) -> Machine {
        let fifo = self.ppu.pixel_fifo;
        if fifo.fifo.len() > 8 {
            let m = self.with_fifo(fifo.spec_pop());
            let m2 = if fifo.line_x >= self.lcd.scroll_x % 8 {
                let m1 = m.with_ppu(m.ppu.spec_put_pixel(self.pixel_offset(), fifo.fifo[0]));
                m1.with_fifo(m1.ppu.pixel_fifo.spec_bump_pushed_x())
            } else {
                m
            };
            m2.with_fifo(m2.ppu.pixel_fifo.spec_bump_line_x())
        } else {
            self
        }
    }

    /// The machine with the fetcher's map position set from LY and the
    /// scroll registers.
    #[verifier::opaque]
    pub open spec fn pipeline_position(self) -> Machine {
        let y = spec_wrap8(self.lcd.ly + self.lcd.scroll_y);
        self.with_fifo(
            self.ppu.pixel_fifo.spec_set_map(
                y,
                spec_wrap8(self.ppu.pixel_fifo.fetch_x + self.lcd.scroll_x),
                ((y % 8) * 2) as u8,
            ),
        )
    }

    /// One dot of the pixel pipeline: the fetcher steps on every other dot,
    /// the queue gives up a pixel on every dot.
    #[verifier::opaque]
    pub open spec fn pipeline_process(self) -> Machine {
        let m = self.pipeline_position();
        let m2 = if m.ppu.line_ticks % 2 == 0 {
            m.pipeline_fetch()
        } else {
            m
        };
        m2.pipeline_push_pixel()
    }
}

impl PPU {
    /// Looks for a window tile in place of the background tile.
    pub fn pipeline_load_window_tile(emu: &mut Emulator)
        ensures
            final(emu)@ == old(emu)@.load_window_tile(),
            old(emu)@.wf() ==> final(emu)@.wf(),
            old(emu).cpu.spec_clock_frame(final(emu).cpu),
    {
        proof {
            reveal(Machine::load_window_tile);
        }
        if !PPU::window_visible(emu) {
            return ;
        }
        let win_y: u16 = emu.lcd.win_y as u16;
        let win_x: u16 = emu.lcd.win_x as u16;
        let fetch_x: u16 = emu.ppu.pixel_fifo.fetch_x as u16;
        let ly: u16 = emu.lcd.ly as u16;
        if fetch_x + 7 >= win_x && fetch_x + 7 < win_x + 144 + 14 && ly >= win_y && ly < win_y
            + 160 {
            let w_tile_y: u16 = (emu.ppu.window_line / 8) as u16;
            let addr: u16 = emu.lcd.get_lcdc_win_tile_map_area() + (fetch_x + 7 - win_x) / 8
                + w_tile_y * 32;
            let data: u8 = PPU::rebias(emu, bus_read(emu, addr));
            emu.ppu.pixel_fifo.set_bgw(0, data);
        }
    }

    /// Renumbers a tile for the tile data area in use.
    pub fn rebias(emu: &Emulator, tile: u8) -> (r: u8)
        ensures
            r == emu@.rebias(tile),
    {
        if emu.lcd.get_lcdc_bg_tile_data_area() == 0x8800 {
            add8(tile, 128)
        } else {
            tile
        }
    }

    /// Reads the background tile number, then looks for a window tile.
    pub fn pipeline_load_bg_tile(emu: &mut Emulator)
        ensures
            final(emu)@ == old(emu)@.load_bg_tile(),
            old(emu)@.wf() ==> final(emu)@.wf(),
            old(emu).cpu.spec_clock_frame(final(emu).cpu),
    {
        proof {
            reveal(Machine::load_bg_tile);
        }
        let addr: u16 = emu.lcd.get_lcdc_bg_tile_map_area() + (emu.ppu.pixel_fifo.map_x / 8) as u16
            + ((emu.ppu.pixel_fifo.map_y / 8) as u16) * 32;
        let data: u8 = PPU::rebias(emu, bus_read(emu, addr));
        emu.ppu.pixel_fifo.set_bgw(0, data);
        PPU::pipeline_load_window_tile(emu);
    }

    /// Takes the tile number, where background and window are switched
    /// on.
    pub fn pipeline_fetch_tile_number(emu: &mut Emulator)
        ensures
            final(emu)@ == old(emu)@.fetch_tile_number(),
            old(emu)@.wf() ==> final(emu)@.wf(),
            old(emu).cpu.spec_clock_frame(final(emu).cpu),
    {
        proof {
            reveal(Machine::fetch_tile_number);
        }
        if emu.lcd.get_lcdc_flag(BGW_ENABLE_MASK) {
            PPU::pipeline_load_bg_tile(emu);
        }
    }

    /// Picks the sprites that overlap the tile, where objects are switched
    /// on.
    pub fn pipeline_fetch_tile_sprites(emu: &mut Emulator)
        ensures
            final(emu)@ == old(emu)@.fetch_tile_sprites(),
            old(emu)@.wf() ==> final(emu)@.wf(),
            old(emu).cpu.spec_clock_frame(final(emu).cpu),
    {
        proof {
            reveal(Machine::fetch_tile_sprites);
        }
        if emu.lcd.get_lcdc_flag(OBJ_ENABLE_MASK) && emu.ppu.line_sprites.len() > 0 {
            let scroll_x: u8 = emu.lcd.scroll_x;
            emu.ppu.pipeline_load_sprite_tile(scroll_x);
        }
    }

    /// The fetcher's first step.
    pub fn pipeline_fetch_tile(emu: &mut Emulator)
        ensures
            final(emu)@ == old(emu)@.fetch_tile(),
            old(emu)@.wf() ==> final(emu)@.wf(),
            old(emu).cpu.spec_clock_frame(final(emu).cpu),
    {
        proof {
            reveal(Machine::fetch_tile);
        }
        emu.ppu.clear_fetched();
        PPU::pipeline_fetch_tile_number(emu);
        PPU::pipeline_fetch_tile_sprites(emu);
        emu.ppu.pixel_fifo.set_state(FetchState::FS_TILE_DATA_LOW);
        emu.ppu.pixel_fifo.advance_fetch_x();
    }

    /// The address of one byte of the row of a fetched sprite.
    pub fn sprite_data_addr(emu: &Emulator, i: usize, offset: u8) -> (r: u16)
        requires
            i < emu.ppu.fetched_entries.len(),
            offset <= 1,
        ensures
            r == emu@.sprite_data_addr(i as int, offset),
    {
        proof {
            reveal(Machine::sprite_data_addr);
        }
        let entry: OamEntry = emu.ppu.oam_entry(emu.ppu.fetched_entries[i] as usize);
        let sprite_height: u8 = emu.lcd.get_lcdc_obj_size();
        let row: u8 = (((emu.lcd.ly as u16 + 16 + 0x100 - entry.y as u16) * 2) % 0x100) as u8;
        assert(row == spec_wrap8((emu.lcd.ly + 16 - entry.y) * 2)) by {
            assert((emu.lcd.ly as int + 16 + 0x100 - entry.y as int) * 2 == (emu.lcd.ly + 16
                - entry.y) * 2 + 2 * 0x100);
        }
        let tile_y: u8 = if entry.get_flag(Y_FLIP_MASK) != 0 {
            sub8(sprite_height * 2 - 2, row)
        } else {
            row
        };
        let tile_index: u8 = if sprite_height == 16 {
            entry.tile - entry.tile % 2
        } else {
            entry.tile
        };
        0x8000 + (tile_index as u16) * 16 + tile_y as u16 + offset as u16
    }

    /// Reads one byte, low or high, of the row of each fetched sprite.
    pub fn pipeline_load_sprite_data(emu: &mut Emulator, offset: u8)
        requires
            offset <= 1,
        ensures
            final(emu)@ == old(emu)@.load_sprite_data_from(offset, 0),
            old(emu)@.wf() ==> final(emu)@.wf(),
            old(emu).cpu.spec_clock_frame(final(emu).cpu),
    {
        proof {
            reveal(Machine::load_sprite_data_from);
        }
        let mut i: usize = 0;
        while i < 3 && i < emu.ppu.fetched_entries.len()
            invariant
                i <= 3,
                offset <= 1,
                emu@.load_sprite_data_from(offset, i as int) == old(emu)@.load_sprite_data_from(
                    offset,
                    0,
                ),
                old(emu)@.wf() ==> emu@.wf(),
                old(emu).cpu.spec_clock_frame(emu.cpu),
            decreases 3 - i,
        {
            proof {
                reveal(Machine::load_sprite_data_from);
            }
            let addr: u16 = PPU::sprite_data_addr(emu, i, offset);
            let data: u8 = bus_read(emu, addr);
            emu.ppu.pixel_fifo.set_entry_data(2 * i + offset as usize, data);
            i = i + 1;
        }
    }

    /// The fetcher's second and third step: one byte of the tile row and
    /// of the rows of the fetched sprites.
    pub fn pipeline_fetch_tile_data(emu: &mut Emulator, offset: u8)
        requires
            offset <= 1,
        ensures
            final(emu)@ == old(emu)@.fetch_tile_data(offset),
            old(emu)@.wf() ==> final(emu)@.wf(),
            old(emu).cpu.spec_clock_frame(final(emu).cpu),
    {
        proof {
            reveal(Machine::fetch_tile_data);
        }
        let addr: u16 = emu.lcd.get_lcdc_bg_tile_data_area() + (
        emu.ppu.pixel_fifo.bgw_fetch_data[0] as u16) * 16 + emu.ppu.pixel_fifo.tile_y as u16
            + offset as u16;
        let data: u8 = bus_read(emu, addr);
        emu.ppu.pixel_fifo.set_bgw(1 + offset as usize, data);
        PPU::pipeline_load_sprite_data(emu, offset);
        emu.ppu.pixel_fifo.set_state(
            if offset == 0 {
                FetchState::FS_TILE_DATA_HIGH
            } else {
                FetchState::FS_IDLE
            },
        );
    }

    /// The shade that the fetched sprites give the next pixel, or `color`
    /// if none of them covers it.
    pub fn fetch_sprite_pixels(emu: &Emulator, color: u32, bg_color: u8) -> (r: u32)
        ensures
            r == emu@.sprite_color_from(0, color, bg_color),
    {
        proof {
            reveal(Machine::sprite_color_from);
        }
        let mut i: usize = 0;
        while i < 3 && i < emu.ppu.fetched_entries.len()
            invariant
                i <= 3,
                emu@.sprite_color_from(i as int, color, bg_color) == emu@.sprite_color_from(
                    0,
                    color,
                    bg_color,
                ),
            decreases 3 - i,
        {
            proof {
                reveal(Machine::sprite_color_from);
            }
            let index: u8 = emu.ppu.fetched_entries[i];
            let entry: OamEntry = emu.ppu.oam_entry(index as usize);
            let sp_x: i32 = entry.x as i32 - 8 + (emu.lcd.scroll_x % 8) as i32;
            let offset: i32 = emu.ppu.pixel_fifo.fifo_x as i32 - sp_x;
            if 0 <= offset && offset <= 7 {
                let column: u8 = if entry.get_flag(X_FLIP_MASK) != 0 {
                    offset as u8
                } else {
                    (7 - offset) as u8
                };
                let low: u8 = if bit(emu.ppu.pixel_fifo.fetch_entry_data[2 * i], column) {
                    1
                } else {
                    0
                };
                let high: u8 = if bit(emu.ppu.pixel_fifo.fetch_entry_data[2 * i + 1], column) {
                    2
                } else {
                    0
                };
                let val: u8 = low + high;
                let bg_priority: bool = entry.get_flag(PRIORITY_MASK) != 0;
                if val != 0 && (!bg_priority || bg_color == 0) {
                    if entry.get_flag(DMG_PALETTE_MASK) != 0 {
                        return emu.lcd.sp2_colors[val as usize];
                    } else {
                        return emu.lcd.sp1_colors[val as usize];
                    }
                }
            }
            i = i + 1;
        }
        color
    }

    /// The shade of the next pixel, from the given bit of the fetched
    /// rows.
    pub fn pixel_color(emu: &Emulator, column: u8) -> (r: u32)
        ensures
            r == emu@.pixel_color(column),
    {
        proof {
            reveal(Machine::pixel_color);
        }
        let low: u8 = if bit(emu.ppu.pixel_fifo.bgw_fetch_data[1], column) {
            1
        } else {
            0
        };
        let high: u8 = if bit(emu.ppu.pixel_fifo.bgw_fetch_data[2], column) {
            2
        } else {
            0
        };
        let index: u8 = low + high;
        let mut color: u32 = emu.lcd.bg_colors[index as usize];
        if !emu.lcd.get_lcdc_flag(BGW_ENABLE_MASK) {
            color = emu.lcd.bg_colors[0];
        }
        if emu.lcd.get_lcdc_flag(OBJ_ENABLE_MASK) {
            color = PPU::fetch_sprite_pixels(emu, color, index);
        }
        color
    }

    /// Tries to put the eight pixels of the fetched tile into the queue.
    /// Returns false, and does nothing, while the queue holds more than
    /// eight pixels.
    pub fn pipeline_fifo_add(emu: &mut Emulator) -> (r: bool)
        ensures
            r == old(emu)@.fifo_has_room(),
            final(emu)@ == old(emu)@.fifo_add(),
            old(emu)@.wf() ==> final(emu)@.wf(),
            old(emu).cpu.spec_clock_frame(final(emu).cpu),
    {
        proof {
            reveal(Machine::fifo_add);
            reveal(Machine::fifo_add_from);
        }
        if emu.ppu.pixel_fifo.get_size() > 8 {
            return false;
        }
        let x: i32 = emu.ppu.pixel_fifo.fetch_x as i32 - (8 - (emu.lcd.scroll_x % 8) as i32);
        let mut i: u8 = 0;
        while i < 8
            invariant
                i <= 8,
                x == emu.ppu.pixel_fifo.fetch_x - (8 - emu.lcd.scroll_x % 8),
                emu@.fifo_add_from(i as int) == old(emu)@.fifo_add_from(0),
                old(emu)@.wf() ==> emu@.wf(),
                old(emu).cpu.spec_clock_frame(emu.cpu),
            decreases 8 - i,
        {
            proof {
                reveal(Machine::fifo_add_from);
            }
            if x >= 0 {
                let color: u32 = PPU::pixel_color(emu, 7 - i);
                emu.ppu.pixel_fifo.push_pixel(color);
            }
            i = i + 1;
        }
        true
    }

    /// The fetcher's last step.
    pub fn pipeline_fetch_push(emu: &mut Emulator)
        ensures
            final(emu)@ == old(emu)@.fetch_push(),
            old(emu)@.wf() ==> final(emu)@.wf(),
            old(emu).cpu.spec_clock_frame(final(emu).cpu),
    {
        proof {
            reveal(Machine::fetch_push);
            reveal(Machine::fifo_add);
        }
        if PPU::pipeline_fifo_add(emu) {
            emu.ppu.pixel_fifo.set_state(FetchState::FS_TILE);
        }
    }

    /// The fetcher's idle step.
    pub fn pipeline_fetch_idle(emu: &mut Emulator)
        requires
            old(emu).ppu.pixel_fifo.curr_state == FetchState::FS_IDLE,
        ensures
            final(emu)@ == old(emu)@.pipeline_fetch(),
            old(emu)@.wf() ==> final(emu)@.wf(),
            old(emu).cpu.spec_clock_frame(final(emu).cpu),
    {
        proof {
            reveal(Machine::pipeline_fetch);
        }
        emu.ppu.pixel_fifo.set_state(FetchState::FS_PUSH);
    }

    /// One step of the fetcher, as its state asks.
    pub fn pipeline_fetch(emu: &mut Emulator)
        ensures
            final(emu)@ == old(emu)@.pipeline_fetch(),
            old(emu)@.wf() ==> final(emu)@.wf(),
            old(emu).cpu.spec_clock_frame(final(emu).cpu),
    {
        proof {
            reveal(Machine::pipeline_fetch);
        }
        match emu.ppu.pixel_fifo.curr_state {
            FetchState::FS_TILE => {
                PPU::pipeline_fetch_tile(emu);
            },
            FetchState::FS_TILE_DATA_LOW => {
                PPU::pipeline_fetch_tile_data(emu, 0);
            },
            FetchState::FS_TILE_DATA_HIGH => {
                PPU::pipeline_fetch_tile_data(emu, 1);
            },
            FetchState::FS_IDLE => {
                PPU::pipeline_fetch_idle(emu);
            },
            FetchState::FS_PUSH => {
                PPU::pipeline_fetch_push(emu);
            },
        }
    }

    /// Takes one pixel from the queue, if it holds more than eight, and
    /// writes it to the frame buffer unless it is to be discarded.
    pub fn pipeline_push_pixel(emu: &mut Emulator)
        ensures
            final(emu)@ == old(emu)@.pipeline_push_pixel(),
            old(emu)@.wf() ==> final(emu)@.wf(),
            old(emu).cpu.spec_clock_frame(final(emu).cpu),
    {
        proof {
            reveal(Machine::pipeline_push_pixel);
        }
        if emu.ppu.pixel_fifo.get_size() > 8 {
            let offset: usize = emu.ppu.pixel_fifo.pushed_x as usize + (emu.lcd.ly as usize) * (
            X_RES as usize);
            let shown: bool = emu.ppu.pixel_fifo.line_x >= emu.lcd.scroll_x % 8;
            let data: u32 = emu.ppu.pixel_fifo.pop();
            if shown {
                emu.ppu.put_pixel(offset, data);
                emu.ppu.pixel_fifo.bump_pushed_x();
            }
            emu.ppu.pixel_fifo.bump_line_x();
        }
    }

    /// Sets the fetcher's map position from LY and the scroll registers.
    pub fn pipeline_position(emu: &mut Emulator)
        ensures
            final(emu)@ == old(emu)@.pipeline_position(),
            old(emu)@.wf() ==> final(emu)@.wf(),
            old(emu).cpu.spec_clock_frame(final(emu).cpu),
    {
        proof {
            reveal(Machine::pipeline_position);
        }
        let y: u8 = add8(emu.lcd.ly, emu.lcd.scroll_y);
        let x: u8 = add8(emu.ppu.pixel_fifo.fetch_x, emu.lcd.scroll_x);
        emu.ppu.pixel_fifo.set_map(y, x, (y % 8) * 2);
    }

    /// One dot of the pixel pipeline.
    pub fn pipeline_process(emu: &mut Emulator)
        ensures
            final(emu)@ == old(emu)@.pipeline_process(),
            old(emu)@.wf() ==> final(emu)@.wf(),
            old(emu).cpu.spec_clock_frame(final(emu).cpu),
    {
        proof {
            reveal(Machine::pipeline_process);
        }
        PPU::pipeline_position(emu);
        if emu.ppu.line_ticks % 2 == 0 {
            PPU::pipeline_fetch(emu);
        }
        PPU::pipeline_push_pixel(emu);
    }
}

} // verus!

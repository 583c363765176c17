pub mod fifo;
pub mod pipeline;
pub mod scanline;
pub mod timing;

use vstd::prelude::*;
use vstd::array::spec_array_update;
use crate::emulator::ppu::fifo::PixelFifo;
use crate::emulator::ppu::fifo::PixelFifoView;

verus! {

pub const PRIORITY_MASK: u8 = 0x80;

pub const Y_FLIP_MASK: u8 = 0x40;

pub const X_FLIP_MASK: u8 = 0x20;

pub const DMG_PALETTE_MASK: u8 = 0x10;

pub const BANK_MASK: u8 = 0x08;

pub const CGB_PALETTE_MASK: u8 = 0x07;

pub const LINES_PER_FRAME: u32 = 154;

pub const TICKS_PER_LINE: u32 = 456;

pub const Y_RES: u8 = 144;

pub const X_RES: u8 = 160;

/// The number of sprites in OAM.
pub const OAM_ENTRIES: usize = 40;

/// The number of bytes in OAM.
pub const OAM_SIZE: usize = 160;

/// The number of bytes in VRAM.
pub const VRAM_SIZE: usize = 0x2000;

/// The number of pixels in the frame buffer.
pub const VIDEO_BUFFER_SIZE: usize = 23040;

/// One sprite of the object attribute memory.
#[derive(Debug, PartialEq, Eq, Structural, Clone, Copy)]
pub struct OamEntry {
    pub y: u8,
    pub x: u8,
    pub tile: u8,
    pub flags: u8,
}

impl OamEntry {
    pub open spec fn spec_get_flag(self, mask: u8) -> u8 {
        self.flags & mask
    }

    pub open spec fn spec_set_flag(self, mask: u8, value: u8) -> OamEntry {
        OamEntry { flags: (self.flags & !mask) | (value & mask), ..self }
    }

    pub fn new() -> (e: OamEntry)
        ensures
            e == (OamEntry { y: 0, x: 0, tile: 0, flags: 0 }),
    {
        OamEntry { x: 0, y: 0, tile: 0, flags: 0 }
    }

    /// Returns the bits of the flag byte under the mask.
    pub fn get_flag(&self, mask: u8) -> (r: u8)
        ensures
            r == self.spec_get_flag(mask),
    {
        self.flags & mask
    }

    /// Replaces the bits of the flag byte under the mask by those of
    /// `value`.
    pub fn set_flag(&mut self, mask: u8, value: u8)
        ensures
            *final(self) == old(self).spec_set_flag(mask, value),
    {
        self.flags = (self.flags & !mask) | (value & mask);
    }
}

/// The picture processing unit: video memory, the sprites of the current
/// line, the pixel pipeline and the frame buffer.
pub struct PPU {
    /// The number of frames completed.
    pub curr_frame: u64,
    /// The dot within the current line.
    pub line_ticks: u32,
    pub pixel_fifo: PixelFifo,
    /// The sprites on the current line, as indices into OAM, by ascending
    /// X.
    pub line_sprites: Vec<u8>,
    /// The sprites that overlap the tile being fetched, as indices into
    /// OAM.
    pub fetched_entries: Vec<u8>,
    /// The line of the window that is drawn next.
    pub window_line: u8,
    /// The frame buffer, 160 pixels a line.
    pub video_buffer: [u32; 23040],
    /// Object attribute memory: 40 sprites of four bytes (Y, X, tile,
    /// flags).
    pub oam_ram: [u8; 160],
    pub vram: [u8; 0x2000],
}

/// The mathematical content of the PPU.
pub struct PpuView {
    pub curr_frame: u64,
    pub line_ticks: u32,
    pub pixel_fifo: PixelFifoView,
    pub line_sprites: Seq<u8>,
    pub fetched_entries: Seq<u8>,
    pub window_line: u8,
    pub video_buffer: [u32; 23040],
    pub oam_ram: [u8; 160],
    pub vram: [u8; 0x2000],
}

impl View for PPU {
    type V = PpuView;

    open spec fn view(&self) -> PpuView {
        PpuView {
            curr_frame: self.curr_frame,
            line_ticks: self.line_ticks,
            pixel_fifo: self.pixel_fifo@,
            line_sprites: self.line_sprites@,
            fetched_entries: self.fetched_entries@,
            window_line: self.window_line,
            video_buffer: self.video_buffer,
            oam_ram: self.oam_ram,
            vram: self.vram,
        }
    }
}

/// Where in OAM a bus address (0xFE00 to 0xFE9F) or a plain offset (0 to
/// 0x9F) falls.
pub open spec fn spec_oam_offset(address: u16) -> int {
    if address >= 0xFE00 {
        address - 0xFE00
    } else {
        address as int
    }
}

impl PpuView {
    /// The state before the first dot of the first frame.
    pub open spec fn spec_new(self) -> bool {
        &&& self.curr_frame == 0
        &&& self.line_ticks == 0
        &&& self.pixel_fifo == PixelFifoView::spec_new()
        &&& self.line_sprites == Seq::<u8>::empty()
        &&& self.fetched_entries == Seq::<u8>::empty()
        &&& self.window_line == 0
        &&& forall|i: int| 0 <= i < 23040 ==> self.video_buffer[i] == 0
        &&& forall|i: int| 0 <= i < 160 ==> self.oam_ram[i] == 0
        &&& forall|i: int| 0 <= i < 0x2000 ==> self.vram[i] == 0
    }

    /// The sprite with the given index, 0 to 39; for any other index, a
    /// sprite of zeros.
    pub open spec fn spec_oam_entry(self, index: int) -> OamEntry {
        if 0 <= index < 40 {
            OamEntry {
                y: self.oam_ram[4 * index],
                x: self.oam_ram[4 * index + 1],
                tile: self.oam_ram[4 * index + 2],
                flags: self.oam_ram[4 * index + 3],
            }
        } else {
            OamEntry { y: 0, x: 0, tile: 0, flags: 0 }
        }
    }

    /// Whether the sprite is on the line `ly`: its X is not 0 and the line
    /// falls within its height.
    pub open spec fn spec_sprite_on_line(self, index: int, ly: u8, height: u8) -> bool {
        let e = self.spec_oam_entry(index);
        e.x != 0 && e.y <= ly + 16 && e.y + height > ly + 16
    }

    /// The sprites of the line among the first `n` of OAM, in OAM order: at
    /// most ten.
    pub open spec fn spec_select_sprites(self, ly: u8, height: u8, n: int) -> Seq<u8>
        decreases n,
    {
        if n <= 0 {
            Seq::empty()
        } else {
            let prev = self.spec_select_sprites(ly, height, n - 1);
            if prev.len() < 10 && self.spec_sprite_on_line(n - 1, ly, height) {
                prev.push((n - 1) as u8)
            } else {
                prev
            }
        }
    }

    /// The first place at or after `from` in `sorted` whose sprite lies
    /// right of `x`; the length of `sorted` if there is none.
    pub open spec fn spec_insert_pos(self, sorted: Seq<u8>, x: u8, from: int) -> int
        decreases sorted.len() - from,
    {
        if from >= sorted.len() {
            sorted.len() as int
        } else if self.spec_oam_entry(sorted[from] as int).x > x {
            from
        } else {
            self.spec_insert_pos(sorted, x, from + 1)
        }
    }

    /// The first `n` sprites of `selected`, sorted by X; sprites with the
    /// same X keep their order.
    pub open spec fn spec_sort_sprites(self, selected: Seq<u8>, n: int) -> Seq<u8>
        decreases n,
    {
        if n <= 0 {
            Seq::empty()
        } else {
            let sorted = self.spec_sort_sprites(selected, n - 1);
            let index = selected[n - 1];
            sorted.insert(
                self.spec_insert_pos(sorted, self.spec_oam_entry(index as int).x, 0),
                index,
            )
        }
    }

    /// The sprites of the line `ly`: the first ten of OAM that are on the
    /// line, sorted by X.
    pub open spec fn spec_line_sprites(self, ly: u8, height: u8) -> Seq<u8> {
        let selected = self.spec_select_sprites(ly, height, 40);
        self.spec_sort_sprites(selected, selected.len() as int)
    }

    pub open spec fn spec_load_line_sprites(self, ly: u8, height: u8) -> PpuView {
        PpuView { line_sprites: self.spec_line_sprites(ly, height), ..self }
    }

    /// The left edge of the sprite on the line as the queue counts columns.
    pub open spec fn spec_sprite_x(self, index: u8, scroll_x: u8) -> int {
        self.spec_oam_entry(index as int).x - 8 + scroll_x % 8
    }

    /// Whether the sprite's left or right edge falls into the eight columns
    /// from `fetch_x` on.
    pub open spec fn spec_sprite_in_fetch(self, index: u8, scroll_x: u8) -> bool {
        let sp_x = self.spec_sprite_x(index, scroll_x);
        let fetch_x = self.pixel_fifo.fetch_x as int;
        (sp_x >= fetch_x && sp_x < fetch_x + 8) || (sp_x + 8 >= fetch_x && sp_x + 8 < fetch_x + 8)
    }

    /// The sprites that the fetcher takes along with the current tile,
    /// among the first `n` of the line: at most three.
    pub open spec fn spec_fetch_sprites(self, scroll_x: u8, n: int) -> Seq<u8>
        decreases n,
    {
        if n <= 0 {
            Seq::empty()
        } else {
            let prev = self.spec_fetch_sprites(scroll_x, n - 1);
            if prev.len() < 3 && self.spec_sprite_in_fetch(self.line_sprites[n - 1], scroll_x) {
                prev.push(self.line_sprites[n - 1])
            } else {
                prev
            }
        }
    }

    pub open spec fn spec_load_sprite_tile(self, scroll_x: u8) -> PpuView {
        PpuView {
            fetched_entries: self.spec_fetch_sprites(scroll_x, self.line_sprites.len() as int),
            ..self
        }
    }

    pub open spec fn spec_clear_fetched(self) -> PpuView {
        PpuView { fetched_entries: Seq::empty(), ..self }
    }

    pub open spec fn spec_clear_line_sprites(self) -> PpuView {
        PpuView { line_sprites: Seq::empty(), ..self }
    }

    pub open spec fn spec_set_line_ticks(self, ticks: u32) -> PpuView {
        PpuView { line_ticks: ticks, ..self }
    }

    pub open spec fn spec_set_window_line(self, line: u8) -> PpuView {
        PpuView { window_line: line, ..self }
    }

    /// One more frame is complete.
    pub open spec fn spec_next_frame(self) -> PpuView {
        PpuView {
            curr_frame: if self.curr_frame == u64::MAX {
                0
            } else {
                (self.curr_frame + 1) as u64
            },
            ..self
        }
    }

    /// The frame buffer with the pixel at `offset` replaced; unchanged for
    /// an offset past its end.
    pub open spec fn spec_put_pixel(self, offset: int, data: u32) -> PpuView {
        if 0 <= offset < 23040 {
            PpuView { video_buffer: spec_array_update(self.video_buffer, offset, data), ..self }
        } else {
            self
        }
    }

    pub open spec fn spec_oam_read(self, address: u16) -> u8 {
        self.oam_ram[spec_oam_offset(address)]
    }

    pub open spec fn spec_oam_write(self, address: u16, value: u8) -> PpuView {
        PpuView {
            oam_ram: spec_array_update(self.oam_ram, spec_oam_offset(address), value),
            ..self
        }
    }

    pub open spec fn spec_vram_read(self, address: u16) -> u8 {
        self.vram[address - 0x8000]
    }

    pub open spec fn spec_vram_write(self, address: u16, value: u8) -> PpuView {
        PpuView { vram: spec_array_update(self.vram, address - 0x8000, value), ..self }
    }
}

/// Whether the sprites of `list` stand in the order of their X.
pub open spec fn spec_sorted_by_x(ppu: PpuView, list: Seq<u8>) -> bool {
    forall|i: int, j: int|
        0 <= i < j < list.len() ==> ppu.spec_oam_entry(list[i] as int).x <= ppu.spec_oam_entry(
            list[j] as int,
        ).x
}

/// The sprites chosen among the first `n` of OAM are at most ten, and each
/// of them is on the line.
proof fn lemma_selected_sprites(ppu: PpuView, ly: u8, height: u8, n: int)
    requires
        n <= 40,
    ensures
        ppu.spec_select_sprites(ly, height, n).len() <= 10,
        forall|k: int|
            0 <= k < ppu.spec_select_sprites(ly, height, n).len() ==> ppu.spec_sprite_on_line(
                #[trigger] ppu.spec_select_sprites(ly, height, n)[k] as int,
                ly,
                height,
            ),
    decreases n,
{
    if n > 0 {
        lemma_selected_sprites(ppu, ly, height, n - 1);
    }
}

/// The place found for a sprite lies behind every sprite at or left of it
/// and before every sprite right of it.
proof fn lemma_insert_pos(ppu: PpuView, sorted: Seq<u8>, x: u8, from: int)
    requires
        0 <= from <= sorted.len(),
        spec_sorted_by_x(ppu, sorted),
        forall|k: int| 0 <= k < from ==> ppu.spec_oam_entry(sorted[k] as int).x <= x,
    ensures
        from <= ppu.spec_insert_pos(sorted, x, from) <= sorted.len(),
        forall|k: int|
            0 <= k < ppu.spec_insert_pos(sorted, x, from) ==> ppu.spec_oam_entry(
                sorted[k] as int,
            ).x <= x,
        forall|k: int|
            ppu.spec_insert_pos(sorted, x, from) <= k < sorted.len() ==> ppu.spec_oam_entry(
                sorted[k] as int,
            ).x > x,
    decreases sorted.len() - from,
{
    if from < sorted.len() && ppu.spec_oam_entry(sorted[from] as int).x <= x {
        lemma_insert_pos(ppu, sorted, x, from + 1);
    }
}

/// Sorting keeps the number of sprites and what holds of each of them, and
/// puts them in the order of their X.
proof fn lemma_sorted_sprites(ppu: PpuView, selected: Seq<u8>, n: int, ly: u8, height: u8)
    requires
        0 <= n <= selected.len(),
        forall|k: int|
            0 <= k < selected.len() ==> ppu.spec_sprite_on_line(
                #[trigger] selected[k] as int,
                ly,
                height,
            ),
    ensures
        ppu.spec_sort_sprites(selected, n).len() == n,
        spec_sorted_by_x(ppu, ppu.spec_sort_sprites(selected, n)),
        forall|k: int|
            0 <= k < n ==> ppu.spec_sprite_on_line(
                #[trigger] ppu.spec_sort_sprites(selected, n)[k] as int,
                ly,
                height,
            ),
    decreases n,
{
    if n > 0 {
        lemma_sorted_sprites(ppu, selected, n - 1, ly, height);
        let sorted = ppu.spec_sort_sprites(selected, n - 1);
        let index = selected[n - 1];
        let x = ppu.spec_oam_entry(index as int).x;
        lemma_insert_pos(ppu, sorted, x, 0);
        let pos = ppu.spec_insert_pos(sorted, x, 0);
        let result = sorted.insert(pos, index);
        assert(result == ppu.spec_sort_sprites(selected, n));
        assert forall|k: int| 0 <= k < n implies ppu.spec_sprite_on_line(
            #[trigger] result[k] as int,
            ly,
            height,
        ) by {
            if k < pos {
                assert(result[k] == sorted[k]);
            } else if k == pos {
                assert(result[k] == index);
            } else {
                assert(result[k] == sorted[k - 1]);
            }
        }
        assert forall|i: int, j: int| 0 <= i < j < result.len() implies ppu.spec_oam_entry(
            result[i] as int,
        ).x <= ppu.spec_oam_entry(result[j] as int).x by {
            let a: int = if i < pos {
                i
            } else {
                i - 1
            };
            let b: int = if j < pos {
                j
            } else {
                j - 1
            };
            if i != pos {
                assert(result[i] == sorted[a]);
            }
            if j != pos {
                assert(result[j] == sorted[b]);
            }
        }
    }
}

/// The sprites of a line: at most ten, each of them on the line with an X
/// other than 0, in the order of their X.
pub proof fn law_line_sprites(ppu: PpuView, ly: u8, height: u8)
    ensures
        ppu.spec_line_sprites(ly, height).len() <= 10,
        spec_sorted_by_x(ppu, ppu.spec_line_sprites(ly, height)),
        forall|k: int|
            0 <= k < ppu.spec_line_sprites(ly, height).len() ==> ppu.spec_sprite_on_line(
                #[trigger] ppu.spec_line_sprites(ly, height)[k] as int,
                ly,
                height,
            ),
{
    lemma_selected_sprites(ppu, ly, height, 40);
    let selected = ppu.spec_select_sprites(ly, height, 40);
    lemma_sorted_sprites(ppu, selected, selected.len() as int, ly, height);
}

impl PPU {
    /// A PPU with all its memories filled with zeros, before the first dot
    /// of the first frame.
    pub fn new() -> (p: PPU)
        ensures
            p@.spec_new(),
    {
        PPU {
            curr_frame: 0,
            line_ticks: 0,
            pixel_fifo: PixelFifo::new(),
            line_sprites: Vec::new(),
            fetched_entries: Vec::new(),
            window_line: 0,
            video_buffer: [0u32; 23040],
            oam_ram: [0u8; 160],
            vram: [0u8; 0x2000],
        }
    }

    /// The frame buffer: 144 lines of 160 ARGB pixels. It is complete
    /// whenever the frame counter has just moved on.
    pub fn frame(&self) -> (r: &[u32; 23040])
        ensures
            *r == self.video_buffer,
    {
        &self.video_buffer
    }

    /// The number of frames completed.
    pub fn frame_counter(&self) -> (r: u64)
        ensures
            r == self.curr_frame,
    {
        self.curr_frame
    }

    /// The sprite with the given index; a sprite of zeros for an index
    /// past the end of OAM.
    pub fn oam_entry(&self, index: usize) -> (e: OamEntry)
        ensures
            e == self@.spec_oam_entry(index as int),
    {
        if index < OAM_ENTRIES {
            OamEntry {
                y: self.oam_ram[4 * index],
                x: self.oam_ram[4 * index + 1],
                tile: self.oam_ram[4 * index + 2],
                flags: self.oam_ram[4 * index + 3],
            }
        } else {
            OamEntry { y: 0, x: 0, tile: 0, flags: 0 }
        }
    }

    /// Scans OAM for the sprites of the line `ly`: the first ten whose X
    /// is not 0 and whose height covers the line, sorted by X.
    pub fn load_line_sprites(&mut self, ly: u8, sprite_height: u8)
        ensures
            final(self)@ == old(self)@.spec_load_line_sprites(ly, sprite_height),
    {
        let mut selected: Vec<u8> = Vec::new();
        let mut i: usize = 0;
        while i < OAM_ENTRIES
            invariant
                i <= OAM_ENTRIES,
                self@ == old(self)@,
                selected@ == self@.spec_select_sprites(ly, sprite_height, i as int),
            decreases OAM_ENTRIES - i,
        {
            let entry: OamEntry = self.oam_entry(i);
            if selected.len() < 10 && entry.x != 0 && entry.y as u16 <= ly as u16 + 16
                && entry.y as u16 + sprite_height as u16 > ly as u16 + 16 {
                selected.push(i as u8);
            }
            i = i + 1;
        }
        let mut sorted: Vec<u8> = Vec::new();
        let mut k: usize = 0;
        while k < selected.len()
            invariant
                k <= selected.len(),
                self@ == old(self)@,
                sorted@ == self@.spec_sort_sprites(selected@, k as int),
            decreases selected.len() - k,
        {
            let index: u8 = selected[k];
            let x: u8 = self.oam_entry(index as usize).x;
            let mut pos: usize = 0;
            while pos < sorted.len() && self.oam_entry(sorted[pos] as usize).x <= x
                invariant
                    pos <= sorted.len(),
                    self@.spec_insert_pos(sorted@, x, pos as int) == self@.spec_insert_pos(
                        sorted@,
                        x,
                        0,
                    ),
                decreases sorted.len() - pos,
            {
                pos = pos + 1;
            }
            sorted.insert(pos, index);
            k = k + 1;
        }
        self.line_sprites = sorted;
    }

    /// Picks the sprites of the line that overlap the eight columns the
    /// fetcher is at: the first three.
    pub fn pipeline_load_sprite_tile(&mut self, scroll_x: u8)
        ensures
            final(self)@ == old(self)@.spec_load_sprite_tile(scroll_x),
    {
        let mut fetched: Vec<u8> = Vec::new();
        let fetch_x: i32 = self.pixel_fifo.fetch_x as i32;
        let mut i: usize = 0;
        while i < self.line_sprites.len()
            invariant
                i <= self.line_sprites.len(),
                self@ == old(self)@,
                fetch_x == self.pixel_fifo.fetch_x,
                fetched@ == self@.spec_fetch_sprites(scroll_x, i as int),
            decreases self.line_sprites.len() - i,
        {
            let index: u8 = self.line_sprites[i];
            let sp_x: i32 = self.oam_entry(index as usize).x as i32 - 8 + (scroll_x % 8) as i32;
            if fetched.len() < 3 && ((sp_x >= fetch_x && sp_x < fetch_x + 8) || (sp_x + 8
                >= fetch_x && sp_x + 8 < fetch_x + 8)) {
                fetched.push(index);
            }
            i = i + 1;
        }
        self.fetched_entries = fetched;
    }

    /// Forgets the sprites taken along with the last tile.
    pub fn clear_fetched(&mut self)
        ensures
            final(self)@ == old(self)@.spec_clear_fetched(),
    {
        self.fetched_entries.clear();
    }

    /// Forgets the sprites of the last line.
    pub fn clear_line_sprites(&mut self)
        ensures
            final(self)@ == old(self)@.spec_clear_line_sprites(),
    {
        self.line_sprites.clear();
    }

    pub fn set_line_ticks(&mut self, ticks: u32)
        ensures
            final(self)@ == old(self)@.spec_set_line_ticks(ticks),
    {
        self.line_ticks = ticks;
    }

    pub fn set_window_line(&mut self, line: u8)
        ensures
            final(self)@ == old(self)@.spec_set_window_line(line),
    {
        self.window_line = line;
    }

    /// Counts one more frame.
    pub fn next_frame(&mut self)
        ensures
            final(self)@ == old(self)@.spec_next_frame(),
    {
        self.curr_frame = if self.curr_frame == u64::MAX {
            0
        } else {
            self.curr_frame + 1
        };
    }

    /// Writes a pixel into the frame buffer; an offset past its end is
    /// ignored.
    pub fn put_pixel(&mut self, offset: usize, data: u32)
        ensures
            final(self)@ == old(self)@.spec_put_pixel(offset as int, data),
    {
        if offset < VIDEO_BUFFER_SIZE {
            self.video_buffer[offset] = data;
        }
    }

    /// Writes a byte to the OAM, at a bus address or at a plain offset.
    pub fn oam_write(&mut self, address: u16, value: u8)
        requires
            address < 0xA0 || 0xFE00 <= address < 0xFEA0,
        ensures
            final(self)@ == old(self)@.spec_oam_write(address, value),
    {
        let offset: u16 = if address >= 0xFE00 {
            address - 0xFE00
        } else {
            address
        };
        self.oam_ram[offset as usize] = value;
    }

    /// Reads a byte from the OAM, at a bus address or at a plain offset.
    pub fn oam_read(&self, address: u16) -> (r: u8)
        requires
            address < 0xA0 || 0xFE00 <= address < 0xFEA0,
        ensures
            r == self@.spec_oam_read(address),
    {
        let offset: u16 = if address >= 0xFE00 {
            address - 0xFE00
        } else {
            address
        };
        self.oam_ram[offset as usize]
    }

    /// Writes a byte to the VRAM.
    pub fn vram_write(&mut self, address: u16, value: u8)
        requires
            0x8000 <= address < 0xA000,
        ensures
            final(self)@ == old(self)@.spec_vram_write(address, value),
    {
        self.vram[(address - 0x8000) as usize] = value;
    }

    /// Reads a byte from the VRAM.
    pub fn vram_read(&self, address: u16) -> (r: u8)
        requires
            0x8000 <= address < 0xA000,
        ensures
            r == self@.spec_vram_read(address),
    {
        self.vram[(address - 0x8000) as usize]
    }
}

} // verus!

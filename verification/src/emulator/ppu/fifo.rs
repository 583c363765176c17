use vstd::prelude::*;
use vstd::array::spec_array_update;
use std::collections::VecDeque;

verus! {

/// The five steps of the pixel fetcher.
#[allow(non_camel_case_types)]
#[derive(Debug, PartialEq, Eq, Structural, Clone, Copy)]
pub enum FetchState {
    FS_TILE,
    FS_TILE_DATA_LOW,
    FS_TILE_DATA_HIGH,
    FS_IDLE,
    FS_PUSH,
}

/// The queue of composited pixels and the fetcher's scratch state.
pub struct PixelFifo {
    pub curr_state: FetchState,
    pub fifo: VecDeque<u32>,
    /// Pixels taken from the queue on this line, shown or discarded.
    pub line_x: u8,
    /// Pixels written to the frame buffer on this line.
    pub pushed_x: u8,
    /// The column the fetcher fetches next.
    pub fetch_x: u8,
    /// The tile number and the two bytes of the tile row being fetched.
    pub bgw_fetch_data: [u8; 3],
    /// The two row bytes of up to three objects.
    pub fetch_entry_data: [u8; 6],
    pub map_y: u8,
    pub map_x: u8,
    pub tile_y: u8,
    /// Pixels put into the queue on this line.
    pub fifo_x: u8,
}

/// The mathematical content of the pixel queue and fetcher.
pub struct PixelFifoView {
    pub curr_state: FetchState,
    pub fifo: Seq<u32>,
    pub line_x: u8,
    pub pushed_x: u8,
    pub fetch_x: u8,
    pub bgw_fetch_data: [u8; 3],
    pub fetch_entry_data: [u8; 6],
    pub map_y: u8,
    pub map_x: u8,
    pub tile_y: u8,
    pub fifo_x: u8,
}

impl View for PixelFifo {
    type V = PixelFifoView;

    open spec fn view(&self) -> PixelFifoView {
        PixelFifoView {
            curr_state: self.curr_state,
            fifo: self.fifo@,
            line_x: self.line_x,
            pushed_x: self.pushed_x,
            fetch_x: self.fetch_x,
            bgw_fetch_data: self.bgw_fetch_data,
            fetch_entry_data: self.fetch_entry_data,
            map_y: self.map_y,
            map_x: self.map_x,
            tile_y: self.tile_y,
            fifo_x: self.fifo_x,
        }
    }
}

impl PixelFifoView {
    /// An empty queue with the fetcher at its first step.
    pub open spec fn spec_new() -> PixelFifoView {
        PixelFifoView {
            curr_state: FetchState::FS_TILE,
            fifo: Seq::empty(),
            line_x: 0,
            pushed_x: 0,
            fetch_x: 0,
            bgw_fetch_data: [0u8, 0u8, 0u8],
            fetch_entry_data: [0u8, 0u8, 0u8, 0u8, 0u8, 0u8],
            map_y: 0,
            map_x: 0,
            tile_y: 0,
            fifo_x: 0,
        }
    }

    /// The queue with `data` at its end.
    pub open spec fn spec_push(self, data: u32) -> PixelFifoView {
        PixelFifoView { fifo: self.fifo.push(data), ..self }
    }

    /// The queue without its first pixel.
    pub open spec fn spec_pop(self) -> PixelFifoView {
        PixelFifoView { fifo: self.fifo.subrange(1, self.fifo.len() as int), ..self }
    }

    /// The queue emptied.
    pub open spec fn spec_clear(self) -> PixelFifoView {
        PixelFifoView { fifo: Seq::empty(), ..self }
    }

    pub open spec fn spec_set_state(self, state: FetchState) -> PixelFifoView {
        PixelFifoView { curr_state: state, ..self }
    }

    /// The tile number (index 0) or one of the two row bytes (1 and 2)
    /// replaced.
    pub open spec fn spec_set_bgw(self, index: int, value: u8) -> PixelFifoView {
        PixelFifoView {
            bgw_fetch_data: spec_array_update(self.bgw_fetch_data, index, value),
            ..self
        }
    }

    /// One of the six row bytes of the fetched objects replaced.
    pub open spec fn spec_set_entry_data(self, index: int, value: u8) -> PixelFifoView {
        PixelFifoView {
            fetch_entry_data: spec_array_update(self.fetch_entry_data, index, value),
            ..self
        }
    }

    pub open spec fn spec_set_map(self, map_y: u8, map_x: u8, tile_y: u8) -> PixelFifoView {
        PixelFifoView { map_y: map_y, map_x: map_x, tile_y: tile_y, ..self }
    }

    /// The fetcher eight columns further.
    pub open spec fn spec_advance_fetch_x(self) -> PixelFifoView {
        PixelFifoView { fetch_x: ((self.fetch_x + 8) % 0x100) as u8, ..self }
    }

    /// A pixel put into the queue and counted.
    pub open spec fn spec_push_pixel(self, data: u32) -> PixelFifoView {
        PixelFifoView {
            fifo: self.fifo.push(data),
            fifo_x: ((self.fifo_x + 1) % 0x100) as u8,
            ..self
        }
    }

    pub open spec fn spec_bump_pushed_x(self) -> PixelFifoView {
        PixelFifoView { pushed_x: ((self.pushed_x + 1) % 0x100) as u8, ..self }
    }

    pub open spec fn spec_bump_line_x(self) -> PixelFifoView {
        PixelFifoView { line_x: ((self.line_x + 1) % 0x100) as u8, ..self }
    }

    /// The fetcher and the line counters back at the start of a line; the
    /// queue keeps its pixels.
    pub open spec fn spec_reset(self) -> PixelFifoView {
        PixelFifoView {
            curr_state: FetchState::FS_TILE,
            line_x: 0,
            pushed_x: 0,
            fetch_x: 0,
            fifo_x: 0,
            ..self
        }
    }
}

impl PixelFifo {
    pub fn new() -> (r: PixelFifo)
        ensures
            r@ == PixelFifoView::spec_new(),
    {
        PixelFifo {
            curr_state: FetchState::FS_TILE,
            fifo: VecDeque::new(),
            line_x: 0,
            pushed_x: 0,
            fetch_x: 0,
            bgw_fetch_data: [0u8, 0u8, 0u8],
            fetch_entry_data: [0u8, 0u8, 0u8, 0u8, 0u8, 0u8],
            map_y: 0,
            map_x: 0,
            tile_y: 0,
            fifo_x: 0,
        }
    }

    /// Pushes a pixel to the FIFO.
    pub fn push(&mut self, data: u32)
        ensures
            final(self)@ == old(self)@.spec_push(data),
    {
        self.fifo.push_back(data);
    }

    /// Pops the oldest pixel from the FIFO.
    pub fn pop(&mut self) -> (r: u32)
        requires
            old(self)@.fifo.len() > 0,
        ensures
            r == old(self)@.fifo[0],
            final(self)@ == old(self)@.spec_pop(),
    {
        match self.fifo.pop_front() {
            Some(data) => data,
            None => 0,
        }
    }

    /// Returns the number of pixels in the FIFO.
    pub fn get_size(&self) -> (r: usize)
        ensures
            r == self@.fifo.len(),
    {
        self.fifo.len()
    }

    /// Clears the FIFO.
    pub fn clear(&mut self)
        ensures
            final(self)@ == old(self)@.spec_clear(),
    {
        self.fifo.clear();
    }

    pub fn set_state(&mut self, state: FetchState)
        ensures
            final(self)@ == old(self)@.spec_set_state(state),
    {
        self.curr_state = state;
    }

    /// Sets the tile number (index 0) or one of the two row bytes.
    pub fn set_bgw(&mut self, index: usize, value: u8)
        requires
            index < 3,
        ensures
            final(self)@ == old(self)@.spec_set_bgw(index as int, value),
    {
        self.bgw_fetch_data[index] = value;
    }

    /// Sets one of the six row bytes of the fetched objects.
    pub fn set_entry_data(&mut self, index: usize, value: u8)
        requires
            index < 6,
        ensures
            final(self)@ == old(self)@.spec_set_entry_data(index as int, value),
    {
        self.fetch_entry_data[index] = value;
    }

    pub fn set_map(&mut self, map_y: u8, map_x: u8, tile_y: u8)
        ensures
            final(self)@ == old(self)@.spec_set_map(map_y, map_x, tile_y),
    {
        self.map_y = map_y;
        self.map_x = map_x;
        self.tile_y = tile_y;
    }

    /// Moves the fetcher eight columns on.
    pub fn advance_fetch_x(&mut self)
        ensures
            final(self)@ == old(self)@.spec_advance_fetch_x(),
    {
        self.fetch_x = ((self.fetch_x as u16 + 8) % 0x100) as u8;
    }

    /// Puts a pixel into the queue and counts it.
    pub fn push_pixel(&mut self, data: u32)
        ensures
            final(self)@ == old(self)@.spec_push_pixel(data),
    {
        self.fifo.push_back(data);
        self.fifo_x = ((self.fifo_x as u16 + 1) % 0x100) as u8;
    }

    pub fn bump_pushed_x(&mut self)
        ensures
            final(self)@ == old(self)@.spec_bump_pushed_x(),
    {
        self.pushed_x = ((self.pushed_x as u16 + 1) % 0x100) as u8;
    }

    pub fn bump_line_x(&mut self)
        ensures
            final(self)@ == old(self)@.spec_bump_line_x(),
    {
        self.line_x = ((self.line_x as u16 + 1) % 0x100) as u8;
    }

    /// Puts the fetcher and the line counters back at the start of a line.
    /// The queue keeps its pixels.
    pub fn reset(&mut self)
        ensures
            final(self)@ == old(self)@.spec_reset(),
    {
        self.curr_state = FetchState::FS_TILE;
        self.line_x = 0;
        self.pushed_x = 0;
        self.fetch_x = 0;
        self.fifo_x = 0;
    }
}

} // verus!

use vstd::prelude::*;
use crate::emulator::bits::bit;
use crate::emulator::bits::spec_bit;
use crate::emulator::gamepad::GamePadState;

verus! {

/// The time one frame is to take, in milliseconds: a sixtieth of a second.
pub const TARGET_FRAME_TIME: u64 = 16;

/// The time between two reports of the frame rate, in milliseconds.
pub const REPORT_PERIOD: u64 = 1000;

/// The times and the count by which the frames are paced.
#[derive(Debug, PartialEq, Eq, Structural, Clone, Copy)]
pub struct FrameClock {
    /// When the last frame was done.
    pub prev_frame_time: u64,
    /// When the frame rate was last reported.
    pub start_timer: u64,
    /// Frames since the frame rate was last reported.
    pub frame_counter: u32,
}

/// What is to be done at the end of a frame.
#[derive(Debug, PartialEq, Eq, Structural, Clone, Copy)]
pub struct FrameAction {
    /// How long to wait before the next frame, in milliseconds.
    pub delay: u32,
    /// The number of frames of the last second, where a second is over.
    pub fps: Option<u32>,
    /// The external RAM is to be written to the save file.
    pub save: bool,
}

/// The eight keys of the joypad.
#[derive(Debug, PartialEq, Eq, Structural, Clone, Copy)]
pub enum Key {
    A,
    B,
    Start,
    Select,
    Up,
    Down,
    Left,
    Right,
}

/// How long to wait at the end of a frame that ends at `now`, when the
/// frame before ended at `prev`: what is left of the target frame time.
pub open spec fn spec_frame_delay(now: u64, prev: u64) -> u32 {
    if now >= prev && now - prev >= TARGET_FRAME_TIME {
        0
    } else if now >= prev {
        (TARGET_FRAME_TIME - (now - prev)) as u32
    } else {
        TARGET_FRAME_TIME as u32
    }
}

/// The colour number, 0 to 3, of a pixel of a tile row: the bit of the
/// first byte is its high bit, the bit of the second byte its low bit.
pub open spec fn spec_tile_pixel(b1: u8, b2: u8, bit: u8) -> u8 {
    ((if spec_bit(b1, bit) {
        2int
    } else {
        0int
    }) + (if spec_bit(b2, bit) {
        1int
    } else {
        0int
    })) as u8
}

/// The colour number of a pixel of a tile row, as the tile viewer shows
/// it.
pub fn tile_pixel(b1: u8, b2: u8, index: u8) -> (r: u8)
    ensures
        r == spec_tile_pixel(b1, b2, index),
{
    let high: u8 = if bit(b1, index) {
        2
    } else {
        0
    };
    let low: u8 = if bit(b2, index) {
        1
    } else {
        0
    };
    high + low
}

impl GamePadState {
    /// The keys with one key pressed or released.
    pub open spec fn spec_with_key(self, key: Key, down: bool) -> GamePadState {
        match key {
            Key::A => GamePadState { a: down, ..self },
            Key::B => GamePadState { b: down, ..self },
            Key::Start => GamePadState { start: down, ..self },
            Key::Select => GamePadState { select: down, ..self },
            Key::Up => GamePadState { up: down, ..self },
            Key::Down => GamePadState { down: down, ..self },
            Key::Left => GamePadState { left: down, ..self },
            Key::Right => GamePadState { right: down, ..self },
        }
    }
}

/// Takes a key event: the key is down or up from now on.
pub fn handle_key_event(keys: &mut GamePadState, down: bool, key: Key)
    ensures
        *final(keys) == old(keys).spec_with_key(key, down),
{
    match key {
        Key::A => {
            keys.a = down;
        },
        Key::B => {
            keys.b = down;
        },
        Key::Start => {
            keys.start = down;
        },
        Key::Select => {
            keys.select = down;
        },
        Key::Up => {
            keys.up = down;
        },
        Key::Down => {
            keys.down = down;
        },
        Key::Left => {
            keys.left = down;
        },
        Key::Right => {
            keys.right = down;
        },
    }
}

impl FrameClock {
    /// Whether a second has passed since the frame rate was last reported.
    pub open spec fn spec_report_due(self, now: u64) -> bool {
        now >= self.start_timer && now - self.start_timer >= REPORT_PERIOD
    }

    /// What is to be done at the end of a frame that ends at `now`.
    pub open spec fn spec_action(self, now: u64, need_save: bool) -> FrameAction {
        FrameAction {
            delay: spec_frame_delay(now, self.prev_frame_time),
            fps: if self.spec_report_due(now) {
                Some(self.frame_counter)
            } else {
                None
            },
            save: self.spec_report_due(now) && need_save,
        }
    }

    /// The clock after the end of a frame at `now`: the frame is counted,
    /// and the count starts anew where the frame rate was reported.
    pub open spec fn spec_on_frame(self, now: u64) -> FrameClock {
        let counted: u32 = if self.spec_report_due(now) {
            0
        } else {
            self.frame_counter
        };
        FrameClock {
            start_timer: if self.spec_report_due(now) {
                now
            } else {
                self.start_timer
            },
            frame_counter: if counted == u32::MAX {
                counted
            } else {
                (counted + 1) as u32
            },
            ..self
        }
    }

    pub fn new() -> (c: FrameClock)
        ensures
            c == (FrameClock { prev_frame_time: 0, start_timer: 0, frame_counter: 0 }),
    {
        FrameClock { prev_frame_time: 0, start_timer: 0, frame_counter: 0 }
    }

    /// Decides what is to be done at the end of a frame: how long to wait
    /// so that the frame takes a sixtieth of a second, and, once a second,
    /// the frame rate to report and whether the external RAM is to be
    /// saved.
    pub fn on_frame(&mut self, now: u64, need_save: bool) -> (action: FrameAction)
        ensures
            action == old(self).spec_action(now, need_save),
            *final(self) == old(self).spec_on_frame(now),
    {
        let delay: u32 = if now >= self.prev_frame_time {
            let elapsed: u64 = now - self.prev_frame_time;
            if elapsed < TARGET_FRAME_TIME {
                (TARGET_FRAME_TIME - elapsed) as u32
            } else {
                0
            }
        } else {
            TARGET_FRAME_TIME as u32
        };
        let due: bool = now >= self.start_timer && now - self.start_timer >= REPORT_PERIOD;
        let fps: Option<u32> = if due {
            Some(self.frame_counter)
        } else {
            None
        };
        if due {
            self.frame_counter = 0;
            self.start_timer = now;
        }
        if self.frame_counter < u32::MAX {
            self.frame_counter = self.frame_counter + 1;
        }
        FrameAction { delay: delay, fps: fps, save: due && need_save }
    }

    /// Notes when the frame was done, after the wait.
    pub fn frame_done(&mut self, now: u64)
        ensures
            *final(self) == (FrameClock { prev_frame_time: now, ..*old(self) }),
    {
        self.prev_frame_time = now;
    }
}

} // verus!

use vstd::prelude::*;

verus! {

/// The eight keys; true while a key is held down.
#[derive(Debug, PartialEq, Eq, Structural, Clone, Copy)]
pub struct GamePadState {
    pub start: bool,
    pub select: bool,
    pub a: bool,
    pub b: bool,
    pub up: bool,
    pub down: bool,
    pub left: bool,
    pub right: bool,
}

/// The joypad register: the two group-select lines and the keys.
#[derive(Debug, PartialEq, Eq, Structural, Clone, Copy)]
pub struct GamePad {
    /// Bit 5 of the last write; the button group is selected while it is
    /// false.
    pub button_select: bool,
    /// Bit 4 of the last write; the direction group is selected while it is
    /// false.
    pub dir_select: bool,
    pub controller: GamePadState,
}

/// A read of the joypad register always has bits 7 and 6 set and bits 5
/// and 4 clear.
pub proof fn law_output_range(g: GamePad)
    ensures
        0xC0 <= g.spec_output() <= 0xCF,
{
}

/// With no group selected every line reads 1, whatever keys are down.
pub proof fn law_no_group_selected(g: GamePad)
    requires
        g.button_select,
        g.dir_select,
    ensures
        g.spec_output() == 0xCF,
{
}

/// A key of a group that is not selected has no effect: with the button
/// group not selected, two joypads that agree on the direction keys read
/// the same, and likewise with the groups exchanged.
pub proof fn law_unselected_keys_are_silent(g: GamePad, keys: GamePadState)
    ensures
        g.button_select && keys.up == g.controller.up && keys.down == g.controller.down
            && keys.left == g.controller.left && keys.right == g.controller.right ==> (GamePad {
            controller: keys,
            ..g
        }).spec_output() == g.spec_output(),
        g.dir_select && keys.a == g.controller.a && keys.b == g.controller.b && keys.start
            == g.controller.start && keys.select == g.controller.select ==> (GamePad {
            controller: keys,
            ..g
        }).spec_output() == g.spec_output(),
{
}

impl GamePad {
    /// Whether output line `line` (0 to 3) is pulled low: a key on that line
    /// is down and its group is selected. Line 0 carries A and right, line
    /// 1 B and left, line 2 select and up, line 3 start and down.
    pub open spec fn spec_line_low(self, line: int) -> bool {
        let k = self.controller;
        let button = if line == 0 {
            k.a
        } else if line == 1 {
            k.b
        } else if line == 2 {
            k.select
        } else {
            k.start
        };
        let dir = if line == 0 {
            k.right
        } else if line == 1 {
            k.left
        } else if line == 2 {
            k.up
        } else {
            k.down
        };
        (!self.button_select && button) || (!self.dir_select && dir)
    }

    /// The value of output line `line` in its place in the register.
    pub open spec fn spec_line(self, line: int, weight: int) -> int {
        if self.spec_line_low(line) {
            0
        } else {
            weight
        }
    }

    /// What a read of the joypad register returns: 0xC0 with the four
    /// lines, each 1 unless a selected key pulls it low.
    pub open spec fn spec_output(self) -> u8 {
        (0xC0 + self.spec_line(3, 8) + self.spec_line(2, 4) + self.spec_line(1, 2)
            + self.spec_line(0, 1)) as u8
    }

    /// The joypad after a write of `value` to its register: only the two
    /// select bits are kept.
    pub open spec fn spec_set_select(self, value: u8) -> GamePad {
        GamePad {
            button_select: (value / 0x20) % 2 == 1,
            dir_select: (value / 0x10) % 2 == 1,
            ..self
        }
    }

    /// No key down, both groups selected.
    pub fn new() -> (g: GamePad)
        ensures
            !g.button_select,
            !g.dir_select,
            g.spec_output() == 0xCF,
    {
        GamePad {
            button_select: false,
            dir_select: false,
            controller: GamePadState {
                start: false,
                select: false,
                a: false,
                b: false,
                up: false,
                down: false,
                left: false,
                right: false,
            },
        }
    }

    /// False while the button group (start, select, B, A) is selected.
    pub fn button_select(&self) -> (r: bool)
        ensures
            r == self.button_select,
    {
        self.button_select
    }

    /// False while the direction group is selected.
    pub fn dir_select(&self) -> (r: bool)
        ensures
            r == self.dir_select,
    {
        self.dir_select
    }

    /// Takes the two select bits from a write to the joypad register.
    pub fn set_select(&mut self, value: u8)
        ensures
            *final(self) == old(self).spec_set_select(value),
    {
        self.button_select = (value / 0x20) % 2 == 1;
        self.dir_select = (value / 0x10) % 2 == 1;
    }

    /// The byte a read of the joypad register returns.
    pub fn get_output(&self) -> (r: u8)
        ensures
            r == self.spec_output(),
    {
        let mut output: u8 = 0xCF;
        let buttons: bool = !self.button_select();
        let dirs: bool = !self.dir_select();
        if (buttons && self.controller.start) || (dirs && self.controller.down) {
            output = output - 8;
        }
        if (buttons && self.controller.select) || (dirs && self.controller.up) {
            output = output - 4;
        }
        if (buttons && self.controller.b) || (dirs && self.controller.left) {
            output = output - 2;
        }
        if (buttons && self.controller.a) || (dirs && self.controller.right) {
            output = output - 1;
        }
        output
    }

    pub fn get_state(&self) -> (r: &GamePadState)
        ensures
            *r == self.controller,
    {
        &self.controller
    }
}

} // verus!

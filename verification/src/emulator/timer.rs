use vstd::prelude::*;

verus! {

pub const DIV_ADDR: u16 = 0xFF04;

pub const TIMA_ADDR: u16 = 0xFF05;

pub const TMA_ADDR: u16 = 0xFF06;

pub const TAC_ADDR: u16 = 0xFF07;

/// The divider and the programmable timer.
#[derive(Debug, PartialEq, Eq, Structural, Clone, Copy)]
pub struct Timer {
    /// The 16-bit internal counter; DIV is its high byte.
    pub div: u16,
    /// Timer counter (TIMA).
    pub tima: u8,
    /// Timer modulo (TMA).
    pub tma: u8,
    /// Timer control (TAC).
    pub tac: u8,
}

/// The number of T-cycles between two advances of TIMA, as the low two bits
/// of TAC select it. TIMA watches the counter bit worth half of it.
pub open spec fn spec_period(tac: u8) -> int {
    if tac % 4 == 0 {
        1024
    } else if tac % 4 == 1 {
        16
    } else if tac % 4 == 2 {
        64
    } else {
        256
    }
}

/// The bit worth `weight` was set in `before` and is clear in `after`.
pub open spec fn spec_falling_edge(before: u16, after: u16, weight: int) -> bool {
    (before as int / weight) % 2 == 1 && (after as int / weight) % 2 == 0
}

/// The falling edge of a counter bit, for each of the four bits that TAC
/// selects: the bit falls on the step that takes the counter to a
/// multiple of twice the bit's weight.
proof fn lemma_edge_bits(d: u16, next: u16)
    by (bit_vector)
    requires
        next == (if d == 0xFFFFu16 {
            0u16
        } else {
            (d + 1) as u16
        }),
    ensures
        ((d / 512u16) % 2u16 == 1u16 && (next / 512u16) % 2u16 == 0u16) == (next % 1024u16
            == 0u16),
        ((d / 8u16) % 2u16 == 1u16 && (next / 8u16) % 2u16 == 0u16) == (next % 16u16 == 0u16),
        ((d / 32u16) % 2u16 == 1u16 && (next / 32u16) % 2u16 == 0u16) == (next % 64u16 == 0u16),
        ((d / 128u16) % 2u16 == 1u16 && (next / 128u16) % 2u16 == 0u16) == (next % 256u16
            == 0u16),
{
}

/// The phase of the counter within each of the four periods moves on by
/// one with every step.
proof fn lemma_phase_step(d: u16, next: u16)
    by (bit_vector)
    requires
        next == (if d == 0xFFFFu16 {
            0u16
        } else {
            (d + 1) as u16
        }),
    ensures
        next % 1024u16 == (if d % 1024u16 == 1023u16 {
            0u16
        } else {
            (d % 1024u16 + 1u16) as u16
        }),
        next % 16u16 == (if d % 16u16 == 15u16 {
            0u16
        } else {
            (d % 16u16 + 1u16) as u16
        }),
        next % 64u16 == (if d % 64u16 == 63u16 {
            0u16
        } else {
            (d % 64u16 + 1u16) as u16
        }),
        next % 256u16 == (if d % 256u16 == 255u16 {
            0u16
        } else {
            (d % 256u16 + 1u16) as u16
        }),
{
}

/// The falling edge in numbers: an enabled timer advances TIMA on the
/// T-cycle that takes the counter to a multiple of the period.
pub proof fn lemma_advance_is_multiple(t: Timer)
    ensures
        t.spec_advances() <==> t.spec_is_enabled() && t.spec_next_div() as int % spec_period(
            t.tac,
        ) == 0,
{
    lemma_edge_bits(t.div, t.spec_next_div());
}

/// How many of the next `n` T-cycles advance TIMA, for `n` up to one
/// period: one if the counter passes a multiple of the period, else none.
pub proof fn lemma_advances_within_period(t: Timer, n: nat)
    requires
        t.spec_is_enabled(),
        n <= spec_period(t.tac),
    ensures
        t.spec_advances_in(n) == (if t.div as int % spec_period(t.tac) + n >= spec_period(
            t.tac,
        ) {
            1nat
        } else {
            0nat
        }),
    decreases n,
{
    if n > 0 {
        lemma_advance_is_multiple(t);
        lemma_phase_step(t.div, t.spec_next_div());
        let next = t.spec_tick();
        assert(next.tac == t.tac);
        assert(next.div == t.spec_next_div());
        assert(next.spec_is_enabled());
        lemma_advances_within_period(next, (n - 1) as nat);
    }
}

/// Timer rate: an enabled timer advances TIMA exactly once in every
/// period of 1024, 16, 64 or 256 T-cycles, as TAC selects, whatever the
/// counter holds when the period begins.
pub proof fn law_timer_rate(t: Timer)
    requires
        t.spec_is_enabled(),
    ensures
        t.spec_advances_in(spec_period(t.tac) as nat) == 1,
{
    lemma_advances_within_period(t, spec_period(t.tac) as nat);
}

/// DIV reset: after a write of any byte to DIV the next advance of TIMA is
/// a full period away: none of the next `period - 1` T-cycles advances it,
/// and one of the next `period` does.
pub proof fn law_div_reset(t: Timer, data: u8)
    requires
        t.spec_is_enabled(),
    ensures
        t.spec_write(DIV_ADDR, data).div == 0,
        t.spec_write(DIV_ADDR, data).spec_advances_in((spec_period(t.tac) - 1) as nat) == 0,
        t.spec_write(DIV_ADDR, data).spec_advances_in(spec_period(t.tac) as nat) == 1,
{
    let reset = t.spec_write(DIV_ADDR, data);
    lemma_advances_within_period(reset, (spec_period(t.tac) - 1) as nat);
    lemma_advances_within_period(reset, spec_period(t.tac) as nat);
}

/// A disabled timer never advances TIMA.
pub proof fn law_disabled_timer(t: Timer, n: nat)
    requires
        !t.spec_is_enabled(),
    ensures
        t.spec_advances_in(n) == 0,
        t.spec_ticks(n).tima == t.tima,
    decreases n,
{
    if n > 0 {
        law_disabled_timer(t.spec_tick(), (n - 1) as nat);
    }
}

impl Timer {
    /// Bit 2 of TAC.
    pub open spec fn spec_is_enabled(self) -> bool {
        (self.tac / 4) % 2 == 1
    }

    /// The counter after one more T-cycle.
    pub open spec fn spec_next_div(self) -> u16 {
        ((self.div + 1) % 0x10000) as u16
    }

    /// Whether this T-cycle advances TIMA: the timer is enabled and the
    /// selected counter bit falls.
    pub open spec fn spec_advances(self) -> bool {
        self.spec_is_enabled() && spec_falling_edge(
            self.div,
            self.spec_next_div(),
            spec_period(self.tac) / 2,
        )
    }

    /// Whether this T-cycle raises the timer interrupt: TIMA advances from
    /// 0xFF and wraps.
    pub open spec fn spec_overflows(self) -> bool {
        self.spec_advances() && self.tima == 0xFF
    }

    /// The timer after one T-cycle.
    pub open spec fn spec_tick(self) -> Timer {
        Timer {
            div: self.spec_next_div(),
            tima: if !self.spec_advances() {
                self.tima
            } else if self.tima == 0xFF {
                self.tma
            } else {
                (self.tima + 1) as u8
            },
            ..self
        }
    }

    /// The timer after `n` T-cycles.
    pub open spec fn spec_ticks(self, n: nat) -> Timer
        decreases n,
    {
        if n == 0 {
            self
        } else {
            self.spec_tick().spec_ticks((n - 1) as nat)
        }
    }

    /// How many of the next `n` T-cycles advance TIMA.
    pub open spec fn spec_advances_in(self, n: nat) -> nat
        decreases n,
    {
        if n == 0 {
            0
        } else {
            (if self.spec_advances() {
                1nat
            } else {
                0nat
            }) + self.spec_tick().spec_advances_in((n - 1) as nat)
        }
    }

    /// What a read of the given timer register returns.
    pub open spec fn spec_read(self, address: u16) -> u8 {
        if address == DIV_ADDR {
            (self.div / 0x100) as u8
        } else if address == TIMA_ADDR {
            self.tima
        } else if address == TMA_ADDR {
            self.tma
        } else {
            self.tac
        }
    }

    /// The timer after a write to the given timer register. A write to DIV
    /// clears the whole counter, whatever the byte.
    pub open spec fn spec_write(self, address: u16, data: u8) -> Timer {
        if address == DIV_ADDR {
            Timer { div: 0, ..self }
        } else if address == TIMA_ADDR {
            Timer { tima: data, ..self }
        } else if address == TMA_ADDR {
            Timer { tma: data, ..self }
        } else {
            Timer { tac: data, ..self }
        }
    }

    /// The timer as it stands when the boot program hands over.
    pub fn new() -> (t: Timer)
        ensures
            t == (Timer { div: 0xABCC, tima: 0, tma: 0, tac: 0 }),
    {
        Timer { div: 0xABCC, tima: 0, tma: 0, tac: 0 }
    }

    /// Performs one timer tick. Returns true if the timer interrupt should
    /// be requested.
    pub fn tick(&mut self) -> (irq: bool)
        ensures
            *final(self) == old(self).spec_tick(),
            irq == old(self).spec_overflows(),
    {
        let prev_div: u16 = self.div;
        let next_div: u16 = if prev_div == 0xFFFF {
            0
        } else {
            prev_div + 1
        };
        self.div = next_div;
        let selector: u8 = self.tac % 4;
        let weight: u16 = if selector == 0 {
            512
        } else if selector == 1 {
            8
        } else if selector == 2 {
            32
        } else {
            128
        };
        let timer_update: bool = (prev_div / weight) % 2 == 1 && (next_div / weight) % 2 == 0;
        if timer_update && self.is_enabled() {
            if self.tima == 0xFF {
                self.tima = self.tma;
                return true;
            }
            self.tima = self.tima + 1;
        }
        false
    }

    pub fn is_enabled(&self) -> (r: bool)
        ensures
            r == self.spec_is_enabled(),
    {
        (self.tac / 4) % 2 == 1
    }

    /// Reads the timer register at the given address.
    pub fn read(&self, address: u16) -> (r: u8)
        requires
            DIV_ADDR <= address <= TAC_ADDR,
        ensures
            r == self.spec_read(address),
    {
        if address == DIV_ADDR {
            (self.div / 0x100) as u8
        } else if address == TIMA_ADDR {
            self.tima
        } else if address == TMA_ADDR {
            self.tma
        } else {
            self.tac
        }
    }

    /// Writes the timer register at the given address.
    pub fn write(&mut self, address: u16, data: u8)
        requires
            DIV_ADDR <= address <= TAC_ADDR,
        ensures
            *final(self) == old(self).spec_write(address, data),
    {
        if address == DIV_ADDR {
            self.div = 0;
        } else if address == TIMA_ADDR {
            self.tima = data;
        } else if address == TMA_ADDR {
            self.tma = data;
        } else {
            self.tac = data;
        }
    }
}

} // verus!

use vstd::prelude::*;
use crate::emulator::address_bus::bus_read;
use crate::emulator::frame::lemma_frame_four_t_cycles;
use crate::emulator::frame::lemma_frame_keeps_memory;
use crate::emulator::Emulator;
use crate::emulator::Machine;

verus! {

pub const DMA_ADDR: u16 = 0xFF46;

/// The OAM block-copy engine.
#[derive(Debug, PartialEq, Eq, Structural, Clone, Copy)]
pub struct DMA {
    /// A transfer is under way.
    pub active: bool,
    /// The index of the next byte to copy.
    pub byte: u8,
    /// The source page: the byte written to 0xFF46.
    pub value: u8,
    /// M-cycles left before the first byte is copied.
    pub start_delay: u8,
}

impl DMA {
    /// The engine right after a write of `start` to 0xFF46.
    pub open spec fn spec_start(self, start: u8) -> DMA {
        DMA { active: true, byte: 0, value: start, start_delay: 2 }
    }

    /// Whether the next M-cycle copies a byte: the engine is active, the
    /// start delay is over and the index is within OAM.
    pub open spec fn spec_copies(self) -> bool {
        self.active && self.start_delay == 0 && self.byte < 0xA0
    }

    /// The address the next copy reads from.
    pub open spec fn spec_source(self) -> u16 {
        (self.value as int * 0x100 + self.byte as int) as u16
    }

    /// The engine's own state after one M-cycle.
    pub open spec fn spec_tick(self) -> DMA {
        if !self.active {
            self
        } else if self.start_delay > 0 {
            DMA { start_delay: (self.start_delay - 1) as u8, ..self }
        } else {
            DMA {
                byte: ((self.byte + 1) % 0x100) as u8,
                active: (self.byte + 1) % 0x100 < 0xA0,
                ..self
            }
        }
    }

    /// The engine's own state after `n` M-cycles.
    pub open spec fn spec_ticks(self, n: nat) -> DMA
        decreases n,
    {
        if n == 0 {
            self
        } else {
            self.spec_tick().spec_ticks((n - 1) as nat)
        }
    }

    /// An engine at rest.
    pub fn new() -> (d: DMA)
        ensures
            d == (DMA { active: false, byte: 0, value: 0, start_delay: 0 }),
    {
        DMA { active: false, byte: 0, value: 0, start_delay: 0 }
    }

    /// Latches the source page and arms the two-cycle start delay.
    pub fn start(&mut self, start: u8)
        ensures
            *final(self) == old(self).spec_start(start),
    {
        self.active = true;
        self.byte = 0;
        self.value = start;
        self.start_delay = 2;
    }

    /// Whether the next M-cycle copies a byte.
    pub fn copies(&self) -> (r: bool)
        ensures
            r == self.spec_copies(),
    {
        self.active && self.start_delay == 0 && self.byte < 0xA0
    }

    /// The address the next copy reads from.
    pub fn source(&self) -> (r: u16)
        ensures
            r == self.spec_source(),
    {
        (self.value as u16) * 0x100 + self.byte as u16
    }

    /// Moves the engine's own state one M-cycle on: the start delay counts
    /// down, then the index counts up until it leaves OAM.
    pub fn advance(&mut self)
        ensures
            *final(self) == old(self).spec_tick(),
    {
        if !self.active {
            return ;
        }
        if self.start_delay > 0 {
            self.start_delay = self.start_delay - 1;
            return ;
        }
        self.byte = if self.byte == 0xFF {
            0
        } else {
            self.byte + 1
        };
        self.active = self.byte < 0xA0;
    }

    pub fn is_transferring(&self) -> (r: bool)
        ensures
            r == self.active,
    {
        self.active
    }
}

/// The engine `n` M-cycles after it was `k` M-cycles into a transfer.
proof fn lemma_dma_progress(d: DMA, k: nat, n: nat)
    requires
        d.active,
        k <= 2 ==> d.byte == 0 && d.start_delay == 2 - k,
        k > 2 ==> d.byte == k - 2 && d.start_delay == 0,
        k < 162,
    ensures
        k + n <= 2 ==> d.spec_ticks(n) == (DMA {
            byte: 0,
            start_delay: (2 - k - n) as u8,
            ..d
        }),
        2 < k + n < 162 ==> d.spec_ticks(n) == (DMA {
            byte: (k + n - 2) as u8,
            start_delay: 0,
            ..d
        }),
        k + n >= 162 ==> d.spec_ticks(n) == (DMA {
            active: false,
            byte: 0xA0,
            start_delay: 0,
            ..d
        }),
    decreases n,
{
    if n > 0 {
        let next = d.spec_tick();
        if k + 1 < 162 {
            lemma_dma_progress(next, k + 1, (n - 1) as nat);
        } else {
            lemma_dma_rest(next, (n - 1) as nat);
        }
    }
}

/// An engine at rest stays at rest.
proof fn lemma_dma_rest(d: DMA, n: nat)
    requires
        !d.active,
    ensures
        d.spec_ticks(n) == d,
    decreases n,
{
    if n > 0 {
        lemma_dma_rest(d.spec_tick(), (n - 1) as nat);
    }
}

/// The length of a transfer: after a write to 0xFF46 the engine waits two
/// M-cycles, is at byte `n - 2` after `n` M-cycles, and is at rest after
/// 162 M-cycles and from then on.
pub proof fn law_dma_duration(d: DMA, start: u8, n: nat)
    ensures
        n < 162 ==> d.spec_start(start).spec_ticks(n).active,
        n >= 162 ==> !d.spec_start(start).spec_ticks(n).active,
        2 <= n < 162 ==> d.spec_start(start).spec_ticks(n).byte == n - 2,
        n < 162 ==> (d.spec_start(start).spec_ticks(n).spec_copies() <==> n >= 2),
        d.spec_start(start).spec_ticks(n).value == start,
{
    lemma_dma_progress(d.spec_start(start), 0, n);
}

impl Machine {
    /// The machine after the engine has copied one byte to OAM.
    #[verifier::opaque]
    pub open spec fn dma_copy(self) -> Machine {
        Machine {
            ppu: self.ppu.spec_oam_write(
                self.dma.byte as u16,
                self.bus_read(self.dma.spec_source()),
            ),
            dma: self.dma.spec_tick(),
            ..self
        }
    }

    /// One M-cycle of the DMA engine: after the start delay it copies one
    /// byte from the source page to OAM, until 160 bytes are copied.
    #[verifier::opaque]
    pub open spec fn dma_tick(self) -> Machine {
        if self.dma.spec_copies() {
            self.dma_copy()
        } else {
            Machine { dma: self.dma.spec_tick(), ..self }
        }
    }
}

/// Where a transfer from `page` stands `k` M-cycles after its start from
/// the machine `start`: what the clock leaves is left, the engine has
/// counted as far as `k` takes it, and the bytes copied so far are those
/// that `start` reads in the page.
pub open spec fn spec_dma_progress(start: Machine, m: Machine, page: u8, k: nat) -> bool {
    &&& start.clock_frame(m)
    &&& m.dma.value == page
    &&& k <= 2 ==> m.dma.active && m.dma.byte == 0 && m.dma.start_delay == 2 - k
    &&& 2 < k < 162 ==> m.dma.active && m.dma.byte == k - 2 && m.dma.start_delay == 0
    &&& k >= 162 ==> !m.dma.active
    &&& forall|j: int|
        0 <= j < k - 2 && j < 160 ==> m.ppu.oam_ram[j] == start.bus_read(
            (page as int * 0x100 + j) as u16,
        )
}

/// One M-cycle takes a transfer one step further.
proof fn lemma_dma_progress_step(start: Machine, m: Machine, page: u8, k: nat)
    requires
        spec_dma_progress(start, m, page, k),
        page < 0xFE,
    ensures
        spec_dma_progress(start, m.m_cycle(), page, k + 1),
{
    reveal(Machine::m_cycle);
    reveal(Machine::dma_tick);
    reveal(Machine::dma_copy);
    lemma_frame_four_t_cycles(m);
    let m4 = m.t_cycle().t_cycle().t_cycle().t_cycle();
    if m4.dma.spec_copies() {
        lemma_frame_keeps_memory(start, m4, m4.dma.spec_source());
    }
}

/// `n` M-cycles take a transfer `n` steps further.
proof fn lemma_dma_progress_cycles(start: Machine, m: Machine, page: u8, k: nat, n: nat)
    requires
        spec_dma_progress(start, m, page, k),
        page < 0xFE,
    ensures
        spec_dma_progress(start, m.cycles(n), page, k + n),
    decreases n,
{
    reveal(Machine::cycles);
    if n > 0 {
        lemma_dma_progress_step(start, m, page, k);
        lemma_dma_progress_cycles(start, m.m_cycle(), page, k + 1, (n - 1) as nat);
    }
}

/// The OAM transfer: 162 M-cycles after a write of `page` to 0xFF46 the
/// engine is at rest and the 160 bytes of OAM are the 160 bytes that the
/// bus read in the page when the transfer began. This holds of every page
/// below 0xFE, where neither the clock nor the transfer itself changes
/// what is read.
pub proof fn law_dma_transfer(m: Machine, page: u8)
    requires
        page < 0xFE,
    ensures
        ({
            let started = m.bus_write(DMA_ADDR, page);
            &&& started.dma.active
            &&& !started.cycles(162).dma.active
            &&& forall|j: int|
                0 <= j < 160 ==> started.cycles(162).ppu.oam_ram[j] == started.bus_read(
                    (page as int * 0x100 + j) as u16,
                )
        }),
{
    reveal(Machine::bus_write);
    reveal(Machine::io_write);
    let started = m.bus_write(DMA_ADDR, page);
    assert(spec_dma_progress(started, started, page, 0));
    lemma_dma_progress_cycles(started, started, page, 0, 162);
}

impl DMA {
    fn copy(emu: &mut Emulator)
        requires
            old(emu).dma.spec_copies(),
        ensures
            final(emu)@ == old(emu)@.dma_copy(),
            old(emu)@.wf() ==> final(emu)@.wf(),
            old(emu).cpu.spec_clock_frame(final(emu).cpu),
    {
        proof {
            reveal(Machine::dma_copy);
        }
        let data: u8 = bus_read(emu, emu.dma.source());
        let offset: u16 = emu.dma.byte as u16;
        emu.ppu.oam_write(offset, data);
        emu.dma.advance();
    }

    fn idle(emu: &mut Emulator)
        requires
            !old(emu).dma.spec_copies(),
        ensures
            final(emu)@ == old(emu)@.dma_tick(),
            old(emu)@.wf() ==> final(emu)@.wf(),
            old(emu).cpu.spec_clock_frame(final(emu).cpu),
    {
        proof {
            reveal(Machine::dma_tick);
        }
        emu.dma.advance();
    }

    /// One M-cycle of the engine.
    pub fn tick(emu: &mut Emulator)
        ensures
            final(emu)@ == old(emu)@.dma_tick(),
            old(emu)@.wf() ==> final(emu)@.wf(),
            old(emu).cpu.spec_clock_frame(final(emu).cpu),
    {
        proof {
            reveal(Machine::dma_tick);
        }
        if emu.dma.copies() {
            DMA::copy(emu);
        } else {
            DMA::idle(emu);
        }
    }
}

} // verus!

//! What the clock leaves alone. Every step of the PPU, the timer and the
//! DMA engine touches only a part of the machine; the lemmas here say so
//! for each step, up to any number of M-cycles.
use vstd::prelude::*;
use crate::emulator::Machine;

verus! {

pub proof fn lemma_frame_load_window_tile(m: Machine)
    ensures
        m.ppu_frame(m.load_window_tile()),
{
    reveal(Machine::load_window_tile);
}

pub proof fn lemma_frame_load_bg_tile(m: Machine)
    ensures
        m.ppu_frame(m.load_bg_tile()),
{
    reveal(Machine::load_bg_tile);
    lemma_frame_load_window_tile(
        m.with_fifo(m.ppu.pixel_fifo.spec_set_bgw(0, m.rebias(m.bus_read(m.bg_tile_addr())))),
    );
}

pub proof fn lemma_frame_fetch_tile(m: Machine)
    ensures
        m.ppu_frame(m.fetch_tile()),
{
    reveal(Machine::fetch_tile);
    reveal(Machine::fetch_tile_number);
    reveal(Machine::fetch_tile_sprites);
    let m0 = m.with_ppu(m.ppu.spec_clear_fetched());
    lemma_frame_load_bg_tile(m0);
}

pub proof fn lemma_frame_load_sprite_data(m: Machine, offset: u8, i: int)
    ensures
        m.ppu_frame(m.load_sprite_data_from(offset, i)),
    decreases 3 - i,
{
    reveal(Machine::load_sprite_data_from);
    if !(i < 0 || i >= 3 || i >= m.ppu.fetched_entries.len()) {
        lemma_frame_load_sprite_data(
            m.with_fifo(
                m.ppu.pixel_fifo.spec_set_entry_data(
                    2 * i + offset,
                    m.bus_read(m.sprite_data_addr(i, offset)),
                ),
            ),
            offset,
            i + 1,
        );
    }
}

pub proof fn lemma_frame_fetch_tile_data(m: Machine, offset: u8)
    ensures
        m.ppu_frame(m.fetch_tile_data(offset)),
{
    reveal(Machine::fetch_tile_data);
    lemma_frame_load_sprite_data(
        m.with_fifo(
            m.ppu.pixel_fifo.spec_set_bgw(1 + offset, m.bus_read(m.tile_data_addr(offset))),
        ),
        offset,
        0,
    );
}

pub proof fn lemma_frame_fifo_add(m: Machine, i: int)
    ensures
        m.ppu_frame(m.fifo_add_from(i)),
    decreases 8 - i,
{
    reveal(Machine::fifo_add_from);
    if !(i < 0 || i >= 8) {
        if m.tile_on_screen() {
            lemma_frame_fifo_add(
                m.with_fifo(m.ppu.pixel_fifo.spec_push_pixel(m.pixel_color((7 - i) as u8))),
                i + 1,
            );
        } else {
            lemma_frame_fifo_add(m, i + 1);
        }
    }
}

pub proof fn lemma_frame_pipeline_fetch(m: Machine)
    ensures
        m.ppu_frame(m.pipeline_fetch()),
{
    reveal(Machine::pipeline_fetch);
    reveal(Machine::fetch_push);
    lemma_frame_fetch_tile(m);
    lemma_frame_fetch_tile_data(m, 0);
    lemma_frame_fetch_tile_data(m, 1);
    lemma_frame_fifo_add(m, 0);
}

pub proof fn lemma_frame_pipeline_process(m: Machine)
    ensures
        m.ppu_frame(m.pipeline_process()),
{
    reveal(Machine::pipeline_process);
    reveal(Machine::pipeline_position);
    reveal(Machine::pipeline_push_pixel);
    lemma_frame_pipeline_fetch(m.pipeline_position());
}

pub proof fn lemma_frame_increment_ly(m: Machine)
    ensures
        m.ppu_frame(m.increment_ly()),
{
    reveal(Machine::increment_ly);
}

pub proof fn lemma_frame_mode_hblank(m: Machine)
    ensures
        m.ppu_frame(m.mode_hblank()),
{
    reveal(Machine::mode_hblank);
    reveal(Machine::enter_vblank);
    lemma_frame_increment_ly(m);
}

pub proof fn lemma_frame_mode_vblank(m: Machine)
    ensures
        m.ppu_frame(m.mode_vblank()),
{
    reveal(Machine::mode_vblank);
    reveal(Machine::restart_frame);
    lemma_frame_increment_ly(m);
}

pub proof fn lemma_frame_mode_oam(m: Machine)
    ensures
        m.ppu_frame(m.mode_oam()),
{
    reveal(Machine::mode_oam);
    reveal(Machine::enter_xfer);
}

pub proof fn lemma_frame_mode_xfer(m: Machine)
    ensures
        m.ppu_frame(m.mode_xfer()),
{
    reveal(Machine::mode_xfer);
    reveal(Machine::enter_hblank);
    lemma_frame_pipeline_process(m);
}

/// One dot of the PPU leaves everything but the PPU's own state, the LCD
/// registers and IF; video memory and OAM it leaves too.
pub proof fn lemma_frame_ppu_tick(m: Machine)
    ensures
        m.ppu_frame(m.ppu_tick()),
{
    reveal(Machine::ppu_tick);
    reveal(Machine::count_dot);
    let m1 = m.count_dot();
    lemma_frame_mode_hblank(m1);
    lemma_frame_mode_vblank(m1);
    lemma_frame_mode_oam(m1);
    lemma_frame_mode_xfer(m1);
}

/// One T-cycle leaves what the clock leaves, and the DMA engine and OAM
/// too.
pub proof fn lemma_frame_t_cycle(m: Machine)
    ensures
        m.clock_frame(m.t_cycle()),
        m.t_cycle().dma == m.dma,
        m.t_cycle().ppu.oam_ram == m.ppu.oam_ram,
{
    reveal(Machine::t_cycle);
    reveal(Machine::timer_tick);
    lemma_frame_ppu_tick(m.with_cpu(m.cpu.spec_count_tick()).timer_tick());
}

/// The four T-cycles of an M-cycle leave what the clock leaves, and the
/// DMA engine and OAM too.
pub proof fn lemma_frame_four_t_cycles(m: Machine)
    ensures
        m.clock_frame(m.t_cycle().t_cycle().t_cycle().t_cycle()),
        m.t_cycle().t_cycle().t_cycle().t_cycle().dma == m.dma,
        m.t_cycle().t_cycle().t_cycle().t_cycle().ppu.oam_ram == m.ppu.oam_ram,
{
    lemma_frame_t_cycle(m);
    lemma_frame_t_cycle(m.t_cycle());
    lemma_frame_t_cycle(m.t_cycle().t_cycle());
    lemma_frame_t_cycle(m.t_cycle().t_cycle().t_cycle());
}

pub proof fn lemma_frame_m_cycle(m: Machine)
    ensures
        m.clock_frame(m.m_cycle()),
{
    reveal(Machine::m_cycle);
    reveal(Machine::dma_tick);
    reveal(Machine::dma_copy);
    lemma_frame_four_t_cycles(m);
}

/// Any number of M-cycles leaves the cartridge, work and high RAM, video
/// memory, the joypad and the serial port as they are, and of the CPU
/// everything but IF and the cycle count.
pub proof fn lemma_frame_cycles(m: Machine, n: nat)
    ensures
        m.clock_frame(m.cycles(n)),
    decreases n,
{
    reveal(Machine::cycles);
    if n > 0 {
        lemma_frame_m_cycle(m);
        lemma_frame_cycles(m.m_cycle(), (n - 1) as nat);
    }
}

/// What the clock leaves, it leaves to every read below 0xFE00: ROM,
/// video memory, external and work RAM read the same before and after.
pub proof fn lemma_frame_keeps_memory(m: Machine, after: Machine, address: u16)
    requires
        m.clock_frame(after),
        address < 0xFE00,
    ensures
        after.bus_read(address) == m.bus_read(address),
{
    reveal(Machine::bus_read);
}

} // verus!

use gbemu::emulator::address_bus::bus_write;
use gbemu::emulator::gamepad::GamePad;
use gbemu::emulator::lcd::LCD;
use gbemu::emulator::lcd::LCD_MODE;
use gbemu::emulator::ppu::fifo::FetchState;
use gbemu::emulator::ppu::fifo::PixelFifo;
use gbemu::emulator::ppu::OamEntry;
use gbemu::emulator::ppu::PPU;
use gbemu::emulator::timer::Timer;
use gbemu::emulator::ui::handle_key_event;
use gbemu::emulator::ui::tile_pixel;
use gbemu::emulator::ui::FrameAction;
use gbemu::emulator::ui::FrameClock;
use gbemu::emulator::ui::Key;
use gbemu::emulator::Emulator;

const WHITE: u32 = 0xFFFFFFFF;
const LIGHT: u32 = 0xFFAAAAAA;
const DARK: u32 = 0xFF555555;
const BLACK: u32 = 0xFF000000;

fn blank_machine() -> Emulator {
    let mut rom = vec![0u8; 0x8000];
    let mut sum: u8 = 0;
    for i in 0x134..0x14D {
        sum = sum.wrapping_sub(rom[i]).wrapping_sub(1);
    }
    rom[0x14D] = sum;
    Emulator::init("blank.gb", rom, false).unwrap()
}

fn ticks_until<F: Fn(&Emulator) -> bool>(emu: &mut Emulator, done: F, limit: u32) -> u32 {
    let mut n = 0;
    while !done(emu) {
        PPU::tick(emu);
        n += 1;
        assert!(n <= limit);
    }
    n
}

#[test]
fn timer_counts_at_the_selected_rate() {
    for (tac, period) in [(0x04u8, 1024u32), (0x05, 16), (0x06, 64), (0x07, 256)] {
        let mut t = Timer::new();
        t.write(0xFF04, 0x12);
        t.write(0xFF07, tac);
        assert!(t.is_enabled());
        for round in 0..3u32 {
            for k in 0..period {
                assert_eq!(t.read(0xFF05) as u32, round);
                assert!(!t.tick() || k == period);
            }
            assert_eq!(t.read(0xFF05) as u32, round + 1);
        }
    }
}

#[test]
fn timer_counts_once_per_period_from_any_phase() {
    for (tac, period) in [(0x04u8, 1024u32), (0x05, 16), (0x06, 64), (0x07, 256)] {
        let mut t = Timer::new();
        t.write(0xFF07, tac);
        assert_eq!(t.div, 0xABCC);
        for _ in 0..5 {
            let before = t.tima;
            for _ in 0..period {
                t.tick();
            }
            assert_eq!(t.tima, before + 1);
        }
    }
}

#[test]
fn disabled_timer_only_counts_div() {
    let mut t = Timer::new();
    t.write(0xFF07, 0x01);
    assert!(!t.is_enabled());
    for _ in 0..4096 {
        assert!(!t.tick());
    }
    assert_eq!(t.read(0xFF05), 0);
    assert_eq!(t.div, 0xABCC + 4096);
    assert_eq!(t.read(0xFF04), 0xBB);
}

#[test]
fn timer_overflow_reloads_and_interrupts() {
    let mut t = Timer::new();
    t.write(0xFF04, 0);
    t.write(0xFF06, 0xF0);
    t.write(0xFF05, 0xFE);
    t.write(0xFF07, 0x05);
    for _ in 0..15 {
        assert!(!t.tick());
    }
    assert!(!t.tick());
    assert_eq!(t.read(0xFF05), 0xFF);
    for _ in 0..15 {
        assert!(!t.tick());
    }
    assert!(t.tick());
    assert_eq!(t.read(0xFF05), 0xF0);
}

#[test]
fn timer_interrupt_reaches_the_cpu() {
    let mut emu = blank_machine();
    bus_write(&mut emu, 0xFF04, 0);
    bus_write(&mut emu, 0xFF05, 0xFF);
    bus_write(&mut emu, 0xFF06, 0x80);
    bus_write(&mut emu, 0xFF07, 0x05);
    emu.cycles(3);
    assert_eq!(emu.cpu.int_flags & 0x04, 0);
    emu.cycles(1);
    assert_eq!(emu.cpu.int_flags & 0x04, 0x04);
    assert_eq!(emu.timer.tima, 0x80);
}

#[test]
fn div_wraps_around() {
    let mut t = Timer::new();
    t.div = 0xFFFF;
    t.tick();
    assert_eq!(t.div, 0);
}

#[test]
fn clock_counts_four_ticks_per_cycle() {
    let mut emu = blank_machine();
    emu.cycles(0);
    assert_eq!(emu.cpu.ticks, 0);
    emu.cycles(3);
    assert_eq!(emu.cpu.ticks, 12);
    assert_eq!(emu.timer.div, 0xABCC + 12);
    assert_eq!(emu.ppu.line_ticks, 12);
}

#[test]
fn scanline_modes_take_their_time() {
    let mut emu = blank_machine();
    assert_eq!(emu.lcd.get_lcds_mode(), LCD_MODE::MODE_OAM);
    for _ in 0..79 {
        PPU::tick(&mut emu);
        assert_eq!(emu.lcd.get_lcds_mode(), LCD_MODE::MODE_OAM);
    }
    PPU::tick(&mut emu);
    assert_eq!(emu.lcd.get_lcds_mode(), LCD_MODE::MODE_XFER);
    assert_eq!(emu.ppu.line_ticks, 80);
    let xfer = ticks_until(&mut emu, |e| e.lcd.get_lcds_mode() != LCD_MODE::MODE_XFER, 400);
    assert_eq!(emu.lcd.get_lcds_mode(), LCD_MODE::MODE_HBLANK);
    assert_eq!(emu.ppu.pixel_fifo.pushed_x, 160);
    assert!(xfer >= 160);
    assert!(80 + xfer < 456);
    let hblank = ticks_until(&mut emu, |e| e.lcd.get_lcds_mode() != LCD_MODE::MODE_HBLANK, 400);
    assert_eq!(80 + xfer + hblank, 456);
    assert_eq!(emu.lcd.get_lcds_mode(), LCD_MODE::MODE_OAM);
    assert_eq!(emu.lcd.ly, 1);
    assert_eq!(emu.ppu.line_ticks, 0);
}

#[test]
fn xfer_ends_at_the_dot_that_scx_sets() {
    for (scx, end) in [(0u8, 297u32), (1, 300), (2, 301), (5, 304), (7, 306), (8, 297), (15, 306)]
    {
        let mut emu = blank_machine();
        bus_write(&mut emu, 0xFF43, scx);
        let dots = ticks_until(&mut emu, |e| e.lcd.get_lcds_mode() == LCD_MODE::MODE_HBLANK, 400);
        assert_eq!(dots, end, "scx {}", scx);
        assert_eq!(emu.ppu.line_ticks, end);
        assert_eq!(emu.ppu.pixel_fifo.pushed_x, 160);
        assert_eq!(emu.ppu.pixel_fifo.get_size(), 0);
    }
}

#[test]
fn frame_buffer_and_counter_are_exposed() {
    let mut emu = blank_machine();
    assert_eq!(emu.ppu.frame_counter(), 0);
    assert_eq!(emu.ppu.frame().len(), 160 * 144);
    ticks_until(&mut emu, |e| e.ppu.frame_counter() == 1, 100000);
    assert!(emu.ppu.frame().iter().all(|p| *p == WHITE));
}

#[test]
fn frame_takes_154_lines_of_456_dots() {
    let mut emu = blank_machine();
    let first = ticks_until(&mut emu, |e| e.ppu.curr_frame == 1, 100000);
    assert_eq!(first, 144 * 456);
    assert_eq!(emu.lcd.ly, 144);
    assert_eq!(emu.lcd.get_lcds_mode(), LCD_MODE::MODE_VBLANK);
    assert_eq!(emu.cpu.int_flags & 0x01, 0x01);
    let second = ticks_until(&mut emu, |e| e.ppu.curr_frame == 2, 100000);
    assert_eq!(second, 154 * 456);
    let third = ticks_until(&mut emu, |e| e.ppu.curr_frame == 3, 100000);
    assert_eq!(third, 154 * 456);
}

#[test]
fn frame_cadence_under_the_clock() {
    let mut emu = blank_machine();
    let mut cycles = 0u32;
    while emu.ppu.curr_frame < 1 {
        emu.cycles(1);
        cycles += 1;
    }
    assert_eq!(cycles, 144 * 456 / 4);
    let mut cycles = 0u32;
    while emu.ppu.curr_frame < 2 {
        emu.cycles(1);
        cycles += 1;
    }
    assert_eq!(cycles, 154 * 456 / 4);
}

#[test]
fn vblank_lines_and_the_return_to_line_zero() {
    let mut emu = blank_machine();
    ticks_until(&mut emu, |e| e.ppu.curr_frame == 1, 100000);
    let n = ticks_until(&mut emu, |e| e.lcd.get_lcds_mode() == LCD_MODE::MODE_OAM, 100000);
    assert_eq!(n, 10 * 456);
    assert_eq!(emu.lcd.ly, 0);
    assert_eq!(emu.ppu.window_line, 0);
}

#[test]
fn lyc_match_sets_the_flag_and_interrupts() {
    let mut emu = blank_machine();
    bus_write(&mut emu, 0xFF45, 2);
    bus_write(&mut emu, 0xFF41, 0x40 | 0x02);
    ticks_until(&mut emu, |e| e.lcd.ly == 1, 1000);
    assert!(!emu.lcd.get_lcds_lyc());
    assert_eq!(emu.cpu.int_flags & 0x02, 0);
    ticks_until(&mut emu, |e| e.lcd.ly == 2, 1000);
    assert!(emu.lcd.get_lcds_lyc());
    assert_eq!(emu.cpu.int_flags & 0x02, 0x02);
    emu.cpu.int_flags = 0;
    ticks_until(&mut emu, |e| e.lcd.ly == 3, 1000);
    assert!(!emu.lcd.get_lcds_lyc());
    assert_eq!(emu.cpu.int_flags & 0x02, 0);
}

#[test]
fn hblank_and_vblank_stat_interrupts() {
    let mut emu = blank_machine();
    bus_write(&mut emu, 0xFF41, 0x08 | 0x02);
    ticks_until(&mut emu, |e| e.lcd.get_lcds_mode() == LCD_MODE::MODE_HBLANK, 1000);
    assert_eq!(emu.cpu.int_flags & 0x02, 0x02);
    let mut emu = blank_machine();
    bus_write(&mut emu, 0xFF41, 0x10 | 0x02);
    ticks_until(&mut emu, |e| e.lcd.get_lcds_mode() == LCD_MODE::MODE_HBLANK, 1000);
    assert_eq!(emu.cpu.int_flags & 0x02, 0);
    ticks_until(&mut emu, |e| e.ppu.curr_frame == 1, 100000);
    assert_eq!(emu.cpu.int_flags & 0x03, 0x03);
}

#[test]
fn background_tile_is_drawn() {
    let mut emu = blank_machine();
    // Tile 1: every row has colour 1 in its left half and colour 2 in its right half.
    for row in 0..8u16 {
        bus_write(&mut emu, 0x8010 + 2 * row, 0xF0);
        bus_write(&mut emu, 0x8010 + 2 * row + 1, 0x0F);
    }
    // The second tile of every map row shows tile 1.
    for row in 0..32u16 {
        bus_write(&mut emu, 0x9800 + 32 * row + 1, 1);
    }
    ticks_until(&mut emu, |e| e.ppu.curr_frame == 1, 100000);
    for y in [0usize, 7, 8, 143] {
        for x in 0..160usize {
            let expected = if (8..12).contains(&x) {
                LIGHT
            } else if (12..16).contains(&x) {
                DARK
            } else {
                WHITE
            };
            assert_eq!(emu.ppu.video_buffer[y * 160 + x], expected, "x {} y {}", x, y);
        }
    }
}

#[test]
fn scroll_x_shifts_the_line() {
    let mut emu = blank_machine();
    for row in 0..8u16 {
        bus_write(&mut emu, 0x8010 + 2 * row, 0xFF);
        bus_write(&mut emu, 0x8010 + 2 * row + 1, 0xFF);
    }
    for row in 0..32u16 {
        bus_write(&mut emu, 0x9800 + 32 * row + 1, 1);
    }
    bus_write(&mut emu, 0xFF43, 3);
    ticks_until(&mut emu, |e| e.ppu.curr_frame == 1, 100000);
    for x in 0..160usize {
        let expected = if (5..13).contains(&x) { BLACK } else { WHITE };
        assert_eq!(emu.ppu.video_buffer[x], expected, "x {}", x);
    }
}

#[test]
fn background_switched_off_shows_colour_zero() {
    let mut emu = blank_machine();
    for i in 0..16u16 {
        bus_write(&mut emu, 0x8000 + i, 0xFF);
    }
    bus_write(&mut emu, 0xFF40, 0x90);
    ticks_until(&mut emu, |e| e.ppu.curr_frame == 1, 100000);
    assert!(emu.ppu.video_buffer.iter().all(|p| *p == WHITE));
    let mut emu = blank_machine();
    for i in 0..16u16 {
        bus_write(&mut emu, 0x8000 + i, 0xFF);
    }
    ticks_until(&mut emu, |e| e.ppu.curr_frame == 1, 100000);
    assert!(emu.ppu.video_buffer[..8].iter().all(|p| *p == BLACK));
}

#[test]
fn signed_tile_data_area_starts_at_tile_128() {
    let mut emu = blank_machine();
    // Map entry 0 with the area at 0x8800 names the tile at 0x9000.
    for i in 0..16u16 {
        bus_write(&mut emu, 0x9000 + i, if i % 2 == 0 { 0xFF } else { 0x00 });
    }
    bus_write(&mut emu, 0xFF40, 0x81);
    ticks_until(&mut emu, |e| e.ppu.curr_frame == 1, 100000);
    assert!(emu.ppu.video_buffer[..160].iter().all(|p| *p == LIGHT));
}

#[test]
fn sprite_is_drawn_over_the_background() {
    let mut emu = blank_machine();
    // Tile 2: colour 3 everywhere.
    for i in 0..16u16 {
        bus_write(&mut emu, 0x8020 + i, 0xFF);
    }
    // Sprite 0 at screen column 16, line 0, tile 2, palette 1.
    bus_write(&mut emu, 0xFE00, 16);
    bus_write(&mut emu, 0xFE01, 24);
    bus_write(&mut emu, 0xFE02, 2);
    bus_write(&mut emu, 0xFE03, 0x10);
    bus_write(&mut emu, 0xFF49, 0x40);
    bus_write(&mut emu, 0xFF40, 0x93);
    ticks_until(&mut emu, |e| e.ppu.curr_frame == 1, 100000);
    for y in 0..9usize {
        for x in 0..40usize {
            let expected = if y < 8 && (16..24).contains(&x) { LIGHT } else { WHITE };
            assert_eq!(emu.ppu.video_buffer[y * 160 + x], expected, "x {} y {}", x, y);
        }
    }
}

#[test]
fn line_sprites_are_the_first_ten_sorted_by_x() {
    let mut emu = blank_machine();
    let place = |emu: &mut Emulator, index: u16, y: u8, x: u8| {
        bus_write(emu, 0xFE00 + 4 * index, y);
        bus_write(emu, 0xFE00 + 4 * index + 1, x);
    };
    place(&mut emu, 0, 16, 50);
    place(&mut emu, 1, 16, 20);
    place(&mut emu, 2, 9, 20);
    place(&mut emu, 3, 17, 10);
    place(&mut emu, 4, 16, 0);
    place(&mut emu, 5, 8, 5);
    place(&mut emu, 6, 16, 30);
    PPU::tick(&mut emu);
    assert_eq!(emu.ppu.line_sprites, vec![1, 2, 6, 0]);
    let mut emu = blank_machine();
    for i in 0..14u16 {
        place(&mut emu, i, 16, 100 - i as u8);
    }
    PPU::tick(&mut emu);
    assert_eq!(emu.ppu.line_sprites, vec![9, 8, 7, 6, 5, 4, 3, 2, 1, 0]);
    emu.ppu.load_line_sprites(8, 8);
    assert_eq!(emu.ppu.line_sprites, Vec::<u8>::new());
    emu.ppu.load_line_sprites(8, 16);
    assert_eq!(emu.ppu.line_sprites.len(), 10);
}

#[test]
fn oam_entries_and_their_flags() {
    let mut emu = blank_machine();
    emu.ppu.oam_write(4, 0x10);
    emu.ppu.oam_write(0xFE05, 0x20);
    emu.ppu.oam_write(6, 0x30);
    emu.ppu.oam_write(7, 0xA0);
    assert_eq!(emu.ppu.oam_read(0xFE04), 0x10);
    assert_eq!(emu.ppu.oam_read(5), 0x20);
    let entry = emu.ppu.oam_entry(1);
    assert_eq!(entry, OamEntry { y: 0x10, x: 0x20, tile: 0x30, flags: 0xA0 });
    assert_eq!(entry.get_flag(0x80), 0x80);
    assert_eq!(entry.get_flag(0x40), 0);
    assert_eq!(entry.get_flag(0x20), 0x20);
    let mut e = OamEntry::new();
    assert_eq!(e, OamEntry { y: 0, x: 0, tile: 0, flags: 0 });
    e.set_flag(0x10, 0xFF);
    assert_eq!(e.flags, 0x10);
    e.set_flag(0xF0, 0x60);
    assert_eq!(e.flags, 0x60);
    assert_eq!(emu.ppu.oam_entry(40), OamEntry::new());
}

#[test]
fn vram_access() {
    let mut emu = blank_machine();
    emu.ppu.vram_write(0x8000, 1);
    emu.ppu.vram_write(0x9FFF, 2);
    assert_eq!(emu.ppu.vram_read(0x8000), 1);
    assert_eq!(emu.ppu.vram_read(0x9FFF), 2);
    assert_eq!(emu.ppu.vram_read(0x9000), 0);
}

#[test]
fn pixel_fifo_is_a_queue() {
    let mut fifo = PixelFifo::new();
    assert_eq!(fifo.get_size(), 0);
    assert_eq!(fifo.curr_state, FetchState::FS_TILE);
    fifo.push(1);
    fifo.push(2);
    fifo.push(3);
    assert_eq!(fifo.get_size(), 3);
    assert_eq!(fifo.pop(), 1);
    assert_eq!(fifo.pop(), 2);
    assert_eq!(fifo.get_size(), 1);
    fifo.line_x = 5;
    fifo.pushed_x = 6;
    fifo.fetch_x = 7;
    fifo.fifo_x = 8;
    fifo.curr_state = FetchState::FS_PUSH;
    fifo.reset();
    assert_eq!(fifo.get_size(), 1);
    assert_eq!((fifo.line_x, fifo.pushed_x, fifo.fetch_x, fifo.fifo_x), (0, 0, 0, 0));
    assert_eq!(fifo.curr_state, FetchState::FS_TILE);
    fifo.clear();
    assert_eq!(fifo.get_size(), 0);
}

#[test]
fn lcd_registers_after_reset() {
    let lcd = LCD::init();
    assert_eq!(lcd.read(0xFF40), 0x91);
    assert_eq!(lcd.read(0xFF41) & 3, 2);
    assert_eq!(lcd.read(0xFF47), 0xFC);
    assert_eq!(lcd.read(0xFF48), 0xFF);
    assert_eq!(lcd.read(0xFF49), 0xFF);
    assert_eq!(lcd.get_lcds_mode(), LCD_MODE::MODE_OAM);
    assert_eq!(lcd.bg_colors, [WHITE, LIGHT, DARK, BLACK]);
    assert_eq!(lcd.get_lcdc_bg_tile_map_area(), 0x9800);
    assert_eq!(lcd.get_lcdc_win_tile_map_area(), 0x9800);
    assert_eq!(lcd.get_lcdc_bg_tile_data_area(), 0x8000);
    assert_eq!(lcd.get_lcdc_obj_size(), 8);
    assert!(lcd.get_lcdc_flag(0x80));
    assert!(lcd.get_lcdc_flag(0x01));
    assert!(!lcd.get_lcdc_flag(0x02));
}

#[test]
fn lcd_register_writes() {
    let mut emu = blank_machine();
    for (address, value) in [
        (0xFF40u16, 0xDFu8),
        (0xFF42, 0x11),
        (0xFF43, 0x22),
        (0xFF44, 0x33),
        (0xFF45, 0x44),
        (0xFF4A, 0x55),
        (0xFF4B, 0x66),
    ] {
        bus_write(&mut emu, address, value);
        assert_eq!(emu.lcd.read(address), value);
    }
    assert_eq!(emu.lcd.get_lcdc_bg_tile_map_area(), 0x9C00);
    assert_eq!(emu.lcd.get_lcdc_win_tile_map_area(), 0x9C00);
    assert_eq!(emu.lcd.get_lcdc_obj_size(), 16);
    bus_write(&mut emu, 0xFF40, 0x00);
    assert_eq!(emu.lcd.get_lcdc_bg_tile_data_area(), 0x8800);
    assert!(!emu.dma.is_transferring());
}

#[test]
fn palette_writes_set_the_shade_tables() {
    let mut emu = blank_machine();
    bus_write(&mut emu, 0xFF47, 0x1B);
    assert_eq!(emu.lcd.bg_colors, [BLACK, DARK, LIGHT, WHITE]);
    bus_write(&mut emu, 0xFF48, 0x1B);
    assert_eq!(emu.lcd.sp1_colors, [WHITE, DARK, LIGHT, WHITE]);
    bus_write(&mut emu, 0xFF49, 0xE7);
    assert_eq!(emu.lcd.sp2_colors, [WHITE, LIGHT, DARK, BLACK]);
    assert_eq!(emu.lcd.read(0xFF47), 0xFC);
    emu.lcd.update_palette(0xFF, 0);
    assert_eq!(emu.lcd.bg_colors, [BLACK, BLACK, BLACK, BLACK]);
}

#[test]
fn stat_mode_and_lyc_bits() {
    let mut lcd = LCD::init();
    lcd.lcds = 0xF8;
    lcd.set_lcds_mode(LCD_MODE::MODE_XFER);
    assert_eq!(lcd.lcds, 0xFB);
    assert_eq!(lcd.get_lcds_mode(), LCD_MODE::MODE_XFER);
    lcd.set_lcds_mode(LCD_MODE::MODE_HBLANK);
    assert_eq!(lcd.lcds, 0xF8);
    lcd.set_lcds_lyc(true);
    assert_eq!(lcd.lcds, 0xFC);
    assert!(lcd.get_lcds_lyc());
    lcd.set_lcds_lyc(true);
    assert_eq!(lcd.lcds, 0xFC);
    lcd.set_lcds_mode(LCD_MODE::MODE_VBLANK);
    assert_eq!(lcd.lcds, 0xFD);
    lcd.set_lcds_lyc(false);
    assert_eq!(lcd.lcds, 0xF9);
    assert!(lcd.get_lcds_flag(0x40));
    lcd.lcds = 0x00;
    assert!(!lcd.get_lcds_flag(0x40));
    assert_eq!(LCD_MODE::try_from(0), Ok(LCD_MODE::MODE_HBLANK));
    assert_eq!(LCD_MODE::try_from(1), Ok(LCD_MODE::MODE_VBLANK));
    assert_eq!(LCD_MODE::try_from(2), Ok(LCD_MODE::MODE_OAM));
    assert_eq!(LCD_MODE::try_from(3), Ok(LCD_MODE::MODE_XFER));
    assert_eq!(LCD_MODE::try_from(4), Err(()));
}

#[test]
fn joypad_reports_the_selected_group() {
    let mut pad = GamePad::new();
    pad.set_select(0x30);
    assert!(pad.button_select());
    assert!(pad.dir_select());
    pad.controller.a = true;
    pad.controller.down = true;
    assert_eq!(pad.get_output(), 0xCF);
    pad.set_select(0x10);
    assert!(!pad.button_select());
    assert_eq!(pad.get_output(), 0xCE);
    pad.set_select(0x20);
    assert_eq!(pad.get_output(), 0xC7);
    pad.set_select(0x00);
    assert_eq!(pad.get_output(), 0xC6);
    pad.controller = *GamePad::new().get_state();
    pad.set_select(0x10);
    pad.controller.start = true;
    assert_eq!(pad.get_output(), 0xC7);
    pad.controller.select = true;
    assert_eq!(pad.get_output(), 0xC3);
    pad.controller.b = true;
    assert_eq!(pad.get_output(), 0xC1);
    pad.set_select(0x20);
    assert_eq!(pad.get_output(), 0xCF);
    pad.controller.right = true;
    assert_eq!(pad.get_output(), 0xCE);
    pad.controller.left = true;
    assert_eq!(pad.get_output(), 0xCC);
    pad.controller.up = true;
    assert_eq!(pad.get_output(), 0xC8);
}

#[test]
fn joypad_through_the_bus() {
    let mut emu = blank_machine();
    handle_key_event(&mut emu.gamepad.controller, true, Key::Start);
    handle_key_event(&mut emu.gamepad.controller, true, Key::Left);
    bus_write(&mut emu, 0xFF00, 0x10);
    assert_eq!(gbemu::emulator::address_bus::bus_read(&emu, 0xFF00), 0xC7);
    bus_write(&mut emu, 0xFF00, 0x20);
    assert_eq!(gbemu::emulator::address_bus::bus_read(&emu, 0xFF00), 0xCD);
    handle_key_event(&mut emu.gamepad.controller, false, Key::Left);
    assert_eq!(gbemu::emulator::address_bus::bus_read(&emu, 0xFF00), 0xCF);
}

#[test]
fn key_events_set_their_key() {
    let mut pad = GamePad::new();
    for key in [Key::A, Key::B, Key::Start, Key::Select, Key::Up, Key::Down, Key::Left, Key::Right]
    {
        handle_key_event(&mut pad.controller, true, key);
    }
    let k = pad.get_state();
    assert!(k.a && k.b && k.start && k.select && k.up && k.down && k.left && k.right);
    handle_key_event(&mut pad.controller, false, Key::B);
    assert!(!pad.controller.b);
    assert!(pad.controller.a);
}

#[test]
fn frame_pacing() {
    let mut clock = FrameClock::new();
    clock.frame_done(100);
    assert_eq!(
        clock.on_frame(105, true),
        FrameAction { delay: 11, fps: None, save: false }
    );
    assert_eq!(clock.frame_counter, 1);
    assert_eq!(clock.on_frame(116, false).delay, 0);
    assert_eq!(clock.on_frame(200, false).delay, 0);
    assert_eq!(clock.on_frame(90, false).delay, 16);
    clock.frame_done(990);
    assert_eq!(
        clock.on_frame(1000, true),
        FrameAction { delay: 6, fps: Some(4), save: true }
    );
    assert_eq!(clock.start_timer, 1000);
    assert_eq!(clock.frame_counter, 1);
    clock.frame_done(1990);
    assert_eq!(clock.on_frame(1999, true).fps, None);
    assert_eq!(
        clock.on_frame(2000, false),
        FrameAction { delay: 6, fps: Some(2), save: false }
    );
}

#[test]
fn tile_viewer_pixels() {
    assert_eq!(tile_pixel(0x80, 0x00, 7), 2);
    assert_eq!(tile_pixel(0x00, 0x80, 7), 1);
    assert_eq!(tile_pixel(0x81, 0x01, 0), 3);
    assert_eq!(tile_pixel(0x81, 0x01, 3), 0);
}

#[test]
fn window_covers_the_background() {
    let mut emu = blank_machine();
    for i in 0..16u16 {
        bus_write(&mut emu, 0x8010 + i, 0xFF);
    }
    for i in 0..0x400u16 {
        bus_write(&mut emu, 0x9C00 + i, 1);
    }
    bus_write(&mut emu, 0xFF4A, 8);
    bus_write(&mut emu, 0xFF4B, 87);
    bus_write(&mut emu, 0xFF40, 0xF1);
    ticks_until(&mut emu, |e| e.ppu.curr_frame == 1, 100000);
    for y in [0usize, 7, 8, 20, 143] {
        for x in 0..160usize {
            let expected = if y >= 8 && x >= 80 { BLACK } else { WHITE };
            assert_eq!(emu.ppu.video_buffer[y * 160 + x], expected, "x {} y {}", x, y);
        }
    }
    assert_eq!(emu.ppu.window_line, 136);
}

#[test]
fn sprite_behind_the_background_shows_only_over_colour_zero() {
    let mut emu = blank_machine();
    // Tile 1: colour 1 everywhere. Tile 2: colour 3 everywhere.
    for row in 0..8u16 {
        bus_write(&mut emu, 0x8010 + 2 * row, 0xFF);
    }
    for i in 0..16u16 {
        bus_write(&mut emu, 0x8020 + i, 0xFF);
    }
    // The second tile of the first map row shows tile 1.
    bus_write(&mut emu, 0x9801, 1);
    // Two sprites behind the background: one over tile 1, one over tile 0.
    for (index, x) in [(0u16, 16u8), (1, 32)] {
        bus_write(&mut emu, 0xFE00 + 4 * index, 16);
        bus_write(&mut emu, 0xFE00 + 4 * index + 1, x);
        bus_write(&mut emu, 0xFE00 + 4 * index + 2, 2);
        bus_write(&mut emu, 0xFE00 + 4 * index + 3, 0x80);
    }
    bus_write(&mut emu, 0xFF48, 0xE4);
    bus_write(&mut emu, 0xFF40, 0x93);
    ticks_until(&mut emu, |e| e.lcd.ly == 1, 1000);
    for x in 0..40usize {
        let expected = if (8..16).contains(&x) {
            LIGHT
        } else if (24..32).contains(&x) {
            BLACK
        } else {
            WHITE
        };
        assert_eq!(emu.ppu.video_buffer[x], expected, "x {}", x);
    }
}

#[test]
fn sprite_flips() {
    let mut emu = blank_machine();
    // Tile 2: the first row has colour 3 in its left half; the other rows are empty.
    bus_write(&mut emu, 0x8020, 0xF0);
    bus_write(&mut emu, 0x8021, 0xF0);
    // Sprite 0 plain, sprite 1 mirrored horizontally, sprite 2 mirrored vertically.
    for (index, x, flags) in [(0u16, 8u8, 0x00u8), (1, 24, 0x20), (2, 40, 0x40)] {
        bus_write(&mut emu, 0xFE00 + 4 * index, 16);
        bus_write(&mut emu, 0xFE00 + 4 * index + 1, x);
        bus_write(&mut emu, 0xFE00 + 4 * index + 2, 2);
        bus_write(&mut emu, 0xFE00 + 4 * index + 3, flags);
    }
    bus_write(&mut emu, 0xFF48, 0xE4);
    bus_write(&mut emu, 0xFF40, 0x93);
    ticks_until(&mut emu, |e| e.lcd.ly == 8, 10000);
    for x in 0..48usize {
        let first = if (0..4).contains(&x) || (20..24).contains(&x) { BLACK } else { WHITE };
        let last = if (32..36).contains(&x) { BLACK } else { WHITE };
        assert_eq!(emu.ppu.video_buffer[x], first, "line 0 x {}", x);
        assert_eq!(emu.ppu.video_buffer[7 * 160 + x], last, "line 7 x {}", x);
        assert_eq!(emu.ppu.video_buffer[3 * 160 + x], WHITE, "line 3 x {}", x);
    }
}

#[test]
fn tall_sprites_use_a_pair_of_tiles() {
    let mut emu = blank_machine();
    // Tile 4 empty, tile 5 with colour 3 in its first row.
    bus_write(&mut emu, 0x8050, 0xFF);
    bus_write(&mut emu, 0x8051, 0xFF);
    bus_write(&mut emu, 0xFE00, 16);
    bus_write(&mut emu, 0xFE01, 8);
    bus_write(&mut emu, 0xFE02, 5);
    bus_write(&mut emu, 0xFF48, 0xE4);
    bus_write(&mut emu, 0xFF40, 0x97);
    ticks_until(&mut emu, |e| e.lcd.ly == 9, 10000);
    for y in 0..9usize {
        let expected = if y == 8 { BLACK } else { WHITE };
        assert_eq!(emu.ppu.video_buffer[y * 160], expected, "y {}", y);
        assert_eq!(emu.ppu.video_buffer[y * 160 + 8], WHITE);
    }
}

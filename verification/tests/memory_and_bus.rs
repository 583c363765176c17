use gbemu::emulator::address_bus::bus_read;
use gbemu::emulator::address_bus::bus_read_16;
use gbemu::emulator::address_bus::bus_write;
use gbemu::emulator::address_bus::bus_write_16;
use gbemu::emulator::cartridge::Cartridge;
use gbemu::emulator::cartridge::CartridgeError;
use gbemu::emulator::dma::DMA;
use gbemu::emulator::io::io_read;
use gbemu::emulator::io::io_write;
use gbemu::emulator::ram::RAM;
use gbemu::emulator::Emulator;

fn image(size: usize, cartridge_type: u8, ram_size: u8) -> Vec<u8> {
    let mut rom = vec![0u8; size];
    for i in 0..size {
        rom[i] = ((i / 0x4000) as u8) ^ (i as u8).wrapping_mul(7);
    }
    for i in 0x134..0x150 {
        rom[i] = 0;
    }
    let title = b"TESTCART";
    for (i, b) in title.iter().enumerate() {
        rom[0x134 + i] = *b;
    }
    rom[0x147] = cartridge_type;
    rom[0x148] = 0x05;
    rom[0x149] = ram_size;
    let mut sum: u8 = 0;
    for i in 0x134..0x14D {
        sum = sum.wrapping_sub(rom[i]).wrapping_sub(1);
    }
    rom[0x14D] = sum;
    rom
}

fn cart(cartridge_type: u8, ram_size: u8) -> Cartridge {
    Cartridge::load_rom_file("test.gb", image(0x100000, cartridge_type, ram_size)).unwrap()
}

fn machine_with(cartridge_type: u8, ram_size: u8) -> Emulator {
    Emulator::init("test.gb", image(0x100000, cartridge_type, ram_size), false).unwrap()
}

#[test]
fn header_checksum_is_verified() {
    let good = image(0x8000, 0, 0);
    assert!(Cartridge::verify_checksum(&good));
    let mut sum: u32 = 0;
    for i in 0x134..0x14D {
        sum = sum.wrapping_sub(good[i] as u32).wrapping_sub(1);
    }
    assert_eq!((sum & 0xFF) as u8, good[0x14D]);
    let mut bad = good.clone();
    bad[0x140] ^= 1;
    assert!(!Cartridge::verify_checksum(&bad));
    assert_eq!(
        Cartridge::load_rom_file("bad.gb", bad).err(),
        Some(CartridgeError::BadChecksum)
    );
}

#[test]
fn image_size_is_checked() {
    assert_eq!(
        Cartridge::load_rom_file("s.gb", vec![0u8; 0x7FFF]).err(),
        Some(CartridgeError::RomTooSmall)
    );
    assert_eq!(
        Cartridge::load_rom_file("e.gb", Vec::new()).err(),
        Some(CartridgeError::RomTooSmall)
    );
    assert_eq!(
        Cartridge::load_rom_file("l.gb", vec![0u8; 0x800001]).err(),
        Some(CartridgeError::RomTooLarge)
    );
    assert!(Cartridge::load_rom_file("ok.gb", image(0x8000, 0, 0)).is_ok());
    assert!(Cartridge::load_rom_file("ok.gb", image(0x200000, 1, 0)).is_ok());
    assert!(Emulator::init("s.gb", vec![0u8; 16], false).is_err());
}

#[test]
fn header_fields_are_parsed() {
    let c = cart(0x03, 0x03);
    assert_eq!(c.filename, "test.gb");
    assert_eq!(c.rom_size, 0x100000);
    assert_eq!(c.rom_header.cartridge_type, 0x03);
    assert_eq!(c.rom_header.rom_size, 0x05);
    assert_eq!(c.rom_header.ram_size, 0x03);
    assert_eq!(&c.rom_header.title[..8], b"TESTCART");
    assert_eq!(c.title(), b"TESTCART".to_vec());
    assert!(c.mbc1());
    assert!(c.has_battery());
    assert_eq!(c.ram.len(), 4 * 0x2000);
    assert!(!c.need_save());
}

#[test]
fn title_of_sixteen_bytes_and_empty_title() {
    let mut rom = image(0x8000, 0, 0);
    for i in 0..16 {
        rom[0x134 + i] = b'A' + i as u8;
    }
    let mut sum: u8 = 0;
    for i in 0x134..0x14D {
        sum = sum.wrapping_sub(rom[i]).wrapping_sub(1);
    }
    rom[0x14D] = sum;
    let c = Cartridge::load_rom_file("t.gb", rom).unwrap();
    assert_eq!(c.title(), b"ABCDEFGHIJKLMNOP".to_vec());
    let mut rom = image(0x8000, 0, 0);
    for i in 0..16 {
        rom[0x134 + i] = 0;
    }
    let mut sum: u8 = 0;
    for i in 0x134..0x14D {
        sum = sum.wrapping_sub(rom[i]).wrapping_sub(1);
    }
    rom[0x14D] = sum;
    let c = Cartridge::load_rom_file("t.gb", rom).unwrap();
    assert_eq!(c.title(), Vec::<u8>::new());
}

#[test]
fn bank_zero_never_changes() {
    let original = image(0x100000, 0x01, 0x03);
    let mut c = cart(0x01, 0x03);
    for (address, data) in [
        (0x0000u16, 0x0Au8),
        (0x2000, 0x05),
        (0x3FFF, 0x00),
        (0x4000, 0x03),
        (0x6000, 0x01),
        (0x7FFF, 0xFF),
        (0x0100, 0x77),
    ] {
        c.write(address, data);
        for a in [0x0000u16, 0x0001, 0x0100, 0x1234, 0x3FFF] {
            assert_eq!(c.read(a), original[a as usize]);
        }
    }
}

#[test]
fn rom_bank_switching() {
    let original = image(0x100000, 0x01, 0x00);
    let mut c = cart(0x01, 0x00);
    assert_eq!(c.read(0x4000), original[0x4000]);
    c.write(0x2000, 0x05);
    assert_eq!(c.rom_bank(), 5);
    assert_eq!(c.read(0x4000), original[5 * 0x4000]);
    assert_eq!(c.read(0x7FFF), original[5 * 0x4000 + 0x3FFF]);
    c.write(0x2000, 0x00);
    assert_eq!(c.rom_bank(), 1);
    assert_eq!(c.read(0x4321), original[0x4000 + 0x0321]);
    c.write(0x2000, 0x20);
    assert_eq!(c.rom_bank(), 1);
    c.write(0x2000, 0xE3);
    assert_eq!(c.rom_bank(), 3);
    c.write(0x4000, 0x01);
    assert_eq!(c.rom_bank(), 0x23);
    assert_eq!(c.read(0x4000), original[0x23 * 0x4000]);
    c.write(0x6000, 0x01);
    assert_eq!(c.rom_bank(), 3);
    assert_eq!(c.ram_bank(), 1);
}

#[test]
fn rom_bank_past_the_image_reads_ff() {
    let mut c = Cartridge::load_rom_file("t.gb", image(0x8000, 0x01, 0x00)).unwrap();
    c.write(0x2000, 0x02);
    assert_eq!(c.read(0x4000), 0xFF);
}

#[test]
fn rom_only_cartridge_ignores_writes() {
    let original = image(0x8000, 0x00, 0x00);
    let mut c = Cartridge::load_rom_file("t.gb", original.clone()).unwrap();
    c.write(0x2000, 0x05);
    c.write(0x0000, 0x0A);
    c.write(0xA000, 0x55);
    assert_eq!(c.read(0x4000), original[0x4000]);
    assert_eq!(c.read(0x7FFF), original[0x7FFF]);
    assert_eq!(c.read(0xA000), 0xFF);
    assert!(!c.ram_enabled);
}

#[test]
fn ram_is_gated_by_the_enable_latch() {
    let mut c = cart(0x03, 0x03);
    assert_eq!(c.read(0xA000), 0xFF);
    c.write(0xA000, 0x12);
    assert_eq!(c.read(0xA000), 0xFF);
    assert!(c.ram.iter().all(|b| *b == 0));
    assert!(!c.need_save());
    c.write(0x0000, 0x0A);
    assert_eq!(c.read(0xA000), 0x00);
    c.write(0xA000, 0x12);
    c.write(0xBFFF, 0x34);
    assert_eq!(c.read(0xA000), 0x12);
    assert_eq!(c.read(0xBFFF), 0x34);
    assert!(c.need_save());
    c.write(0x1FFF, 0x00);
    assert_eq!(c.read(0xA000), 0xFF);
    c.write(0xA000, 0x99);
    c.write(0x0000, 0x1A);
    assert_eq!(c.read(0xA000), 0x12);
}

#[test]
fn ram_banks_are_separate() {
    let mut c = cart(0x03, 0x03);
    c.write(0x0000, 0x0A);
    c.write(0x6000, 0x01);
    c.write(0x4000, 0x00);
    c.write(0xA000, 0x11);
    c.write(0x4000, 0x02);
    assert_eq!(c.read(0xA000), 0x00);
    c.write(0xA000, 0x22);
    c.write(0x4000, 0x00);
    assert_eq!(c.read(0xA000), 0x11);
    c.write(0x4000, 0x02);
    assert_eq!(c.read(0xA000), 0x22);
    c.write(0x6000, 0x00);
    assert_eq!(c.read(0xA000), 0x11);
}

#[test]
fn missing_ram_reads_ff() {
    let mut c = cart(0x01, 0x00);
    c.write(0x0000, 0x0A);
    c.write(0xA000, 0x55);
    assert_eq!(c.read(0xA000), 0xFF);
    let mut c = cart(0x03, 0x02);
    c.write(0x0000, 0x0A);
    c.write(0x6000, 0x01);
    c.write(0x4000, 0x01);
    c.write(0xA000, 0x55);
    assert_eq!(c.read(0xA000), 0xFF);
    assert!(!c.need_save());
}

#[test]
fn cartridge_without_battery_is_never_dirty() {
    let mut c = cart(0x02, 0x02);
    c.write(0x0000, 0x0A);
    c.write(0xA000, 0x55);
    assert_eq!(c.read(0xA000), 0x55);
    assert!(!c.need_save());
}

#[test]
fn battery_save_round_trip() {
    let mut c = cart(0x03, 0x03);
    c.write(0x0000, 0x0A);
    c.write(0xA000, 0xDE);
    c.write(0xA123, 0xAD);
    c.write(0xBFFF, 0xBE);
    assert!(c.need_save());
    let image = c.save_battery();
    assert_eq!(image.len(), 0x2000);
    assert_eq!(image[0], 0xDE);
    assert_eq!(image[0x123], 0xAD);
    assert_eq!(image[0x1FFF], 0xBE);
    assert!(!c.need_save());
    let mut fresh = cart(0x03, 0x03);
    assert!(fresh.load_battery(&image));
    fresh.write(0x0000, 0x0A);
    assert_eq!(fresh.read(0xA000), 0xDE);
    assert_eq!(fresh.read(0xA123), 0xAD);
    assert_eq!(fresh.read(0xBFFF), 0xBE);
    assert_eq!(fresh.save_battery(), image);
}

#[test]
fn battery_file_that_does_not_fit_is_refused() {
    let mut c = cart(0x03, 0x03);
    assert!(!c.load_battery(&vec![1u8; 0x1FFF]));
    assert!(c.ram.iter().all(|b| *b == 0));
    let mut no_ram = cart(0x03, 0x00);
    assert!(!no_ram.load_battery(&vec![1u8; 0x2000]));
    assert_eq!(no_ram.save_battery(), Vec::<u8>::new());
    let mut long = vec![7u8; 0x3000];
    long[0x2000] = 9;
    assert!(c.load_battery(&long));
    assert_eq!(c.ram[0x1FFF], 7);
    assert_eq!(c.ram[0x2000], 0);
}

#[test]
fn switch_to_ram_banking_asks_for_a_flush() {
    let mut c = cart(0x03, 0x03);
    c.write(0x0000, 0x0A);
    c.write(0x6000, 0x01);
    assert!(!c.flush_due);
    c.write(0x6000, 0x00);
    c.write(0xA000, 0x42);
    assert!(c.need_save());
    assert!(!c.flush_due);
    c.write(0x6000, 0x01);
    assert!(c.flush_due);
    let image = c.save_battery();
    assert_eq!(image[0], 0x42);
    assert!(!c.flush_due);
    assert!(!c.need_save());
}

#[test]
fn work_ram_and_high_ram() {
    let mut ram = RAM::new();
    assert_eq!(ram.wram_read(0xC000), 0);
    ram.wram_write(0xC000, 1);
    ram.wram_write(0xDFFF, 2);
    ram.hram_write(0xFF80, 3);
    ram.hram_write(0xFFFE, 4);
    assert_eq!(ram.wram_read(0xC000), 1);
    assert_eq!(ram.wram_read(0xDFFF), 2);
    assert_eq!(ram.hram_read(0xFF80), 3);
    assert_eq!(ram.hram_read(0xFFFE), 4);
    assert_eq!(ram.wram_read(0xC001), 0);
}

#[test]
fn bus_decodes_every_range() {
    let original = image(0x100000, 0x03, 0x03);
    let mut emu = machine_with(0x03, 0x03);
    assert_eq!(bus_read(&emu, 0x0150), original[0x0150]);
    assert_eq!(bus_read(&emu, 0x4150), original[0x4150]);
    bus_write(&mut emu, 0x8000, 0x11);
    bus_write(&mut emu, 0x9FFF, 0x12);
    assert_eq!(bus_read(&emu, 0x8000), 0x11);
    assert_eq!(emu.ppu.vram[0x1FFF], 0x12);
    bus_write(&mut emu, 0x0000, 0x0A);
    bus_write(&mut emu, 0xA010, 0x13);
    assert_eq!(bus_read(&emu, 0xA010), 0x13);
    bus_write(&mut emu, 0xC000, 0x14);
    assert_eq!(bus_read(&emu, 0xC000), 0x14);
    bus_write(&mut emu, 0xE000, 0x15);
    assert_eq!(bus_read(&emu, 0xE000), 0);
    assert_eq!(bus_read(&emu, 0xC000), 0x14);
    assert_eq!(bus_read(&emu, 0xFDFF), 0);
    bus_write(&mut emu, 0xFE00, 0x16);
    bus_write(&mut emu, 0xFE9F, 0x17);
    assert_eq!(bus_read(&emu, 0xFE00), 0x16);
    assert_eq!(emu.ppu.oam_ram[0x9F], 0x17);
    bus_write(&mut emu, 0xFEA0, 0x18);
    assert_eq!(bus_read(&emu, 0xFEA0), 0);
    assert_eq!(bus_read(&emu, 0xFEFF), 0);
    bus_write(&mut emu, 0xFF80, 0x19);
    bus_write(&mut emu, 0xFFFE, 0x1A);
    assert_eq!(bus_read(&emu, 0xFF80), 0x19);
    assert_eq!(bus_read(&emu, 0xFFFE), 0x1A);
    bus_write(&mut emu, 0xFFFF, 0x1B);
    assert_eq!(bus_read(&emu, 0xFFFF), 0x1B);
    assert_eq!(emu.cpu.get_ie_register(), 0x1B);
}

#[test]
fn sixteen_bit_access_is_little_endian() {
    let mut emu = machine_with(0, 0);
    bus_write_16(&mut emu, 0xC100, 0xABCD);
    assert_eq!(bus_read(&emu, 0xC100), 0xCD);
    assert_eq!(bus_read(&emu, 0xC101), 0xAB);
    assert_eq!(bus_read_16(&emu, 0xC100), 0xABCD);
    bus_write(&mut emu, 0xFFFF, 0x12);
    assert_eq!(bus_read_16(&emu, 0xFFFF) & 0x00FF, 0x12);
}

#[test]
fn io_registers() {
    let mut emu = machine_with(0, 0);
    io_write(&mut emu, 0xFF01, 0x41);
    io_write(&mut emu, 0xFF02, 0x80);
    assert_eq!(io_read(&emu, 0xFF01), 0x41);
    assert_eq!(io_read(&emu, 0xFF02), 0x80);
    io_write(&mut emu, 0xFF0F, 0x1F);
    assert_eq!(io_read(&emu, 0xFF0F), 0x1F);
    assert_eq!(emu.cpu.get_int_flags(), 0x1F);
    io_write(&mut emu, 0xFF10, 0x77);
    io_write(&mut emu, 0xFF3F, 0x77);
    assert_eq!(io_read(&emu, 0xFF10), 0);
    assert_eq!(io_read(&emu, 0xFF3F), 0);
    assert_eq!(io_read(&emu, 0xFF50), 0);
    io_write(&mut emu, 0xFF42, 0x33);
    assert_eq!(io_read(&emu, 0xFF42), 0x33);
    assert_eq!(bus_read(&emu, 0xFF42), 0x33);
    io_write(&mut emu, 0xFF06, 0x44);
    assert_eq!(io_read(&emu, 0xFF06), 0x44);
    assert_eq!(io_read(&emu, 0xFF04), 0xAB);
    io_write(&mut emu, 0xFF04, 0x99);
    assert_eq!(io_read(&emu, 0xFF04), 0x00);
    assert_eq!(io_read(&emu, 0xFF00), 0xCF);
}

#[test]
fn dma_copies_a_page_to_oam() {
    let mut emu = machine_with(0, 0);
    for i in 0..0xA0u16 {
        bus_write(&mut emu, 0xC000 + i, i as u8);
    }
    bus_write(&mut emu, 0xFF46, 0xC0);
    assert!(emu.dma.is_transferring());
    assert_eq!(bus_read(&emu, 0xFF46), 0xC0);
    emu.cycles(162);
    assert!(!emu.dma.is_transferring());
    for i in 0..0xA0u16 {
        assert_eq!(emu.ppu.oam_ram[i as usize], i as u8);
        assert_eq!(bus_read(&emu, 0xFE00 + i), i as u8);
    }
}

#[test]
fn oam_is_closed_while_dma_runs() {
    let mut emu = machine_with(0, 0);
    bus_write(&mut emu, 0xFE10, 0x55);
    bus_write(&mut emu, 0xC010, 0x66);
    bus_write(&mut emu, 0xFF46, 0xC0);
    for _ in 0..161 {
        assert!(emu.dma.is_transferring());
        assert_eq!(bus_read(&emu, 0xFE10), 0xFF);
        bus_write(&mut emu, 0xFE9F, 0x77);
        emu.cycles(1);
    }
    assert!(emu.dma.is_transferring());
    emu.cycles(1);
    assert!(!emu.dma.is_transferring());
    assert_eq!(bus_read(&emu, 0xFE10), 0x66);
    assert_eq!(bus_read(&emu, 0xFE9F), 0x00);
}

#[test]
fn dma_start_delay_is_two_cycles() {
    let mut emu = machine_with(0, 0);
    bus_write(&mut emu, 0xC000, 0xAA);
    bus_write(&mut emu, 0xC001, 0xBB);
    bus_write(&mut emu, 0xFF46, 0xC0);
    emu.cycles(2);
    assert_eq!(emu.ppu.oam_ram[0], 0x00);
    assert_eq!(emu.dma.byte, 0);
    emu.cycles(1);
    assert_eq!(emu.ppu.oam_ram[0], 0xAA);
    assert_eq!(emu.ppu.oam_ram[1], 0x00);
    assert_eq!(emu.dma.byte, 1);
    DMA::tick(&mut emu);
    assert_eq!(emu.ppu.oam_ram[1], 0xBB);
}

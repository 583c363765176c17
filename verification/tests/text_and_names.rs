use gbemu::emulator::cartridge::cartridge_type_name;
use gbemu::emulator::cartridge::license_name;
use gbemu::emulator::cartridge::ram_size_name;
use gbemu::emulator::cpu::CPU;
use gbemu::emulator::text::decimal;
use gbemu::emulator::text::hex_digit;
use gbemu::emulator::text::hex_u16;
use gbemu::emulator::text::hex_u8;

#[test]
fn hexadecimal_and_decimal_digits() {
    assert_eq!(hex_digit(0), "0");
    assert_eq!(hex_digit(9), "9");
    assert_eq!(hex_digit(10), "A");
    assert_eq!(hex_digit(15), "F");
    for v in 0..=255u8 {
        assert_eq!(hex_u8(v), format!("{:02X}", v));
    }
    for v in [0u16, 0x0001, 0x0100, 0x1234, 0xABCD, 0xFFFF] {
        assert_eq!(hex_u16(v), format!("{:04X}", v));
    }
    for n in [0u64, 7, 10, 99, 100, 32768, 1048576, u64::MAX] {
        assert_eq!(decimal(n), format!("{}", n));
    }
}

#[test]
fn cpu_state_in_words() {
    let cpu = CPU::cpu_init(false);
    assert_eq!(cpu.print_flags(), "Flags: Z-HC");
    assert_eq!(
        cpu.print_state(),
        "======= CPU state =======\nA : 0x01\tBC: 0x0013\tDE: 0x00D8\nHL: 0x014D\tPC: 0x0100\tSP: 0xFFFE\nFlags: Z-HC"
    );
    let mut cpu = CPU::cpu_init(true);
    assert!(cpu.trace);
    cpu.set_flags(0, 1, 0, 0);
    assert_eq!(cpu.print_flags(), "Flags: -N--");
    cpu.set_flags(-1, -1, -1, 1);
    assert_eq!(cpu.print_flags(), "Flags: -N-C");
    assert!(cpu.get_flag(0x40));
    assert!(!cpu.get_flag(0x80));
    cpu.set_flag(0x80, true);
    cpu.set_flag(0x40, false);
    assert_eq!(cpu.registers.f, 0x90);
    assert!(cpu.check_cond());
}

#[test]
fn names_of_the_header_codes() {
    assert_eq!(cartridge_type_name(0x00), Some("ROM ONLY"));
    assert_eq!(cartridge_type_name(0x01), Some("MBC1"));
    assert_eq!(cartridge_type_name(0x03), Some("MBC1+RAM+BATTERY"));
    assert_eq!(cartridge_type_name(0x13), Some("MBC3+RAM+BATTERY"));
    assert_eq!(cartridge_type_name(0xFF), Some("HuC1+RAM+BATTERY"));
    assert_eq!(cartridge_type_name(0x04), None);
    assert_eq!(ram_size_name(0x00), Some("No RAM"));
    assert_eq!(ram_size_name(0x02), Some("8 KiB"));
    assert_eq!(ram_size_name(0x05), Some("64 KiB (8 banks of 8 KiB each)"));
    assert_eq!(ram_size_name(0x06), None);
    assert_eq!(license_name(*b"01"), Some("Nintendo R&D1"));
    assert_eq!(license_name(*b"31"), Some("Nintendo"));
    assert_eq!(license_name(*b"9F"), Some("Bottom Up"));
    assert_eq!(license_name(*b"A4"), Some("Konami (Yu-Gi-Oh!)"));
    assert_eq!(license_name(*b"ZZ"), None);
    assert_eq!(license_name([0, 0]), None);
}

fn titled_image(title: &[u8], cartridge_type: u8, ram_size: u8, license: &[u8; 2]) -> Vec<u8> {
    let mut rom = vec![0u8; 0x8000];
    for (i, b) in title.iter().enumerate() {
        rom[0x134 + i] = *b;
    }
    rom[0x144] = license[0];
    rom[0x145] = license[1];
    rom[0x147] = cartridge_type;
    rom[0x149] = ram_size;
    let mut sum: u8 = 0;
    for i in 0x134..0x14D {
        sum = sum.wrapping_sub(rom[i]).wrapping_sub(1);
    }
    rom[0x14D] = sum;
    rom
}

#[test]
fn bytes_as_text() {
    assert_eq!(gbemu::emulator::text::text(&b"Passed\n".to_vec()), "Passed\n");
    assert_eq!(gbemu::emulator::text::text(&Vec::new()), "");
    assert_eq!(gbemu::emulator::text::text(&vec![0x41, 0xE9]), "A\u{e9}");
}

#[test]
fn title_and_save_file_name() {
    let cart = gbemu::emulator::cartridge::Cartridge::load_rom_file(
        "roms/tetris.gb",
        titled_image(b"TETRIS", 0x00, 0x00, b"01"),
    )
    .unwrap();
    assert_eq!(cart.title_text(), "TETRIS");
    assert_eq!(cart.battery_file_name(), "TETRIS.sav");
    let cart = gbemu::emulator::cartridge::Cartridge::load_rom_file(
        "x.gb",
        titled_image(b"", 0x00, 0x00, b"01"),
    )
    .unwrap();
    assert_eq!(cart.battery_file_name(), ".sav");
}

#[test]
fn cartridge_information() {
    let cart = gbemu::emulator::cartridge::Cartridge::load_rom_file(
        "roms/tetris.gb",
        titled_image(b"TETRIS", 0x03, 0x03, b"01"),
    )
    .unwrap();
    assert_eq!(
        cart.print_info(),
        vec![
            "======= Cartridge information =======",
            "  Filename: roms/tetris.gb",
            "  ROM size: 32768 bytes",
            "  Title: TETRIS",
            "  Cartridge type: 3 (MBC1+RAM+BATTERY)",
            "  RAM size: 3 (32 KiB (4 banks of 8 KiB each))",
            "  License code: 01 (Nintendo R&D1)",
            "=====================================",
        ]
    );
    let cart = gbemu::emulator::cartridge::Cartridge::load_rom_file(
        "odd.gb",
        titled_image(b"ODD", 0x04, 0x07, b"ZZ"),
    )
    .unwrap();
    assert_eq!(
        cart.print_info(),
        vec![
            "======= Cartridge information =======",
            "  Filename: odd.gb",
            "  ROM size: 32768 bytes",
            "  Title: ODD",
            "  Cartridge type: 4 (UNKNOWN)",
            "  RAM size: 7 (UNKNOWN)",
            "  Invalid license code: ZZ",
            "  License code: ZZ (UNKNOWN)",
            "=====================================",
        ]
    );
}

#[test]
fn debug_message_as_text() {
    let mut emu =
        gbemu::emulator::Emulator::init("t.gb", titled_image(b"T", 0, 0, b"01"), false).unwrap();
    assert_eq!(gbemu::emulator::dbg::dbg_print(&emu), None);
    for c in b"01-special\n\n\nPassed\n" {
        gbemu::emulator::address_bus::bus_write(&mut emu, 0xFF01, *c);
        gbemu::emulator::address_bus::bus_write(&mut emu, 0xFF02, 0x81);
        gbemu::emulator::dbg::dbg_update(&mut emu);
        gbemu::emulator::dbg::dbg_update(&mut emu);
    }
    assert_eq!(
        gbemu::emulator::dbg::dbg_print(&emu),
        Some("01-special\n\n\nPassed\n".to_string())
    );
    emu.dbg_msg = vec![0, 0x41];
    assert_eq!(gbemu::emulator::dbg::dbg_print(&emu), None);
}

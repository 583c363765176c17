use gbemu::emulator::address_bus::bus_read;
use gbemu::emulator::address_bus::bus_read_16;
use gbemu::emulator::address_bus::bus_write;
use gbemu::emulator::address_bus::bus_write_16;
use gbemu::emulator::cpu::execute::CpuError;
use gbemu::emulator::cpu::CPU;
use gbemu::emulator::Emulator;

fn rom_with(code: &[u8], cartridge_type: u8, ram_size: u8) -> Vec<u8> {
    let mut rom = vec![0u8; 0x8000];
    for (i, b) in code.iter().enumerate() {
        rom[0x100 + i] = *b;
    }
    rom[0x147] = cartridge_type;
    rom[0x149] = ram_size;
    let mut sum: u8 = 0;
    for i in 0x134..0x14D {
        sum = sum.wrapping_sub(rom[i]).wrapping_sub(1);
    }
    rom[0x14D] = sum;
    rom
}

fn machine(code: &[u8]) -> Emulator {
    Emulator::init("test.gb", rom_with(code, 0, 0), false).unwrap()
}

fn run(emu: &mut Emulator, steps: usize) {
    for _ in 0..steps {
        assert_eq!(CPU::step(emu), Ok(true));
    }
}

#[test]
fn post_boot_registers() {
    let emu = machine(&[]);
    assert_eq!(emu.cpu.registers.a, 0x01);
    assert_eq!(emu.cpu.registers.f, 0xB0);
    assert_eq!(emu.cpu.registers.b, 0x00);
    assert_eq!(emu.cpu.registers.c, 0x13);
    assert_eq!(emu.cpu.registers.d, 0x00);
    assert_eq!(emu.cpu.registers.e, 0xD8);
    assert_eq!(emu.cpu.registers.h, 0x01);
    assert_eq!(emu.cpu.registers.l, 0x4D);
    assert_eq!(emu.cpu.registers.pc, 0x0100);
    assert_eq!(emu.cpu.registers.sp, 0xFFFE);
    assert_eq!(emu.lcd.lcdc, 0x91);
    assert_eq!(emu.lcd.bg_palette, 0xFC);
    assert_eq!(emu.lcd.obj_palette, [0xFF, 0xFF]);
    assert_eq!(emu.lcd.lcds & 3, 2);
}

#[test]
fn load_add_jump_trace() {
    let mut emu = machine(&[0x3E, 0x42, 0x06, 0x03, 0x80, 0xC3, 0x00, 0x01]);
    run(&mut emu, 4);
    assert_eq!(emu.cpu.registers.a, 0x45);
    assert_eq!(emu.cpu.registers.b, 0x03);
    assert_eq!(emu.cpu.registers.f, 0x00);
    assert_eq!(emu.cpu.registers.pc, 0x0100);
}

#[test]
fn instruction_cycles_are_charged() {
    // LD A,d8 takes 2 M-cycles, LD B,d8 2, ADD A,B 1, JP a16 4.
    let mut emu = machine(&[0x3E, 0x42, 0x06, 0x03, 0x80, 0xC3, 0x00, 0x01]);
    run(&mut emu, 1);
    assert_eq!(emu.cpu.ticks, 8);
    run(&mut emu, 1);
    assert_eq!(emu.cpu.ticks, 16);
    run(&mut emu, 1);
    assert_eq!(emu.cpu.ticks, 20);
    run(&mut emu, 1);
    assert_eq!(emu.cpu.ticks, 36);
}

#[test]
fn interrupt_is_serviced_from_halt() {
    let mut emu = machine(&[]);
    emu.cpu.ie_register = 0x01;
    emu.cpu.int_flags = 0x01;
    emu.cpu.interrupt_master_enabled = true;
    emu.cpu.halted = true;
    emu.cpu.registers.pc = 0x0150;
    emu.cpu.registers.sp = 0xFFFE;
    assert_eq!(CPU::step(&mut emu), Ok(true));
    assert_eq!(bus_read(&emu, 0xFFFC), 0x50);
    assert_eq!(bus_read(&emu, 0xFFFD), 0x01);
    assert_eq!(emu.cpu.registers.pc, 0x0040);
    assert_eq!(emu.cpu.registers.sp, 0xFFFC);
    assert_eq!(emu.cpu.int_flags & 0x01, 0);
    assert!(!emu.cpu.interrupt_master_enabled);
    assert!(!emu.cpu.halted);
}

#[test]
fn interrupt_is_serviced_after_the_instruction() {
    // JR -2 at 0x0150 leaves the program counter where it was.
    let mut code = vec![0u8; 0x60];
    code[0x50] = 0x18;
    code[0x51] = 0xFE;
    let mut emu = machine(&code);
    emu.cpu.ie_register = 0x01;
    emu.cpu.int_flags = 0x01;
    emu.cpu.interrupt_master_enabled = true;
    emu.cpu.registers.pc = 0x0150;
    assert_eq!(CPU::step(&mut emu), Ok(true));
    assert_eq!(bus_read(&emu, 0xFFFC), 0x50);
    assert_eq!(bus_read(&emu, 0xFFFD), 0x01);
    assert_eq!(emu.cpu.registers.pc, 0x0040);
    assert_eq!(emu.cpu.int_flags & 0x01, 0);
    assert!(!emu.cpu.interrupt_master_enabled);
}

#[test]
fn interrupt_priority_follows_the_bit_order() {
    let mut emu = machine(&[]);
    emu.cpu.ie_register = 0x1F;
    emu.cpu.int_flags = 0x14;
    emu.cpu.interrupt_master_enabled = true;
    run(&mut emu, 1);
    assert_eq!(emu.cpu.registers.pc, 0x0050);
    assert_eq!(emu.cpu.int_flags & 0x1F, 0x10);
    emu.cpu.interrupt_master_enabled = true;
    emu.cpu.registers.pc = 0x0100;
    run(&mut emu, 1);
    assert_eq!(emu.cpu.registers.pc, 0x0060);
    assert_eq!(emu.cpu.int_flags & 0x1F, 0x00);
}

#[test]
fn masked_interrupt_is_not_serviced() {
    let mut emu = machine(&[]);
    emu.cpu.ie_register = 0x02;
    emu.cpu.int_flags = 0x01;
    emu.cpu.interrupt_master_enabled = true;
    run(&mut emu, 1);
    assert_eq!(emu.cpu.registers.pc, 0x0101);
    assert!(emu.cpu.interrupt_master_enabled);
}

#[test]
fn ei_takes_effect_one_instruction_later() {
    // EI; NOP; NOP with an interrupt pending all along.
    let mut emu = machine(&[0xFB, 0x00, 0x00]);
    emu.cpu.ie_register = 0x04;
    emu.cpu.int_flags = 0x04;
    run(&mut emu, 1);
    assert_eq!(emu.cpu.registers.pc, 0x0101);
    assert_eq!(emu.cpu.registers.sp, 0xFFFE);
    assert!(emu.cpu.interrupt_master_enabled);
    assert!(!emu.cpu.enabling_ime);
    assert_eq!(emu.cpu.int_flags & 0x04, 0x04);
    run(&mut emu, 1);
    assert_eq!(emu.cpu.registers.pc, 0x0050);
    assert_eq!(bus_read_16(&emu, 0xFFFC), 0x0102);
    assert_eq!(emu.cpu.int_flags & 0x04, 0);
    assert!(!emu.cpu.interrupt_master_enabled);
}

#[test]
fn di_after_ei_keeps_interrupts_off() {
    let mut emu = machine(&[0xFB, 0xF3, 0x00]);
    emu.cpu.ie_register = 0x01;
    run(&mut emu, 2);
    assert!(!emu.cpu.interrupt_master_enabled);
    emu.cpu.int_flags = 0x01;
    run(&mut emu, 1);
    assert_eq!(emu.cpu.registers.pc, 0x0103);
}

#[test]
fn halt_waits_for_a_request() {
    let mut emu = machine(&[0x76, 0x00]);
    run(&mut emu, 1);
    assert!(emu.cpu.halted);
    run(&mut emu, 3);
    assert!(emu.cpu.halted);
    assert_eq!(emu.cpu.registers.pc, 0x0101);
    emu.cpu.int_flags = 0x08;
    run(&mut emu, 1);
    assert!(!emu.cpu.halted);
    assert_eq!(emu.cpu.registers.pc, 0x0101);
    run(&mut emu, 1);
    assert_eq!(emu.cpu.registers.pc, 0x0102);
}

#[test]
fn unknown_opcode_is_reported() {
    for op in [0xD3u8, 0xDB, 0xDD, 0xE3, 0xE4, 0xEB, 0xEC, 0xED, 0xF4, 0xFC, 0xFD] {
        let mut emu = machine(&[op]);
        assert_eq!(CPU::step(&mut emu), Err(CpuError::UnknownOpcode(op)));
        assert_eq!(emu.cpu.registers.pc, 0x0100);
        assert_eq!(emu.cpu.opcode, op);
    }
}

#[test]
fn stop_ends_the_run() {
    let mut emu = machine(&[0x10, 0x00]);
    emu.run();
    assert!(emu.running);
    assert_eq!(CPU::step(&mut emu), Ok(false));
    assert!(!emu.running);
    assert_eq!(emu.cpu.registers.pc, 0x0102);
}

#[test]
fn flags_keep_a_clear_low_nibble() {
    // LD SP,0xC002; POP AF with 0xFF on the stack.
    let mut emu = machine(&[0x31, 0x00, 0xC0, 0xF1, 0x3C, 0x37, 0x27]);
    bus_write_16(&mut emu, 0xC000, 0x12FF);
    run(&mut emu, 2);
    assert_eq!(emu.cpu.registers.a, 0x12);
    assert_eq!(emu.cpu.registers.f, 0xF0);
    assert_eq!(emu.cpu.registers.sp, 0xC002);
    for _ in 0..3 {
        run(&mut emu, 1);
        assert_eq!(emu.cpu.registers.f & 0x0F, 0);
    }
}

#[test]
fn push_and_pop_move_words() {
    // LD BC,0x1234; PUSH BC; POP DE
    let mut emu = machine(&[0x01, 0x34, 0x12, 0xC5, 0xD1]);
    run(&mut emu, 2);
    assert_eq!(emu.cpu.registers.sp, 0xFFFC);
    assert_eq!(bus_read(&emu, 0xFFFD), 0x12);
    assert_eq!(bus_read(&emu, 0xFFFC), 0x34);
    run(&mut emu, 1);
    assert_eq!(emu.cpu.registers.d, 0x12);
    assert_eq!(emu.cpu.registers.e, 0x34);
    assert_eq!(emu.cpu.registers.sp, 0xFFFE);
}

#[test]
fn call_and_ret_use_the_stack() {
    // CALL 0x0110 ... at 0x0110: RET
    let mut code = vec![0u8; 0x20];
    code[0] = 0xCD;
    code[1] = 0x10;
    code[2] = 0x01;
    code[0x10] = 0xC9;
    let mut emu = machine(&code);
    run(&mut emu, 1);
    assert_eq!(emu.cpu.registers.pc, 0x0110);
    assert_eq!(bus_read_16(&emu, 0xFFFC), 0x0103);
    assert_eq!(emu.cpu.ticks, 6 * 4);
    run(&mut emu, 1);
    assert_eq!(emu.cpu.registers.pc, 0x0103);
    assert_eq!(emu.cpu.registers.sp, 0xFFFE);
    assert_eq!(emu.cpu.ticks, 10 * 4);
}

#[test]
fn conditional_jumps_follow_the_flags() {
    // XOR A (Z set); JR NZ,+2 (not taken); JR Z,+2 (taken)
    let mut emu = machine(&[0xAF, 0x20, 0x02, 0x28, 0x02, 0x00, 0x00, 0x00]);
    run(&mut emu, 1);
    assert_eq!(emu.cpu.registers.a, 0);
    assert_eq!(emu.cpu.registers.f, 0x80);
    run(&mut emu, 1);
    assert_eq!(emu.cpu.registers.pc, 0x0103);
    run(&mut emu, 1);
    assert_eq!(emu.cpu.registers.pc, 0x0107);
}

#[test]
fn jr_goes_backwards() {
    let mut emu = machine(&[0x00, 0x00, 0x18, 0xFC]);
    run(&mut emu, 3);
    assert_eq!(emu.cpu.registers.pc, 0x0100);
}

#[test]
fn rst_pushes_and_jumps_to_its_vector() {
    let mut emu = machine(&[0xEF]);
    run(&mut emu, 1);
    assert_eq!(emu.cpu.registers.pc, 0x0028);
    assert_eq!(bus_read_16(&emu, 0xFFFC), 0x0101);
}

#[test]
fn reti_sets_ime() {
    let mut emu = machine(&[0xD9]);
    emu.cpu.registers.sp = 0xC000;
    bus_write_16(&mut emu, 0xC000, 0x0234);
    run(&mut emu, 1);
    assert_eq!(emu.cpu.registers.pc, 0x0234);
    assert!(emu.cpu.interrupt_master_enabled);
}

#[test]
fn inc_and_dec_set_their_flags() {
    // LD B,0x0F; INC B; DEC B; LD B,0xFF; INC B; DEC B
    let mut emu = machine(&[0x06, 0x0F, 0x04, 0x05, 0x06, 0xFF, 0x04, 0x05]);
    emu.cpu.registers.f = 0x10;
    run(&mut emu, 2);
    assert_eq!(emu.cpu.registers.b, 0x10);
    assert_eq!(emu.cpu.registers.f, 0x30);
    run(&mut emu, 1);
    assert_eq!(emu.cpu.registers.b, 0x0F);
    assert_eq!(emu.cpu.registers.f, 0x70);
    run(&mut emu, 2);
    assert_eq!(emu.cpu.registers.b, 0x00);
    assert_eq!(emu.cpu.registers.f, 0xB0);
    run(&mut emu, 1);
    assert_eq!(emu.cpu.registers.b, 0xFF);
    assert_eq!(emu.cpu.registers.f, 0x70);
}

#[test]
fn sixteen_bit_inc_and_dec_leave_the_flags() {
    // LD BC,0xFFFF; INC BC; DEC BC
    let mut emu = machine(&[0x01, 0xFF, 0xFF, 0x03, 0x0B]);
    run(&mut emu, 2);
    assert_eq!(emu.cpu.registers.b, 0);
    assert_eq!(emu.cpu.registers.c, 0);
    assert_eq!(emu.cpu.registers.f, 0xB0);
    run(&mut emu, 1);
    assert_eq!(emu.cpu.registers.b, 0xFF);
    assert_eq!(emu.cpu.registers.c, 0xFF);
    assert_eq!(emu.cpu.registers.f, 0xB0);
}

#[test]
fn inc_and_dec_work_on_memory() {
    // LD HL,0xC000; LD (HL),0xFF; INC (HL); DEC (HL)
    let mut emu = machine(&[0x21, 0x00, 0xC0, 0x36, 0xFF, 0x34, 0x35]);
    run(&mut emu, 2);
    assert_eq!(bus_read(&emu, 0xC000), 0xFF);
    assert_eq!(emu.cpu.registers.h, 0xC0);
    run(&mut emu, 1);
    assert_eq!(bus_read(&emu, 0xC000), 0x00);
    assert_eq!(emu.cpu.registers.f & 0xE0, 0xA0);
    run(&mut emu, 1);
    assert_eq!(bus_read(&emu, 0xC000), 0xFF);
    assert_eq!(emu.cpu.registers.f & 0xE0, 0x60);
}

#[test]
fn add_sets_half_carry_and_carry() {
    // LD A,0x3A; ADD A,0xC6
    let mut emu = machine(&[0x3E, 0x3A, 0xC6, 0xC6]);
    run(&mut emu, 2);
    assert_eq!(emu.cpu.registers.a, 0x00);
    assert_eq!(emu.cpu.registers.f, 0xB0);
}

#[test]
fn add_hl_keeps_zero_and_carries_from_bit_11() {
    // LD HL,0x8A23; LD BC,0x0605; ADD HL,BC; ADD HL,HL
    let mut emu = machine(&[0x21, 0x23, 0x8A, 0x01, 0x05, 0x06, 0x09, 0x29]);
    emu.cpu.registers.f = 0x80;
    run(&mut emu, 3);
    assert_eq!(emu.cpu.registers.h, 0x90);
    assert_eq!(emu.cpu.registers.l, 0x28);
    assert_eq!(emu.cpu.registers.f, 0xA0);
    run(&mut emu, 1);
    assert_eq!(emu.cpu.registers.h, 0x20);
    assert_eq!(emu.cpu.registers.l, 0x50);
    assert_eq!(emu.cpu.registers.f, 0x90);
}

#[test]
fn add_sp_takes_a_signed_offset() {
    // LD SP,0xFFF8; ADD SP,2; ADD SP,-1
    let mut emu = machine(&[0x31, 0xF8, 0xFF, 0xE8, 0x02, 0xE8, 0xFF]);
    run(&mut emu, 2);
    assert_eq!(emu.cpu.registers.sp, 0xFFFA);
    assert_eq!(emu.cpu.registers.f, 0x00);
    run(&mut emu, 1);
    assert_eq!(emu.cpu.registers.sp, 0xFFF9);
    assert_eq!(emu.cpu.registers.f, 0x30);
}

#[test]
fn ld_hl_sp_plus_offset() {
    // LD SP,0xFFF8; LD HL,SP+2
    let mut emu = machine(&[0x31, 0xF8, 0xFF, 0xF8, 0x02]);
    run(&mut emu, 2);
    assert_eq!(emu.cpu.registers.h, 0xFF);
    assert_eq!(emu.cpu.registers.l, 0xFA);
    assert_eq!(emu.cpu.registers.sp, 0xFFF8);
    assert_eq!(emu.cpu.registers.f, 0x00);
}

#[test]
fn adc_and_sbc_take_the_carry_in() {
    // LD A,0xE1; SCF; ADC A,0x1E -> 0x00 Z H C ; SCF; SBC A,0x00 -> 0xFF N H C
    let mut emu = machine(&[0x3E, 0xE1, 0x37, 0xCE, 0x1E, 0x37, 0xDE, 0x00]);
    run(&mut emu, 3);
    assert_eq!(emu.cpu.registers.a, 0x00);
    assert_eq!(emu.cpu.registers.f, 0xB0);
    run(&mut emu, 2);
    assert_eq!(emu.cpu.registers.a, 0xFF);
    assert_eq!(emu.cpu.registers.f, 0x70);
}

#[test]
fn sub_and_cp_agree_on_the_flags() {
    // LD A,0x3E; CP 0x40; SUB 0x40
    let mut emu = machine(&[0x3E, 0x3E, 0xFE, 0x40, 0xD6, 0x40]);
    run(&mut emu, 2);
    assert_eq!(emu.cpu.registers.a, 0x3E);
    assert_eq!(emu.cpu.registers.f, 0x50);
    run(&mut emu, 1);
    assert_eq!(emu.cpu.registers.a, 0xFE);
    assert_eq!(emu.cpu.registers.f, 0x50);
}

#[test]
fn logic_operations() {
    // LD A,0x5A; AND 0x3F; OR 0x80; XOR 0xFF; CPL
    let mut emu = machine(&[0x3E, 0x5A, 0xE6, 0x3F, 0xF6, 0x80, 0xEE, 0xFF, 0x2F]);
    run(&mut emu, 2);
    assert_eq!(emu.cpu.registers.a, 0x1A);
    assert_eq!(emu.cpu.registers.f, 0x20);
    run(&mut emu, 1);
    assert_eq!(emu.cpu.registers.a, 0x9A);
    assert_eq!(emu.cpu.registers.f, 0x00);
    run(&mut emu, 1);
    assert_eq!(emu.cpu.registers.a, 0x65);
    assert_eq!(emu.cpu.registers.f, 0x00);
    run(&mut emu, 1);
    assert_eq!(emu.cpu.registers.a, 0x9A);
    assert_eq!(emu.cpu.registers.f, 0x60);
}

#[test]
fn daa_mends_decimal_digits() {
    // LD A,0x45; ADD A,0x38 (0x7D); DAA -> 0x83 ; SUB 0x38 (0x4B, N H); DAA -> 0x45
    let mut emu = machine(&[0x3E, 0x45, 0xC6, 0x38, 0x27, 0xD6, 0x38, 0x27]);
    run(&mut emu, 3);
    assert_eq!(emu.cpu.registers.a, 0x83);
    assert_eq!(emu.cpu.registers.f, 0x00);
    run(&mut emu, 2);
    assert_eq!(emu.cpu.registers.a, 0x45);
    assert_eq!(emu.cpu.registers.f, 0x40);
}

#[test]
fn daa_carries_past_99() {
    // LD A,0x99; ADD A,0x01 (0x9A); DAA -> 0x00 with Z and C
    let mut emu = machine(&[0x3E, 0x99, 0xC6, 0x01, 0x27]);
    run(&mut emu, 3);
    assert_eq!(emu.cpu.registers.a, 0x00);
    assert_eq!(emu.cpu.registers.f, 0x90);
}

#[test]
fn accumulator_rotates() {
    // LD A,0x85; RLCA; RRCA; RLA; RRA
    let mut emu = machine(&[0x3E, 0x85, 0x07, 0x0F, 0x17, 0x1F]);
    emu.cpu.registers.f = 0x00;
    run(&mut emu, 2);
    assert_eq!(emu.cpu.registers.a, 0x0B);
    assert_eq!(emu.cpu.registers.f, 0x10);
    run(&mut emu, 1);
    assert_eq!(emu.cpu.registers.a, 0x85);
    assert_eq!(emu.cpu.registers.f, 0x10);
    run(&mut emu, 1);
    assert_eq!(emu.cpu.registers.a, 0x0B);
    assert_eq!(emu.cpu.registers.f, 0x10);
    run(&mut emu, 1);
    assert_eq!(emu.cpu.registers.a, 0x85);
    assert_eq!(emu.cpu.registers.f, 0x10);
}

#[test]
fn scf_and_ccf() {
    let mut emu = machine(&[0x37, 0x3F, 0x3F]);
    emu.cpu.registers.f = 0xE0;
    run(&mut emu, 1);
    assert_eq!(emu.cpu.registers.f, 0x90);
    run(&mut emu, 1);
    assert_eq!(emu.cpu.registers.f, 0x80);
    run(&mut emu, 1);
    assert_eq!(emu.cpu.registers.f, 0x90);
}

#[test]
fn cb_shifts_and_rotates() {
    // LD B,0x85 then RLC B, RRC B, RL B, RR B, SLA B, SRA B, SWAP B, SRL B
    let code = [
        0x06, 0x85, 0xCB, 0x00, 0xCB, 0x08, 0xCB, 0x10, 0xCB, 0x18, 0xCB, 0x20, 0xCB, 0x28, 0xCB,
        0x30, 0xCB, 0x38,
    ];
    let mut emu = machine(&code);
    emu.cpu.registers.f = 0x00;
    run(&mut emu, 2);
    assert_eq!((emu.cpu.registers.b, emu.cpu.registers.f), (0x0B, 0x10));
    run(&mut emu, 1);
    assert_eq!((emu.cpu.registers.b, emu.cpu.registers.f), (0x85, 0x10));
    run(&mut emu, 1);
    assert_eq!((emu.cpu.registers.b, emu.cpu.registers.f), (0x0B, 0x10));
    run(&mut emu, 1);
    assert_eq!((emu.cpu.registers.b, emu.cpu.registers.f), (0x85, 0x10));
    run(&mut emu, 1);
    assert_eq!((emu.cpu.registers.b, emu.cpu.registers.f), (0x0A, 0x10));
    run(&mut emu, 1);
    assert_eq!((emu.cpu.registers.b, emu.cpu.registers.f), (0x05, 0x00));
    run(&mut emu, 1);
    assert_eq!((emu.cpu.registers.b, emu.cpu.registers.f), (0x50, 0x00));
    run(&mut emu, 1);
    assert_eq!((emu.cpu.registers.b, emu.cpu.registers.f), (0x28, 0x00));
}

#[test]
fn cb_sra_keeps_the_sign() {
    // LD A,0x81; SRA A
    let mut emu = machine(&[0x3E, 0x81, 0xCB, 0x2F]);
    run(&mut emu, 2);
    assert_eq!(emu.cpu.registers.a, 0xC0);
    assert_eq!(emu.cpu.registers.f, 0x10);
}

#[test]
fn cb_bit_res_set() {
    // LD A,0x80; BIT 7,A; BIT 0,A; RES 7,A; SET 3,A
    let mut emu = machine(&[0x3E, 0x80, 0xCB, 0x7F, 0xCB, 0x47, 0xCB, 0xBF, 0xCB, 0xDF]);
    emu.cpu.registers.f = 0x10;
    run(&mut emu, 2);
    assert_eq!(emu.cpu.registers.f, 0x30);
    run(&mut emu, 1);
    assert_eq!(emu.cpu.registers.f, 0xB0);
    run(&mut emu, 1);
    assert_eq!(emu.cpu.registers.a, 0x00);
    assert_eq!(emu.cpu.registers.f, 0xB0);
    run(&mut emu, 1);
    assert_eq!(emu.cpu.registers.a, 0x08);
}

#[test]
fn cb_on_memory_takes_two_more_cycles() {
    // LD HL,0xC000; SET 0,(HL)
    let mut emu = machine(&[0x21, 0x00, 0xC0, 0xCB, 0xC6]);
    run(&mut emu, 1);
    let before = emu.cpu.ticks;
    run(&mut emu, 1);
    assert_eq!(bus_read(&emu, 0xC000), 0x01);
    assert_eq!(emu.cpu.ticks - before, 5 * 4);
}

#[test]
fn loads_through_hl_with_increment_and_decrement() {
    // LD HL,0xC000; LD A,0x11; LD (HL+),A; LD (HL-),A; LD A,(HL+); LD A,(HL-)
    let mut emu = machine(&[0x21, 0x00, 0xC0, 0x3E, 0x11, 0x22, 0x32, 0x2A, 0x3A]);
    run(&mut emu, 3);
    assert_eq!(bus_read(&emu, 0xC000), 0x11);
    assert_eq!(emu.cpu.registers.l, 0x01);
    run(&mut emu, 1);
    assert_eq!(bus_read(&emu, 0xC001), 0x11);
    assert_eq!(emu.cpu.registers.l, 0x00);
    bus_write(&mut emu, 0xC000, 0x77);
    run(&mut emu, 1);
    assert_eq!(emu.cpu.registers.a, 0x77);
    assert_eq!(emu.cpu.registers.l, 0x01);
    run(&mut emu, 1);
    assert_eq!(emu.cpu.registers.a, 0x11);
    assert_eq!(emu.cpu.registers.l, 0x00);
}

#[test]
fn high_page_loads() {
    // LD A,0x5A; LDH (0x80),A; LD C,0x81; LD (C),A; XOR A; LDH A,(0x81); LD B,A; XOR A; LD A,(C)
    let code = [0x3E, 0x5A, 0xE0, 0x80, 0x0E, 0x81, 0xE2, 0xAF, 0xF0, 0x81, 0x47, 0xAF, 0xF2];
    let mut emu = machine(&code);
    run(&mut emu, 2);
    assert_eq!(bus_read(&emu, 0xFF80), 0x5A);
    run(&mut emu, 2);
    assert_eq!(bus_read(&emu, 0xFF81), 0x5A);
    run(&mut emu, 2);
    assert_eq!(emu.cpu.registers.a, 0x5A);
    run(&mut emu, 3);
    assert_eq!(emu.cpu.registers.a, 0x5A);
    assert_eq!(emu.cpu.registers.b, 0x5A);
}

#[test]
fn absolute_loads_and_stores() {
    // LD A,0x42; LD (0xC123),A; XOR A; LD A,(0xC123); LD SP,0xBEEF; LD (0xC200),SP
    let code = [
        0x3E, 0x42, 0xEA, 0x23, 0xC1, 0xAF, 0xFA, 0x23, 0xC1, 0x31, 0xEF, 0xBE, 0x08, 0x00, 0xC2,
    ];
    let mut emu = machine(&code);
    run(&mut emu, 2);
    assert_eq!(bus_read(&emu, 0xC123), 0x42);
    run(&mut emu, 2);
    assert_eq!(emu.cpu.registers.a, 0x42);
    run(&mut emu, 2);
    assert_eq!(bus_read_16(&emu, 0xC200), 0xBEEF);
}

#[test]
fn jp_hl_and_ld_sp_hl() {
    // LD HL,0x0150; LD SP,HL; JP HL
    let mut emu = machine(&[0x21, 0x50, 0x01, 0xF9, 0xE9]);
    run(&mut emu, 3);
    assert_eq!(emu.cpu.registers.sp, 0x0150);
    assert_eq!(emu.cpu.registers.pc, 0x0150);
}

#[test]
fn serial_port_feeds_the_debug_message() {
    // LD A,'O'; LDH (01),A; LD A,0x81; LDH (02),A; NOP; then the same with 'K'
    let code = [
        0x3E, 0x4F, 0xE0, 0x01, 0x3E, 0x81, 0xE0, 0x02, 0x00, 0x3E, 0x4B, 0xE0, 0x01, 0x3E, 0x81,
        0xE0, 0x02, 0x00,
    ];
    let mut emu = machine(&code);
    run(&mut emu, 5);
    assert_eq!(emu.dbg_msg, vec![0x4F]);
    assert_eq!(bus_read(&emu, 0xFF02), 0);
    run(&mut emu, 5);
    assert_eq!(emu.dbg_msg, vec![0x4F, 0x4B]);
}

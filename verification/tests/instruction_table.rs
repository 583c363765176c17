use gbemu::emulator::cpu::instruction::AddrMode;
use gbemu::emulator::cpu::instruction::CondType;
use gbemu::emulator::cpu::instruction::InstrType;
use gbemu::emulator::cpu::instruction::Instruction;
use gbemu::emulator::cpu::instruction::RegType;

fn entry(opcode: u8) -> Instruction {
    Instruction::get_instruction(opcode).unwrap()
}

#[test]
fn eleven_opcodes_name_no_instruction() {
    let missing: Vec<u8> =
        (0..=255u8).filter(|op| Instruction::get_instruction(*op).is_none()).collect();
    assert_eq!(
        missing,
        vec![0xD3, 0xDB, 0xDD, 0xE3, 0xE4, 0xEB, 0xEC, 0xED, 0xF4, 0xFC, 0xFD]
    );
}

#[test]
fn constructors_fill_the_descriptor() {
    assert_eq!(
        Instruction::default(InstrType::IN_NOP, AddrMode::AM_IMP),
        Instruction {
            param: 0,
            instr_type: InstrType::IN_NOP,
            addr_mode: AddrMode::AM_IMP,
            reg1: RegType::RT_NONE,
            reg2: RegType::RT_NONE,
            cond_type: CondType::CT_NONE
        }
    );
    let one = Instruction::with_one_reg(InstrType::IN_INC, AddrMode::AM_R, RegType::RT_B);
    assert_eq!(one.reg1, RegType::RT_B);
    assert_eq!(one.reg2, RegType::RT_NONE);
    let two = Instruction::with_two_regs(
        InstrType::IN_LD,
        AddrMode::AM_R_R,
        RegType::RT_A,
        RegType::RT_L,
    );
    assert_eq!((two.reg1, two.reg2), (RegType::RT_A, RegType::RT_L));
    assert_eq!(two.cond_type, CondType::CT_NONE);
    let full = Instruction::new(
        InstrType::IN_RST,
        AddrMode::AM_IMP,
        RegType::RT_NONE,
        RegType::RT_NONE,
        CondType::CT_NONE,
        0x38,
    );
    assert_eq!(full.param, 0x38);
    assert_eq!(entry(0xFF), full);
    assert_eq!(entry(0x00), Instruction::default(InstrType::IN_NOP, AddrMode::AM_IMP));
    assert_eq!(entry(0x04), one);
    assert_eq!(entry(0x7D), two);
}

#[test]
fn first_quarter_of_the_table() {
    assert_eq!(
        entry(0x01),
        Instruction::with_one_reg(InstrType::IN_LD, AddrMode::AM_R_D16, RegType::RT_BC)
    );
    assert_eq!(
        entry(0x02),
        Instruction::with_two_regs(InstrType::IN_LD, AddrMode::AM_MR_R, RegType::RT_BC, RegType::RT_A)
    );
    assert_eq!(
        entry(0x08),
        Instruction::with_two_regs(
            InstrType::IN_LD,
            AddrMode::AM_A16_R,
            RegType::RT_NONE,
            RegType::RT_SP
        )
    );
    assert_eq!(
        entry(0x09),
        Instruction::with_two_regs(InstrType::IN_ADD, AddrMode::AM_R_R, RegType::RT_HL, RegType::RT_BC)
    );
    assert_eq!(entry(0x10), Instruction::default(InstrType::IN_STOP, AddrMode::AM_D8));
    assert_eq!(entry(0x18), Instruction::default(InstrType::IN_JR, AddrMode::AM_D8));
    assert_eq!(entry(0x20).cond_type, CondType::CT_NZ);
    assert_eq!(entry(0x28).cond_type, CondType::CT_Z);
    assert_eq!(entry(0x30).cond_type, CondType::CT_NC);
    assert_eq!(entry(0x38).cond_type, CondType::CT_C);
    assert_eq!(entry(0x22).addr_mode, AddrMode::AM_HLI_R);
    assert_eq!(entry(0x32).addr_mode, AddrMode::AM_HLD_R);
    assert_eq!(entry(0x2A).addr_mode, AddrMode::AM_R_HLI);
    assert_eq!(entry(0x3A).addr_mode, AddrMode::AM_R_HLD);
    assert_eq!(
        entry(0x34),
        Instruction::with_one_reg(InstrType::IN_INC, AddrMode::AM_MR, RegType::RT_HL)
    );
    assert_eq!(
        entry(0x35),
        Instruction::with_one_reg(InstrType::IN_DEC, AddrMode::AM_MR, RegType::RT_HL)
    );
    assert_eq!(
        entry(0x36),
        Instruction::with_one_reg(InstrType::IN_LD, AddrMode::AM_MR_D8, RegType::RT_HL)
    );
    assert_eq!(entry(0x3B).reg1, RegType::RT_SP);
    let column7 = [
        InstrType::IN_RLCA,
        InstrType::IN_RRCA,
        InstrType::IN_RLA,
        InstrType::IN_RRA,
        InstrType::IN_DAA,
        InstrType::IN_CPL,
        InstrType::IN_SCF,
        InstrType::IN_CCF,
    ];
    for (i, t) in column7.iter().enumerate() {
        assert_eq!(entry(0x07 + 8 * i as u8), Instruction::default(*t, AddrMode::AM_IMP));
    }
}

#[test]
fn load_and_arithmetic_quarters() {
    let regs = [
        RegType::RT_B,
        RegType::RT_C,
        RegType::RT_D,
        RegType::RT_E,
        RegType::RT_H,
        RegType::RT_L,
        RegType::RT_HL,
        RegType::RT_A,
    ];
    for y in 0..8usize {
        for z in 0..8usize {
            let op = 0x40 + (8 * y + z) as u8;
            let i = entry(op);
            if op == 0x76 {
                assert_eq!(i, Instruction::default(InstrType::IN_HALT, AddrMode::AM_IMP));
            } else {
                assert_eq!(i.instr_type, InstrType::IN_LD);
                assert_eq!((i.reg1, i.reg2), (regs[y], regs[z]));
                let mode = if z == 6 {
                    AddrMode::AM_R_MR
                } else if y == 6 {
                    AddrMode::AM_MR_R
                } else {
                    AddrMode::AM_R_R
                };
                assert_eq!(i.addr_mode, mode);
            }
        }
    }
    let ops = [
        InstrType::IN_ADD,
        InstrType::IN_ADC,
        InstrType::IN_SUB,
        InstrType::IN_SBC,
        InstrType::IN_AND,
        InstrType::IN_XOR,
        InstrType::IN_OR,
        InstrType::IN_CP,
    ];
    for y in 0..8usize {
        for z in 0..8usize {
            let i = entry(0x80 + (8 * y + z) as u8);
            assert_eq!(i.instr_type, ops[y]);
            assert_eq!((i.reg1, i.reg2), (RegType::RT_A, regs[z]));
            assert_eq!(i.addr_mode, if z == 6 { AddrMode::AM_R_MR } else { AddrMode::AM_R_R });
        }
        assert_eq!(
            entry(0xC6 + 8 * y as u8),
            Instruction::with_one_reg(ops[y], AddrMode::AM_R_D8, RegType::RT_A)
        );
    }
}

#[test]
fn last_quarter_of_the_table() {
    for (i, cond) in
        [CondType::CT_NZ, CondType::CT_Z, CondType::CT_NC, CondType::CT_C].iter().enumerate()
    {
        let base = 0xC0 + 8 * i as u8;
        assert_eq!((entry(base).instr_type, entry(base).cond_type), (InstrType::IN_RET, *cond));
        assert_eq!(
            (entry(base + 2).instr_type, entry(base + 2).addr_mode, entry(base + 2).cond_type),
            (InstrType::IN_JP, AddrMode::AM_D16, *cond)
        );
        assert_eq!(
            (entry(base + 4).instr_type, entry(base + 4).addr_mode, entry(base + 4).cond_type),
            (InstrType::IN_CALL, AddrMode::AM_D16, *cond)
        );
    }
    for (i, reg) in
        [RegType::RT_BC, RegType::RT_DE, RegType::RT_HL, RegType::RT_AF].iter().enumerate()
    {
        assert_eq!(
            entry(0xC1 + 16 * i as u8),
            Instruction::with_one_reg(InstrType::IN_POP, AddrMode::AM_R, *reg)
        );
        assert_eq!(
            entry(0xC5 + 16 * i as u8),
            Instruction::with_one_reg(InstrType::IN_PUSH, AddrMode::AM_R, *reg)
        );
    }
    for y in 0..8u8 {
        let i = entry(0xC7 + 8 * y);
        assert_eq!((i.instr_type, i.param), (InstrType::IN_RST, 8 * y));
    }
    assert_eq!(entry(0xC3), Instruction::default(InstrType::IN_JP, AddrMode::AM_D16));
    assert_eq!(entry(0xC9), Instruction::default(InstrType::IN_RET, AddrMode::AM_IMP));
    assert_eq!(entry(0xCB), Instruction::default(InstrType::IN_CB, AddrMode::AM_D8));
    assert_eq!(entry(0xCD), Instruction::default(InstrType::IN_CALL, AddrMode::AM_D16));
    assert_eq!(entry(0xD9), Instruction::default(InstrType::IN_RETI, AddrMode::AM_IMP));
    assert_eq!(entry(0xF3), Instruction::default(InstrType::IN_DI, AddrMode::AM_IMP));
    assert_eq!(entry(0xFB), Instruction::default(InstrType::IN_EI, AddrMode::AM_IMP));
    assert_eq!(
        entry(0xE0),
        Instruction::with_two_regs(InstrType::IN_LDH, AddrMode::AM_A8_R, RegType::RT_NONE, RegType::RT_A)
    );
    assert_eq!(
        entry(0xF0),
        Instruction::with_one_reg(InstrType::IN_LDH, AddrMode::AM_R_A8, RegType::RT_A)
    );
    assert_eq!(
        entry(0xE2),
        Instruction::with_two_regs(InstrType::IN_LD, AddrMode::AM_MR_R, RegType::RT_C, RegType::RT_A)
    );
    assert_eq!(
        entry(0xF2),
        Instruction::with_two_regs(InstrType::IN_LD, AddrMode::AM_R_MR, RegType::RT_A, RegType::RT_C)
    );
    assert_eq!(
        entry(0xE8),
        Instruction::with_one_reg(InstrType::IN_ADD, AddrMode::AM_R_D8, RegType::RT_SP)
    );
    assert_eq!(
        entry(0xE9),
        Instruction::with_one_reg(InstrType::IN_JP, AddrMode::AM_R, RegType::RT_HL)
    );
    assert_eq!(
        entry(0xEA),
        Instruction::with_two_regs(InstrType::IN_LD, AddrMode::AM_A16_R, RegType::RT_NONE, RegType::RT_A)
    );
    assert_eq!(
        entry(0xFA),
        Instruction::with_one_reg(InstrType::IN_LD, AddrMode::AM_R_A16, RegType::RT_A)
    );
    assert_eq!(
        entry(0xF8),
        Instruction::with_two_regs(InstrType::IN_LD, AddrMode::AM_HL_SPR, RegType::RT_HL, RegType::RT_SP)
    );
    assert_eq!(
        entry(0xF9),
        Instruction::with_two_regs(InstrType::IN_LD, AddrMode::AM_R_R, RegType::RT_SP, RegType::RT_HL)
    );
}

#[test]
fn sixteen_bit_registers() {
    for reg in [
        RegType::RT_AF,
        RegType::RT_BC,
        RegType::RT_DE,
        RegType::RT_HL,
        RegType::RT_SP,
        RegType::RT_PC,
    ] {
        assert!(reg.is_16_bit());
        assert!(reg.valid());
    }
    for reg in [
        RegType::RT_NONE,
        RegType::RT_A,
        RegType::RT_F,
        RegType::RT_B,
        RegType::RT_C,
        RegType::RT_D,
        RegType::RT_E,
        RegType::RT_H,
        RegType::RT_L,
    ] {
        assert!(!reg.is_16_bit());
    }
    assert!(!RegType::RT_NONE.valid());
    assert!(!RegType::RT_F.valid());
    assert!(RegType::RT_A.valid());
}

#[test]
fn names_drop_their_prefix() {
    assert_eq!(RegType::RT_A.str(), "A");
    assert_eq!(RegType::RT_HL.str(), "HL");
    assert_eq!(RegType::RT_NONE.str(), "NONE");
    assert_eq!(InstrType::IN_NOP.str(), "NOP");
    assert_eq!(InstrType::IN_SWAP.str(), "SWAP");
    assert_eq!(InstrType::IN_JPHL.str(), "JPHL");
}

#[test]
fn descriptors_in_words() {
    assert_eq!(entry(0x00).str(), "NOP");
    assert_eq!(entry(0x04).str(), "INC B");
    assert_eq!(entry(0x7D).str(), "LD A, L");
    assert_eq!(entry(0xEA).str(), "LD, A");
    assert_eq!(entry(0xCF).str(), "RST 0x08");
    assert_eq!(entry(0xFF).str(), "RST 0x38");
    assert_eq!(entry(0xC2).str(), "JP");
    assert_eq!(entry(0xF8).str(), "LD HL, SP");
}

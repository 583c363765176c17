use vstd::prelude::*;
use vstd::string::StringExecFns;
use crate::emulator::text::hex_u8;
use crate::emulator::text::spec_hex_u8;

verus! {

/// How an instruction finds its operands.
#[derive(Debug, PartialEq, Eq, Structural, Clone, Copy)]
#[allow(non_camel_case_types)]
pub enum AddrMode {
    AM_IMP,
    AM_R_D16,
    AM_R_R,
    AM_MR_R,
    AM_R,
    AM_R_D8,
    AM_R_MR,
    AM_R_HLI,
    AM_R_HLD,
    AM_HLI_R,
    AM_HLD_R,
    AM_R_A8,
    AM_A8_R,
    AM_HL_SPR,
    AM_D16,
    AM_D8,
    AM_MR_D8,
    AM_MR,
    AM_A16_R,
    AM_R_A16,
}

/// The registers an instruction descriptor can name.
#[derive(Debug, PartialEq, Eq, Structural, Clone, Copy)]
#[allow(non_camel_case_types)]
pub enum RegType {
    RT_NONE,
    RT_A,
    RT_F,
    RT_B,
    RT_C,
    RT_D,
    RT_E,
    RT_H,
    RT_L,
    RT_AF,
    RT_BC,
    RT_DE,
    RT_HL,
    RT_SP,
    RT_PC,
}

/// The condition under which a jump, call or return is taken.
#[derive(Debug, PartialEq, Eq, Structural, Clone, Copy)]
#[allow(non_camel_case_types)]
pub enum CondType {
    CT_NONE,
    CT_NZ,
    CT_Z,
    CT_NC,
    CT_C,
}

/// The operation an instruction performs.
#[derive(Debug, PartialEq, Eq, Structural, Clone, Copy, Hash)]
#[allow(non_camel_case_types)]
pub enum InstrType {
    IN_NONE,
    IN_NOP,
    IN_LD,
    IN_INC,
    IN_DEC,
    IN_RLCA,
    IN_ADD,
    IN_RRCA,
    IN_STOP,
    IN_RLA,
    IN_JR,
    IN_RRA,
    IN_DAA,
    IN_CPL,
    IN_SCF,
    IN_CCF,
    IN_HALT,
    IN_ADC,
    IN_SUB,
    IN_SBC,
    IN_AND,
    IN_XOR,
    IN_OR,
    IN_CP,
    IN_POP,
    IN_JP,
    IN_PUSH,
    IN_RET,
    IN_CB,
    IN_CALL,
    IN_RETI,
    IN_LDH,
    IN_JPHL,
    IN_DI,
    IN_EI,
    IN_RST,
    IN_ERR,
    IN_RLC,
    IN_RRC,
    IN_RL,
    IN_RR,
    IN_SLA,
    IN_SRA,
    IN_SWAP,
    IN_SRL,
    IN_BIT,
    IN_RES,
    IN_SET,
}

/// One entry of the opcode table.
#[derive(Debug, PartialEq, Eq, Structural, Clone, Copy)]
pub struct Instruction {
    pub param: u8,
    pub instr_type: InstrType,
    pub addr_mode: AddrMode,
    pub reg1: RegType,
    pub reg2: RegType,
    pub cond_type: CondType,
}

impl AddrMode {
    /// The modes whose operand fetch leaves a memory destination behind.
    pub open spec fn spec_dest_is_mem(self) -> bool {
        self == AddrMode::AM_MR_R || self == AddrMode::AM_HLI_R || self == AddrMode::AM_HLD_R
            || self == AddrMode::AM_A8_R || self == AddrMode::AM_A16_R || self
            == AddrMode::AM_MR_D8 || self == AddrMode::AM_MR
    }
}

impl RegType {
    /// The register pairs and the two 16-bit registers.
    pub open spec fn spec_is_16_bit(self) -> bool {
        self == RegType::RT_AF || self == RegType::RT_BC || self == RegType::RT_DE || self
            == RegType::RT_HL || self == RegType::RT_SP || self == RegType::RT_PC
    }

    /// The registers that can be read and written by name: all but
    /// `RT_NONE` and the bare flag register.
    pub open spec fn spec_valid(self) -> bool {
        self != RegType::RT_NONE && self != RegType::RT_F
    }

    /// The register's name without its `RT_` prefix.
    pub open spec fn spec_str(self) -> Seq<char> {
        match self {
            RegType::RT_NONE => "NONE"@,
            RegType::RT_A => "A"@,
            RegType::RT_F => "F"@,
            RegType::RT_B => "B"@,
            RegType::RT_C => "C"@,
            RegType::RT_D => "D"@,
            RegType::RT_E => "E"@,
            RegType::RT_H => "H"@,
            RegType::RT_L => "L"@,
            RegType::RT_AF => "AF"@,
            RegType::RT_BC => "BC"@,
            RegType::RT_DE => "DE"@,
            RegType::RT_HL => "HL"@,
            RegType::RT_SP => "SP"@,
            RegType::RT_PC => "PC"@,
        }
    }

    /// Returns true if the register type is 16-bit.
    pub fn is_16_bit(&self) -> (r: bool)
        ensures
            r == self.spec_is_16_bit(),
    {
        match self {
            RegType::RT_AF | RegType::RT_BC | RegType::RT_DE | RegType::RT_HL | RegType::RT_SP
            | RegType::RT_PC => true,
            _ => false,
        }
    }

    /// Returns true if the register can be read and written by name.
    pub fn valid(&self) -> (r: bool)
        ensures
            r == self.spec_valid(),
    {
        match self {
            RegType::RT_NONE | RegType::RT_F => false,
            _ => true,
        }
    }

    /// Returns the register's name without its `RT_` prefix.
    pub fn str(&self) -> (r: String)
        ensures
            r@ == self.spec_str(),
    {
        match self {
            RegType::RT_NONE => "NONE".to_owned(),
            RegType::RT_A => "A".to_owned(),
            RegType::RT_F => "F".to_owned(),
            RegType::RT_B => "B".to_owned(),
            RegType::RT_C => "C".to_owned(),
            RegType::RT_D => "D".to_owned(),
            RegType::RT_E => "E".to_owned(),
            RegType::RT_H => "H".to_owned(),
            RegType::RT_L => "L".to_owned(),
            RegType::RT_AF => "AF".to_owned(),
            RegType::RT_BC => "BC".to_owned(),
            RegType::RT_DE => "DE".to_owned(),
            RegType::RT_HL => "HL".to_owned(),
            RegType::RT_SP => "SP".to_owned(),
            RegType::RT_PC => "PC".to_owned(),
        }
    }
}

impl InstrType {
    /// The mnemonic without its `IN_` prefix.
    pub open spec fn spec_str(self) -> Seq<char> {
        match self {
            InstrType::IN_NONE => "NONE"@,
            InstrType::IN_NOP => "NOP"@,
            InstrType::IN_LD => "LD"@,
            InstrType::IN_INC => "INC"@,
            InstrType::IN_DEC => "DEC"@,
            InstrType::IN_RLCA => "RLCA"@,
            InstrType::IN_ADD => "ADD"@,
            InstrType::IN_RRCA => "RRCA"@,
            InstrType::IN_STOP => "STOP"@,
            InstrType::IN_RLA => "RLA"@,
            InstrType::IN_JR => "JR"@,
            InstrType::IN_RRA => "RRA"@,
            InstrType::IN_DAA => "DAA"@,
            InstrType::IN_CPL => "CPL"@,
            InstrType::IN_SCF => "SCF"@,
            InstrType::IN_CCF => "CCF"@,
            InstrType::IN_HALT => "HALT"@,
            InstrType::IN_ADC => "ADC"@,
            InstrType::IN_SUB => "SUB"@,
            InstrType::IN_SBC => "SBC"@,
            InstrType::IN_AND => "AND"@,
            InstrType::IN_XOR => "XOR"@,
            InstrType::IN_OR => "OR"@,
            InstrType::IN_CP => "CP"@,
            InstrType::IN_POP => "POP"@,
            InstrType::IN_JP => "JP"@,
            InstrType::IN_PUSH => "PUSH"@,
            InstrType::IN_RET => "RET"@,
            InstrType::IN_CB => "CB"@,
            InstrType::IN_CALL => "CALL"@,
            InstrType::IN_RETI => "RETI"@,
            InstrType::IN_LDH => "LDH"@,
            InstrType::IN_JPHL => "JPHL"@,
            InstrType::IN_DI => "DI"@,
            InstrType::IN_EI => "EI"@,
            InstrType::IN_RST => "RST"@,
            InstrType::IN_ERR => "ERR"@,
            InstrType::IN_RLC => "RLC"@,
            InstrType::IN_RRC => "RRC"@,
            InstrType::IN_RL => "RL"@,
            InstrType::IN_RR => "RR"@,
            InstrType::IN_SLA => "SLA"@,
            InstrType::IN_SRA => "SRA"@,
            InstrType::IN_SWAP => "SWAP"@,
            InstrType::IN_SRL => "SRL"@,
            InstrType::IN_BIT => "BIT"@,
            InstrType::IN_RES => "RES"@,
            InstrType::IN_SET => "SET"@,
        }
    }

    /// Returns the mnemonic without its `IN_` prefix.
    pub fn str(&self) -> (r: String)
        ensures
            r@ == self.spec_str(),
    {
        match self {
            InstrType::IN_NONE => "NONE".to_owned(),
            InstrType::IN_NOP => "NOP".to_owned(),
            InstrType::IN_LD => "LD".to_owned(),
            InstrType::IN_INC => "INC".to_owned(),
            InstrType::IN_DEC => "DEC".to_owned(),
            InstrType::IN_RLCA => "RLCA".to_owned(),
            InstrType::IN_ADD => "ADD".to_owned(),
            InstrType::IN_RRCA => "RRCA".to_owned(),
            InstrType::IN_STOP => "STOP".to_owned(),
            InstrType::IN_RLA => "RLA".to_owned(),
            InstrType::IN_JR => "JR".to_owned(),
            InstrType::IN_RRA => "RRA".to_owned(),
            InstrType::IN_DAA => "DAA".to_owned(),
            InstrType::IN_CPL => "CPL".to_owned(),
            InstrType::IN_SCF => "SCF".to_owned(),
            InstrType::IN_CCF => "CCF".to_owned(),
            InstrType::IN_HALT => "HALT".to_owned(),
            InstrType::IN_ADC => "ADC".to_owned(),
            InstrType::IN_SUB => "SUB".to_owned(),
            InstrType::IN_SBC => "SBC".to_owned(),
            InstrType::IN_AND => "AND".to_owned(),
            InstrType::IN_XOR => "XOR".to_owned(),
            InstrType::IN_OR => "OR".to_owned(),
            InstrType::IN_CP => "CP".to_owned(),
            InstrType::IN_POP => "POP".to_owned(),
            InstrType::IN_JP => "JP".to_owned(),
            InstrType::IN_PUSH => "PUSH".to_owned(),
            InstrType::IN_RET => "RET".to_owned(),
            InstrType::IN_CB => "CB".to_owned(),
            InstrType::IN_CALL => "CALL".to_owned(),
            InstrType::IN_RETI => "RETI".to_owned(),
            InstrType::IN_LDH => "LDH".to_owned(),
            InstrType::IN_JPHL => "JPHL".to_owned(),
            InstrType::IN_DI => "DI".to_owned(),
            InstrType::IN_EI => "EI".to_owned(),
            InstrType::IN_RST => "RST".to_owned(),
            InstrType::IN_ERR => "ERR".to_owned(),
            InstrType::IN_RLC => "RLC".to_owned(),
            InstrType::IN_RRC => "RRC".to_owned(),
            InstrType::IN_RL => "RL".to_owned(),
            InstrType::IN_RR => "RR".to_owned(),
            InstrType::IN_SLA => "SLA".to_owned(),
            InstrType::IN_SRA => "SRA".to_owned(),
            InstrType::IN_SWAP => "SWAP".to_owned(),
            InstrType::IN_SRL => "SRL".to_owned(),
            InstrType::IN_BIT => "BIT".to_owned(),
            InstrType::IN_RES => "RES".to_owned(),
            InstrType::IN_SET => "SET".to_owned(),
        }
    }
}

/// The eight operands of the register-indexed opcodes, by their three-bit
/// code; code 6 stands for the byte at the address in HL.
pub open spec fn spec_reg8(code: int) -> RegType {
    if code == 0 {
        RegType::RT_B
    } else if code == 1 {
        RegType::RT_C
    } else if code == 2 {
        RegType::RT_D
    } else if code == 3 {
        RegType::RT_E
    } else if code == 4 {
        RegType::RT_H
    } else if code == 5 {
        RegType::RT_L
    } else if code == 6 {
        RegType::RT_HL
    } else {
        RegType::RT_A
    }
}

/// The register pairs of the 16-bit loads and arithmetic, by two-bit code.
pub open spec fn spec_reg16(code: int) -> RegType {
    if code == 0 {
        RegType::RT_BC
    } else if code == 1 {
        RegType::RT_DE
    } else if code == 2 {
        RegType::RT_HL
    } else {
        RegType::RT_SP
    }
}

/// The register pairs of PUSH and POP, by two-bit code.
pub open spec fn spec_reg16_stack(code: int) -> RegType {
    if code == 3 {
        RegType::RT_AF
    } else {
        spec_reg16(code)
    }
}

/// The four branch conditions, by two-bit code.
pub open spec fn spec_cond(code: int) -> CondType {
    if code == 0 {
        CondType::CT_NZ
    } else if code == 1 {
        CondType::CT_Z
    } else if code == 2 {
        CondType::CT_NC
    } else {
        CondType::CT_C
    }
}

/// The eight accumulator operations, by three-bit code.
pub open spec fn spec_alu(code: int) -> InstrType {
    if code == 0 {
        InstrType::IN_ADD
    } else if code == 1 {
        InstrType::IN_ADC
    } else if code == 2 {
        InstrType::IN_SUB
    } else if code == 3 {
        InstrType::IN_SBC
    } else if code == 4 {
        InstrType::IN_AND
    } else if code == 5 {
        InstrType::IN_XOR
    } else if code == 6 {
        InstrType::IN_OR
    } else {
        InstrType::IN_CP
    }
}

/// The eight one-byte accumulator and flag operations of column 7 in the
/// first quarter of the opcode map.
pub open spec fn spec_acc_op(code: int) -> InstrType {
    if code == 0 {
        InstrType::IN_RLCA
    } else if code == 1 {
        InstrType::IN_RRCA
    } else if code == 2 {
        InstrType::IN_RLA
    } else if code == 3 {
        InstrType::IN_RRA
    } else if code == 4 {
        InstrType::IN_DAA
    } else if code == 5 {
        InstrType::IN_CPL
    } else if code == 6 {
        InstrType::IN_SCF
    } else {
        InstrType::IN_CCF
    }
}

/// A descriptor with every field given.
pub open spec fn spec_instr(
    instr_type: InstrType,
    addr_mode: AddrMode,
    reg1: RegType,
    reg2: RegType,
    cond_type: CondType,
    param: u8,
) -> Instruction {
    Instruction { param, instr_type, addr_mode, reg1, reg2, cond_type }
}

/// A descriptor without condition or parameter.
pub open spec fn spec_plain(
    instr_type: InstrType,
    addr_mode: AddrMode,
    reg1: RegType,
    reg2: RegType,
) -> Instruction {
    spec_instr(instr_type, addr_mode, reg1, reg2, CondType::CT_NONE, 0)
}

/// Opcodes 0x00 to 0x3F: loads of immediates, 16-bit arithmetic,
/// increments, relative jumps and the accumulator operations.
pub open spec fn spec_decode_low(y: int, z: int) -> Instruction {
    let p = y / 2;
    let q = y % 2;
    let none = RegType::RT_NONE;
    if z == 0 {
        if y == 0 {
            spec_plain(InstrType::IN_NOP, AddrMode::AM_IMP, none, none)
        } else if y == 1 {
            spec_plain(InstrType::IN_LD, AddrMode::AM_A16_R, none, RegType::RT_SP)
        } else if y == 2 {
            spec_plain(InstrType::IN_STOP, AddrMode::AM_D8, none, none)
        } else if y == 3 {
            spec_plain(InstrType::IN_JR, AddrMode::AM_D8, none, none)
        } else {
            spec_instr(InstrType::IN_JR, AddrMode::AM_D8, none, none, spec_cond(y - 4), 0)
        }
    } else if z == 1 {
        if q == 0 {
            spec_plain(InstrType::IN_LD, AddrMode::AM_R_D16, spec_reg16(p), none)
        } else {
            spec_plain(InstrType::IN_ADD, AddrMode::AM_R_R, RegType::RT_HL, spec_reg16(p))
        }
    } else if z == 2 {
        let pair = if p == 0 {
            RegType::RT_BC
        } else if p == 1 {
            RegType::RT_DE
        } else {
            RegType::RT_HL
        };
        if q == 0 {
            let mode = if p == 2 {
                AddrMode::AM_HLI_R
            } else if p == 3 {
                AddrMode::AM_HLD_R
            } else {
                AddrMode::AM_MR_R
            };
            spec_plain(InstrType::IN_LD, mode, pair, RegType::RT_A)
        } else {
            let mode = if p == 2 {
                AddrMode::AM_R_HLI
            } else if p == 3 {
                AddrMode::AM_R_HLD
            } else {
                AddrMode::AM_R_MR
            };
            spec_plain(InstrType::IN_LD, mode, RegType::RT_A, pair)
        }
    } else if z == 3 {
        spec_plain(
            if q == 0 {
                InstrType::IN_INC
            } else {
                InstrType::IN_DEC
            },
            AddrMode::AM_R,
            spec_reg16(p),
            none,
        )
    } else if z == 4 || z == 5 {
        spec_plain(
            if z == 4 {
                InstrType::IN_INC
            } else {
                InstrType::IN_DEC
            },
            if y == 6 {
                AddrMode::AM_MR
            } else {
                AddrMode::AM_R
            },
            spec_reg8(y),
            none,
        )
    } else if z == 6 {
        spec_plain(
            InstrType::IN_LD,
            if y == 6 {
                AddrMode::AM_MR_D8
            } else {
                AddrMode::AM_R_D8
            },
            spec_reg8(y),
            none,
        )
    } else {
        spec_plain(spec_acc_op(y), AddrMode::AM_IMP, none, none)
    }
}

/// Opcodes 0x40 to 0x7F: register-to-register loads, with HALT in place of
/// a load from memory to memory.
pub open spec fn spec_decode_load(y: int, z: int) -> Instruction {
    if y == 6 && z == 6 {
        spec_plain(InstrType::IN_HALT, AddrMode::AM_IMP, RegType::RT_NONE, RegType::RT_NONE)
    } else if z == 6 {
        spec_plain(InstrType::IN_LD, AddrMode::AM_R_MR, spec_reg8(y), RegType::RT_HL)
    } else if y == 6 {
        spec_plain(InstrType::IN_LD, AddrMode::AM_MR_R, RegType::RT_HL, spec_reg8(z))
    } else {
        spec_plain(InstrType::IN_LD, AddrMode::AM_R_R, spec_reg8(y), spec_reg8(z))
    }
}

/// Opcodes 0x80 to 0xBF: the accumulator with a register or the byte at HL.
pub open spec fn spec_decode_alu(y: int, z: int) -> Instruction {
    spec_plain(
        spec_alu(y),
        if z == 6 {
            AddrMode::AM_R_MR
        } else {
            AddrMode::AM_R_R
        },
        RegType::RT_A,
        spec_reg8(z),
    )
}

/// Opcodes 0xC0 to 0xFF: control flow, the stack, the high-page loads and
/// the accumulator with an immediate. Eleven codes of this quarter name no
/// instruction.
pub open spec fn spec_decode_high(y: int, z: int) -> Option<Instruction> {
    let p = y / 2;
    let q = y % 2;
    let none = RegType::RT_NONE;
    if z == 0 {
        if y < 4 {
            Some(spec_instr(InstrType::IN_RET, AddrMode::AM_IMP, none, none, spec_cond(y), 0))
        } else if y == 4 {
            Some(spec_plain(InstrType::IN_LDH, AddrMode::AM_A8_R, none, RegType::RT_A))
        } else if y == 5 {
            Some(spec_plain(InstrType::IN_ADD, AddrMode::AM_R_D8, RegType::RT_SP, none))
        } else if y == 6 {
            Some(spec_plain(InstrType::IN_LDH, AddrMode::AM_R_A8, RegType::RT_A, none))
        } else {
            Some(spec_plain(InstrType::IN_LD, AddrMode::AM_HL_SPR, RegType::RT_HL, RegType::RT_SP))
        }
    } else if z == 1 {
        if q == 0 {
            Some(spec_plain(InstrType::IN_POP, AddrMode::AM_R, spec_reg16_stack(p), none))
        } else if p == 0 {
            Some(spec_plain(InstrType::IN_RET, AddrMode::AM_IMP, none, none))
        } else if p == 1 {
            Some(spec_plain(InstrType::IN_RETI, AddrMode::AM_IMP, none, none))
        } else if p == 2 {
            Some(spec_plain(InstrType::IN_JP, AddrMode::AM_R, RegType::RT_HL, none))
        } else {
            Some(spec_plain(InstrType::IN_LD, AddrMode::AM_R_R, RegType::RT_SP, RegType::RT_HL))
        }
    } else if z == 2 {
        if y < 4 {
            Some(spec_instr(InstrType::IN_JP, AddrMode::AM_D16, none, none, spec_cond(y), 0))
        } else if y == 4 {
            Some(spec_plain(InstrType::IN_LD, AddrMode::AM_MR_R, RegType::RT_C, RegType::RT_A))
        } else if y == 5 {
            Some(spec_plain(InstrType::IN_LD, AddrMode::AM_A16_R, none, RegType::RT_A))
        } else if y == 6 {
            Some(spec_plain(InstrType::IN_LD, AddrMode::AM_R_MR, RegType::RT_A, RegType::RT_C))
        } else {
            Some(spec_plain(InstrType::IN_LD, AddrMode::AM_R_A16, RegType::RT_A, none))
        }
    } else if z == 3 {
        if y == 0 {
            Some(spec_plain(InstrType::IN_JP, AddrMode::AM_D16, none, none))
        } else if y == 1 {
            Some(spec_plain(InstrType::IN_CB, AddrMode::AM_D8, none, none))
        } else if y == 6 {
            Some(spec_plain(InstrType::IN_DI, AddrMode::AM_IMP, none, none))
        } else if y == 7 {
            Some(spec_plain(InstrType::IN_EI, AddrMode::AM_IMP, none, none))
        } else {
            None
        }
    } else if z == 4 {
        if y < 4 {
            Some(spec_instr(InstrType::IN_CALL, AddrMode::AM_D16, none, none, spec_cond(y), 0))
        } else {
            None
        }
    } else if z == 5 {
        if q == 0 {
            Some(spec_plain(InstrType::IN_PUSH, AddrMode::AM_R, spec_reg16_stack(p), none))
        } else if p == 0 {
            Some(spec_plain(InstrType::IN_CALL, AddrMode::AM_D16, none, none))
        } else {
            None
        }
    } else if z == 6 {
        Some(spec_plain(spec_alu(y), AddrMode::AM_R_D8, RegType::RT_A, none))
    } else {
        Some(
            spec_instr(
                InstrType::IN_RST,
                AddrMode::AM_IMP,
                none,
                none,
                CondType::CT_NONE,
                (y * 8) as u8,
            ),
        )
    }
}

/// The opcode map, read off the opcode's bit fields: the quarter
/// `opcode / 64`, the row `(opcode / 8) % 8` and the column `opcode % 8`.
pub open spec fn spec_decode(opcode: u8) -> Option<Instruction> {
    let x = opcode as int / 64;
    let y = (opcode as int / 8) % 8;
    let z = opcode as int % 8;
    if x == 0 {
        Some(spec_decode_low(y, z))
    } else if x == 1 {
        Some(spec_decode_load(y, z))
    } else if x == 2 {
        Some(spec_decode_alu(y, z))
    } else {
        spec_decode_high(y, z)
    }
}

impl Instruction {
    /// What the operand fetch needs of the two register fields.
    pub open spec fn spec_operands_valid(self) -> bool {
        match self.addr_mode {
            AddrMode::AM_R | AddrMode::AM_MR_D8 | AddrMode::AM_MR => self.reg1.spec_valid(),
            AddrMode::AM_R_R | AddrMode::AM_R_MR | AddrMode::AM_A16_R => self.reg2.spec_valid(),
            AddrMode::AM_MR_R => self.reg1.spec_valid() && self.reg2.spec_valid(),
            AddrMode::AM_R_HLI | AddrMode::AM_R_HLD => self.reg2 == RegType::RT_HL,
            AddrMode::AM_HLI_R | AddrMode::AM_HLD_R => self.reg1 == RegType::RT_HL
                && self.reg2.spec_valid(),
            _ => true,
        }
    }

    /// What the operation needs of the descriptor.
    pub open spec fn spec_operation_valid(self) -> bool {
        match self.instr_type {
            InstrType::IN_NOP | InstrType::IN_LDH | InstrType::IN_JP | InstrType::IN_JR
            | InstrType::IN_CALL | InstrType::IN_RET | InstrType::IN_RETI | InstrType::IN_RST
            | InstrType::IN_DI | InstrType::IN_EI | InstrType::IN_HALT | InstrType::IN_STOP
            | InstrType::IN_CB | InstrType::IN_RLCA | InstrType::IN_RLA | InstrType::IN_RRCA
            | InstrType::IN_RRA | InstrType::IN_CPL | InstrType::IN_CCF | InstrType::IN_SCF
            | InstrType::IN_DAA | InstrType::IN_PUSH => true,
            InstrType::IN_LD => self.addr_mode.spec_dest_is_mem() || (if self.addr_mode
                == AddrMode::AM_HL_SPR {
                self.reg1 == RegType::RT_HL && self.reg2 == RegType::RT_SP
            } else {
                self.reg1.spec_valid()
            }),
            InstrType::IN_INC | InstrType::IN_DEC | InstrType::IN_ADD | InstrType::IN_ADC
            | InstrType::IN_SUB | InstrType::IN_SBC | InstrType::IN_AND | InstrType::IN_XOR
            | InstrType::IN_OR | InstrType::IN_CP => self.reg1.spec_valid(),
            InstrType::IN_POP => self.reg1.spec_is_16_bit(),
            _ => false,
        }
    }

    /// A descriptor that the CPU can fetch operands for and execute.
    pub open spec fn wf(self) -> bool {
        self.spec_operands_valid() && self.spec_operation_valid()
    }

    /// The descriptor in words: the mnemonic, then the two registers where
    /// it has them, then the parameter in hexadecimal where it is not 0.
    pub open spec fn spec_str(self) -> Seq<char> {
        self.instr_type.spec_str() + (if self.reg1 != RegType::RT_NONE {
            " "@ + self.reg1.spec_str()
        } else {
            Seq::<char>::empty()
        }) + (if self.reg2 != RegType::RT_NONE {
            ", "@ + self.reg2.spec_str()
        } else {
            Seq::<char>::empty()
        }) + (if self.param != 0 {
            " 0x"@ + spec_hex_u8(self.param)
        } else {
            Seq::<char>::empty()
        })
    }

    /// Returns a string representation of the instruction.
    pub fn str(&self) -> (r: String)
        ensures
            r@ == self.spec_str(),
    {
        let mut result: String = self.instr_type.str();
        let ghost name = result@;
        if self.reg1 != RegType::RT_NONE {
            result.append(" ");
            result.append(self.reg1.str().as_str());
        }
        let ghost first = result@;
        if self.reg2 != RegType::RT_NONE {
            result.append(", ");
            result.append(self.reg2.str().as_str());
        }
        let ghost second = result@;
        if self.param != 0 {
            result.append(" 0x");
            result.append(hex_u8(self.param).as_str());
        }
        proof {
            assert(first =~= name + (if self.reg1 != RegType::RT_NONE {
                " "@ + self.reg1.spec_str()
            } else {
                Seq::<char>::empty()
            }));
            assert(second =~= first + (if self.reg2 != RegType::RT_NONE {
                ", "@ + self.reg2.spec_str()
            } else {
                Seq::<char>::empty()
            }));
            assert(result@ =~= second + (if self.param != 0 {
                " 0x"@ + spec_hex_u8(self.param)
            } else {
                Seq::<char>::empty()
            }));
        }
        result
    }

    /// A descriptor without registers.
    pub fn default(instr_type: InstrType, addr_mode: AddrMode) -> (r: Instruction)
        ensures
            r == spec_plain(instr_type, addr_mode, RegType::RT_NONE, RegType::RT_NONE),
    {
        Instruction {
            param: 0,
            instr_type,
            addr_mode,
            reg1: RegType::RT_NONE,
            reg2: RegType::RT_NONE,
            cond_type: CondType::CT_NONE,
        }
    }

    /// A descriptor with one register.
    pub fn with_one_reg(instr_type: InstrType, addr_mode: AddrMode, reg: RegType) -> (r:
        Instruction)
        ensures
            r == spec_plain(instr_type, addr_mode, reg, RegType::RT_NONE),
    {
        Instruction {
            param: 0,
            instr_type,
            addr_mode,
            reg1: reg,
            reg2: RegType::RT_NONE,
            cond_type: CondType::CT_NONE,
        }
    }

    /// A descriptor with two registers.
    pub fn with_two_regs(
        instr_type: InstrType,
        addr_mode: AddrMode,
        reg1: RegType,
        reg2: RegType,
    ) -> (r: Instruction)
        ensures
            r == spec_plain(instr_type, addr_mode, reg1, reg2),
    {
        Instruction { param: 0, instr_type, addr_mode, reg1, reg2, cond_type: CondType::CT_NONE }
    }

    /// A descriptor with every field given.
    pub fn new(
        instr_type: InstrType,
        addr_mode: AddrMode,
        reg1: RegType,
        reg2: RegType,
        cond_type: CondType,
        param: u8,
    ) -> (r: Instruction)
        ensures
            r == spec_instr(instr_type, addr_mode, reg1, reg2, cond_type, param),
    {
        Instruction { param, instr_type, addr_mode, reg1, reg2, cond_type }
    }

    /// Looks the opcode up in the table. `None` for the eleven codes that
    /// name no instruction.
    pub fn get_instruction(opcode: u8) -> (r: Option<Instruction>)
        ensures
            r == spec_decode(opcode),
            r matches Some(i) ==> i.wf(),
    {
        proof {
            lemma_decoded_is_valid(opcode);
        }
        if opcode < 0x40 {
            table_low(opcode)
        } else if opcode < 0x80 {
            table_load(opcode)
        } else if opcode < 0xC0 {
            table_alu(opcode)
        } else {
            table_high(opcode)
        }
    }
}

/// Every descriptor of the opcode map can be fetched for and executed.
pub proof fn lemma_decoded_is_valid(opcode: u8)
    ensures
        spec_decode(opcode) matches Some(i) ==> i.wf(),
{
}

/// The first quarter of the table.
fn table_low(opcode: u8) -> (r: Option<Instruction>)
    requires
        0x00 <= opcode <= 0x3F,
    ensures
        r == spec_decode(opcode),
{
    match opcode {
        0x00 => Some(
            Instruction {
                param: 0,
                instr_type: InstrType::IN_NOP,
                addr_mode: AddrMode::AM_IMP,
                reg1: RegType::RT_NONE,
                reg2: RegType::RT_NONE,
                cond_type: CondType::CT_NONE,
            },
        ),
        0x01 => Some(
            Instruction {
                param: 0,
                instr_type: InstrType::IN_LD,
                addr_mode: AddrMode::AM_R_D16,
                reg1: RegType::RT_BC,
                reg2: RegType::RT_NONE,
                cond_type: CondType::CT_NONE,
            },
        ),
        0x02 => Some(
            Instruction {
                param: 0,
                instr_type: InstrType::IN_LD,
                addr_mode: AddrMode::AM_MR_R,
                reg1: RegType::RT_BC,
                reg2: RegType::RT_A,
                cond_type: CondType::CT_NONE,
            },
        ),
        0x03 => Some(
            Instruction {
                param: 0,
                instr_type: InstrType::IN_INC,
                addr_mode: AddrMode::AM_R,
                reg1: RegType::RT_BC,
                reg2: RegType::RT_NONE,
                cond_type: CondType::CT_NONE,
            },
        ),
        0x04 => Some(
            Instruction {
                param: 0,
                instr_type: InstrType::IN_INC,
                addr_mode: AddrMode::AM_R,
                reg1: RegType::RT_B,
                reg2: RegType::RT_NONE,
                cond_type: CondType::CT_NONE,
            },
        ),
        0x05 => Some(
            Instruction {
                param: 0,
                instr_type: InstrType::IN_DEC,
                addr_mode: AddrMode::AM_R,
                reg1: RegType::RT_B,
                reg2: RegType::RT_NONE,
                cond_type: CondType::CT_NONE,
            },
        ),
        0x06 => Some(
            Instruction {
                param: 0,
                instr_type: InstrType::IN_LD,
                addr_mode: AddrMode::AM_R_D8,
                reg1: RegType::RT_B,
                reg2: RegType::RT_NONE,
                cond_type: CondType::CT_NONE,
            },
        ),
        0x07 => Some(
            Instruction {
                param: 0,
                instr_type: InstrType::IN_RLCA,
                addr_mode: AddrMode::AM_IMP,
                reg1: RegType::RT_NONE,
                reg2: RegType::RT_NONE,
                cond_type: CondType::CT_NONE,
            },
        ),
        0x08 => Some(
            Instruction {
                param: 0,
                instr_type: InstrType::IN_LD,
                addr_mode: AddrMode::AM_A16_R,
                reg1: RegType::RT_NONE,
                reg2: RegType::RT_SP,
                cond_type: CondType::CT_NONE,
            },
        ),
        0x09 => Some(
            Instruction {
                param: 0,
                instr_type: InstrType::IN_ADD,
                addr_mode: AddrMode::AM_R_R,
                reg1: RegType::RT_HL,
                reg2: RegType::RT_BC,
                cond_type: CondType::CT_NONE,
            },
        ),
        0x0A => Some(
            Instruction {
                param: 0,
                instr_type: InstrType::IN_LD,
                addr_mode: AddrMode::AM_R_MR,
                reg1: RegType::RT_A,
                reg2: RegType::RT_BC,
                cond_type: CondType::CT_NONE,
            },
        ),
        0x0B => Some(
            Instruction {
                param: 0,
                instr_type: InstrType::IN_DEC,
                addr_mode: AddrMode::AM_R,
                reg1: RegType::RT_BC,
                reg2: RegType::RT_NONE,
                cond_type: CondType::CT_NONE,
            },
        ),
        0x0C => Some(
            Instruction {
                param: 0,
                instr_type: InstrType::IN_INC,
                addr_mode: AddrMode::AM_R,
                reg1: RegType::RT_C,
                reg2: RegType::RT_NONE,
                cond_type: CondType::CT_NONE,
            },
        ),
        0x0D => Some(
            Instruction {
                param: 0,
                instr_type: InstrType::IN_DEC,
                addr_mode: AddrMode::AM_R,
                reg1: RegType::RT_C,
                reg2: RegType::RT_NONE,
                cond_type: CondType::CT_NONE,
            },
        ),
        0x0E => Some(
            Instruction {
                param: 0,
                instr_type: InstrType::IN_LD,
                addr_mode: AddrMode::AM_R_D8,
                reg1: RegType::RT_C,
                reg2: RegType::RT_NONE,
                cond_type: CondType::CT_NONE,
            },
        ),
        0x0F => Some(
            Instruction {
                param: 0,
                instr_type: InstrType::IN_RRCA,
                addr_mode: AddrMode::AM_IMP,
                reg1: RegType::RT_NONE,
                reg2: RegType::RT_NONE,
                cond_type: CondType::CT_NONE,
            },
        ),
        0x10 => Some(
            Instruction {
                param: 0,
                instr_type: InstrType::IN_STOP,
                addr_mode: AddrMode::AM_D8,
                reg1: RegType::RT_NONE,
                reg2: RegType::RT_NONE,
                cond_type: CondType::CT_NONE,
            },
        ),
        0x11 => Some(
            Instruction {
                param: 0,
                instr_type: InstrType::IN_LD,
                addr_mode: AddrMode::AM_R_D16,
                reg1: RegType::RT_DE,
                reg2: RegType::RT_NONE,
                cond_type: CondType::CT_NONE,
            },
        ),
        0x12 => Some(
            Instruction {
                param: 0,
                instr_type: InstrType::IN_LD,
                addr_mode: AddrMode::AM_MR_R,
                reg1: RegType::RT_DE,
                reg2: RegType::RT_A,
                cond_type: CondType::CT_NONE,
            },
        ),
        0x13 => Some(
            Instruction {
                param: 0,
                instr_type: InstrType::IN_INC,
                addr_mode: AddrMode::AM_R,
                reg1: RegType::RT_DE,
                reg2: RegType::RT_NONE,
                cond_type: CondType::CT_NONE,
            },
        ),
        0x14 => Some(
            Instruction {
                param: 0,
                instr_type: InstrType::IN_INC,
                addr_mode: AddrMode::AM_R,
                reg1: RegType::RT_D,
                reg2: RegType::RT_NONE,
                cond_type: CondType::CT_NONE,
            },
        ),
        0x15 => Some(
            Instruction {
                param: 0,
                instr_type: InstrType::IN_DEC,
                addr_mode: AddrMode::AM_R,
                reg1: RegType::RT_D,
                reg2: RegType::RT_NONE,
                cond_type: CondType::CT_NONE,
            },
        ),
        0x16 => Some(
            Instruction {
                param: 0,
                instr_type: InstrType::IN_LD,
                addr_mode: AddrMode::AM_R_D8,
                reg1: RegType::RT_D,
                reg2: RegType::RT_NONE,
                cond_type: CondType::CT_NONE,
            },
        ),
        0x17 => Some(
            Instruction {
                param: 0,
                instr_type: InstrType::IN_RLA,
                addr_mode: AddrMode::AM_IMP,
                reg1: RegType::RT_NONE,
                reg2: RegType::RT_NONE,
                cond_type: CondType::CT_NONE,
            },
        ),
        0x18 => Some(
            Instruction {
                param: 0,
                instr_type: InstrType::IN_JR,
                addr_mode: AddrMode::AM_D8,
                reg1: RegType::RT_NONE,
                reg2: RegType::RT_NONE,
                cond_type: CondType::CT_NONE,
            },
        ),
        0x19 => Some(
            Instruction {
                param: 0,
                instr_type: InstrType::IN_ADD,
                addr_mode: AddrMode::AM_R_R,
                reg1: RegType::RT_HL,
                reg2: RegType::RT_DE,
                cond_type: CondType::CT_NONE,
            },
        ),
        0x1A => Some(
            Instruction {
                param: 0,
                instr_type: InstrType::IN_LD,
                addr_mode: AddrMode::AM_R_MR,
                reg1: RegType::RT_A,
                reg2: RegType::RT_DE,
                cond_type: CondType::CT_NONE,
            },
        ),
        0x1B => Some(
            Instruction {
                param: 0,
                instr_type: InstrType::IN_DEC,
                addr_mode: AddrMode::AM_R,
                reg1: RegType::RT_DE,
                reg2: RegType::RT_NONE,
                cond_type: CondType::CT_NONE,
            },
        ),
        0x1C => Some(
            Instruction {
                param: 0,
                instr_type: InstrType::IN_INC,
                addr_mode: AddrMode::AM_R,
                reg1: RegType::RT_E,
                reg2: RegType::RT_NONE,
                cond_type: CondType::CT_NONE,
            },
        ),
        0x1D => Some(
            Instruction {
                param: 0,
                instr_type: InstrType::IN_DEC,
                addr_mode: AddrMode::AM_R,
                reg1: RegType::RT_E,
                reg2: RegType::RT_NONE,
                cond_type: CondType::CT_NONE,
            },
        ),
        0x1E => Some(
            Instruction {
                param: 0,
                instr_type: InstrType::IN_LD,
                addr_mode: AddrMode::AM_R_D8,
                reg1: RegType::RT_E,
                reg2: RegType::RT_NONE,
                cond_type: CondType::CT_NONE,
            },
        ),
        0x1F => Some(
            Instruction {
                param: 0,
                instr_type: InstrType::IN_RRA,
                addr_mode: AddrMode::AM_IMP,
                reg1: RegType::RT_NONE,
                reg2: RegType::RT_NONE,
                cond_type: CondType::CT_NONE,
            },
        ),
        0x20 => Some(
            Instruction {
                param: 0x00,
                instr_type: InstrType::IN_JR,
                addr_mode: AddrMode::AM_D8,
                reg1: RegType::RT_NONE,
                reg2: RegType::RT_NONE,
                cond_type: CondType::CT_NZ,
            },
        ),
        0x21 => Some(
            Instruction {
                param: 0,
                instr_type: InstrType::IN_LD,
                addr_mode: AddrMode::AM_R_D16,
                reg1: RegType::RT_HL,
                reg2: RegType::RT_NONE,
                cond_type: CondType::CT_NONE,
            },
        ),
        0x22 => Some(
            Instruction {
                param: 0,
                instr_type: InstrType::IN_LD,
                addr_mode: AddrMode::AM_HLI_R,
                reg1: RegType::RT_HL,
                reg2: RegType::RT_A,
                cond_type: CondType::CT_NONE,
            },
        ),
        0x23 => Some(
            Instruction {
                param: 0,
                instr_type: InstrType::IN_INC,
                addr_mode: AddrMode::AM_R,
                reg1: RegType::RT_HL,
                reg2: RegType::RT_NONE,
                cond_type: CondType::CT_NONE,
            },
        ),
        0x24 => Some(
            Instruction {
                param: 0,
                instr_type: InstrType::IN_INC,
                addr_mode: AddrMode::AM_R,
                reg1: RegType::RT_H,
                reg2: RegType::RT_NONE,
                cond_type: CondType::CT_NONE,
            },
        ),
        0x25 => Some(
            Instruction {
                param: 0,
                instr_type: InstrType::IN_DEC,
                addr_mode: AddrMode::AM_R,
                reg1: RegType::RT_H,
                reg2: RegType::RT_NONE,
                cond_type: CondType::CT_NONE,
            },
        ),
        0x26 => Some(
            Instruction {
                param: 0,
                instr_type: InstrType::IN_LD,
                addr_mode: AddrMode::AM_R_D8,
                reg1: RegType::RT_H,
                reg2: RegType::RT_NONE,
                cond_type: CondType::CT_NONE,
            },
        ),
        0x27 => Some(
            Instruction {
                param: 0,
                instr_type: InstrType::IN_DAA,
                addr_mode: AddrMode::AM_IMP,
                reg1: RegType::RT_NONE,
                reg2: RegType::RT_NONE,
                cond_type: CondType::CT_NONE,
            },
        ),
        0x28 => Some(
            Instruction {
                param: 0x00,
                instr_type: InstrType::IN_JR,
                addr_mode: AddrMode::AM_D8,
                reg1: RegType::RT_NONE,
                reg2: RegType::RT_NONE,
                cond_type: CondType::CT_Z,
            },
        ),
        0x29 => Some(
            Instruction {
                param: 0,
                instr_type: InstrType::IN_ADD,
                addr_mode: AddrMode::AM_R_R,
                reg1: RegType::RT_HL,
                reg2: RegType::RT_HL,
                cond_type: CondType::CT_NONE,
            },
        ),
        0x2A => Some(
            Instruction {
                param: 0,
                instr_type: InstrType::IN_LD,
                addr_mode: AddrMode::AM_R_HLI,
                reg1: RegType::RT_A,
                reg2: RegType::RT_HL,
                cond_type: CondType::CT_NONE,
            },
        ),
        0x2B => Some(
            Instruction {
                param: 0,
                instr_type: InstrType::IN_DEC,
                addr_mode: AddrMode::AM_R,
                reg1: RegType::RT_HL,
                reg2: RegType::RT_NONE,
                cond_type: CondType::CT_NONE,
            },
        ),
        0x2C => Some(
            Instruction {
                param: 0,
                instr_type: InstrType::IN_INC,
                addr_mode: AddrMode::AM_R,
                reg1: RegType::RT_L,
                reg2: RegType::RT_NONE,
                cond_type: CondType::CT_NONE,
            },
        ),
        0x2D => Some(
            Instruction {
                param: 0,
                instr_type: InstrType::IN_DEC,
                addr_mode: AddrMode::AM_R,
                reg1: RegType::RT_L,
                reg2: RegType::RT_NONE,
                cond_type: CondType::CT_NONE,
            },
        ),
        0x2E => Some(
            Instruction {
                param: 0,
                instr_type: InstrType::IN_LD,
                addr_mode: AddrMode::AM_R_D8,
                reg1: RegType::RT_L,
                reg2: RegType::RT_NONE,
                cond_type: CondType::CT_NONE,
            },
        ),
        0x2F => Some(
            Instruction {
                param: 0,
                instr_type: InstrType::IN_CPL,
                addr_mode: AddrMode::AM_IMP,
                reg1: RegType::RT_NONE,
                reg2: RegType::RT_NONE,
                cond_type: CondType::CT_NONE,
            },
        ),
        0x30 => Some(
            Instruction {
                param: 0x00,
                instr_type: InstrType::IN_JR,
                addr_mode: AddrMode::AM_D8,
                reg1: RegType::RT_NONE,
                reg2: RegType::RT_NONE,
                cond_type: CondType::CT_NC,
            },
        ),
        0x31 => Some(
            Instruction {
                param: 0,
                instr_type: InstrType::IN_LD,
                addr_mode: AddrMode::AM_R_D16,
                reg1: RegType::RT_SP,
                reg2: RegType::RT_NONE,
                cond_type: CondType::CT_NONE,
            },
        ),
        0x32 => Some(
            Instruction {
                param: 0,
                instr_type: InstrType::IN_LD,
                addr_mode: AddrMode::AM_HLD_R,
                reg1: RegType::RT_HL,
                reg2: RegType::RT_A,
                cond_type: CondType::CT_NONE,
            },
        ),
        0x33 => Some(
            Instruction {
                param: 0,
                instr_type: InstrType::IN_INC,
                addr_mode: AddrMode::AM_R,
                reg1: RegType::RT_SP,
                reg2: RegType::RT_NONE,
                cond_type: CondType::CT_NONE,
            },
        ),
        0x34 => Some(
            Instruction {
                param: 0,
                instr_type: InstrType::IN_INC,
                addr_mode: AddrMode::AM_MR,
                reg1: RegType::RT_HL,
                reg2: RegType::RT_NONE,
                cond_type: CondType::CT_NONE,
            },
        ),
        0x35 => Some(
            Instruction {
                param: 0,
                instr_type: InstrType::IN_DEC,
                addr_mode: AddrMode::AM_MR,
                reg1: RegType::RT_HL,
                reg2: RegType::RT_NONE,
                cond_type: CondType::CT_NONE,
            },
        ),
        0x36 => Some(
            Instruction {
                param: 0,
                instr_type: InstrType::IN_LD,
                addr_mode: AddrMode::AM_MR_D8,
                reg1: RegType::RT_HL,
                reg2: RegType::RT_NONE,
                cond_type: CondType::CT_NONE,
            },
        ),
        0x37 => Some(
            Instruction {
                param: 0,
                instr_type: InstrType::IN_SCF,
                addr_mode: AddrMode::AM_IMP,
                reg1: RegType::RT_NONE,
                reg2: RegType::RT_NONE,
                cond_type: CondType::CT_NONE,
            },
        ),
        0x38 => Some(
            Instruction {
                param: 0x00,
                instr_type: InstrType::IN_JR,
                addr_mode: AddrMode::AM_D8,
                reg1: RegType::RT_NONE,
                reg2: RegType::RT_NONE,
                cond_type: CondType::CT_C,
            },
        ),
        0x39 => Some(
            Instruction {
                param: 0,
                instr_type: InstrType::IN_ADD,
                addr_mode: AddrMode::AM_R_R,
                reg1: RegType::RT_HL,
                reg2: RegType::RT_SP,
                cond_type: CondType::CT_NONE,
            },
        ),
        0x3A => Some(
            Instruction {
                param: 0,
                instr_type: InstrType::IN_LD,
                addr_mode: AddrMode::AM_R_HLD,
                reg1: RegType::RT_A,
                reg2: RegType::RT_HL,
                cond_type: CondType::CT_NONE,
            },
        ),
        0x3B => Some(
            Instruction {
                param: 0,
                instr_type: InstrType::IN_DEC,
                addr_mode: AddrMode::AM_R,
                reg1: RegType::RT_SP,
                reg2: RegType::RT_NONE,
                cond_type: CondType::CT_NONE,
            },
        ),
        0x3C => Some(
            Instruction {
                param: 0,
                instr_type: InstrType::IN_INC,
                addr_mode: AddrMode::AM_R,
                reg1: RegType::RT_A,
                reg2: RegType::RT_NONE,
                cond_type: CondType::CT_NONE,
            },
        ),
        0x3D => Some(
            Instruction {
                param: 0,
                instr_type: InstrType::IN_DEC,
                addr_mode: AddrMode::AM_R,
                reg1: RegType::RT_A,
                reg2: RegType::RT_NONE,
                cond_type: CondType::CT_NONE,
            },
        ),
        0x3E => Some(
            Instruction {
                param: 0,
                instr_type: InstrType::IN_LD,
                addr_mode: AddrMode::AM_R_D8,
                reg1: RegType::RT_A,
                reg2: RegType::RT_NONE,
                cond_type: CondType::CT_NONE,
            },
        ),
        0x3F => Some(
            Instruction {
                param: 0,
                instr_type: InstrType::IN_CCF,
                addr_mode: AddrMode::AM_IMP,
                reg1: RegType::RT_NONE,
                reg2: RegType::RT_NONE,
                cond_type: CondType::CT_NONE,
            },
        ),
        _ => None,
    }
}

/// The second quarter of the table.
fn table_load(opcode: u8) -> (r: Option<Instruction>)
    requires
        0x40 <= opcode <= 0x7F,
    ensures
        r == spec_decode(opcode),
{
    match opcode {
        0x40 => Some(
            Instruction {
                param: 0,
                instr_type: InstrType::IN_LD,
                addr_mode: AddrMode::AM_R_R,
                reg1: RegType::RT_B,
                reg2: RegType::RT_B,
                cond_type: CondType::CT_NONE,
            },
        ),
        0x41 => Some(
            Instruction {
                param: 0,
                instr_type: InstrType::IN_LD,
                addr_mode: AddrMode::AM_R_R,
                reg1: RegType::RT_B,
                reg2: RegType::RT_C,
                cond_type: CondType::CT_NONE,
            },
        ),
        0x42 => Some(
            Instruction {
                param: 0,
                instr_type: InstrType::IN_LD,
                addr_mode: AddrMode::AM_R_R,
                reg1: RegType::RT_B,
                reg2: RegType::RT_D,
                cond_type: CondType::CT_NONE,
            },
        ),
        0x43 => Some(
            Instruction {
                param: 0,
                instr_type: InstrType::IN_LD,
                addr_mode: AddrMode::AM_R_R,
                reg1: RegType::RT_B,
                reg2: RegType::RT_E,
                cond_type: CondType::CT_NONE,
            },
        ),
        0x44 => Some(
            Instruction {
                param: 0,
                instr_type: InstrType::IN_LD,
                addr_mode: AddrMode::AM_R_R,
                reg1: RegType::RT_B,
                reg2: RegType::RT_H,
                cond_type: CondType::CT_NONE,
            },
        ),
        0x45 => Some(
            Instruction {
                param: 0,
                instr_type: InstrType::IN_LD,
                addr_mode: AddrMode::AM_R_R,
                reg1: RegType::RT_B,
                reg2: RegType::RT_L,
                cond_type: CondType::CT_NONE,
            },
        ),
        0x46 => Some(
            Instruction {
                param: 0,
                instr_type: InstrType::IN_LD,
                addr_mode: AddrMode::AM_R_MR,
                reg1: RegType::RT_B,
                reg2: RegType::RT_HL,
                cond_type: CondType::CT_NONE,
            },
        ),
        0x47 => Some(
            Instruction {
                param: 0,
                instr_type: InstrType::IN_LD,
                addr_mode: AddrMode::AM_R_R,
                reg1: RegType::RT_B,
                reg2: RegType::RT_A,
                cond_type: CondType::CT_NONE,
            },
        ),
        0x48 => Some(
            Instruction {
                param: 0,
                instr_type: InstrType::IN_LD,
                addr_mode: AddrMode::AM_R_R,
                reg1: RegType::RT_C,
                reg2: RegType::RT_B,
                cond_type: CondType::CT_NONE,
            },
        ),
        0x49 => Some(
            Instruction {
                param: 0,
                instr_type: InstrType::IN_LD,
                addr_mode: AddrMode::AM_R_R,
                reg1: RegType::RT_C,
                reg2: RegType::RT_C,
                cond_type: CondType::CT_NONE,
            },
        ),
        0x4A => Some(
            Instruction {
                param: 0,
                instr_type: InstrType::IN_LD,
                addr_mode: AddrMode::AM_R_R,
                reg1: RegType::RT_C,
                reg2: RegType::RT_D,
                cond_type: CondType::CT_NONE,
            },
        ),
        0x4B => Some(
            Instruction {
                param: 0,
                instr_type: InstrType::IN_LD,
                addr_mode: AddrMode::AM_R_R,
                reg1: RegType::RT_C,
                reg2: RegType::RT_E,
                cond_type: CondType::CT_NONE,
            },
        ),
        0x4C => Some(
            Instruction {
                param: 0,
                instr_type: InstrType::IN_LD,
                addr_mode: AddrMode::AM_R_R,
                reg1: RegType::RT_C,
                reg2: RegType::RT_H,
                cond_type: CondType::CT_NONE,
            },
        ),
        0x4D => Some(
            Instruction {
                param: 0,
                instr_type: InstrType::IN_LD,
                addr_mode: AddrMode::AM_R_R,
                reg1: RegType::RT_C,
                reg2: RegType::RT_L,
                cond_type: CondType::CT_NONE,
            },
        ),
        0x4E => Some(
            Instruction {
                param: 0,
                instr_type: InstrType::IN_LD,
                addr_mode: AddrMode::AM_R_MR,
                reg1: RegType::RT_C,
                reg2: RegType::RT_HL,
                cond_type: CondType::CT_NONE,
            },
        ),
        0x4F => Some(
            Instruction {
                param: 0,
                instr_type: InstrType::IN_LD,
                addr_mode: AddrMode::AM_R_R,
                reg1: RegType::RT_C,
                reg2: RegType::RT_A,
                cond_type: CondType::CT_NONE,
            },
        ),
        0x50 => Some(
            Instruction {
                param: 0,
                instr_type: InstrType::IN_LD,
                addr_mode: AddrMode::AM_R_R,
                reg1: RegType::RT_D,
                reg2: RegType::RT_B,
                cond_type: CondType::CT_NONE,
            },
        ),
        0x51 => Some(
            Instruction {
                param: 0,
                instr_type: InstrType::IN_LD,
                addr_mode: AddrMode::AM_R_R,
                reg1: RegType::RT_D,
                reg2: RegType::RT_C,
                cond_type: CondType::CT_NONE,
            },
        ),
        0x52 => Some(
            Instruction {
                param: 0,
                instr_type: InstrType::IN_LD,
                addr_mode: AddrMode::AM_R_R,
                reg1: RegType::RT_D,
                reg2: RegType::RT_D,
                cond_type: CondType::CT_NONE,
            },
        ),
        0x53 => Some(
            Instruction {
                param: 0,
                instr_type: InstrType::IN_LD,
                addr_mode: AddrMode::AM_R_R,
                reg1: RegType::RT_D,
                reg2: RegType::RT_E,
                cond_type: CondType::CT_NONE,
            },
        ),
        0x54 => Some(
            Instruction {
                param: 0,
                instr_type: InstrType::IN_LD,
                addr_mode: AddrMode::AM_R_R,
                reg1: RegType::RT_D,
                reg2: RegType::RT_H,
                cond_type: CondType::CT_NONE,
            },
        ),
        0x55 => Some(
            Instruction {
                param: 0,
                instr_type: InstrType::IN_LD,
                addr_mode: AddrMode::AM_R_R,
                reg1: RegType::RT_D,
                reg2: RegType::RT_L,
                cond_type: CondType::CT_NONE,
            },
        ),
        0x56 => Some(
            Instruction {
                param: 0,
                instr_type: InstrType::IN_LD,
                addr_mode: AddrMode::AM_R_MR,
                reg1: RegType::RT_D,
                reg2: RegType::RT_HL,
                cond_type: CondType::CT_NONE,
            },
        ),
        0x57 => Some(
            Instruction {
                param: 0,
                instr_type: InstrType::IN_LD,
                addr_mode: AddrMode::AM_R_R,
                reg1: RegType::RT_D,
                reg2: RegType::RT_A,
                cond_type: CondType::CT_NONE,
            },
        ),
        0x58 => Some(
            Instruction {
                param: 0,
                instr_type: InstrType::IN_LD,
                addr_mode: AddrMode::AM_R_R,
                reg1: RegType::RT_E,
                reg2: RegType::RT_B,
                cond_type: CondType::CT_NONE,
            },
        ),
        0x59 => Some(
            Instruction {
                param: 0,
                instr_type: InstrType::IN_LD,
                addr_mode: AddrMode::AM_R_R,
                reg1: RegType::RT_E,
                reg2: RegType::RT_C,
                cond_type: CondType::CT_NONE,
            },
        ),
        0x5A => Some(
            Instruction {
                param: 0,
                instr_type: InstrType::IN_LD,
                addr_mode: AddrMode::AM_R_R,
                reg1: RegType::RT_E,
                reg2: RegType::RT_D,
                cond_type: CondType::CT_NONE,
            },
        ),
        0x5B => Some(
            Instruction {
                param: 0,
                instr_type: InstrType::IN_LD,
                addr_mode: AddrMode::AM_R_R,
                reg1: RegType::RT_E,
                reg2: RegType::RT_E,
                cond_type: CondType::CT_NONE,
            },
        ),
        0x5C => Some(
            Instruction {
                param: 0,
                instr_type: InstrType::IN_LD,
                addr_mode: AddrMode::AM_R_R,
                reg1: RegType::RT_E,
                reg2: RegType::RT_H,
                cond_type: CondType::CT_NONE,
            },
        ),
        0x5D => Some(
            Instruction {
                param: 0,
                instr_type: InstrType::IN_LD,
                addr_mode: AddrMode::AM_R_R,
                reg1: RegType::RT_E,
                reg2: RegType::RT_L,
                cond_type: CondType::CT_NONE,
            },
        ),
        0x5E => Some(
            Instruction {
                param: 0,
                instr_type: InstrType::IN_LD,
                addr_mode: AddrMode::AM_R_MR,
                reg1: RegType::RT_E,
                reg2: RegType::RT_HL,
                cond_type: CondType::CT_NONE,
            },
        ),
        0x5F => Some(
            Instruction {
                param: 0,
                instr_type: InstrType::IN_LD,
                addr_mode: AddrMode::AM_R_R,
                reg1: RegType::RT_E,
                reg2: RegType::RT_A,
                cond_type: CondType::CT_NONE,
            },
        ),
        0x60 => Some(
            Instruction {
                param: 0,
                instr_type: InstrType::IN_LD,
                addr_mode: AddrMode::AM_R_R,
                reg1: RegType::RT_H,
                reg2: RegType::RT_B,
                cond_type: CondType::CT_NONE,
            },
        ),
        0x61 => Some(
            Instruction {
                param: 0,
                instr_type: InstrType::IN_LD,
                addr_mode: AddrMode::AM_R_R,
                reg1: RegType::RT_H,
                reg2: RegType::RT_C,
                cond_type: CondType::CT_NONE,
            },
        ),
        0x62 => Some(
            Instruction {
                param: 0,
                instr_type: InstrType::IN_LD,
                addr_mode: AddrMode::AM_R_R,
                reg1: RegType::RT_H,
                reg2: RegType::RT_D,
                cond_type: CondType::CT_NONE,
            },
        ),
        0x63 => Some(
            Instruction {
                param: 0,
                instr_type: InstrType::IN_LD,
                addr_mode: AddrMode::AM_R_R,
                reg1: RegType::RT_H,
                reg2: RegType::RT_E,
                cond_type: CondType::CT_NONE,
            },
        ),
        0x64 => Some(
            Instruction {
                param: 0,
                instr_type: InstrType::IN_LD,
                addr_mode: AddrMode::AM_R_R,
                reg1: RegType::RT_H,
                reg2: RegType::RT_H,
                cond_type: CondType::CT_NONE,
            },
        ),
        0x65 => Some(
            Instruction {
                param: 0,
                instr_type: InstrType::IN_LD,
                addr_mode: AddrMode::AM_R_R,
                reg1: RegType::RT_H,
                reg2: RegType::RT_L,
                cond_type: CondType::CT_NONE,
            },
        ),
        0x66 => Some(
            Instruction {
                param: 0,
                instr_type: InstrType::IN_LD,
                addr_mode: AddrMode::AM_R_MR,
                reg1: RegType::RT_H,
                reg2: RegType::RT_HL,
                cond_type: CondType::CT_NONE,
            },
        ),
        0x67 => Some(
            Instruction {
                param: 0,
                instr_type: InstrType::IN_LD,
                addr_mode: AddrMode::AM_R_R,
                reg1: RegType::RT_H,
                reg2: RegType::RT_A,
                cond_type: CondType::CT_NONE,
            },
        ),
        0x68 => Some(
            Instruction {
                param: 0,
                instr_type: InstrType::IN_LD,
                addr_mode: AddrMode::AM_R_R,
                reg1: RegType::RT_L,
                reg2: RegType::RT_B,
                cond_type: CondType::CT_NONE,
            },
        ),
        0x69 => Some(
            Instruction {
                param: 0,
                instr_type: InstrType::IN_LD,
                addr_mode: AddrMode::AM_R_R,
                reg1: RegType::RT_L,
                reg2: RegType::RT_C,
                cond_type: CondType::CT_NONE,
            },
        ),
        0x6A => Some(
            Instruction {
                param: 0,
                instr_type: InstrType::IN_LD,
                addr_mode: AddrMode::AM_R_R,
                reg1: RegType::RT_L,
                reg2: RegType::RT_D,
                cond_type: CondType::CT_NONE,
            },
        ),
        0x6B => Some(
            Instruction {
                param: 0,
                instr_type: InstrType::IN_LD,
                addr_mode: AddrMode::AM_R_R,
                reg1: RegType::RT_L,
                reg2: RegType::RT_E,
                cond_type: CondType::CT_NONE,
            },
        ),
        0x6C => Some(
            Instruction {
                param: 0,
                instr_type: InstrType::IN_LD,
                addr_mode: AddrMode::AM_R_R,
                reg1: RegType::RT_L,
                reg2: RegType::RT_H,
                cond_type: CondType::CT_NONE,
            },
        ),
        0x6D => Some(
            Instruction {
                param: 0,
                instr_type: InstrType::IN_LD,
                addr_mode: AddrMode::AM_R_R,
                reg1: RegType::RT_L,
                reg2: RegType::RT_L,
                cond_type: CondType::CT_NONE,
            },
        ),
        0x6E => Some(
            Instruction {
                param: 0,
                instr_type: InstrType::IN_LD,
                addr_mode: AddrMode::AM_R_MR,
                reg1: RegType::RT_L,
                reg2: RegType::RT_HL,
                cond_type: CondType::CT_NONE,
            },
        ),
        0x6F => Some(
            Instruction {
                param: 0,
                instr_type: InstrType::IN_LD,
                addr_mode: AddrMode::AM_R_R,
                reg1: RegType::RT_L,
                reg2: RegType::RT_A,
                cond_type: CondType::CT_NONE,
            },
        ),
        0x70 => Some(
            Instruction {
                param: 0,
                instr_type: InstrType::IN_LD,
                addr_mode: AddrMode::AM_MR_R,
                reg1: RegType::RT_HL,
                reg2: RegType::RT_B,
                cond_type: CondType::CT_NONE,
            },
        ),
        0x71 => Some(
            Instruction {
                param: 0,
                instr_type: InstrType::IN_LD,
                addr_mode: AddrMode::AM_MR_R,
                reg1: RegType::RT_HL,
                reg2: RegType::RT_C,
                cond_type: CondType::CT_NONE,
            },
        ),
        0x72 => Some(
            Instruction {
                param: 0,
                instr_type: InstrType::IN_LD,
                addr_mode: AddrMode::AM_MR_R,
                reg1: RegType::RT_HL,
                reg2: RegType::RT_D,
                cond_type: CondType::CT_NONE,
            },
        ),
        0x73 => Some(
            Instruction {
                param: 0,
                instr_type: InstrType::IN_LD,
                addr_mode: AddrMode::AM_MR_R,
                reg1: RegType::RT_HL,
                reg2: RegType::RT_E,
                cond_type: CondType::CT_NONE,
            },
        ),
        0x74 => Some(
            Instruction {
                param: 0,
                instr_type: InstrType::IN_LD,
                addr_mode: AddrMode::AM_MR_R,
                reg1: RegType::RT_HL,
                reg2: RegType::RT_H,
                cond_type: CondType::CT_NONE,
            },
        ),
        0x75 => Some(
            Instruction {
                param: 0,
                instr_type: InstrType::IN_LD,
                addr_mode: AddrMode::AM_MR_R,
                reg1: RegType::RT_HL,
                reg2: RegType::RT_L,
                cond_type: CondType::CT_NONE,
            },
        ),
        0x76 => Some(
            Instruction {
                param: 0,
                instr_type: InstrType::IN_HALT,
                addr_mode: AddrMode::AM_IMP,
                reg1: RegType::RT_NONE,
                reg2: RegType::RT_NONE,
                cond_type: CondType::CT_NONE,
            },
        ),
        0x77 => Some(
            Instruction {
                param: 0,
                instr_type: InstrType::IN_LD,
                addr_mode: AddrMode::AM_MR_R,
                reg1: RegType::RT_HL,
                reg2: RegType::RT_A,
                cond_type: CondType::CT_NONE,
            },
        ),
        0x78 => Some(
            Instruction {
                param: 0,
                instr_type: InstrType::IN_LD,
                addr_mode: AddrMode::AM_R_R,
                reg1: RegType::RT_A,
                reg2: RegType::RT_B,
                cond_type: CondType::CT_NONE,
            },
        ),
        0x79 => Some(
            Instruction {
                param: 0,
                instr_type: InstrType::IN_LD,
                addr_mode: AddrMode::AM_R_R,
                reg1: RegType::RT_A,
                reg2: RegType::RT_C,
                cond_type: CondType::CT_NONE,
            },
        ),
        0x7A => Some(
            Instruction {
                param: 0,
                instr_type: InstrType::IN_LD,
                addr_mode: AddrMode::AM_R_R,
                reg1: RegType::RT_A,
                reg2: RegType::RT_D,
                cond_type: CondType::CT_NONE,
            },
        ),
        0x7B => Some(
            Instruction {
                param: 0,
                instr_type: InstrType::IN_LD,
                addr_mode: AddrMode::AM_R_R,
                reg1: RegType::RT_A,
                reg2: RegType::RT_E,
                cond_type: CondType::CT_NONE,
            },
        ),
        0x7C => Some(
            Instruction {
                param: 0,
                instr_type: InstrType::IN_LD,
                addr_mode: AddrMode::AM_R_R,
                reg1: RegType::RT_A,
                reg2: RegType::RT_H,
                cond_type: CondType::CT_NONE,
            },
        ),
        0x7D => Some(
            Instruction {
                param: 0,
                instr_type: InstrType::IN_LD,
                addr_mode: AddrMode::AM_R_R,
                reg1: RegType::RT_A,
                reg2: RegType::RT_L,
                cond_type: CondType::CT_NONE,
            },
        ),
        0x7E => Some(
            Instruction {
                param: 0,
                instr_type: InstrType::IN_LD,
                addr_mode: AddrMode::AM_R_MR,
                reg1: RegType::RT_A,
                reg2: RegType::RT_HL,
                cond_type: CondType::CT_NONE,
            },
        ),
        0x7F => Some(
            Instruction {
                param: 0,
                instr_type: InstrType::IN_LD,
                addr_mode: AddrMode::AM_R_R,
                reg1: RegType::RT_A,
                reg2: RegType::RT_A,
                cond_type: CondType::CT_NONE,
            },
        ),
        _ => None,
    }
}

/// The third quarter of the table.
fn table_alu(opcode: u8) -> (r: Option<Instruction>)
    requires
        0x80 <= opcode <= 0xBF,
    ensures
        r == spec_decode(opcode),
{
    match opcode {
        0x80 => Some(
            Instruction {
                param: 0,
                instr_type: InstrType::IN_ADD,
                addr_mode: AddrMode::AM_R_R,
                reg1: RegType::RT_A,
                reg2: RegType::RT_B,
                cond_type: CondType::CT_NONE,
            },
        ),
        0x81 => Some(
            Instruction {
                param: 0,
                instr_type: InstrType::IN_ADD,
                addr_mode: AddrMode::AM_R_R,
                reg1: RegType::RT_A,
                reg2: RegType::RT_C,
                cond_type: CondType::CT_NONE,
            },
        ),
        0x82 => Some(
            Instruction {
                param: 0,
                instr_type: InstrType::IN_ADD,
                addr_mode: AddrMode::AM_R_R,
                reg1: RegType::RT_A,
                reg2: RegType::RT_D,
                cond_type: CondType::CT_NONE,
            },
        ),
        0x83 => Some(
            Instruction {
                param: 0,
                instr_type: InstrType::IN_ADD,
                addr_mode: AddrMode::AM_R_R,
                reg1: RegType::RT_A,
                reg2: RegType::RT_E,
                cond_type: CondType::CT_NONE,
            },
        ),
        0x84 => Some(
            Instruction {
                param: 0,
                instr_type: InstrType::IN_ADD,
                addr_mode: AddrMode::AM_R_R,
                reg1: RegType::RT_A,
                reg2: RegType::RT_H,
                cond_type: CondType::CT_NONE,
            },
        ),
        0x85 => Some(
            Instruction {
                param: 0,
                instr_type: InstrType::IN_ADD,
                addr_mode: AddrMode::AM_R_R,
                reg1: RegType::RT_A,
                reg2: RegType::RT_L,
                cond_type: CondType::CT_NONE,
            },
        ),
        0x86 => Some(
            Instruction {
                param: 0,
                instr_type: InstrType::IN_ADD,
                addr_mode: AddrMode::AM_R_MR,
                reg1: RegType::RT_A,
                reg2: RegType::RT_HL,
                cond_type: CondType::CT_NONE,
            },
        ),
        0x87 => Some(
            Instruction {
                param: 0,
                instr_type: InstrType::IN_ADD,
                addr_mode: AddrMode::AM_R_R,
                reg1: RegType::RT_A,
                reg2: RegType::RT_A,
                cond_type: CondType::CT_NONE,
            },
        ),
        0x88 => Some(
            Instruction {
                param: 0,
                instr_type: InstrType::IN_ADC,
                addr_mode: AddrMode::AM_R_R,
                reg1: RegType::RT_A,
                reg2: RegType::RT_B,
                cond_type: CondType::CT_NONE,
            },
        ),
        0x89 => Some(
            Instruction {
                param: 0,
                instr_type: InstrType::IN_ADC,
                addr_mode: AddrMode::AM_R_R,
                reg1: RegType::RT_A,
                reg2: RegType::RT_C,
                cond_type: CondType::CT_NONE,
            },
        ),
        0x8A => Some(
            Instruction {
                param: 0,
                instr_type: InstrType::IN_ADC,
                addr_mode: AddrMode::AM_R_R,
                reg1: RegType::RT_A,
                reg2: RegType::RT_D,
                cond_type: CondType::CT_NONE,
            },
        ),
        0x8B => Some(
            Instruction {
                param: 0,
                instr_type: InstrType::IN_ADC,
                addr_mode: AddrMode::AM_R_R,
                reg1: RegType::RT_A,
                reg2: RegType::RT_E,
                cond_type: CondType::CT_NONE,
            },
        ),
        0x8C => Some(
            Instruction {
                param: 0,
                instr_type: InstrType::IN_ADC,
                addr_mode: AddrMode::AM_R_R,
                reg1: RegType::RT_A,
                reg2: RegType::RT_H,
                cond_type: CondType::CT_NONE,
            },
        ),
        0x8D => Some(
            Instruction {
                param: 0,
                instr_type: InstrType::IN_ADC,
                addr_mode: AddrMode::AM_R_R,
                reg1: RegType::RT_A,
                reg2: RegType::RT_L,
                cond_type: CondType::CT_NONE,
            },
        ),
        0x8E => Some(
            Instruction {
                param: 0,
                instr_type: InstrType::IN_ADC,
                addr_mode: AddrMode::AM_R_MR,
                reg1: RegType::RT_A,
                reg2: RegType::RT_HL,
                cond_type: CondType::CT_NONE,
            },
        ),
        0x8F => Some(
            Instruction {
                param: 0,
                instr_type: InstrType::IN_ADC,
                addr_mode: AddrMode::AM_R_R,
                reg1: RegType::RT_A,
                reg2: RegType::RT_A,
                cond_type: CondType::CT_NONE,
            },
        ),
        0x90 => Some(
            Instruction {
                param: 0,
                instr_type: InstrType::IN_SUB,
                addr_mode: AddrMode::AM_R_R,
                reg1: RegType::RT_A,
                reg2: RegType::RT_B,
                cond_type: CondType::CT_NONE,
            },
        ),
        0x91 => Some(
            Instruction {
                param: 0,
                instr_type: InstrType::IN_SUB,
                addr_mode: AddrMode::AM_R_R,
                reg1: RegType::RT_A,
                reg2: RegType::RT_C,
                cond_type: CondType::CT_NONE,
            },
        ),
        0x92 => Some(
            Instruction {
                param: 0,
                instr_type: InstrType::IN_SUB,
                addr_mode: AddrMode::AM_R_R,
                reg1: RegType::RT_A,
                reg2: RegType::RT_D,
                cond_type: CondType::CT_NONE,
            },
        ),
        0x93 => Some(
            Instruction {
                param: 0,
                instr_type: InstrType::IN_SUB,
                addr_mode: AddrMode::AM_R_R,
                reg1: RegType::RT_A,
                reg2: RegType::RT_E,
                cond_type: CondType::CT_NONE,
            },
        ),
        0x94 => Some(
            Instruction {
                param: 0,
                instr_type: InstrType::IN_SUB,
                addr_mode: AddrMode::AM_R_R,
                reg1: RegType::RT_A,
                reg2: RegType::RT_H,
                cond_type: CondType::CT_NONE,
            },
        ),
        0x95 => Some(
            Instruction {
                param: 0,
                instr_type: InstrType::IN_SUB,
                addr_mode: AddrMode::AM_R_R,
                reg1: RegType::RT_A,
                reg2: RegType::RT_L,
                cond_type: CondType::CT_NONE,
            },
        ),
        0x96 => Some(
            Instruction {
                param: 0,
                instr_type: InstrType::IN_SUB,
                addr_mode: AddrMode::AM_R_MR,
                reg1: RegType::RT_A,
                reg2: RegType::RT_HL,
                cond_type: CondType::CT_NONE,
            },
        ),
        0x97 => Some(
            Instruction {
                param: 0,
                instr_type: InstrType::IN_SUB,
                addr_mode: AddrMode::AM_R_R,
                reg1: RegType::RT_A,
                reg2: RegType::RT_A,
                cond_type: CondType::CT_NONE,
            },
        ),
        0x98 => Some(
            Instruction {
                param: 0,
                instr_type: InstrType::IN_SBC,
                addr_mode: AddrMode::AM_R_R,
                reg1: RegType::RT_A,
                reg2: RegType::RT_B,
                cond_type: CondType::CT_NONE,
            },
        ),
        0x99 => Some(
            Instruction {
                param: 0,
                instr_type: InstrType::IN_SBC,
                addr_mode: AddrMode::AM_R_R,
                reg1: RegType::RT_A,
                reg2: RegType::RT_C,
                cond_type: CondType::CT_NONE,
            },
        ),
        0x9A => Some(
            Instruction {
                param: 0,
                instr_type: InstrType::IN_SBC,
                addr_mode: AddrMode::AM_R_R,
                reg1: RegType::RT_A,
                reg2: RegType::RT_D,
                cond_type: CondType::CT_NONE,
            },
        ),
        0x9B => Some(
            Instruction {
                param: 0,
                instr_type: InstrType::IN_SBC,
                addr_mode: AddrMode::AM_R_R,
                reg1: RegType::RT_A,
                reg2: RegType::RT_E,
                cond_type: CondType::CT_NONE,
            },
        ),
        0x9C => Some(
            Instruction {
                param: 0,
                instr_type: InstrType::IN_SBC,
                addr_mode: AddrMode::AM_R_R,
                reg1: RegType::RT_A,
                reg2: RegType::RT_H,
                cond_type: CondType::CT_NONE,
            },
        ),
        0x9D => Some(
            Instruction {
                param: 0,
                instr_type: InstrType::IN_SBC,
                addr_mode: AddrMode::AM_R_R,
                reg1: RegType::RT_A,
                reg2: RegType::RT_L,
                cond_type: CondType::CT_NONE,
            },
        ),
        0x9E => Some(
            Instruction {
                param: 0,
                instr_type: InstrType::IN_SBC,
                addr_mode: AddrMode::AM_R_MR,
                reg1: RegType::RT_A,
                reg2: RegType::RT_HL,
                cond_type: CondType::CT_NONE,
            },
        ),
        0x9F => Some(
            Instruction {
                param: 0,
                instr_type: InstrType::IN_SBC,
                addr_mode: AddrMode::AM_R_R,
                reg1: RegType::RT_A,
                reg2: RegType::RT_A,
                cond_type: CondType::CT_NONE,
            },
        ),
        0xA0 => Some(
            Instruction {
                param: 0,
                instr_type: InstrType::IN_AND,
                addr_mode: AddrMode::AM_R_R,
                reg1: RegType::RT_A,
                reg2: RegType::RT_B,
                cond_type: CondType::CT_NONE,
            },
        ),
        0xA1 => Some(
            Instruction {
                param: 0,
                instr_type: InstrType::IN_AND,
                addr_mode: AddrMode::AM_R_R,
                reg1: RegType::RT_A,
                reg2: RegType::RT_C,
                cond_type: CondType::CT_NONE,
            },
        ),
        0xA2 => Some(
            Instruction {
                param: 0,
                instr_type: InstrType::IN_AND,
                addr_mode: AddrMode::AM_R_R,
                reg1: RegType::RT_A,
                reg2: RegType::RT_D,
                cond_type: CondType::CT_NONE,
            },
        ),
        0xA3 => Some(
            Instruction {
                param: 0,
                instr_type: InstrType::IN_AND,
                addr_mode: AddrMode::AM_R_R,
                reg1: RegType::RT_A,
                reg2: RegType::RT_E,
                cond_type: CondType::CT_NONE,
            },
        ),
        0xA4 => Some(
            Instruction {
                param: 0,
                instr_type: InstrType::IN_AND,
                addr_mode: AddrMode::AM_R_R,
                reg1: RegType::RT_A,
                reg2: RegType::RT_H,
                cond_type: CondType::CT_NONE,
            },
        ),
        0xA5 => Some(
            Instruction {
                param: 0,
                instr_type: InstrType::IN_AND,
                addr_mode: AddrMode::AM_R_R,
                reg1: RegType::RT_A,
                reg2: RegType::RT_L,
                cond_type: CondType::CT_NONE,
            },
        ),
        0xA6 => Some(
            Instruction {
                param: 0,
                instr_type: InstrType::IN_AND,
                addr_mode: AddrMode::AM_R_MR,
                reg1: RegType::RT_A,
                reg2: RegType::RT_HL,
                cond_type: CondType::CT_NONE,
            },
        ),
        0xA7 => Some(
            Instruction {
                param: 0,
                instr_type: InstrType::IN_AND,
                addr_mode: AddrMode::AM_R_R,
                reg1: RegType::RT_A,
                reg2: RegType::RT_A,
                cond_type: CondType::CT_NONE,
            },
        ),
        0xA8 => Some(
            Instruction {
                param: 0,
                instr_type: InstrType::IN_XOR,
                addr_mode: AddrMode::AM_R_R,
                reg1: RegType::RT_A,
                reg2: RegType::RT_B,
                cond_type: CondType::CT_NONE,
            },
        ),
        0xA9 => Some(
            Instruction {
                param: 0,
                instr_type: InstrType::IN_XOR,
                addr_mode: AddrMode::AM_R_R,
                reg1: RegType::RT_A,
                reg2: RegType::RT_C,
                cond_type: CondType::CT_NONE,
            },
        ),
        0xAA => Some(
            Instruction {
                param: 0,
                instr_type: InstrType::IN_XOR,
                addr_mode: AddrMode::AM_R_R,
                reg1: RegType::RT_A,
                reg2: RegType::RT_D,
                cond_type: CondType::CT_NONE,
            },
        ),
        0xAB => Some(
            Instruction {
                param: 0,
                instr_type: InstrType::IN_XOR,
                addr_mode: AddrMode::AM_R_R,
                reg1: RegType::RT_A,
                reg2: RegType::RT_E,
                cond_type: CondType::CT_NONE,
            },
        ),
        0xAC => Some(
            Instruction {
                param: 0,
                instr_type: InstrType::IN_XOR,
                addr_mode: AddrMode::AM_R_R,
                reg1: RegType::RT_A,
                reg2: RegType::RT_H,
                cond_type: CondType::CT_NONE,
            },
        ),
        0xAD => Some(
            Instruction {
                param: 0,
                instr_type: InstrType::IN_XOR,
                addr_mode: AddrMode::AM_R_R,
                reg1: RegType::RT_A,
                reg2: RegType::RT_L,
                cond_type: CondType::CT_NONE,
            },
        ),
        0xAE => Some(
            Instruction {
                param: 0,
                instr_type: InstrType::IN_XOR,
                addr_mode: AddrMode::AM_R_MR,
                reg1: RegType::RT_A,
                reg2: RegType::RT_HL,
                cond_type: CondType::CT_NONE,
            },
        ),
        0xAF => Some(
            Instruction {
                param: 0,
                instr_type: InstrType::IN_XOR,
                addr_mode: AddrMode::AM_R_R,
                reg1: RegType::RT_A,
                reg2: RegType::RT_A,
                cond_type: CondType::CT_NONE,
            },
        ),
        0xB0 => Some(
            Instruction {
                param: 0,
                instr_type: InstrType::IN_OR,
                addr_mode: AddrMode::AM_R_R,
                reg1: RegType::RT_A,
                reg2: RegType::RT_B,
                cond_type: CondType::CT_NONE,
            },
        ),
        0xB1 => Some(
            Instruction {
                param: 0,
                instr_type: InstrType::IN_OR,
                addr_mode: AddrMode::AM_R_R,
                reg1: RegType::RT_A,
                reg2: RegType::RT_C,
                cond_type: CondType::CT_NONE,
            },
        ),
        0xB2 => Some(
            Instruction {
                param: 0,
                instr_type: InstrType::IN_OR,
                addr_mode: AddrMode::AM_R_R,
                reg1: RegType::RT_A,
                reg2: RegType::RT_D,
                cond_type: CondType::CT_NONE,
            },
        ),
        0xB3 => Some(
            Instruction {
                param: 0,
                instr_type: InstrType::IN_OR,
                addr_mode: AddrMode::AM_R_R,
                reg1: RegType::RT_A,
                reg2: RegType::RT_E,
                cond_type: CondType::CT_NONE,
            },
        ),
        0xB4 => Some(
            Instruction {
                param: 0,
                instr_type: InstrType::IN_OR,
                addr_mode: AddrMode::AM_R_R,
                reg1: RegType::RT_A,
                reg2: RegType::RT_H,
                cond_type: CondType::CT_NONE,
            },
        ),
        0xB5 => Some(
            Instruction {
                param: 0,
                instr_type: InstrType::IN_OR,
                addr_mode: AddrMode::AM_R_R,
                reg1: RegType::RT_A,
                reg2: RegType::RT_L,
                cond_type: CondType::CT_NONE,
            },
        ),
        0xB6 => Some(
            Instruction {
                param: 0,
                instr_type: InstrType::IN_OR,
                addr_mode: AddrMode::AM_R_MR,
                reg1: RegType::RT_A,
                reg2: RegType::RT_HL,
                cond_type: CondType::CT_NONE,
            },
        ),
        0xB7 => Some(
            Instruction {
                param: 0,
                instr_type: InstrType::IN_OR,
                addr_mode: AddrMode::AM_R_R,
                reg1: RegType::RT_A,
                reg2: RegType::RT_A,
                cond_type: CondType::CT_NONE,
            },
        ),
        0xB8 => Some(
            Instruction {
                param: 0,
                instr_type: InstrType::IN_CP,
                addr_mode: AddrMode::AM_R_R,
                reg1: RegType::RT_A,
                reg2: RegType::RT_B,
                cond_type: CondType::CT_NONE,
            },
        ),
        0xB9 => Some(
            Instruction {
                param: 0,
                instr_type: InstrType::IN_CP,
                addr_mode: AddrMode::AM_R_R,
                reg1: RegType::RT_A,
                reg2: RegType::RT_C,
                cond_type: CondType::CT_NONE,
            },
        ),
        0xBA => Some(
            Instruction {
                param: 0,
                instr_type: InstrType::IN_CP,
                addr_mode: AddrMode::AM_R_R,
                reg1: RegType::RT_A,
                reg2: RegType::RT_D,
                cond_type: CondType::CT_NONE,
            },
        ),
        0xBB => Some(
            Instruction {
                param: 0,
                instr_type: InstrType::IN_CP,
                addr_mode: AddrMode::AM_R_R,
                reg1: RegType::RT_A,
                reg2: RegType::RT_E,
                cond_type: CondType::CT_NONE,
            },
        ),
        0xBC => Some(
            Instruction {
                param: 0,
                instr_type: InstrType::IN_CP,
                addr_mode: AddrMode::AM_R_R,
                reg1: RegType::RT_A,
                reg2: RegType::RT_H,
                cond_type: CondType::CT_NONE,
            },
        ),
        0xBD => Some(
            Instruction {
                param: 0,
                instr_type: InstrType::IN_CP,
                addr_mode: AddrMode::AM_R_R,
                reg1: RegType::RT_A,
                reg2: RegType::RT_L,
                cond_type: CondType::CT_NONE,
            },
        ),
        0xBE => Some(
            Instruction {
                param: 0,
                instr_type: InstrType::IN_CP,
                addr_mode: AddrMode::AM_R_MR,
                reg1: RegType::RT_A,
                reg2: RegType::RT_HL,
                cond_type: CondType::CT_NONE,
            },
        ),
        0xBF => Some(
            Instruction {
                param: 0,
                instr_type: InstrType::IN_CP,
                addr_mode: AddrMode::AM_R_R,
                reg1: RegType::RT_A,
                reg2: RegType::RT_A,
                cond_type: CondType::CT_NONE,
            },
        ),
        _ => None,
    }
}

/// The last quarter of the table.
fn table_high(opcode: u8) -> (r: Option<Instruction>)
    requires
        0xC0 <= opcode <= 0xFF,
    ensures
        r == spec_decode(opcode),
{
    match opcode {
        0xC0 => Some(
            Instruction {
                param: 0x00,
                instr_type: InstrType::IN_RET,
                addr_mode: AddrMode::AM_IMP,
                reg1: RegType::RT_NONE,
                reg2: RegType::RT_NONE,
                cond_type: CondType::CT_NZ,
            },
        ),
        0xC1 => Some(
            Instruction {
                param: 0,
                instr_type: InstrType::IN_POP,
                addr_mode: AddrMode::AM_R,
                reg1: RegType::RT_BC,
                reg2: RegType::RT_NONE,
                cond_type: CondType::CT_NONE,
            },
        ),
        0xC2 => Some(
            Instruction {
                param: 0x00,
                instr_type: InstrType::IN_JP,
                addr_mode: AddrMode::AM_D16,
                reg1: RegType::RT_NONE,
                reg2: RegType::RT_NONE,
                cond_type: CondType::CT_NZ,
            },
        ),
        0xC3 => Some(
            Instruction {
                param: 0,
                instr_type: InstrType::IN_JP,
                addr_mode: AddrMode::AM_D16,
                reg1: RegType::RT_NONE,
                reg2: RegType::RT_NONE,
                cond_type: CondType::CT_NONE,
            },
        ),
        0xC4 => Some(
            Instruction {
                param: 0x00,
                instr_type: InstrType::IN_CALL,
                addr_mode: AddrMode::AM_D16,
                reg1: RegType::RT_NONE,
                reg2: RegType::RT_NONE,
                cond_type: CondType::CT_NZ,
            },
        ),
        0xC5 => Some(
            Instruction {
                param: 0,
                instr_type: InstrType::IN_PUSH,
                addr_mode: AddrMode::AM_R,
                reg1: RegType::RT_BC,
                reg2: RegType::RT_NONE,
                cond_type: CondType::CT_NONE,
            },
        ),
        0xC6 => Some(
            Instruction {
                param: 0,
                instr_type: InstrType::IN_ADD,
                addr_mode: AddrMode::AM_R_D8,
                reg1: RegType::RT_A,
                reg2: RegType::RT_NONE,
                cond_type: CondType::CT_NONE,
            },
        ),
        0xC7 => Some(
            Instruction {
                param: 0,
                instr_type: InstrType::IN_RST,
                addr_mode: AddrMode::AM_IMP,
                reg1: RegType::RT_NONE,
                reg2: RegType::RT_NONE,
                cond_type: CondType::CT_NONE,
            },
        ),
        0xC8 => Some(
            Instruction {
                param: 0x00,
                instr_type: InstrType::IN_RET,
                addr_mode: AddrMode::AM_IMP,
                reg1: RegType::RT_NONE,
                reg2: RegType::RT_NONE,
                cond_type: CondType::CT_Z,
            },
        ),
        0xC9 => Some(
            Instruction {
                param: 0,
                instr_type: InstrType::IN_RET,
                addr_mode: AddrMode::AM_IMP,
                reg1: RegType::RT_NONE,
                reg2: RegType::RT_NONE,
                cond_type: CondType::CT_NONE,
            },
        ),
        0xCA => Some(
            Instruction {
                param: 0x00,
                instr_type: InstrType::IN_JP,
                addr_mode: AddrMode::AM_D16,
                reg1: RegType::RT_NONE,
                reg2: RegType::RT_NONE,
                cond_type: CondType::CT_Z,
            },
        ),
        0xCB => Some(
            Instruction {
                param: 0,
                instr_type: InstrType::IN_CB,
                addr_mode: AddrMode::AM_D8,
                reg1: RegType::RT_NONE,
                reg2: RegType::RT_NONE,
                cond_type: CondType::CT_NONE,
            },
        ),
        0xCC => Some(
            Instruction {
                param: 0x00,
                instr_type: InstrType::IN_CALL,
                addr_mode: AddrMode::AM_D16,
                reg1: RegType::RT_NONE,
                reg2: RegType::RT_NONE,
                cond_type: CondType::CT_Z,
            },
        ),
        0xCD => Some(
            Instruction {
                param: 0,
                instr_type: InstrType::IN_CALL,
                addr_mode: AddrMode::AM_D16,
                reg1: RegType::RT_NONE,
                reg2: RegType::RT_NONE,
                cond_type: CondType::CT_NONE,
            },
        ),
        0xCE => Some(
            Instruction {
                param: 0,
                instr_type: InstrType::IN_ADC,
                addr_mode: AddrMode::AM_R_D8,
                reg1: RegType::RT_A,
                reg2: RegType::RT_NONE,
                cond_type: CondType::CT_NONE,
            },
        ),
        0xCF => Some(
            Instruction {
                param: 0x08,
                instr_type: InstrType::IN_RST,
                addr_mode: AddrMode::AM_IMP,
                reg1: RegType::RT_NONE,
                reg2: RegType::RT_NONE,
                cond_type: CondType::CT_NONE,
            },
        ),
        0xD0 => Some(
            Instruction {
                param: 0x00,
                instr_type: InstrType::IN_RET,
                addr_mode: AddrMode::AM_IMP,
                reg1: RegType::RT_NONE,
                reg2: RegType::RT_NONE,
                cond_type: CondType::CT_NC,
            },
        ),
        0xD1 => Some(
            Instruction {
                param: 0,
                instr_type: InstrType::IN_POP,
                addr_mode: AddrMode::AM_R,
                reg1: RegType::RT_DE,
                reg2: RegType::RT_NONE,
                cond_type: CondType::CT_NONE,
            },
        ),
        0xD2 => Some(
            Instruction {
                param: 0x00,
                instr_type: InstrType::IN_JP,
                addr_mode: AddrMode::AM_D16,
                reg1: RegType::RT_NONE,
                reg2: RegType::RT_NONE,
                cond_type: CondType::CT_NC,
            },
        ),
        0xD4 => Some(
            Instruction {
                param: 0x00,
                instr_type: InstrType::IN_CALL,
                addr_mode: AddrMode::AM_D16,
                reg1: RegType::RT_NONE,
                reg2: RegType::RT_NONE,
                cond_type: CondType::CT_NC,
            },
        ),
        0xD5 => Some(
            Instruction {
                param: 0,
                instr_type: InstrType::IN_PUSH,
                addr_mode: AddrMode::AM_R,
                reg1: RegType::RT_DE,
                reg2: RegType::RT_NONE,
                cond_type: CondType::CT_NONE,
            },
        ),
        0xD6 => Some(
            Instruction {
                param: 0,
                instr_type: InstrType::IN_SUB,
                addr_mode: AddrMode::AM_R_D8,
                reg1: RegType::RT_A,
                reg2: RegType::RT_NONE,
                cond_type: CondType::CT_NONE,
            },
        ),
        0xD7 => Some(
            Instruction {
                param: 0x10,
                instr_type: InstrType::IN_RST,
                addr_mode: AddrMode::AM_IMP,
                reg1: RegType::RT_NONE,
                reg2: RegType::RT_NONE,
                cond_type: CondType::CT_NONE,
            },
        ),
        0xD8 => Some(
            Instruction {
                param: 0x00,
                instr_type: InstrType::IN_RET,
                addr_mode: AddrMode::AM_IMP,
                reg1: RegType::RT_NONE,
                reg2: RegType::RT_NONE,
                cond_type: CondType::CT_C,
            },
        ),
        0xD9 => Some(
            Instruction {
                param: 0,
                instr_type: InstrType::IN_RETI,
                addr_mode: AddrMode::AM_IMP,
                reg1: RegType::RT_NONE,
                reg2: RegType::RT_NONE,
                cond_type: CondType::CT_NONE,
            },
        ),
        0xDA => Some(
            Instruction {
                param: 0x00,
                instr_type: InstrType::IN_JP,
                addr_mode: AddrMode::AM_D16,
                reg1: RegType::RT_NONE,
                reg2: RegType::RT_NONE,
                cond_type: CondType::CT_C,
            },
        ),
        0xDC => Some(
            Instruction {
                param: 0x00,
                instr_type: InstrType::IN_CALL,
                addr_mode: AddrMode::AM_D16,
                reg1: RegType::RT_NONE,
                reg2: RegType::RT_NONE,
                cond_type: CondType::CT_C,
            },
        ),
        0xDE => Some(
            Instruction {
                param: 0,
                instr_type: InstrType::IN_SBC,
                addr_mode: AddrMode::AM_R_D8,
                reg1: RegType::RT_A,
                reg2: RegType::RT_NONE,
                cond_type: CondType::CT_NONE,
            },
        ),
        0xDF => Some(
            Instruction {
                param: 0x18,
                instr_type: InstrType::IN_RST,
                addr_mode: AddrMode::AM_IMP,
                reg1: RegType::RT_NONE,
                reg2: RegType::RT_NONE,
                cond_type: CondType::CT_NONE,
            },
        ),
        0xE0 => Some(
            Instruction {
                param: 0,
                instr_type: InstrType::IN_LDH,
                addr_mode: AddrMode::AM_A8_R,
                reg1: RegType::RT_NONE,
                reg2: RegType::RT_A,
                cond_type: CondType::CT_NONE,
            },
        ),
        0xE1 => Some(
            Instruction {
                param: 0,
                instr_type: InstrType::IN_POP,
                addr_mode: AddrMode::AM_R,
                reg1: RegType::RT_HL,
                reg2: RegType::RT_NONE,
                cond_type: CondType::CT_NONE,
            },
        ),
        0xE2 => Some(
            Instruction {
                param: 0,
                instr_type: InstrType::IN_LD,
                addr_mode: AddrMode::AM_MR_R,
                reg1: RegType::RT_C,
                reg2: RegType::RT_A,
                cond_type: CondType::CT_NONE,
            },
        ),
        0xE5 => Some(
            Instruction {
                param: 0,
                instr_type: InstrType::IN_PUSH,
                addr_mode: AddrMode::AM_R,
                reg1: RegType::RT_HL,
                reg2: RegType::RT_NONE,
                cond_type: CondType::CT_NONE,
            },
        ),
        0xE6 => Some(
            Instruction {
                param: 0,
                instr_type: InstrType::IN_AND,
                addr_mode: AddrMode::AM_R_D8,
                reg1: RegType::RT_A,
                reg2: RegType::RT_NONE,
                cond_type: CondType::CT_NONE,
            },
        ),
        0xE7 => Some(
            Instruction {
                param: 0x20,
                instr_type: InstrType::IN_RST,
                addr_mode: AddrMode::AM_IMP,
                reg1: RegType::RT_NONE,
                reg2: RegType::RT_NONE,
                cond_type: CondType::CT_NONE,
            },
        ),
        0xE8 => Some(
            Instruction {
                param: 0,
                instr_type: InstrType::IN_ADD,
                addr_mode: AddrMode::AM_R_D8,
                reg1: RegType::RT_SP,
                reg2: RegType::RT_NONE,
                cond_type: CondType::CT_NONE,
            },
        ),
        0xE9 => Some(
            Instruction {
                param: 0,
                instr_type: InstrType::IN_JP,
                addr_mode: AddrMode::AM_R,
                reg1: RegType::RT_HL,
                reg2: RegType::RT_NONE,
                cond_type: CondType::CT_NONE,
            },
        ),
        0xEA => Some(
            Instruction {
                param: 0,
                instr_type: InstrType::IN_LD,
                addr_mode: AddrMode::AM_A16_R,
                reg1: RegType::RT_NONE,
                reg2: RegType::RT_A,
                cond_type: CondType::CT_NONE,
            },
        ),
        0xEE => Some(
            Instruction {
                param: 0,
                instr_type: InstrType::IN_XOR,
                addr_mode: AddrMode::AM_R_D8,
                reg1: RegType::RT_A,
                reg2: RegType::RT_NONE,
                cond_type: CondType::CT_NONE,
            },
        ),
        0xEF => Some(
            Instruction {
                param: 0x28,
                instr_type: InstrType::IN_RST,
                addr_mode: AddrMode::AM_IMP,
                reg1: RegType::RT_NONE,
                reg2: RegType::RT_NONE,
                cond_type: CondType::CT_NONE,
            },
        ),
        0xF0 => Some(
            Instruction {
                param: 0,
                instr_type: InstrType::IN_LDH,
                addr_mode: AddrMode::AM_R_A8,
                reg1: RegType::RT_A,
                reg2: RegType::RT_NONE,
                cond_type: CondType::CT_NONE,
            },
        ),
        0xF1 => Some(
            Instruction {
                param: 0,
                instr_type: InstrType::IN_POP,
                addr_mode: AddrMode::AM_R,
                reg1: RegType::RT_AF,
                reg2: RegType::RT_NONE,
                cond_type: CondType::CT_NONE,
            },
        ),
        0xF2 => Some(
            Instruction {
                param: 0,
                instr_type: InstrType::IN_LD,
                addr_mode: AddrMode::AM_R_MR,
                reg1: RegType::RT_A,
                reg2: RegType::RT_C,
                cond_type: CondType::CT_NONE,
            },
        ),
        0xF3 => Some(
            Instruction {
                param: 0,
                instr_type: InstrType::IN_DI,
                addr_mode: AddrMode::AM_IMP,
                reg1: RegType::RT_NONE,
                reg2: RegType::RT_NONE,
                cond_type: CondType::CT_NONE,
            },
        ),
        0xF5 => Some(
            Instruction {
                param: 0,
                instr_type: InstrType::IN_PUSH,
                addr_mode: AddrMode::AM_R,
                reg1: RegType::RT_AF,
                reg2: RegType::RT_NONE,
                cond_type: CondType::CT_NONE,
            },
        ),
        0xF6 => Some(
            Instruction {
                param: 0,
                instr_type: InstrType::IN_OR,
                addr_mode: AddrMode::AM_R_D8,
                reg1: RegType::RT_A,
                reg2: RegType::RT_NONE,
                cond_type: CondType::CT_NONE,
            },
        ),
        0xF7 => Some(
            Instruction {
                param: 0x30,
                instr_type: InstrType::IN_RST,
                addr_mode: AddrMode::AM_IMP,
                reg1: RegType::RT_NONE,
                reg2: RegType::RT_NONE,
                cond_type: CondType::CT_NONE,
            },
        ),
        0xF8 => Some(
            Instruction {
                param: 0,
                instr_type: InstrType::IN_LD,
                addr_mode: AddrMode::AM_HL_SPR,
                reg1: RegType::RT_HL,
                reg2: RegType::RT_SP,
                cond_type: CondType::CT_NONE,
            },
        ),
        0xF9 => Some(
            Instruction {
                param: 0,
                instr_type: InstrType::IN_LD,
                addr_mode: AddrMode::AM_R_R,
                reg1: RegType::RT_SP,
                reg2: RegType::RT_HL,
                cond_type: CondType::CT_NONE,
            },
        ),
        0xFA => Some(
            Instruction {
                param: 0,
                instr_type: InstrType::IN_LD,
                addr_mode: AddrMode::AM_R_A16,
                reg1: RegType::RT_A,
                reg2: RegType::RT_NONE,
                cond_type: CondType::CT_NONE,
            },
        ),
        0xFB => Some(
            Instruction {
                param: 0,
                instr_type: InstrType::IN_EI,
                addr_mode: AddrMode::AM_IMP,
                reg1: RegType::RT_NONE,
                reg2: RegType::RT_NONE,
                cond_type: CondType::CT_NONE,
            },
        ),
        0xFE => Some(
            Instruction {
                param: 0,
                instr_type: InstrType::IN_CP,
                addr_mode: AddrMode::AM_R_D8,
                reg1: RegType::RT_A,
                reg2: RegType::RT_NONE,
                cond_type: CondType::CT_NONE,
            },
        ),
        0xFF => Some(
            Instruction {
                param: 0x38,
                instr_type: InstrType::IN_RST,
                addr_mode: AddrMode::AM_IMP,
                reg1: RegType::RT_NONE,
                reg2: RegType::RT_NONE,
                cond_type: CondType::CT_NONE,
            },
        ),
        _ => None,
    }
}

} // verus!

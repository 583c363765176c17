pub mod execute;
pub mod fetch;
pub mod instruction;
pub mod interrupts;

use vstd::prelude::*;
use vstd::string::StringExecFns;
use crate::emulator::text::hex_u16;
use crate::emulator::text::hex_u8;
use crate::emulator::text::spec_hex_u16;
use crate::emulator::text::spec_hex_u8;
use crate::emulator::bits::add16;
use crate::emulator::bits::add8;
use crate::emulator::bits::add_signed16;
use crate::emulator::bits::spec_signed;
use crate::emulator::bits::hi;
use crate::emulator::bits::lo;
use crate::emulator::bits::spec_hi;
use crate::emulator::bits::spec_lo;
use crate::emulator::bits::spec_word;
use crate::emulator::bits::spec_wrap16;
use crate::emulator::bits::spec_wrap8;
use crate::emulator::bits::sub16;
use crate::emulator::bits::sub8;
use crate::emulator::bits::word;
use crate::emulator::cpu::instruction::AddrMode;
use crate::emulator::cpu::instruction::CondType;
use crate::emulator::cpu::instruction::InstrType;
use crate::emulator::cpu::instruction::spec_decode;
use crate::emulator::cpu::instruction::Instruction;
use crate::emulator::cpu::instruction::RegType;

verus! {

pub const Z_FLAG: u8 = 0x80;

pub const N_FLAG: u8 = 0x40;

pub const H_FLAG: u8 = 0x20;

pub const C_FLAG: u8 = 0x10;

pub const INT_FLAGS_ADDR: u16 = 0xFF0F;

/// The argument of `set_flags` that leaves a flag as it is.
pub const KEEP: i8 = -1;

/// The register file.
#[derive(Debug, PartialEq, Eq, Structural, Clone, Copy)]
pub struct Registers {
    pub a: u8,
    pub f: u8,
    pub b: u8,
    pub c: u8,
    pub d: u8,
    pub e: u8,
    pub h: u8,
    pub l: u8,
    /// Program counter.
    pub pc: u16,
    /// Stack pointer.
    pub sp: u16,
}

/// The state of the CPU between two instructions.
#[derive(Debug, PartialEq, Eq, Structural, Clone, Copy)]
pub struct CPU {
    /// T-cycles since power-on.
    pub ticks: u64,
    pub trace: bool,
    pub halted: bool,
    pub stepping: bool,
    /// IME.
    pub interrupt_master_enabled: bool,
    /// EI was executed and IME is due after this instruction.
    pub enabling_ime: bool,
    /// IF, the interrupt requests.
    pub int_flags: u8,
    /// The opcode of the current instruction.
    pub opcode: u8,
    /// The operand of the current instruction.
    pub fetched_data: u16,
    /// The address the current instruction writes to, if it writes to
    /// memory.
    pub mem_dest: u16,
    pub dest_is_mem: bool,
    /// The descriptor of the current instruction.
    pub instr: Instruction,
    /// IE, the interrupt enable register.
    pub ie_register: u8,
    pub registers: Registers,
}

/// One of the four flag masks.
pub open spec fn spec_is_flag(flag: u8) -> bool {
    flag == Z_FLAG || flag == N_FLAG || flag == H_FLAG || flag == C_FLAG
}

/// Whether the flag is set in the flag byte `f`. For a mask that is none
/// of the four flags: whether any of its bits is set.
pub open spec fn spec_flag_in(f: u8, flag: u8) -> bool {
    if flag == Z_FLAG {
        f >= 0x80
    } else if flag == N_FLAG {
        (f as int / 0x40) % 2 == 1
    } else if flag == H_FLAG {
        (f as int / 0x20) % 2 == 1
    } else if flag == C_FLAG {
        (f as int / 0x10) % 2 == 1
    } else {
        (f & flag) != 0
    }
}

/// The flag byte `f` with the flag set to `value`. For a mask that is none
/// of the four flags: with the bits of the mask set or cleared, as far as
/// they lie in the high nibble.
pub open spec fn spec_with_flag(f: u8, flag: u8, value: bool) -> u8 {
    if !spec_is_flag(flag) {
        if value {
            (f | flag) & 0xF0
        } else {
            f & !flag
        }
    } else if spec_flag_in(f, flag) == value {
        f
    } else if value {
        (f + flag) as u8
    } else {
        (f - flag) as u8
    }
}

/// Setting and clearing the bits of a mask leaves a clear low nibble
/// clear.
pub proof fn lemma_mask_keeps_nibble(f: u8, flag: u8)
    by (bit_vector)
    requires
        f % 16 == 0,
    ensures
        ((f | flag) & 0xF0) % 16 == 0,
        (f & !flag) % 16 == 0,
{
}

/// The flag byte `f` after one argument of `set_flags`: a negative number
/// keeps the flag, zero clears it, a positive number sets it.
pub open spec fn spec_flag_choice(f: u8, flag: u8, choice: i8) -> u8 {
    if choice < 0 {
        f
    } else {
        spec_with_flag(f, flag, choice > 0)
    }
}

/// 1 for true, 0 for false.
pub open spec fn spec_b2i(b: bool) -> i8 {
    if b {
        1
    } else {
        0
    }
}

/// What DAA adds to the accumulator after an addition, or subtracts after a
/// subtraction: 6 to mend the low digit, 0x60 to mend the high digit.
pub open spec fn spec_daa_adjust(a: u8, n: bool, h: bool, c: bool) -> u8 {
    ((if h || (!n && a % 16 > 9) {
        6int
    } else {
        0int
    }) + (if c || (!n && a > 0x99) {
        0x60int
    } else {
        0int
    })) as u8
}

/// Setting or clearing a flag moves the flag byte by the flag's weight,
/// stays within the byte and leaves the low nibble alone.
pub proof fn lemma_flag_arith(f: u8, flag: u8)
    requires
        spec_is_flag(flag),
    ensures
        !spec_flag_in(f, flag) ==> f + flag <= 0xFF && spec_flag_in((f + flag) as u8, flag) && (f
            + flag) % 16 == f % 16,
        spec_flag_in(f, flag) ==> f >= flag && !spec_flag_in((f - flag) as u8, flag) && (f - flag)
            % 16 == f % 16,
{
    if flag == Z_FLAG {
    } else if flag == N_FLAG {
    } else if flag == H_FLAG {
    } else {
    }
}

/// `x - y - borrow`, reduced to sixteen bits.
pub fn sub_with_borrow(x: u16, y: u16, borrow: u16) -> (r: u16)
    requires
        borrow <= 1,
    ensures
        r == spec_wrap16(x - y - borrow),
{
    let wide: u32 = x as u32 + 0x20000 - y as u32 - borrow as u32;
    assert((wide as int) % 0x10000 == (x - y - borrow) % 0x10000) by {
        assert(wide as int == (x - y - borrow) + 2 * 0x10000);
    }
    (wide % 0x10000) as u16
}

/// The address in the page 0xFF00 that the low byte of `v` names.
pub open spec fn spec_high_page(v: u16) -> u16 {
    (0xFF00 + v % 0x100) as u16
}

/// The address in the page 0xFF00 that the low byte of `v` names.
pub fn high_page(v: u16) -> (r: u16)
    ensures
        r == spec_high_page(v),
{
    0xFF00 + v % 0x100
}

/// A flag that is set or cleared reads as it was set, and the other three
/// flags and the low nibble read as before.
pub proof fn lemma_flag_change(f: u8, flag: u8, value: bool)
    requires
        spec_is_flag(flag),
    ensures
        spec_flag_in(spec_with_flag(f, flag, value), flag) == value,
        flag != Z_FLAG ==> spec_flag_in(spec_with_flag(f, flag, value), Z_FLAG) == spec_flag_in(
            f,
            Z_FLAG,
        ),
        flag != N_FLAG ==> spec_flag_in(spec_with_flag(f, flag, value), N_FLAG) == spec_flag_in(
            f,
            N_FLAG,
        ),
        flag != H_FLAG ==> spec_flag_in(spec_with_flag(f, flag, value), H_FLAG) == spec_flag_in(
            f,
            H_FLAG,
        ),
        flag != C_FLAG ==> spec_flag_in(spec_with_flag(f, flag, value), C_FLAG) == spec_flag_in(
            f,
            C_FLAG,
        ),
        spec_with_flag(f, flag, value) % 16 == f % 16,
{
    lemma_flag_arith(f, flag);
    if flag == Z_FLAG {
    } else if flag == N_FLAG {
    } else if flag == H_FLAG {
    } else {
    }
}

/// The same of one argument of `set_flags`.
proof fn lemma_flag_choice(f: u8, flag: u8, choice: i8)
    requires
        spec_is_flag(flag),
    ensures
        spec_flag_in(spec_flag_choice(f, flag, choice), flag) == (if choice < 0 {
            spec_flag_in(f, flag)
        } else {
            choice > 0
        }),
        flag != Z_FLAG ==> spec_flag_in(spec_flag_choice(f, flag, choice), Z_FLAG)
            == spec_flag_in(f, Z_FLAG),
        flag != N_FLAG ==> spec_flag_in(spec_flag_choice(f, flag, choice), N_FLAG)
            == spec_flag_in(f, N_FLAG),
        flag != H_FLAG ==> spec_flag_in(spec_flag_choice(f, flag, choice), H_FLAG)
            == spec_flag_in(f, H_FLAG),
        flag != C_FLAG ==> spec_flag_in(spec_flag_choice(f, flag, choice), C_FLAG)
            == spec_flag_in(f, C_FLAG),
        spec_flag_choice(f, flag, choice) % 16 == f % 16,
{
    if choice >= 0 {
        lemma_flag_change(f, flag, choice > 0);
    }
}

/// The four flags are set and read one by one: after `set_flags` each flag
/// reads as its argument says, a flag that was kept reads as before, and
/// the low nibble is what it was.
pub proof fn law_flags_read_back(cpu: CPU, z: i8, n: i8, h: i8, c: i8)
    ensures
        cpu.spec_set_flags(z, n, h, c).spec_get_flag(Z_FLAG) == (if z < 0 {
            cpu.spec_get_flag(Z_FLAG)
        } else {
            z > 0
        }),
        cpu.spec_set_flags(z, n, h, c).spec_get_flag(N_FLAG) == (if n < 0 {
            cpu.spec_get_flag(N_FLAG)
        } else {
            n > 0
        }),
        cpu.spec_set_flags(z, n, h, c).spec_get_flag(H_FLAG) == (if h < 0 {
            cpu.spec_get_flag(H_FLAG)
        } else {
            h > 0
        }),
        cpu.spec_set_flags(z, n, h, c).spec_get_flag(C_FLAG) == (if c < 0 {
            cpu.spec_get_flag(C_FLAG)
        } else {
            c > 0
        }),
        cpu.spec_set_flags(z, n, h, c).registers.f % 16 == cpu.registers.f % 16,
{
    let f0 = cpu.registers.f;
    let f1 = spec_flag_choice(f0, Z_FLAG, z);
    let f2 = spec_flag_choice(f1, N_FLAG, n);
    let f3 = spec_flag_choice(f2, H_FLAG, h);
    let f4 = spec_flag_choice(f3, C_FLAG, c);
    lemma_flag_choice(f0, Z_FLAG, z);
    lemma_flag_choice(f1, N_FLAG, n);
    lemma_flag_choice(f2, H_FLAG, h);
    lemma_flag_choice(f3, C_FLAG, c);
    assert(cpu.spec_set_flags(z, n, h, c).registers.f == f4);
}

/// Whether both nibbles of a byte are decimal digits.
pub open spec fn spec_is_bcd(x: u8) -> bool {
    x / 16 <= 9 && x % 16 <= 9
}

/// The number, 0 to 99, that a byte of two decimal digits stands for.
pub open spec fn spec_bcd(x: u8) -> int {
    (x / 16) * 10 + x % 16
}

/// DAA after an addition: the binary sum of two bytes of decimal digits,
/// mended with the half carry and the carry of the addition, is the byte
/// of decimal digits of their decimal sum, and the carry tells whether
/// that sum passed 99.
pub proof fn law_daa_after_add(a: u8, b: u8)
    by (bit_vector)
    requires
        spec_is_bcd(a),
        spec_is_bcd(b),
    ensures
        spec_is_bcd(
            spec_wrap8(
                spec_wrap8(a + b) + spec_daa_adjust(
                    spec_wrap8(a + b),
                    false,
                    a % 16 + b % 16 > 0xF,
                    a + b > 0xFF,
                ),
            ),
        ),
        spec_bcd(
            spec_wrap8(
                spec_wrap8(a + b) + spec_daa_adjust(
                    spec_wrap8(a + b),
                    false,
                    a % 16 + b % 16 > 0xF,
                    a + b > 0xFF,
                ),
            ),
        ) == (spec_bcd(a) + spec_bcd(b)) % 100,
        (spec_daa_adjust(spec_wrap8(a + b), false, a % 16 + b % 16 > 0xF, a + b > 0xFF) >= 0x60)
            == (spec_bcd(a) + spec_bcd(b) >= 100),
{
}

/// DAA after a subtraction: the binary difference of two bytes of decimal
/// digits, mended with the half carry and the carry of the subtraction, is
/// the byte of decimal digits of their decimal difference, counted from
/// 100 where the second byte is the larger; the carry tells whether it is.
pub proof fn law_daa_after_sub(a: u8, b: u8)
    by (bit_vector)
    requires
        spec_is_bcd(a),
        spec_is_bcd(b),
    ensures
        spec_is_bcd(
            spec_wrap8(
                spec_wrap8(a - b) - spec_daa_adjust(spec_wrap8(a - b), true, a % 16 < b % 16, a < b),
            ),
        ),
        spec_bcd(
            spec_wrap8(
                spec_wrap8(a - b) - spec_daa_adjust(spec_wrap8(a - b), true, a % 16 < b % 16, a < b),
            ),
        ) == (if spec_bcd(a) >= spec_bcd(b) {
            spec_bcd(a) - spec_bcd(b)
        } else {
            spec_bcd(a) - spec_bcd(b) + 100
        }),
        (spec_daa_adjust(spec_wrap8(a - b), true, a % 16 < b % 16, a < b) >= 0x60) == (spec_bcd(a)
            < spec_bcd(b)),
{
}

/// CPL is its own inverse.
pub proof fn law_cpl_twice(cpu: CPU)
    ensures
        cpu.spec_exec_cpl().spec_exec_cpl().registers.a == cpu.registers.a,
{
}

/// An addition and the subtraction of the same operand give back the
/// accumulator; SUB sets Z exactly when the two are equal, as CP does
/// without changing the accumulator.
pub proof fn law_sub_and_cp(cpu: CPU)
    requires
        cpu.instr.reg1 == RegType::RT_A,
        cpu.fetched_data <= 0xFF,
    ensures
        cpu.spec_exec_cp().registers.a == cpu.registers.a,
        cpu.spec_exec_cp().registers.f == cpu.spec_exec_sub().registers.f,
        cpu.spec_exec_sub().registers.a == spec_wrap8(cpu.registers.a - cpu.fetched_data),
        cpu.spec_exec_sub().spec_get_flag(Z_FLAG) == (cpu.registers.a == cpu.fetched_data),
        cpu.spec_exec_sub().spec_get_flag(C_FLAG) == (cpu.registers.a < cpu.fetched_data),
{
    law_flags_read_back(
        cpu.spec_set_register(
            RegType::RT_A,
            spec_wrap16(cpu.registers.a as u16 - cpu.fetched_data),
        ),
        spec_b2i(cpu.registers.a as u16 == cpu.fetched_data),
        1,
        spec_b2i((cpu.registers.a as u16) % 16 < cpu.fetched_data % 16),
        spec_b2i((cpu.registers.a as u16) < cpu.fetched_data),
    );
}

/// A register that was set reads back: an 8-bit register the low byte, a
/// pair the whole word, AF the word without the low nibble.
pub proof fn law_register_read_back(cpu: CPU, reg: RegType, value: u16)
    requires
        reg.spec_valid(),
    ensures
        cpu.spec_set_register(reg, value).spec_read_reg(reg) == (if reg == RegType::RT_AF {
            (value - value % 16) as u16
        } else if reg.spec_is_16_bit() {
            value
        } else {
            (value % 0x100) as u16
        }),
        cpu.wf() ==> cpu.spec_set_register(reg, value).wf(),
{
}

pub fn b2i(b: bool) -> (r: i8)
    ensures
        r == spec_b2i(b),
{
    if b {
        1
    } else {
        0
    }
}

impl CPU {
    /// The low nibble of the flag register is zero.
    pub open spec fn wf(self) -> bool {
        self.registers.f % 16 == 0
    }

    /// The CPU as the boot program leaves it.
    pub open spec fn spec_new(trace: bool) -> CPU {
        CPU {
            ticks: 0,
            trace: trace,
            halted: false,
            stepping: false,
            interrupt_master_enabled: false,
            enabling_ime: false,
            int_flags: 0,
            opcode: 0,
            fetched_data: 0,
            mem_dest: 0,
            dest_is_mem: false,
            instr: Instruction {
                param: 0,
                instr_type: InstrType::IN_NOP,
                addr_mode: AddrMode::AM_IMP,
                reg1: RegType::RT_NONE,
                reg2: RegType::RT_NONE,
                cond_type: CondType::CT_NONE,
            },
            ie_register: 0,
            registers: Registers {
                a: 0x01,
                f: 0xB0,
                b: 0x00,
                c: 0x13,
                d: 0x00,
                e: 0xD8,
                h: 0x01,
                l: 0x4D,
                pc: 0x100,
                sp: 0xFFFE,
            },
        }
    }

    /// The value of a register or register pair; 0 for `RT_NONE` and
    /// `RT_F`.
    pub open spec fn spec_read_reg(self, reg: RegType) -> u16 {
        let r = self.registers;
        match reg {
            RegType::RT_A => r.a as u16,
            RegType::RT_B => r.b as u16,
            RegType::RT_C => r.c as u16,
            RegType::RT_D => r.d as u16,
            RegType::RT_E => r.e as u16,
            RegType::RT_H => r.h as u16,
            RegType::RT_L => r.l as u16,
            RegType::RT_SP => r.sp,
            RegType::RT_PC => r.pc,
            RegType::RT_AF => spec_word(r.a, r.f),
            RegType::RT_BC => spec_word(r.b, r.c),
            RegType::RT_DE => spec_word(r.d, r.e),
            RegType::RT_HL => spec_word(r.h, r.l),
            _ => 0,
        }
    }

    /// The register file after `value` is put into a register or pair. An
    /// 8-bit register takes the low byte. The flag register takes only the
    /// high nibble of its byte.
    pub open spec fn spec_set_registers(self, reg: RegType, value: u16) -> Registers {
        let r = self.registers;
        match reg {
            RegType::RT_A => Registers { a: spec_lo(value), ..r },
            RegType::RT_B => Registers { b: spec_lo(value), ..r },
            RegType::RT_C => Registers { c: spec_lo(value), ..r },
            RegType::RT_D => Registers { d: spec_lo(value), ..r },
            RegType::RT_E => Registers { e: spec_lo(value), ..r },
            RegType::RT_H => Registers { h: spec_lo(value), ..r },
            RegType::RT_L => Registers { l: spec_lo(value), ..r },
            RegType::RT_SP => Registers { sp: value, ..r },
            RegType::RT_PC => Registers { pc: value, ..r },
            RegType::RT_AF => Registers {
                a: spec_hi(value),
                f: (spec_lo(value) - spec_lo(value) % 16) as u8,
                ..r
            },
            RegType::RT_BC => Registers { b: spec_hi(value), c: spec_lo(value), ..r },
            RegType::RT_DE => Registers { d: spec_hi(value), e: spec_lo(value), ..r },
            RegType::RT_HL => Registers { h: spec_hi(value), l: spec_lo(value), ..r },
            _ => r,
        }
    }

    pub open spec fn spec_set_register(self, reg: RegType, value: u16) -> CPU {
        CPU { registers: self.spec_set_registers(reg, value), ..self }
    }

    pub open spec fn spec_get_flag(self, flag: u8) -> bool {
        spec_flag_in(self.registers.f, flag)
    }

    pub open spec fn spec_with_f(self, f: u8) -> CPU {
        CPU { registers: Registers { f: f, ..self.registers }, ..self }
    }

    pub open spec fn spec_set_flag(self, flag: u8, value: bool) -> CPU {
        self.spec_with_f(spec_with_flag(self.registers.f, flag, value))
    }

    /// The CPU after `set_flags`: each argument keeps (negative), clears
    /// (zero) or sets (positive) its flag.
    pub open spec fn spec_set_flags(self, z: i8, n: i8, h: i8, c: i8) -> CPU {
        self.spec_with_f(
            spec_flag_choice(
                spec_flag_choice(
                    spec_flag_choice(spec_flag_choice(self.registers.f, Z_FLAG, z), N_FLAG, n),
                    H_FLAG,
                    h,
                ),
                C_FLAG,
                c,
            ),
        )
    }

    /// Whether the condition of the current instruction holds.
    pub open spec fn spec_check_cond(self) -> bool {
        match self.instr.cond_type {
            CondType::CT_NONE => true,
            CondType::CT_NZ => !self.spec_get_flag(Z_FLAG),
            CondType::CT_Z => self.spec_get_flag(Z_FLAG),
            CondType::CT_NC => !self.spec_get_flag(C_FLAG),
            CondType::CT_C => self.spec_get_flag(C_FLAG),
        }
    }

    /// What the clock leaves of the CPU: everything but the cycle count
    /// and IF.
    pub open spec fn spec_clock_frame(self, after: CPU) -> bool {
        after == (CPU { ticks: after.ticks, int_flags: after.int_flags, ..self })
    }

    /// What the operand fetch leaves of the CPU: everything but the cycle
    /// count, IF, the operand, the destination and the registers; and the
    /// destination is memory exactly where the addressing mode says so.
    pub open spec fn spec_fetch_frame(self, after: CPU) -> bool {
        after == (CPU {
            ticks: after.ticks,
            int_flags: after.int_flags,
            fetched_data: after.fetched_data,
            mem_dest: after.mem_dest,
            dest_is_mem: self.instr.addr_mode.spec_dest_is_mem(),
            registers: after.registers,
            ..self
        })
    }

    /// What the reading of an operand byte leaves of the CPU: everything
    /// but the cycle count, IF, the operand and the program counter.
    pub open spec fn spec_operand_frame(self, after: CPU) -> bool {
        after == (CPU {
            ticks: after.ticks,
            int_flags: after.int_flags,
            fetched_data: after.fetched_data,
            registers: Registers { pc: after.registers.pc, ..self.registers },
            ..self
        })
    }

    /// The CPU holds a decoded instruction with its operands fetched.
    pub open spec fn spec_ready(self) -> bool {
        self.instr.wf() && self.dest_is_mem == self.instr.addr_mode.spec_dest_is_mem()
    }

    /// Whether the current instruction works on the CPU alone, without bus
    /// or clock.
    pub open spec fn spec_is_local(self) -> bool {
        match self.instr.instr_type {
            InstrType::IN_NOP | InstrType::IN_ADC | InstrType::IN_SUB | InstrType::IN_SBC
            | InstrType::IN_XOR | InstrType::IN_AND | InstrType::IN_OR | InstrType::IN_CP
            | InstrType::IN_DI | InstrType::IN_EI | InstrType::IN_HALT | InstrType::IN_RLCA
            | InstrType::IN_RLA | InstrType::IN_RRCA | InstrType::IN_RRA | InstrType::IN_CPL
            | InstrType::IN_CCF | InstrType::IN_SCF | InstrType::IN_DAA => true,
            _ => false,
        }
    }

    /// The CPU after an instruction that works on the CPU alone.
    pub open spec fn spec_execute_local(self) -> CPU {
        match self.instr.instr_type {
            InstrType::IN_ADC => self.spec_exec_adc(),
            InstrType::IN_SUB => self.spec_exec_sub(),
            InstrType::IN_SBC => self.spec_exec_sbc(),
            InstrType::IN_XOR => self.spec_exec_xor(),
            InstrType::IN_AND => self.spec_exec_and(),
            InstrType::IN_OR => self.spec_exec_or(),
            InstrType::IN_CP => self.spec_exec_cp(),
            InstrType::IN_DI => CPU { interrupt_master_enabled: false, ..self },
            InstrType::IN_EI => CPU { enabling_ime: true, ..self },
            InstrType::IN_HALT => CPU { halted: true, ..self },
            InstrType::IN_RLCA => self.spec_exec_rlca(),
            InstrType::IN_RLA => self.spec_exec_rla(),
            InstrType::IN_RRCA => self.spec_exec_rrca(),
            InstrType::IN_RRA => self.spec_exec_rra(),
            InstrType::IN_CPL => self.spec_exec_cpl(),
            InstrType::IN_CCF => self.spec_exec_ccf(),
            InstrType::IN_SCF => self.spec_exec_scf(),
            InstrType::IN_DAA => self.spec_exec_daa(),
            _ => self,
        }
    }

    /// The letter of a flag that is set, a dash for one that is clear.
    pub open spec fn spec_flag_letter(self, flag: u8, letter: Seq<char>) -> Seq<char> {
        if self.spec_get_flag(flag) {
            letter
        } else {
            "-"@
        }
    }

    /// The flags in words: `Flags: ` and the letters Z, N, H and C, each a
    /// dash where the flag is clear.
    pub open spec fn spec_flags_text(self) -> Seq<char> {
        "Flags: "@ + self.spec_flag_letter(Z_FLAG, "Z"@) + self.spec_flag_letter(N_FLAG, "N"@)
            + self.spec_flag_letter(H_FLAG, "H"@) + self.spec_flag_letter(C_FLAG, "C"@)
    }

    /// The registers in words, in hexadecimal.
    pub open spec fn spec_state_text(self) -> Seq<char> {
        let r = self.registers;
        "======= CPU state =======\nA : 0x"@ + spec_hex_u8(r.a) + "\tBC: 0x"@ + spec_hex_u8(r.b)
            + spec_hex_u8(r.c) + "\tDE: 0x"@ + spec_hex_u8(r.d) + spec_hex_u8(r.e)
            + "\nHL: 0x"@ + spec_hex_u8(r.h) + spec_hex_u8(r.l) + "\tPC: 0x"@ + spec_hex_u16(
            r.pc,
        ) + "\tSP: 0x"@ + spec_hex_u16(r.sp) + "\n"@ + self.spec_flags_text()
    }

    /// One more T-cycle counted.
    pub open spec fn spec_count_tick(self) -> CPU {
        CPU {
            ticks: if self.ticks == u64::MAX {
                0
            } else {
                (self.ticks + 1) as u64
            },
            ..self
        }
    }

    pub open spec fn spec_set_fetched(self, value: u16) -> CPU {
        CPU { fetched_data: value, ..self }
    }

    /// The CPU with a memory destination for the current instruction.
    pub open spec fn spec_set_mem_dest(self, address: u16) -> CPU {
        CPU { mem_dest: address, dest_is_mem: true, ..self }
    }

    /// The CPU without a memory destination.
    pub open spec fn spec_clear_dest(self) -> CPU {
        CPU { mem_dest: 0, dest_is_mem: false, ..self }
    }

    pub open spec fn spec_increment_pc(self) -> CPU {
        self.spec_set_register(RegType::RT_PC, spec_wrap16(self.registers.pc + 1))
    }

    /// The first register of the current instruction.
    pub open spec fn spec_reg1(self) -> u16 {
        self.spec_read_reg(self.instr.reg1)
    }

    /// The CPU after it has taken `opcode` as its next instruction: with a
    /// known opcode the descriptor is set and the program counter moves
    /// on, with an unknown one only the opcode is kept.
    pub open spec fn spec_begin_instruction(self, opcode: u8) -> CPU {
        match spec_decode(opcode) {
            Some(instr) => (CPU { opcode: opcode, instr: instr, ..self }).spec_increment_pc(),
            None => CPU { opcode: opcode, ..self },
        }
    }

    /// The second register of the current instruction.
    pub open spec fn spec_reg2(self) -> u16 {
        self.spec_read_reg(self.instr.reg2)
    }

    /// The address a register names: the value of a pair, or 0xFF00 plus
    /// the value of C.
    pub open spec fn spec_reg_address(self, reg: RegType) -> u16 {
        if reg == RegType::RT_C {
            spec_high_page(self.spec_read_reg(reg))
        } else {
            self.spec_read_reg(reg)
        }
    }

    /// The bit-3 and bit-7 carries of SP plus the operand, as `ADD SP,r8`
    /// and `LD HL,SP+r8` put them into H and C, with Z and N cleared.
    pub open spec fn spec_sp_offset_flags(self) -> CPU {
        let sp = self.registers.sp;
        let n = self.fetched_data;
        self.spec_set_flags(
            0,
            0,
            spec_b2i(sp % 16 + n % 16 >= 0x10),
            spec_b2i(sp % 0x100 + n % 0x100 >= 0x100),
        )
    }

    /// SP plus the low byte of the operand read as a signed number.
    pub open spec fn spec_sp_plus_offset(self) -> u16 {
        spec_wrap16(self.registers.sp + spec_signed(spec_lo(self.fetched_data)))
    }

    /// LD into a register: `LD HL,SP+r8` sets HL and the flags, every
    /// other load puts the operand into the first register.
    pub open spec fn spec_exec_ld_reg(self) -> CPU {
        if self.instr.addr_mode == AddrMode::AM_HL_SPR {
            self.spec_sp_offset_flags().spec_set_register(
                RegType::RT_HL,
                self.spec_sp_plus_offset(),
            )
        } else {
            self.spec_set_register(self.instr.reg1, self.fetched_data)
        }
    }

    /// Whether INC leaves the flags alone: the 16-bit increments, whose
    /// opcodes end in binary 11.
    pub open spec fn spec_inc_keeps_flags(self) -> bool {
        self.opcode % 4 == 3
    }

    /// Whether DEC leaves the flags alone: the 16-bit decrements, whose
    /// opcodes have bits 0, 1 and 3 set.
    pub open spec fn spec_dec_keeps_flags(self) -> bool {
        self.opcode % 4 == 3 && (self.opcode / 8) % 2 == 1
    }

    /// The flags of INC for the result `val`: Z on zero, N cleared, H on a
    /// carry out of bit 3, C kept.
    pub open spec fn spec_inc_flags(self, val: u16) -> CPU {
        if self.spec_inc_keeps_flags() {
            self
        } else {
            self.spec_set_flags(spec_b2i(val == 0), 0, spec_b2i(val % 16 == 0), KEEP)
        }
    }

    /// The flags of DEC for the result `val`: Z on zero, N set, H on a
    /// borrow from bit 4, C kept.
    pub open spec fn spec_dec_flags(self, val: u16) -> CPU {
        if self.spec_dec_keeps_flags() {
            self
        } else {
            self.spec_set_flags(spec_b2i(val == 0), 1, spec_b2i(val % 16 == 0x0F), KEEP)
        }
    }

    /// INC of a register: the register takes the operand plus one.
    pub open spec fn spec_exec_inc_reg(self) -> CPU {
        let m = self.spec_set_register(self.instr.reg1, spec_wrap16(self.fetched_data + 1));
        m.spec_inc_flags(m.spec_read_reg(self.instr.reg1))
    }

    /// DEC of a register: the register takes the operand less one.
    pub open spec fn spec_exec_dec_reg(self) -> CPU {
        let m = self.spec_set_register(self.instr.reg1, spec_wrap16(self.fetched_data - 1));
        m.spec_dec_flags(m.spec_read_reg(self.instr.reg1))
    }

    /// ADD. To a register pair: the 16-bit sum, Z kept, H on a carry out of
    /// bit 11, C on a carry out of bit 15. To SP: SP plus the signed
    /// operand, Z cleared, H and C from the low byte. To an 8-bit
    /// register: the sum, Z on a zero low byte, H on a carry out of bit 3,
    /// C on a carry out of bit 7. N is cleared.
    pub open spec fn spec_exec_add(self) -> CPU {
        let reg = self.instr.reg1;
        let a = self.spec_read_reg(reg);
        let n = self.fetched_data;
        if reg == RegType::RT_SP {
            self.spec_set_register(reg, self.spec_sp_plus_offset()).spec_set_flags(
                0,
                0,
                spec_b2i(a % 16 + n % 16 >= 0x10),
                spec_b2i(a % 0x100 + n % 0x100 >= 0x100),
            )
        } else if reg.spec_is_16_bit() {
            self.spec_set_register(reg, spec_wrap16(a + n)).spec_set_flags(
                KEEP,
                0,
                spec_b2i(a % 0x1000 + n % 0x1000 >= 0x1000),
                spec_b2i(a + n >= 0x10000),
            )
        } else {
            self.spec_set_register(reg, spec_wrap16(a + n)).spec_set_flags(
                spec_b2i((a + n) % 0x100 == 0),
                0,
                spec_b2i(a % 16 + n % 16 >= 0x10),
                spec_b2i(a % 0x100 + n % 0x100 >= 0x100),
            )
        }
    }

    /// XOR: the register with the operand, Z from the result, N, H and C
    /// cleared.
    pub open spec fn spec_exec_xor(self) -> CPU {
        let val = self.spec_reg1() ^ self.fetched_data;
        self.spec_set_register(self.instr.reg1, val).spec_set_flags(spec_b2i(val == 0), 0, 0, 0)
    }

    /// AND: Z from the result, H set, N and C cleared.
    pub open spec fn spec_exec_and(self) -> CPU {
        let val = self.spec_reg1() & self.fetched_data;
        self.spec_set_register(self.instr.reg1, val).spec_set_flags(spec_b2i(val == 0), 0, 1, 0)
    }

    /// OR: Z from the result, N, H and C cleared.
    pub open spec fn spec_exec_or(self) -> CPU {
        let val = self.spec_reg1() | self.fetched_data;
        self.spec_set_register(self.instr.reg1, val).spec_set_flags(spec_b2i(val == 0), 0, 0, 0)
    }

    /// CP: the flags of a subtraction, the register unchanged.
    pub open spec fn spec_exec_cp(self) -> CPU {
        let op1 = self.spec_reg1();
        let n = self.fetched_data;
        self.spec_set_flags(spec_b2i(op1 == n), 1, spec_b2i(op1 % 16 < n % 16), spec_b2i(op1 < n))
    }

    /// SUB: the register less the operand; Z on equality, N set, H on a
    /// borrow from bit 4, C on a borrow.
    pub open spec fn spec_exec_sub(self) -> CPU {
        let op1 = self.spec_reg1();
        let n = self.fetched_data;
        self.spec_set_register(self.instr.reg1, spec_wrap16(op1 - n)).spec_set_flags(
            spec_b2i(op1 == n),
            1,
            spec_b2i(op1 % 16 < n % 16),
            spec_b2i(op1 < n),
        )
    }

    /// SBC: the register less the operand and the carry.
    pub open spec fn spec_exec_sbc(self) -> CPU {
        let c: int = if self.spec_get_flag(C_FLAG) {
            1
        } else {
            0
        };
        let op1 = self.spec_reg1();
        let n = self.fetched_data;
        let res = spec_wrap16(op1 - n - c);
        self.spec_set_register(self.instr.reg1, res).spec_set_flags(
            spec_b2i(spec_lo(res) == 0),
            1,
            spec_b2i(op1 % 16 - n % 16 - c < 0),
            spec_b2i(op1 - n - c < 0),
        )
    }

    /// ADC: the low byte of register plus operand plus carry; H on a carry
    /// out of bit 3, C on a carry out of bit 7.
    pub open spec fn spec_exec_adc(self) -> CPU {
        let c: int = if self.spec_get_flag(C_FLAG) {
            1
        } else {
            0
        };
        let op1 = self.fetched_data;
        let op2 = self.spec_reg1();
        let val = ((op1 + op2 + c) % 0x100) as u16;
        self.spec_set_register(self.instr.reg1, val).spec_set_flags(
            spec_b2i(val == 0),
            0,
            spec_b2i(op1 % 16 + op2 % 16 + c > 0xF),
            spec_b2i(op1 + op2 + c > 0xFF),
        )
    }

    /// CPL: the accumulator complemented, N and H set.
    pub open spec fn spec_exec_cpl(self) -> CPU {
        self.spec_set_register(RegType::RT_A, (0xFF - self.registers.a) as u16).spec_set_flags(
            KEEP,
            1,
            1,
            KEEP,
        )
    }

    /// CCF: the carry complemented, N and H cleared.
    pub open spec fn spec_exec_ccf(self) -> CPU {
        self.spec_set_flags(KEEP, 0, 0, spec_b2i(!self.spec_get_flag(C_FLAG)))
    }

    /// SCF: the carry set, N and H cleared.
    pub open spec fn spec_exec_scf(self) -> CPU {
        self.spec_set_flags(KEEP, 0, 0, 1)
    }

    /// DAA: the accumulator mended to two decimal digits.
    pub open spec fn spec_exec_daa(self) -> CPU {
        let n = self.spec_get_flag(N_FLAG);
        let a = self.registers.a;
        let adjust = spec_daa_adjust(a, n, self.spec_get_flag(H_FLAG), self.spec_get_flag(C_FLAG));
        let new_val = if n {
            spec_wrap8(a - adjust)
        } else {
            spec_wrap8(a + adjust)
        };
        self.spec_set_register(RegType::RT_A, new_val as u16).spec_set_flags(
            spec_b2i(new_val == 0),
            KEEP,
            0,
            spec_b2i(adjust >= 0x60),
        )
    }

    /// RLCA: the accumulator rotated left, bit 7 into bit 0 and the carry.
    pub open spec fn spec_exec_rlca(self) -> CPU {
        let a = self.registers.a;
        self.spec_set_register(RegType::RT_A, ((a * 2) % 0x100 + a / 0x80) as u16).spec_set_flags(
            0,
            0,
            0,
            spec_b2i(a >= 0x80),
        )
    }

    /// RRCA: the accumulator rotated right, bit 0 into bit 7 and the carry.
    pub open spec fn spec_exec_rrca(self) -> CPU {
        let a = self.registers.a;
        self.spec_set_register(RegType::RT_A, (a / 2 + (a % 2) * 0x80) as u16).spec_set_flags(
            0,
            0,
            0,
            spec_b2i(a % 2 == 1),
        )
    }

    /// RLA: the accumulator rotated left through the carry.
    pub open spec fn spec_exec_rla(self) -> CPU {
        let a = self.registers.a;
        let c: int = if self.spec_get_flag(C_FLAG) {
            1
        } else {
            0
        };
        self.spec_set_register(RegType::RT_A, ((a * 2) % 0x100 + c) as u16).spec_set_flags(
            0,
            0,
            0,
            spec_b2i(a >= 0x80),
        )
    }

    /// RRA: the accumulator rotated right through the carry.
    pub open spec fn spec_exec_rra(self) -> CPU {
        let a = self.registers.a;
        let c: int = if self.spec_get_flag(C_FLAG) {
            1
        } else {
            0
        };
        self.spec_set_register(RegType::RT_A, (a / 2 + c * 0x80) as u16).spec_set_flags(
            0,
            0,
            0,
            spec_b2i(a % 2 == 1),
        )
    }

    /// The CPU as the boot program leaves it: A=0x01, F=0xB0, BC=0x0013,
    /// DE=0x00D8, HL=0x014D, PC=0x0100, SP=0xFFFE.
    pub fn cpu_init(trace: bool) -> (cpu: CPU)
        ensures
            cpu == CPU::spec_new(trace),
            cpu.wf(),
    {
        CPU {
            ticks: 0,
            trace: trace,
            halted: false,
            stepping: false,
            interrupt_master_enabled: false,
            enabling_ime: false,
            int_flags: 0,
            opcode: 0,
            fetched_data: 0,
            mem_dest: 0,
            dest_is_mem: false,
            instr: Instruction {
                param: 0,
                instr_type: InstrType::IN_NOP,
                addr_mode: AddrMode::AM_IMP,
                reg1: RegType::RT_NONE,
                reg2: RegType::RT_NONE,
                cond_type: CondType::CT_NONE,
            },
            ie_register: 0,
            registers: Registers {
                a: 0x01,
                f: 0xB0,
                b: 0x00,
                c: 0x13,
                d: 0x00,
                e: 0xD8,
                h: 0x01,
                l: 0x4D,
                pc: 0x100,
                sp: 0xFFFE,
            },
        }
    }

    fn flag_letter(&self, flag: u8, letter: &'static str) -> (r: &'static str)
        ensures
            r@ == self.spec_flag_letter(flag, letter@),
    {
        if self.get_flag(flag) {
            letter
        } else {
            "-"
        }
    }

    /// Writes all the flags of register F out.
    pub fn print_flags(&self) -> (r: String)
        ensures
            r@ == self.spec_flags_text(),
    {
        let mut r: String = "Flags: ".to_owned();
        r.append(self.flag_letter(Z_FLAG, "Z"));
        r.append(self.flag_letter(N_FLAG, "N"));
        r.append(self.flag_letter(H_FLAG, "H"));
        r.append(self.flag_letter(C_FLAG, "C"));
        r
    }

    /// Writes the CPU state out: the registers, then the flags.
    pub fn print_state(&self) -> (r: String)
        ensures
            r@ == self.spec_state_text(),
    {
        let mut r: String = "======= CPU state =======\nA : 0x".to_owned();
        r.append(hex_u8(self.registers.a).as_str());
        r.append("\tBC: 0x");
        r.append(hex_u8(self.registers.b).as_str());
        r.append(hex_u8(self.registers.c).as_str());
        r.append("\tDE: 0x");
        r.append(hex_u8(self.registers.d).as_str());
        r.append(hex_u8(self.registers.e).as_str());
        r.append("\nHL: 0x");
        r.append(hex_u8(self.registers.h).as_str());
        r.append(hex_u8(self.registers.l).as_str());
        r.append("\tPC: 0x");
        r.append(hex_u16(self.registers.pc).as_str());
        r.append("\tSP: 0x");
        r.append(hex_u16(self.registers.sp).as_str());
        r.append("\n");
        r.append(self.print_flags().as_str());
        r
    }

    /// Counts one T-cycle.
    pub fn count_tick(&mut self)
        ensures
            *final(self) == old(self).spec_count_tick(),
            old(self).wf() ==> final(self).wf(),
            old(self).spec_clock_frame(*final(self)),
    {
        self.ticks = if self.ticks == u64::MAX {
            0
        } else {
            self.ticks + 1
        };
    }

    /// Sets the operand of the current instruction.
    pub fn set_fetched(&mut self, value: u16)
        ensures
            *final(self) == old(self).spec_set_fetched(value),
            old(self).wf() ==> final(self).wf(),
    {
        self.fetched_data = value;
    }

    /// Gives the current instruction a memory destination.
    pub fn set_mem_dest(&mut self, address: u16)
        ensures
            *final(self) == old(self).spec_set_mem_dest(address),
            old(self).wf() ==> final(self).wf(),
    {
        self.mem_dest = address;
        self.dest_is_mem = true;
    }

    /// Takes the memory destination away.
    pub fn clear_dest(&mut self)
        ensures
            *final(self) == old(self).spec_clear_dest(),
            old(self).wf() ==> final(self).wf(),
    {
        self.mem_dest = 0;
        self.dest_is_mem = false;
    }

    /// Executes an instruction that works on the CPU alone.
    pub fn execute_local(&mut self)
        requires
            old(self).spec_is_local(),
            old(self).instr.wf(),
        ensures
            *final(self) == old(self).spec_execute_local(),
            old(self).wf() ==> final(self).wf(),
    {
        match self.instr.instr_type {
            InstrType::IN_ADC => {
                self.exec_adc();
            },
            InstrType::IN_SUB => {
                self.exec_sub();
            },
            InstrType::IN_SBC => {
                self.exec_sbc();
            },
            InstrType::IN_XOR => {
                self.exec_xor();
            },
            InstrType::IN_AND => {
                self.exec_and();
            },
            InstrType::IN_OR => {
                self.exec_or();
            },
            InstrType::IN_CP => {
                self.exec_cp();
            },
            InstrType::IN_DI => {
                self.exec_di();
            },
            InstrType::IN_EI => {
                self.exec_ei();
            },
            InstrType::IN_HALT => {
                self.exec_halt();
            },
            InstrType::IN_RLCA => {
                self.exec_rlca();
            },
            InstrType::IN_RLA => {
                self.exec_rla();
            },
            InstrType::IN_RRCA => {
                self.exec_rrca();
            },
            InstrType::IN_RRA => {
                self.exec_rra();
            },
            InstrType::IN_CPL => {
                self.exec_cpl();
            },
            InstrType::IN_CCF => {
                self.exec_ccf();
            },
            InstrType::IN_SCF => {
                self.exec_scf();
            },
            InstrType::IN_DAA => {
                self.exec_daa();
            },
            _ => {
                self.exec_none();
            },
        }
    }

    pub fn exec_none(&mut self)
        ensures
            *final(self) == *old(self),
    {
    }

    /// Executes the DI instruction. Disables interrupts.
    pub fn exec_di(&mut self)
        ensures
            *final(self) == (CPU { interrupt_master_enabled: false, ..*old(self) }),
    {
        self.interrupt_master_enabled = false;
    }

    /// Executes the EI instruction: IME is due after this instruction.
    pub fn exec_ei(&mut self)
        ensures
            *final(self) == (CPU { enabling_ime: true, ..*old(self) }),
    {
        self.enabling_ime = true;
    }

    /// Executes the HALT instruction.
    pub fn exec_halt(&mut self)
        ensures
            *final(self) == (CPU { halted: true, ..*old(self) }),
    {
        self.halted = true;
    }

    /// Takes `opcode` as the next instruction. Returns false where the
    /// opcode names no instruction.
    pub fn begin_instruction(&mut self, opcode: u8) -> (known: bool)
        ensures
            *final(self) == old(self).spec_begin_instruction(opcode),
            known == (spec_decode(opcode) is Some),
            known ==> final(self).instr.wf(),
            old(self).wf() ==> final(self).wf(),
    {
        self.opcode = opcode;
        match Instruction::get_instruction(opcode) {
            Some(instr) => {
                self.instr = instr;
                self.increment_pc();
                true
            },
            None => false,
        }
    }

    /// The address a register names.
    pub fn reg_address(&self, reg: &RegType) -> (r: u16)
        requires
            reg.spec_valid(),
        ensures
            r == self.spec_reg_address(*reg),
    {
        let value: u16 = self.read_reg(reg);
        match reg {
            RegType::RT_C => high_page(value),
            _ => value,
        }
    }

    /// Sets H and C from SP plus the operand, and clears Z and N.
    pub fn sp_offset_flags(&mut self)
        ensures
            *final(self) == old(self).spec_sp_offset_flags(),
            old(self).wf() ==> final(self).wf(),
    {
        let sp: u16 = self.registers.sp;
        let n: u16 = self.fetched_data;
        let h_flag: bool = sp % 16 + n % 16 >= 0x10;
        let c_flag: bool = sp % 0x100 + n % 0x100 >= 0x100;
        self.set_flags(0, 0, b2i(h_flag), b2i(c_flag));
    }

    /// SP plus the low byte of the operand read as a signed number.
    pub fn sp_plus_offset(&self) -> (r: u16)
        ensures
            r == self.spec_sp_plus_offset(),
    {
        add_signed16(self.registers.sp, lo(self.fetched_data))
    }

    /// Executes an LD whose destination is a register.
    pub fn exec_ld_reg(&mut self)
        requires
            old(self).instr.addr_mode != AddrMode::AM_HL_SPR ==> old(self).instr.reg1.spec_valid(),
        ensures
            *final(self) == old(self).spec_exec_ld_reg(),
            old(self).wf() ==> final(self).wf(),
    {
        if self.instr.addr_mode == AddrMode::AM_HL_SPR {
            let res: u16 = self.sp_plus_offset();
            self.sp_offset_flags();
            self.set_register(&RegType::RT_HL, res);
        } else {
            let reg: RegType = self.instr.reg1;
            let value: u16 = self.fetched_data;
            self.set_register(&reg, value);
        }
    }

    /// Sets the flags of INC for the result `val`.
    pub fn inc_flags(&mut self, val: u16)
        ensures
            *final(self) == old(self).spec_inc_flags(val),
            old(self).wf() ==> final(self).wf(),
    {
        if self.opcode % 4 == 3 {
            return ;
        }
        self.set_flags(b2i(val == 0), 0, b2i(val % 16 == 0), KEEP);
    }

    /// Sets the flags of DEC for the result `val`.
    pub fn dec_flags(&mut self, val: u16)
        ensures
            *final(self) == old(self).spec_dec_flags(val),
            old(self).wf() ==> final(self).wf(),
    {
        if self.opcode % 4 == 3 && (self.opcode / 8) % 2 == 1 {
            return ;
        }
        self.set_flags(b2i(val == 0), 1, b2i(val % 16 == 0x0F), KEEP);
    }

    /// Executes an INC of a register.
    pub fn exec_inc_reg(&mut self)
        requires
            old(self).instr.reg1.spec_valid(),
        ensures
            *final(self) == old(self).spec_exec_inc_reg(),
            old(self).wf() ==> final(self).wf(),
    {
        let reg: RegType = self.instr.reg1;
        let val: u16 = add16(self.fetched_data, 1);
        self.set_register(&reg, val);
        let stored: u16 = self.read_reg(&reg);
        self.inc_flags(stored);
    }

    /// Executes a DEC of a register.
    pub fn exec_dec_reg(&mut self)
        requires
            old(self).instr.reg1.spec_valid(),
        ensures
            *final(self) == old(self).spec_exec_dec_reg(),
            old(self).wf() ==> final(self).wf(),
    {
        let reg: RegType = self.instr.reg1;
        let val: u16 = sub16(self.fetched_data, 1);
        self.set_register(&reg, val);
        let stored: u16 = self.read_reg(&reg);
        self.dec_flags(stored);
    }

    /// Executes the arithmetic of the ADD instruction.
    pub fn exec_add_reg(&mut self)
        requires
            old(self).instr.reg1.spec_valid(),
        ensures
            *final(self) == old(self).spec_exec_add(),
            old(self).wf() ==> final(self).wf(),
    {
        let reg: RegType = self.instr.reg1;
        let a: u16 = self.read_reg(&reg);
        let n: u16 = self.fetched_data;
        let low_h: bool = a % 16 + n % 16 >= 0x10;
        let low_c: bool = a % 0x100 + n % 0x100 >= 0x100;
        if reg == RegType::RT_SP {
            let res: u16 = self.sp_plus_offset();
            self.set_register(&reg, res);
            self.set_flags(0, 0, b2i(low_h), b2i(low_c));
        } else if reg.is_16_bit() {
            let h_flag: bool = a % 0x1000 + n % 0x1000 >= 0x1000;
            let c_flag: bool = a as u32 + n as u32 >= 0x10000;
            self.set_register(&reg, add16(a, n));
            self.set_flags(KEEP, 0, b2i(h_flag), b2i(c_flag));
        } else {
            let z_flag: bool = (a as u32 + n as u32) % 0x100 == 0;
            self.set_register(&reg, add16(a, n));
            self.set_flags(b2i(z_flag), 0, b2i(low_h), b2i(low_c));
        }
    }

    /// Executes the XOR instruction.
    pub fn exec_xor(&mut self)
        requires
            old(self).instr.reg1.spec_valid(),
        ensures
            *final(self) == old(self).spec_exec_xor(),
            old(self).wf() ==> final(self).wf(),
    {
        let reg: RegType = self.instr.reg1;
        let val: u16 = self.read_reg(&reg) ^ self.fetched_data;
        self.set_register(&reg, val);
        self.set_flags(b2i(val == 0), 0, 0, 0);
    }

    /// Executes the AND instruction.
    pub fn exec_and(&mut self)
        requires
            old(self).instr.reg1.spec_valid(),
        ensures
            *final(self) == old(self).spec_exec_and(),
            old(self).wf() ==> final(self).wf(),
    {
        let reg: RegType = self.instr.reg1;
        let val: u16 = self.read_reg(&reg) & self.fetched_data;
        self.set_register(&reg, val);
        self.set_flags(b2i(val == 0), 0, 1, 0);
    }

    /// Executes the OR instruction.
    pub fn exec_or(&mut self)
        requires
            old(self).instr.reg1.spec_valid(),
        ensures
            *final(self) == old(self).spec_exec_or(),
            old(self).wf() ==> final(self).wf(),
    {
        let reg: RegType = self.instr.reg1;
        let val: u16 = self.read_reg(&reg) | self.fetched_data;
        self.set_register(&reg, val);
        self.set_flags(b2i(val == 0), 0, 0, 0);
    }

    /// Executes the CP instruction.
    pub fn exec_cp(&mut self)
        requires
            old(self).instr.reg1.spec_valid(),
        ensures
            *final(self) == old(self).spec_exec_cp(),
            old(self).wf() ==> final(self).wf(),
    {
        let reg: RegType = self.instr.reg1;
        let op1: u16 = self.read_reg(&reg);
        let n: u16 = self.fetched_data;
        self.set_flags(b2i(op1 == n), 1, b2i(op1 % 16 < n % 16), b2i(op1 < n));
    }

    /// Executes the ADC instruction, i.e., add with carry.
    pub fn exec_adc(&mut self)
        requires
            old(self).instr.reg1.spec_valid(),
        ensures
            *final(self) == old(self).spec_exec_adc(),
            old(self).wf() ==> final(self).wf(),
    {
        let reg: RegType = self.instr.reg1;
        let op1: u32 = self.fetched_data as u32;
        let op2: u32 = self.read_reg(&reg) as u32;
        let c_flag: u32 = if self.get_flag(C_FLAG) {
            1
        } else {
            0
        };
        let val: u16 = ((op1 + op2 + c_flag) % 0x100) as u16;
        self.set_register(&reg, val);
        let h_flag: bool = op1 % 16 + op2 % 16 + c_flag > 0xF;
        let c_out: bool = op1 + op2 + c_flag > 0xFF;
        self.set_flags(b2i(val == 0), 0, b2i(h_flag), b2i(c_out));
    }

    /// Executes the SUB instruction.
    pub fn exec_sub(&mut self)
        requires
            old(self).instr.reg1.spec_valid(),
        ensures
            *final(self) == old(self).spec_exec_sub(),
            old(self).wf() ==> final(self).wf(),
    {
        let reg: RegType = self.instr.reg1;
        let op1: u16 = self.read_reg(&reg);
        let n: u16 = self.fetched_data;
        let val: u16 = sub16(op1, n);
        self.set_register(&reg, val);
        self.set_flags(b2i(op1 == n), 1, b2i(op1 % 16 < n % 16), b2i(op1 < n));
    }

    /// Executes the SBC instruction: subtract with carry.
    pub fn exec_sbc(&mut self)
        requires
            old(self).instr.reg1.spec_valid(),
        ensures
            *final(self) == old(self).spec_exec_sbc(),
            old(self).wf() ==> final(self).wf(),
    {
        let reg: RegType = self.instr.reg1;
        let c_val: u16 = if self.get_flag(C_FLAG) {
            1
        } else {
            0
        };
        let op1: u16 = self.read_reg(&reg);
        let n: u16 = self.fetched_data;
        let res: u16 = sub_with_borrow(op1, n, c_val);
        let h_flag: bool = op1 % 16 < n % 16 + c_val;
        let c_flag: bool = (op1 as u32) < (n as u32) + (c_val as u32);
        let z_flag: i8 = b2i(lo(res) == 0);
        self.set_register(&reg, res);
        self.set_flags(z_flag, 1, b2i(h_flag), b2i(c_flag));
    }

    /// Executes the CPL instruction: complements the accumulator.
    pub fn exec_cpl(&mut self)
        ensures
            *final(self) == old(self).spec_exec_cpl(),
            old(self).wf() ==> final(self).wf(),
    {
        let val: u8 = self.registers.a;
        self.set_register(&RegType::RT_A, (0xFF - val) as u16);
        self.set_flags(KEEP, 1, 1, KEEP);
    }

    /// Executes the CCF instruction: complements the carry flag.
    pub fn exec_ccf(&mut self)
        ensures
            *final(self) == old(self).spec_exec_ccf(),
            old(self).wf() ==> final(self).wf(),
    {
        let c_flag: bool = self.get_flag(C_FLAG);
        self.set_flags(KEEP, 0, 0, b2i(!c_flag));
    }

    /// Executes the SCF instruction: sets the carry flag.
    pub fn exec_scf(&mut self)
        ensures
            *final(self) == old(self).spec_exec_scf(),
            old(self).wf() ==> final(self).wf(),
    {
        self.set_flags(KEEP, 0, 0, 1);
    }

    /// Executes the DAA instruction: adjusts the accumulator to hold a
    /// binary coded decimal.
    pub fn exec_daa(&mut self)
        ensures
            *final(self) == old(self).spec_exec_daa(),
            old(self).wf() ==> final(self).wf(),
    {
        let c_flag: bool = self.get_flag(C_FLAG);
        let h_flag: bool = self.get_flag(H_FLAG);
        let n_flag: bool = self.get_flag(N_FLAG);
        let a_val: u8 = self.registers.a;
        let mut adjust: u8 = if c_flag {
            0x60
        } else {
            0
        };
        if h_flag {
            adjust = adjust + 0x06;
        }
        let new_val: u8;
        if !n_flag {
            if a_val % 16 > 0x09 && !h_flag {
                adjust = adjust + 0x06;
            }
            if a_val > 0x99 && !c_flag {
                adjust = adjust + 0x60;
            }
            new_val = add8(a_val, adjust);
        } else {
            new_val = sub8(a_val, adjust);
        }
        self.set_register(&RegType::RT_A, new_val as u16);
        self.set_flags(b2i(new_val == 0), KEEP, 0, b2i(adjust >= 0x60));
    }

    /// Executes the RLCA instruction: rotates the accumulator left.
    pub fn exec_rlca(&mut self)
        ensures
            *final(self) == old(self).spec_exec_rlca(),
            old(self).wf() ==> final(self).wf(),
    {
        let val: u8 = self.registers.a;
        let c_flag: u8 = val / 0x80;
        assert((val % 0x80) * 2 == (val * 2) % 0x100);
        let rotated: u8 = (val % 0x80) * 2 + c_flag;
        self.set_register(&RegType::RT_A, rotated as u16);
        self.set_flags(0, 0, 0, b2i(c_flag == 1));
    }

    /// Executes the RRCA instruction: rotates the accumulator right.
    pub fn exec_rrca(&mut self)
        ensures
            *final(self) == old(self).spec_exec_rrca(),
            old(self).wf() ==> final(self).wf(),
    {
        let val: u8 = self.registers.a;
        let c_flag: u8 = val % 2;
        let rotated: u8 = val / 2 + c_flag * 0x80;
        self.set_register(&RegType::RT_A, rotated as u16);
        self.set_flags(0, 0, 0, b2i(c_flag == 1));
    }

    /// Executes the RLA instruction: rotates the accumulator left through
    /// the carry flag.
    pub fn exec_rla(&mut self)
        ensures
            *final(self) == old(self).spec_exec_rla(),
            old(self).wf() ==> final(self).wf(),
    {
        let val: u8 = self.registers.a;
        let new_c_flag: bool = val >= 0x80;
        let c_flag: u8 = if self.get_flag(C_FLAG) {
            1
        } else {
            0
        };
        assert((val % 0x80) * 2 == (val * 2) % 0x100);
        let rotated: u8 = (val % 0x80) * 2 + c_flag;
        self.set_register(&RegType::RT_A, rotated as u16);
        self.set_flags(0, 0, 0, b2i(new_c_flag));
    }

    /// Executes the RRA instruction: rotates the accumulator right through
    /// the carry flag.
    pub fn exec_rra(&mut self)
        ensures
            *final(self) == old(self).spec_exec_rra(),
            old(self).wf() ==> final(self).wf(),
    {
        let c_flag: u8 = if self.get_flag(C_FLAG) {
            1
        } else {
            0
        };
        let val: u8 = self.registers.a;
        let new_c_flag: bool = val % 2 == 1;
        let rotated: u8 = val / 2 + c_flag * 0x80;
        self.set_register(&RegType::RT_A, rotated as u16);
        self.set_flags(0, 0, 0, b2i(new_c_flag));
    }

    /// Increments the program counter.
    pub fn increment_pc(&mut self)
        ensures
            *final(self) == old(self).spec_increment_pc(),
    {
        self.registers.pc = if self.registers.pc == 0xFFFF {
            0
        } else {
            self.registers.pc + 1
        };
    }

    /// Reads a register or a register pair.
    pub fn read_reg(&self, reg: &RegType) -> (r: u16)
        requires
            reg.spec_valid(),
        ensures
            r == self.spec_read_reg(*reg),
    {
        match reg {
            RegType::RT_A => self.registers.a as u16,
            RegType::RT_B => self.registers.b as u16,
            RegType::RT_C => self.registers.c as u16,
            RegType::RT_D => self.registers.d as u16,
            RegType::RT_E => self.registers.e as u16,
            RegType::RT_H => self.registers.h as u16,
            RegType::RT_L => self.registers.l as u16,
            RegType::RT_SP => self.registers.sp,
            RegType::RT_PC => self.registers.pc,
            RegType::RT_AF => word(self.registers.a, self.registers.f),
            RegType::RT_BC => word(self.registers.b, self.registers.c),
            RegType::RT_DE => word(self.registers.d, self.registers.e),
            RegType::RT_HL => word(self.registers.h, self.registers.l),
            _ => 0,
        }
    }

    /// Sets a register or a register pair.
    pub fn set_register(&mut self, reg: &RegType, value: u16)
        requires
            reg.spec_valid(),
        ensures
            *final(self) == old(self).spec_set_register(*reg, value),
            old(self).wf() ==> final(self).wf(),
    {
        match reg {
            RegType::RT_A => {
                self.registers.a = lo(value);
            },
            RegType::RT_B => {
                self.registers.b = lo(value);
            },
            RegType::RT_C => {
                self.registers.c = lo(value);
            },
            RegType::RT_D => {
                self.registers.d = lo(value);
            },
            RegType::RT_E => {
                self.registers.e = lo(value);
            },
            RegType::RT_H => {
                self.registers.h = lo(value);
            },
            RegType::RT_L => {
                self.registers.l = lo(value);
            },
            RegType::RT_SP => {
                self.registers.sp = value;
            },
            RegType::RT_PC => {
                self.registers.pc = value;
            },
            RegType::RT_AF => {
                self.registers.a = hi(value);
                self.registers.f = lo(value) - lo(value) % 16;
            },
            RegType::RT_BC => {
                self.registers.b = hi(value);
                self.registers.c = lo(value);
            },
            RegType::RT_DE => {
                self.registers.d = hi(value);
                self.registers.e = lo(value);
            },
            RegType::RT_HL => {
                self.registers.h = hi(value);
                self.registers.l = lo(value);
            },
            _ => {},
        }
    }

    /// Returns the interrupt enable register.
    pub fn get_ie_register(&self) -> (r: u8)
        ensures
            r == self.ie_register,
    {
        self.ie_register
    }

    /// Sets the interrupt enable register.
    pub fn set_ie_register(&mut self, value: u8)
        ensures
            *final(self) == (CPU { ie_register: value, ..*old(self) }),
    {
        self.ie_register = value;
    }

    /// Returns the interrupt flags register.
    pub fn get_int_flags(&self) -> (r: u8)
        ensures
            r == self.int_flags,
    {
        self.int_flags
    }

    /// Sets the interrupt flags register.
    pub fn set_int_flags(&mut self, value: u8)
        ensures
            *final(self) == (CPU { int_flags: value, ..*old(self) }),
    {
        self.int_flags = value;
    }

    /// Returns the value of a flag, given its mask.
    pub fn get_flag(&self, flag: u8) -> (r: bool)
        ensures
            r == self.spec_get_flag(flag),
    {
        if flag == Z_FLAG {
            self.registers.f >= 0x80
        } else if flag == N_FLAG {
            (self.registers.f / 0x40) % 2 == 1
        } else if flag == H_FLAG {
            (self.registers.f / 0x20) % 2 == 1
        } else if flag == C_FLAG {
            (self.registers.f / 0x10) % 2 == 1
        } else {
            (self.registers.f & flag) != 0
        }
    }

    /// Sets or clears a flag, given its mask.
    pub fn set_flag(&mut self, flag: u8, value: bool)
        ensures
            *final(self) == old(self).spec_set_flag(flag, value),
            spec_is_flag(flag) ==> final(self).spec_get_flag(flag) == value,
            old(self).wf() ==> final(self).wf(),
    {
        if flag == Z_FLAG || flag == N_FLAG || flag == H_FLAG || flag == C_FLAG {
            let current: bool = self.get_flag(flag);
            proof {
                lemma_flag_arith(self.registers.f, flag);
            }
            if value && !current {
                self.registers.f = self.registers.f + flag;
            } else if !value && current {
                self.registers.f = self.registers.f - flag;
            }
        } else {
            proof {
                if self.registers.f % 16 == 0 {
                    lemma_mask_keeps_nibble(self.registers.f, flag);
                }
            }
            if value {
                self.registers.f = (self.registers.f | flag) & 0xF0;
            } else {
                self.registers.f = self.registers.f & !flag;
            }
        }
    }

    /// Sets all four flags: a positive argument sets its flag, zero clears
    /// it, a negative argument leaves it.
    pub fn set_flags(&mut self, z: i8, n: i8, h: i8, c: i8)
        ensures
            *final(self) == old(self).spec_set_flags(z, n, h, c),
            old(self).wf() ==> final(self).wf(),
    {
        if z >= 0 {
            self.set_flag(Z_FLAG, z > 0);
        }
        if n >= 0 {
            self.set_flag(N_FLAG, n > 0);
        }
        if h >= 0 {
            self.set_flag(H_FLAG, h > 0);
        }
        if c >= 0 {
            self.set_flag(C_FLAG, c > 0);
        }
    }

    /// Checks whether the condition of the current instruction holds.
    pub fn check_cond(&self) -> (r: bool)
        ensures
            r == self.spec_check_cond(),
    {
        let z_flag: bool = self.get_flag(Z_FLAG);
        let c_flag: bool = self.get_flag(C_FLAG);
        match self.instr.cond_type {
            CondType::CT_NONE => true,
            CondType::CT_NZ => !z_flag,
            CondType::CT_Z => z_flag,
            CondType::CT_NC => !c_flag,
            CondType::CT_C => c_flag,
        }
    }
}

} // verus!

use vstd::prelude::*;
use crate::emulator::address_bus::bus_read;
use crate::emulator::address_bus::bus_write;
use crate::emulator::address_bus::bus_write_16;
use crate::emulator::bits::add16;
use crate::emulator::bits::add_signed16;
use crate::emulator::bits::bit;
use crate::emulator::bits::bit_mask;
use crate::emulator::bits::hi;
use crate::emulator::bits::lemma_bit_weight;
use crate::emulator::bits::lemma_low_nibble;
use crate::emulator::bits::lo;
use crate::emulator::bits::spec_bit;
use crate::emulator::bits::spec_bit_mask;
use crate::emulator::bits::spec_hi;
use crate::emulator::bits::spec_lo;
use crate::emulator::bits::spec_signed;
use crate::emulator::bits::spec_word;
use crate::emulator::bits::spec_wrap16;
use crate::emulator::bits::sub16;
use crate::emulator::bits::word;
use crate::emulator::cpu::b2i;
use crate::emulator::cpu::high_page;
use crate::emulator::cpu::instruction::spec_decode;
use crate::emulator::cpu::instruction::spec_reg8;
use crate::emulator::cpu::instruction::CondType;
use crate::emulator::cpu::instruction::InstrType;
use crate::emulator::cpu::instruction::RegType;
use crate::emulator::cpu::interrupts::handle_interrupts;
use crate::emulator::cpu::interrupts::InterruptType;
use crate::emulator::frame::lemma_frame_cycles;
use crate::emulator::cpu::spec_b2i;
use crate::emulator::cpu::spec_high_page;
use crate::emulator::cpu::CPU;
use crate::emulator::cpu::C_FLAG;
use crate::emulator::cpu::KEEP;
use crate::emulator::dbg::dbg_update;
use crate::emulator::Emulator;
use crate::emulator::Machine;

verus! {

/// Why the CPU cannot go on.
#[derive(Debug, PartialEq, Eq, Structural, Clone, Copy)]
pub enum CpuError {
    /// The opcode at the program counter names no instruction.
    UnknownOpcode(u8),
}

/// The register a CB-prefixed operation works on, by the low three bits of
/// its second byte.
pub fn cb_decode_reg(code: u8) -> (r: RegType)
    ensures
        r == spec_reg8(code as int),
        r.spec_valid(),
{
    if code == 0 {
        RegType::RT_B
    } else if code == 1 {
        RegType::RT_C
    } else if code == 2 {
        RegType::RT_D
    } else if code == 3 {
        RegType::RT_E
    } else if code == 4 {
        RegType::RT_H
    } else if code == 5 {
        RegType::RT_L
    } else if code == 6 {
        RegType::RT_HL
    } else {
        RegType::RT_A
    }
}

/// The result of one of the eight shifts and rotates, chosen by `kind`:
/// 0 RLC, 1 RRC, 2 RL, 3 RR, 4 SLA, 5 SRA, 6 SWAP, 7 SRL.
#[verifier::opaque]
pub open spec fn spec_cb_shift(kind: u8, val: u8, carry: bool) -> u8 {
    let c: int = if carry {
        1
    } else {
        0
    };
    (if kind == 0 {
        (val * 2) % 0x100 + val / 0x80
    } else if kind == 1 {
        val / 2 + (val % 2) * 0x80
    } else if kind == 2 {
        (val * 2) % 0x100 + c
    } else if kind == 3 {
        val / 2 + c * 0x80
    } else if kind == 4 {
        (val * 2) % 0x100
    } else if kind == 5 {
        val / 2 + (val / 0x80) * 0x80
    } else if kind == 6 {
        (val % 16) * 16 + val / 16
    } else {
        val as int / 2
    }) as u8
}

/// The bit that one of the eight shifts and rotates moves into the carry:
/// bit 7 when it moves left, bit 0 when it moves right, none for SWAP.
pub open spec fn spec_cb_carry(kind: u8, val: u8) -> bool {
    if kind == 0 || kind == 2 || kind == 4 {
        val >= 0x80
    } else if kind == 6 {
        false
    } else {
        val % 2 == 1
    }
}

/// The value after a CB-prefixed operation with second byte `cb` on `val`:
/// a shift or rotate, the value itself for BIT, the value without the bit
/// for RES and with it for SET.
#[verifier::opaque]
pub open spec fn spec_cb_value(cb: u8, val: u8, carry: bool) -> u8 {
    let bit = (cb / 8) % 8;
    let op = cb / 64;
    if op == 0 {
        spec_cb_shift(bit, val, carry)
    } else if op == 1 {
        val
    } else if op == 2 {
        if spec_bit(val, bit) {
            (val - spec_bit_mask(bit)) as u8
        } else {
            val
        }
    } else {
        if spec_bit(val, bit) {
            val
        } else {
            (val + spec_bit_mask(bit)) as u8
        }
    }
}

/// One of the eight shifts and rotates.
pub fn cb_shift(kind: u8, val: u8, carry: bool) -> (r: u8)
    requires
        kind < 8,
    ensures
        r == spec_cb_shift(kind, val, carry),
{
    proof {
        reveal(spec_cb_shift);
    }
    let c: u8 = if carry {
        1
    } else {
        0
    };
    if kind == 0 {
        (val % 0x80) * 2 + val / 0x80
    } else if kind == 1 {
        val / 2 + (val % 2) * 0x80
    } else if kind == 2 {
        (val % 0x80) * 2 + c
    } else if kind == 3 {
        val / 2 + c * 0x80
    } else if kind == 4 {
        (val % 0x80) * 2
    } else if kind == 5 {
        val / 2 + (val / 0x80) * 0x80
    } else if kind == 6 {
        (val % 16) * 16 + val / 16
    } else {
        val / 2
    }
}

/// The value after a CB-prefixed operation.
pub fn cb_value(cb: u8, val: u8, carry: bool) -> (r: u8)
    ensures
        r == spec_cb_value(cb, val, carry),
{
    proof {
        reveal(spec_cb_value);
    }
    let index: u8 = (cb / 8) % 8;
    let op: u8 = cb / 64;
    if op == 0 {
        cb_shift(index, val, carry)
    } else if op == 1 {
        val
    } else if op == 2 {
        proof {
            lemma_bit_weight(val, index);
        }
        if bit(val, index) {
            val - bit_mask(index)
        } else {
            val
        }
    } else {
        if bit(val, index) {
            val
        } else {
            proof {
                lemma_bit_weight(val, index);
            }
            val + bit_mask(index)
        }
    }
}

impl CPU {
    /// The flags after a CB-prefixed operation that took `val` to
    /// `new_val`. A shift or rotate sets Z from the result and C from the
    /// bit moved out, and clears N and H. BIT sets Z where the bit is
    /// clear, clears N and sets H. RES and SET leave the flags.
    #[verifier::opaque]
    pub open spec fn spec_cb_flags(self, cb: u8, val: u8, new_val: u8) -> CPU {
        let bit = (cb / 8) % 8;
        let op = cb / 64;
        if op == 0 {
            self.spec_set_flags(spec_b2i(new_val == 0), 0, 0, spec_b2i(spec_cb_carry(bit, val)))
        } else if op == 1 {
            self.spec_set_flags(spec_b2i(!spec_bit(val, bit)), 0, 1, KEEP)
        } else {
            self
        }
    }

    /// Sets the flags after a CB-prefixed operation.
    pub fn cb_flags(&mut self, cb: u8, val: u8, new_val: u8)
        ensures
            *final(self) == old(self).spec_cb_flags(cb, val, new_val),
            old(self).wf() ==> final(self).wf(),
    {
        proof {
            reveal(CPU::spec_cb_flags);
        }
        let index: u8 = (cb / 8) % 8;
        let op: u8 = cb / 64;
        if op == 0 {
            let carry: bool = if index == 0 || index == 2 || index == 4 {
                val >= 0x80
            } else if index == 6 {
                false
            } else {
                val % 2 == 1
            };
            self.set_flags(b2i(new_val == 0), 0, 0, b2i(carry));
        } else if op == 1 {
            let clear: bool = !bit(val, index);
            self.set_flags(b2i(clear), 0, 1, KEEP);
        }
    }

    /// The CPU with IME set, as RETI sets it.
    pub open spec fn spec_enable_interrupts(self) -> CPU {
        CPU { interrupt_master_enabled: true, ..self }
    }

    /// Sets IME.
    pub fn enable_interrupts(&mut self)
        ensures
            *final(self) == old(self).spec_enable_interrupts(),
            old(self).wf() ==> final(self).wf(),
    {
        self.interrupt_master_enabled = true;
    }

    /// The CPU awake.
    pub open spec fn spec_wake(self) -> CPU {
        CPU { halted: false, ..self }
    }

    /// Wakes the CPU from HALT.
    pub fn wake(&mut self)
        ensures
            *final(self) == old(self).spec_wake(),
            old(self).wf() ==> final(self).wf(),
    {
        self.halted = false;
    }

    /// The CPU with the deferred EI resolved: IME set, the deferral
    /// cleared.
    pub open spec fn spec_resolve_ei(self) -> CPU {
        if self.enabling_ime {
            CPU { interrupt_master_enabled: true, enabling_ime: false, ..self }
        } else {
            self
        }
    }

    /// Resolves a deferred EI.
    pub fn resolve_ei(&mut self)
        ensures
            *final(self) == old(self).spec_resolve_ei(),
            old(self).wf() ==> final(self).wf(),
    {
        if self.enabling_ime {
            self.interrupt_master_enabled = true;
            self.enabling_ime = false;
        }
    }
}

impl Machine {
    /// LD to memory: a 16-bit second register is written as a word after
    /// one more M-cycle, anything else as the low byte of the operand;
    /// then one M-cycle passes.
    #[verifier::opaque]
    pub open spec fn exec_ld_store(self) -> Machine {
        if self.cpu.instr.reg2.spec_is_16_bit() {
            self.cycles(1).bus_write_16(self.cpu.mem_dest, self.cpu.fetched_data).cycles(1)
        } else {
            self.bus_write(self.cpu.mem_dest, spec_lo(self.cpu.fetched_data)).cycles(1)
        }
    }

    /// LD: to memory where the operand fetch left a memory destination,
    /// else to a register.
    #[verifier::opaque]
    pub open spec fn exec_ld(self) -> Machine {
        if self.cpu.dest_is_mem {
            self.exec_ld_store()
        } else {
            self.with_cpu(self.cpu.spec_exec_ld_reg())
        }
    }

    /// LDH: the accumulator from or to the page 0xFF00, then one M-cycle.
    #[verifier::opaque]
    pub open spec fn exec_ldh(self) -> Machine {
        if self.cpu.instr.reg1 == RegType::RT_A {
            self.set_reg(
                RegType::RT_A,
                self.bus_read(spec_high_page(self.cpu.fetched_data)) as u16,
            ).cycles(1)
        } else {
            self.bus_write(self.cpu.mem_dest, self.cpu.registers.a).cycles(1)
        }
    }

    /// A jump that is taken: with `push_pc` two M-cycles pass and the
    /// program counter is pushed; then the program counter is set and one
    /// M-cycle passes.
    #[verifier::opaque]
    pub open spec fn goto_taken(self, address: u16, push_pc: bool) -> Machine {
        if push_pc {
            self.cycles(2).stack_push16(self.cpu.registers.pc).set_reg(
                RegType::RT_PC,
                address,
            ).cycles(1)
        } else {
            self.set_reg(RegType::RT_PC, address).cycles(1)
        }
    }

    /// A jump under the condition of the current instruction.
    #[verifier::opaque]
    pub open spec fn goto_addr(self, address: u16, push_pc: bool) -> Machine {
        if self.cpu.spec_check_cond() {
            self.goto_taken(address, push_pc)
        } else {
            self
        }
    }

    /// The target of JR: the program counter plus the low byte of the
    /// operand read as a signed number.
    pub open spec fn jr_target(self) -> u16 {
        spec_wrap16(self.cpu.registers.pc + spec_signed(spec_lo(self.cpu.fetched_data)))
    }

    /// A return that is taken: the two bytes of the address are popped, one
    /// M-cycle after each, then the program counter is set and one more
    /// M-cycle passes.
    #[verifier::opaque]
    pub open spec fn ret_taken(self) -> Machine {
        let m1 = self.stack_drop().cycles(1);
        m1.stack_drop().cycles(1).set_reg(
            RegType::RT_PC,
            spec_word(m1.stack_top(), self.stack_top()),
        ).cycles(1)
    }

    /// The M-cycle that a conditional return spends on its condition.
    #[verifier::opaque]
    pub open spec fn ret_wait(self) -> Machine {
        if self.cpu.instr.cond_type != CondType::CT_NONE {
            self.cycles(1)
        } else {
            self
        }
    }

    /// A return under the condition of the current instruction.
    #[verifier::opaque]
    pub open spec fn ret_if(self) -> Machine {
        if self.cpu.spec_check_cond() {
            self.ret_taken()
        } else {
            self
        }
    }

    /// RET.
    #[verifier::opaque]
    pub open spec fn exec_ret(self) -> Machine {
        self.ret_wait().ret_if()
    }

    /// RETI: IME is set, then RET.
    #[verifier::opaque]
    pub open spec fn exec_reti(self) -> Machine {
        self.with_cpu(self.cpu.spec_enable_interrupts()).exec_ret()
    }

    /// POP: the two bytes are popped, one M-cycle after each, and put into
    /// the register pair. AF takes only the high nibble of the flag byte.
    #[verifier::opaque]
    pub open spec fn exec_pop(self) -> Machine {
        let m1 = self.stack_drop().cycles(1);
        m1.stack_drop().cycles(1).set_reg(
            self.cpu.instr.reg1,
            spec_word(m1.stack_top(), self.stack_top()),
        )
    }

    /// PUSH: the high byte, then the low byte of the operand, one M-cycle
    /// before each and one after.
    #[verifier::opaque]
    pub open spec fn exec_push(self) -> Machine {
        self.cycles(1).stack_push(spec_hi(self.cpu.fetched_data)).cycles(1).stack_push(
            spec_lo(self.cpu.fetched_data),
        ).cycles(1)
    }

    /// The M-cycle that 16-bit arithmetic spends: it passes where the first
    /// register is a pair.
    #[verifier::opaque]
    pub open spec fn wide_cycle(self) -> Machine {
        if self.cpu.instr.reg1.spec_is_16_bit() {
            self.cycles(1)
        } else {
            self
        }
    }

    /// Whether INC or DEC works on the byte at HL.
    pub open spec fn step_in_memory(self) -> bool {
        self.cpu.instr.reg1 == RegType::RT_HL && self.cpu.dest_is_mem
    }

    /// INC of the byte at HL.
    #[verifier::opaque]
    pub open spec fn exec_inc_mem(self) -> Machine {
        let val = (spec_wrap16(self.cpu.fetched_data + 1) % 0x100) as u16;
        let m = self.bus_write(self.cpu.mem_dest, val as u8);
        m.with_cpu(m.cpu.spec_inc_flags(val))
    }

    /// DEC of the byte at HL.
    #[verifier::opaque]
    pub open spec fn exec_dec_mem(self) -> Machine {
        let val = spec_wrap16(self.cpu.fetched_data - 1);
        let m = self.bus_write(self.cpu.mem_dest, spec_lo(val));
        m.with_cpu(m.cpu.spec_dec_flags(val))
    }

    /// INC: of a register or of the byte at HL, after the M-cycle of 16-bit
    /// arithmetic.
    #[verifier::opaque]
    pub open spec fn exec_inc(self) -> Machine {
        let m = self.wide_cycle();
        if m.step_in_memory() {
            m.exec_inc_mem()
        } else {
            m.with_cpu(m.cpu.spec_exec_inc_reg())
        }
    }

    /// DEC: of a register or of the byte at HL, after the M-cycle of 16-bit
    /// arithmetic.
    #[verifier::opaque]
    pub open spec fn exec_dec(self) -> Machine {
        let m = self.wide_cycle();
        if m.step_in_memory() {
            m.exec_dec_mem()
        } else {
            m.with_cpu(m.cpu.spec_exec_dec_reg())
        }
    }

    /// ADD, after the M-cycle of 16-bit arithmetic.
    #[verifier::opaque]
    pub open spec fn exec_add(self) -> Machine {
        let m = self.wide_cycle();
        m.with_cpu(m.cpu.spec_exec_add())
    }

    /// The value a CB-prefixed operation reads: a register, or the byte at
    /// HL.
    pub open spec fn read_cb_reg(self, reg: RegType) -> u8 {
        if reg == RegType::RT_HL {
            self.bus_read(self.cpu.spec_read_reg(RegType::RT_HL))
        } else {
            spec_lo(self.cpu.spec_read_reg(reg))
        }
    }

    /// The machine after a CB-prefixed operation has written its result: to
    /// a register, or to the byte at HL.
    #[verifier::opaque]
    pub open spec fn set_cb_reg(self, reg: RegType, value: u8) -> Machine {
        if reg == RegType::RT_HL {
            self.bus_write(self.cpu.spec_read_reg(RegType::RT_HL), value)
        } else {
            self.set_reg(reg, value as u16)
        }
    }

    /// The M-cycles of a CB-prefixed operation: one, and two more where it
    /// works on the byte at HL.
    #[verifier::opaque]
    pub open spec fn cb_clock(self, reg: RegType) -> Machine {
        if reg == RegType::RT_HL {
            self.cycles(1).cycles(2)
        } else {
            self.cycles(1)
        }
    }

    /// The machine after a CB-prefixed operation has written its result,
    /// where it has one to write: every operation but BIT.
    #[verifier::opaque]
    pub open spec fn cb_store(self, cb: u8, value: u8) -> Machine {
        if cb / 64 == 1 {
            self
        } else {
            self.set_cb_reg(spec_reg8(cb as int % 8), value)
        }
    }

    /// A CB-prefixed operation. Its second byte, the operand, gives the
    /// operation in bits 7-6, the bit or the kind of shift in bits 5-3 and
    /// the register in bits 2-0.
    #[verifier::opaque]
    pub open spec fn exec_cb(self) -> Machine {
        let cb = spec_lo(self.cpu.fetched_data);
        let reg = spec_reg8(cb as int % 8);
        let val = self.read_cb_reg(reg);
        let new_val = spec_cb_value(cb, val, self.cpu.spec_get_flag(C_FLAG));
        let m = self.cb_clock(reg).cb_store(cb, new_val);
        m.with_cpu(m.cpu.spec_cb_flags(cb, val, new_val))
    }

    /// STOP: the machine stops running.
    pub open spec fn exec_stop(self) -> Machine {
        Machine { running: false, ..self }
    }

    /// The machine after the current instruction was executed.
    #[verifier::opaque]
    pub open spec fn execute(self) -> Machine {
        if self.cpu.spec_is_local() {
            self.with_cpu(self.cpu.spec_execute_local())
        } else {
            match self.cpu.instr.instr_type {
                InstrType::IN_LD => self.exec_ld(),
                InstrType::IN_LDH => self.exec_ldh(),
                InstrType::IN_INC => self.exec_inc(),
                InstrType::IN_DEC => self.exec_dec(),
                InstrType::IN_ADD => self.exec_add(),
                InstrType::IN_JP => self.goto_addr(self.cpu.fetched_data, false),
                InstrType::IN_JR => self.goto_addr(self.jr_target(), false),
                InstrType::IN_CALL => self.goto_addr(self.cpu.fetched_data, true),
                InstrType::IN_RET => self.exec_ret(),
                InstrType::IN_RETI => self.exec_reti(),
                InstrType::IN_RST => self.goto_addr(self.cpu.instr.param as u16, true),
                InstrType::IN_CB => self.exec_cb(),
                InstrType::IN_STOP => self.exec_stop(),
                InstrType::IN_PUSH => self.exec_push(),
                InstrType::IN_POP => self.exec_pop(),
                _ => self,
            }
        }
    }

    /// One M-cycle of a halted CPU: the clock advances, and a request in
    /// IF wakes the CPU.
    #[verifier::opaque]
    pub open spec fn halted_cycle(self) -> Machine {
        let m = self.cycles(1);
        if m.cpu.int_flags != 0 {
            m.with_cpu(m.cpu.spec_wake())
        } else {
            m
        }
    }

    /// With IME set, the pending interrupt of the highest priority is
    /// serviced.
    #[verifier::opaque]
    pub open spec fn service_interrupts(self) -> Machine {
        if self.cpu.interrupt_master_enabled {
            self.handle_interrupts()
        } else {
            self
        }
    }

    /// The end of every step: interrupts are serviced, then a deferred EI
    /// takes effect.
    #[verifier::opaque]
    pub open spec fn finish_step(self) -> Machine {
        let m = self.service_interrupts();
        m.with_cpu(m.cpu.spec_resolve_ei())
    }

    /// The machine after the fetched instruction ran: one M-cycle for the
    /// opcode fetch, the operands, the serial port, the operation.
    #[verifier::opaque]
    pub open spec fn run_instruction(self) -> Machine {
        self.cycles(1).fetch_data().dbg_update().execute()
    }

    /// Whether the opcode at the program counter names an instruction.
    pub open spec fn opcode_known(self) -> bool {
        spec_decode(self.opcode_at_pc()) is Some
    }

    /// Whether the instruction at the program counter is STOP.
    pub open spec fn at_stop(self) -> bool {
        spec_decode(self.opcode_at_pc()) matches Some(i) && i.instr_type == InstrType::IN_STOP
    }

    /// The step of a CPU that is not halted. An unknown opcode ends the
    /// step after the fetch, and STOP after its execution.
    #[verifier::opaque]
    pub open spec fn step_running(self) -> Machine {
        if !self.opcode_known() {
            self.fetch_instruction()
        } else if self.at_stop() {
            self.fetch_instruction().run_instruction()
        } else {
            self.fetch_instruction().run_instruction().finish_step()
        }
    }

    /// The machine after one step of the CPU.
    #[verifier::opaque]
    pub open spec fn step(self) -> Machine {
        if self.cpu.halted {
            self.halted_cycle().finish_step()
        } else {
            self.step_running()
        }
    }

    /// What one step of the CPU reports: an error for an unknown opcode,
    /// false after STOP, else true.
    pub open spec fn step_outcome(self) -> Result<bool, CpuError> {
        if self.cpu.halted {
            Ok(true)
        } else if !self.opcode_known() {
            Err(CpuError::UnknownOpcode(self.opcode_at_pc()))
        } else {
            Ok(!self.at_stop())
        }
    }
}

/// SWAP is its own inverse, and a rotate to the right undoes a rotate to
/// the left: RRC undoes RLC, and RR undoes RL when the carry goes back in.
pub proof fn law_rotates_invert(val: u8, carry: bool)
    ensures
        spec_cb_shift(6, spec_cb_shift(6, val, carry), carry) == val,
        spec_cb_shift(1, spec_cb_shift(0, val, carry), carry) == val,
        spec_cb_shift(0, spec_cb_shift(1, val, carry), carry) == val,
        spec_cb_shift(3, spec_cb_shift(2, val, carry), spec_cb_carry(2, val)) == val,
        spec_cb_shift(2, spec_cb_shift(3, val, carry), spec_cb_carry(3, val)) == val,
{
    reveal(spec_cb_shift);
}

/// RES clears its bit and SET sets it; both leave the other bits, so that
/// SET after RES, or RES after SET, is as good as the second alone.
pub proof fn law_res_and_set(val: u8, index: u8)
    requires
        index < 8,
    ensures
        !spec_bit(spec_cb_value((0x80 + 8 * index) as u8, val, false), index),
        spec_bit(spec_cb_value((0xC0 + 8 * index) as u8, val, false), index),
        spec_cb_value(
            (0xC0 + 8 * index) as u8,
            spec_cb_value((0x80 + 8 * index) as u8, val, false),
            false,
        ) == spec_cb_value((0xC0 + 8 * index) as u8, val, false),
        spec_cb_value((0x40 + 8 * index) as u8, val, false) == val,
{
    reveal(spec_cb_value);
    lemma_bit_weight(val, index);
    if index == 0 {
    } else if index == 1 {
    } else if index == 2 {
    } else if index == 3 {
    } else if index == 4 {
    } else if index == 5 {
    } else if index == 6 {
    } else {
    }
}

/// EI delay: when EI executes with IME clear, no interrupt is serviced at
/// the end of that step, whatever is pending: the program counter stands
/// behind EI and nothing was pushed. IME is set only then, so the first
/// interrupt is serviced after the instruction that follows EI.
pub proof fn law_ei_delay(m: Machine)
    requires
        !m.cpu.halted,
        !m.cpu.interrupt_master_enabled,
        m.opcode_at_pc() == 0xFB,
    ensures
        m.step_outcome() == Ok::<bool, CpuError>(true),
        m.step().cpu.registers.pc == spec_wrap16(m.cpu.registers.pc + 1),
        m.step().cpu.registers.sp == m.cpu.registers.sp,
        m.step().cpu.interrupt_master_enabled,
        !m.step().cpu.enabling_ime,
{
    reveal(Machine::step);
    reveal(Machine::step_running);
    reveal(Machine::fetch_instruction);
    reveal(Machine::run_instruction);
    reveal(Machine::fetch_data);
    reveal(Machine::dbg_update);
    reveal(Machine::bus_write);
    reveal(Machine::io_write);
    reveal(Machine::execute);
    reveal(Machine::finish_step);
    reveal(Machine::service_interrupts);
    let fetched = m.fetch_instruction();
    lemma_frame_cycles(fetched, 1);
}

/// With IME set, a step ends with the service of the pending interrupt of
/// the highest priority: the program counter is at its vector, its bit in
/// IF is clear and IME is clear.
pub proof fn law_interrupt_service(m: Machine, interrupt_type: InterruptType)
    requires
        m.cpu.interrupt_master_enabled,
        m.cpu.spec_first_pending() == Some(interrupt_type),
    ensures
        m.service_interrupts().cpu.registers.pc == interrupt_type.spec_vector(),
        !m.service_interrupts().cpu.interrupt_master_enabled,
        !m.service_interrupts().cpu.halted,
{
    reveal(Machine::service_interrupts);
    reveal(Machine::handle_interrupts);
    reveal(Machine::service);
}

impl CPU {
    fn ld_store16(emu: &mut Emulator)
        requires
            old(emu).cpu.instr.reg2.spec_is_16_bit(),
        ensures
            final(emu)@ == old(emu)@.exec_ld_store(),
            old(emu)@.wf() ==> final(emu)@.wf(),
    {
        proof {
            reveal(Machine::exec_ld_store);
        }
        let address: u16 = emu.cpu.mem_dest;
        let data: u16 = emu.cpu.fetched_data;
        emu.cycles(1);
        bus_write_16(emu, address, data);
        emu.cycles(1);
    }

    fn ld_store8(emu: &mut Emulator)
        requires
            !old(emu).cpu.instr.reg2.spec_is_16_bit(),
        ensures
            final(emu)@ == old(emu)@.exec_ld_store(),
            old(emu)@.wf() ==> final(emu)@.wf(),
    {
        proof {
            reveal(Machine::exec_ld_store);
        }
        let address: u16 = emu.cpu.mem_dest;
        let data: u8 = lo(emu.cpu.fetched_data);
        bus_write(emu, address, data);
        emu.cycles(1);
    }

    fn ld_store(emu: &mut Emulator)
        requires
            old(emu).cpu.dest_is_mem,
        ensures
            final(emu)@ == old(emu)@.exec_ld(),
            old(emu)@.wf() ==> final(emu)@.wf(),
    {
        proof {
            reveal(Machine::exec_ld);
        }
        if emu.cpu.instr.reg2.is_16_bit() {
            CPU::ld_store16(emu);
        } else {
            CPU::ld_store8(emu);
        }
    }

    fn ld_reg(emu: &mut Emulator)
        requires
            !old(emu).cpu.dest_is_mem,
            old(emu).cpu.spec_ready(),
            old(emu).cpu.instr.instr_type == InstrType::IN_LD,
        ensures
            final(emu)@ == old(emu)@.exec_ld(),
            old(emu)@.wf() ==> final(emu)@.wf(),
    {
        proof {
            reveal(Machine::exec_ld);
        }
        emu.cpu.exec_ld_reg();
    }

    /// Executes the LD instruction.
    pub fn exec_ld(emu: &mut Emulator)
        requires
            old(emu).cpu.spec_ready(),
            old(emu).cpu.instr.instr_type == InstrType::IN_LD,
        ensures
            final(emu)@ == old(emu)@.exec_ld(),
            old(emu)@.wf() ==> final(emu)@.wf(),
    {
        if emu.cpu.dest_is_mem {
            CPU::ld_store(emu);
        } else {
            CPU::ld_reg(emu);
        }
    }

    fn ldh_load(emu: &mut Emulator)
        requires
            old(emu).cpu.instr.reg1 == RegType::RT_A,
        ensures
            final(emu)@ == old(emu)@.exec_ldh(),
            old(emu)@.wf() ==> final(emu)@.wf(),
    {
        proof {
            reveal(Machine::exec_ldh);
        }
        let address: u16 = high_page(emu.cpu.fetched_data);
        let val: u16 = bus_read(emu, address) as u16;
        emu.cpu.set_register(&RegType::RT_A, val);
        emu.cycles(1);
    }

    fn ldh_store(emu: &mut Emulator)
        requires
            old(emu).cpu.instr.reg1 != RegType::RT_A,
        ensures
            final(emu)@ == old(emu)@.exec_ldh(),
            old(emu)@.wf() ==> final(emu)@.wf(),
    {
        proof {
            reveal(Machine::exec_ldh);
        }
        let address: u16 = emu.cpu.mem_dest;
        let data: u8 = emu.cpu.registers.a;
        bus_write(emu, address, data);
        emu.cycles(1);
    }

    /// Executes the LDH instruction: a load from or a store to the page
    /// 0xFF00.
    pub fn exec_ldh(emu: &mut Emulator)
        ensures
            final(emu)@ == old(emu)@.exec_ldh(),
            old(emu)@.wf() ==> final(emu)@.wf(),
    {
        if emu.cpu.instr.reg1 == RegType::RT_A {
            CPU::ldh_load(emu);
        } else {
            CPU::ldh_store(emu);
        }
    }

    fn goto_call(emu: &mut Emulator, address: u16)
        ensures
            final(emu)@ == old(emu)@.goto_taken(address, true),
            old(emu)@.wf() ==> final(emu)@.wf(),
    {
        proof {
            reveal(Machine::goto_taken);
        }
        let pc: u16 = emu.cpu.registers.pc;
        emu.cycles(2);
        CPU::stack_push16(emu, pc);
        emu.cpu.set_register(&RegType::RT_PC, address);
        emu.cycles(1);
    }

    fn goto_jump(emu: &mut Emulator, address: u16)
        ensures
            final(emu)@ == old(emu)@.goto_taken(address, false),
            old(emu)@.wf() ==> final(emu)@.wf(),
    {
        proof {
            reveal(Machine::goto_taken);
        }
        emu.cpu.set_register(&RegType::RT_PC, address);
        emu.cycles(1);
    }

    fn goto_taken(emu: &mut Emulator, address: u16, push_pc: bool)
        ensures
            final(emu)@ == old(emu)@.goto_taken(address, push_pc),
            old(emu)@.wf() ==> final(emu)@.wf(),
    {
        if push_pc {
            CPU::goto_call(emu, address);
        } else {
            CPU::goto_jump(emu, address);
        }
    }

    /// Jumps to `address` if the condition of the current instruction
    /// holds. With `push_pc` the program counter is pushed first.
    pub fn goto_addr(emu: &mut Emulator, address: u16, push_pc: bool)
        ensures
            final(emu)@ == old(emu)@.goto_addr(address, push_pc),
            old(emu)@.wf() ==> final(emu)@.wf(),
    {
        proof {
            reveal(Machine::goto_addr);
        }
        if emu.cpu.check_cond() {
            CPU::goto_taken(emu, address, push_pc);
        }
    }

    /// Executes the JP instruction.
    pub fn exec_jp(emu: &mut Emulator)
        ensures
            final(emu)@ == old(emu)@.goto_addr(old(emu).cpu.fetched_data, false),
            old(emu)@.wf() ==> final(emu)@.wf(),
    {
        let address: u16 = emu.cpu.fetched_data;
        CPU::goto_addr(emu, address, false);
    }

    /// Executes the JR instruction.
    pub fn exec_jr(emu: &mut Emulator)
        ensures
            final(emu)@ == old(emu)@.goto_addr(old(emu)@.jr_target(), false),
            old(emu)@.wf() ==> final(emu)@.wf(),
    {
        let address: u16 = add_signed16(emu.cpu.registers.pc, lo(emu.cpu.fetched_data));
        CPU::goto_addr(emu, address, false);
    }

    /// Executes the CALL instruction.
    pub fn exec_call(emu: &mut Emulator)
        ensures
            final(emu)@ == old(emu)@.goto_addr(old(emu).cpu.fetched_data, true),
            old(emu)@.wf() ==> final(emu)@.wf(),
    {
        let address: u16 = emu.cpu.fetched_data;
        CPU::goto_addr(emu, address, true);
    }

    /// Executes the RST instruction.
    pub fn exec_rst(emu: &mut Emulator)
        ensures
            final(emu)@ == old(emu)@.goto_addr(old(emu).cpu.instr.param as u16, true),
            old(emu)@.wf() ==> final(emu)@.wf(),
    {
        let address: u16 = emu.cpu.instr.param as u16;
        CPU::goto_addr(emu, address, true);
    }

    fn ret_taken(emu: &mut Emulator)
        ensures
            final(emu)@ == old(emu)@.ret_taken(),
            old(emu)@.wf() ==> final(emu)@.wf(),
    {
        proof {
            reveal(Machine::ret_taken);
        }
        let low: u8 = CPU::stack_pop(emu);
        emu.cycles(1);
        let high: u8 = CPU::stack_pop(emu);
        emu.cycles(1);
        emu.cpu.set_register(&RegType::RT_PC, word(high, low));
        emu.cycles(1);
    }

    fn ret_wait(emu: &mut Emulator)
        ensures
            final(emu)@ == old(emu)@.ret_wait(),
            old(emu)@.wf() ==> final(emu)@.wf(),
            old(emu).cpu.spec_clock_frame(final(emu).cpu),
    {
        proof {
            reveal(Machine::ret_wait);
        }
        if emu.cpu.instr.cond_type != CondType::CT_NONE {
            emu.cycles(1);
        }
    }

    fn ret_if(emu: &mut Emulator)
        ensures
            final(emu)@ == old(emu)@.ret_if(),
            old(emu)@.wf() ==> final(emu)@.wf(),
    {
        proof {
            reveal(Machine::ret_if);
        }
        if emu.cpu.check_cond() {
            CPU::ret_taken(emu);
        }
    }

    /// Executes the RET instruction.
    pub fn exec_ret(emu: &mut Emulator)
        ensures
            final(emu)@ == old(emu)@.exec_ret(),
            old(emu)@.wf() ==> final(emu)@.wf(),
    {
        proof {
            reveal(Machine::exec_ret);
        }
        CPU::ret_wait(emu);
        CPU::ret_if(emu);
    }

    /// Executes the RETI instruction.
    pub fn exec_reti(emu: &mut Emulator)
        ensures
            final(emu)@ == old(emu)@.exec_reti(),
            old(emu)@.wf() ==> final(emu)@.wf(),
    {
        proof {
            reveal(Machine::exec_reti);
        }
        emu.cpu.enable_interrupts();
        CPU::exec_ret(emu);
    }

    /// Executes the POP instruction.
    pub fn exec_pop(emu: &mut Emulator)
        requires
            old(emu).cpu.instr.reg1.spec_is_16_bit(),
        ensures
            final(emu)@ == old(emu)@.exec_pop(),
            old(emu)@.wf() ==> final(emu)@.wf(),
    {
        proof {
            reveal(Machine::exec_pop);
        }
        let reg: RegType = emu.cpu.instr.reg1;
        let low: u8 = CPU::stack_pop(emu);
        emu.cycles(1);
        let high: u8 = CPU::stack_pop(emu);
        emu.cycles(1);
        emu.cpu.set_register(&reg, word(high, low));
    }

    /// Executes the PUSH instruction.
    pub fn exec_push(emu: &mut Emulator)
        ensures
            final(emu)@ == old(emu)@.exec_push(),
            old(emu)@.wf() ==> final(emu)@.wf(),
    {
        proof {
            reveal(Machine::exec_push);
        }
        let data: u16 = emu.cpu.fetched_data;
        emu.cycles(1);
        CPU::stack_push(emu, hi(data));
        emu.cycles(1);
        CPU::stack_push(emu, lo(data));
        emu.cycles(1);
    }

    fn wide_cycle(emu: &mut Emulator)
        ensures
            final(emu)@ == old(emu)@.wide_cycle(),
            old(emu)@.wf() ==> final(emu)@.wf(),
            old(emu).cpu.spec_clock_frame(final(emu).cpu),
    {
        proof {
            reveal(Machine::wide_cycle);
        }
        if emu.cpu.instr.reg1.is_16_bit() {
            emu.cycles(1);
        }
    }

    fn exec_inc_mem(emu: &mut Emulator)
        ensures
            final(emu)@ == old(emu)@.exec_inc_mem(),
            old(emu)@.wf() ==> final(emu)@.wf(),
    {
        proof {
            reveal(Machine::exec_inc_mem);
        }
        let val: u16 = add16(emu.cpu.fetched_data, 1) % 0x100;
        let address: u16 = emu.cpu.mem_dest;
        bus_write(emu, address, val as u8);
        emu.cpu.inc_flags(val);
    }

    fn inc_register(emu: &mut Emulator)
        requires
            old(emu).cpu.instr.reg1.spec_valid(),
        ensures
            final(emu)@ == old(emu)@.with_cpu(old(emu).cpu.spec_exec_inc_reg()),
            old(emu)@.wf() ==> final(emu)@.wf(),
    {
        emu.cpu.exec_inc_reg();
    }

    fn exec_inc_apply(emu: &mut Emulator)
        requires
            old(emu).cpu.instr.reg1.spec_valid(),
        ensures
            final(emu)@ == if old(emu)@.step_in_memory() {
                old(emu)@.exec_inc_mem()
            } else {
                old(emu)@.with_cpu(old(emu).cpu.spec_exec_inc_reg())
            },
            old(emu)@.wf() ==> final(emu)@.wf(),
    {
        if emu.cpu.instr.reg1 == RegType::RT_HL && emu.cpu.dest_is_mem {
            CPU::exec_inc_mem(emu);
        } else {
            CPU::inc_register(emu);
        }
    }

    /// Executes the INC instruction.
    pub fn exec_inc(emu: &mut Emulator)
        requires
            old(emu).cpu.instr.reg1.spec_valid(),
        ensures
            final(emu)@ == old(emu)@.exec_inc(),
            old(emu)@.wf() ==> final(emu)@.wf(),
    {
        proof {
            reveal(Machine::exec_inc);
        }
        CPU::wide_cycle(emu);
        CPU::exec_inc_apply(emu);
    }

    fn exec_dec_mem(emu: &mut Emulator)
        ensures
            final(emu)@ == old(emu)@.exec_dec_mem(),
            old(emu)@.wf() ==> final(emu)@.wf(),
    {
        proof {
            reveal(Machine::exec_dec_mem);
        }
        let val: u16 = sub16(emu.cpu.fetched_data, 1);
        let address: u16 = emu.cpu.mem_dest;
        bus_write(emu, address, lo(val));
        emu.cpu.dec_flags(val);
    }

    fn dec_register(emu: &mut Emulator)
        requires
            old(emu).cpu.instr.reg1.spec_valid(),
        ensures
            final(emu)@ == old(emu)@.with_cpu(old(emu).cpu.spec_exec_dec_reg()),
            old(emu)@.wf() ==> final(emu)@.wf(),
    {
        emu.cpu.exec_dec_reg();
    }

    fn exec_dec_apply(emu: &mut Emulator)
        requires
            old(emu).cpu.instr.reg1.spec_valid(),
        ensures
            final(emu)@ == if old(emu)@.step_in_memory() {
                old(emu)@.exec_dec_mem()
            } else {
                old(emu)@.with_cpu(old(emu).cpu.spec_exec_dec_reg())
            },
            old(emu)@.wf() ==> final(emu)@.wf(),
    {
        if emu.cpu.instr.reg1 == RegType::RT_HL && emu.cpu.dest_is_mem {
            CPU::exec_dec_mem(emu);
        } else {
            CPU::dec_register(emu);
        }
    }

    /// Executes the DEC instruction.
    pub fn exec_dec(emu: &mut Emulator)
        requires
            old(emu).cpu.instr.reg1.spec_valid(),
        ensures
            final(emu)@ == old(emu)@.exec_dec(),
            old(emu)@.wf() ==> final(emu)@.wf(),
    {
        proof {
            reveal(Machine::exec_dec);
        }
        CPU::wide_cycle(emu);
        CPU::exec_dec_apply(emu);
    }

    /// Executes the ADD instruction.
    pub fn exec_add(emu: &mut Emulator)
        requires
            old(emu).cpu.instr.reg1.spec_valid(),
        ensures
            final(emu)@ == old(emu)@.exec_add(),
            old(emu)@.wf() ==> final(emu)@.wf(),
    {
        proof {
            reveal(Machine::exec_add);
        }
        CPU::wide_cycle(emu);
        emu.cpu.exec_add_reg();
    }

    /// Reads the value a CB-prefixed operation works on: a register, or the
    /// byte at HL.
    pub fn read_cb_reg(emu: &Emulator, reg: &RegType) -> (r: u8)
        requires
            reg.spec_valid(),
        ensures
            r == emu@.read_cb_reg(*reg),
    {
        match reg {
            RegType::RT_HL => bus_read(emu, emu.cpu.read_reg(&RegType::RT_HL)),
            _ => lo(emu.cpu.read_reg(reg)),
        }
    }

    fn set_cb_mem(emu: &mut Emulator, value: u8)
        ensures
            final(emu)@ == old(emu)@.set_cb_reg(RegType::RT_HL, value),
            old(emu)@.wf() ==> final(emu)@.wf(),
    {
        proof {
            reveal(Machine::set_cb_reg);
        }
        let address: u16 = emu.cpu.read_reg(&RegType::RT_HL);
        bus_write(emu, address, value);
    }

    fn set_cb_plain(emu: &mut Emulator, reg: &RegType, value: u8)
        requires
            reg.spec_valid(),
            *reg != RegType::RT_HL,
        ensures
            final(emu)@ == old(emu)@.set_cb_reg(*reg, value),
            old(emu)@.wf() ==> final(emu)@.wf(),
    {
        proof {
            reveal(Machine::set_cb_reg);
        }
        emu.cpu.set_register(reg, value as u16);
    }

    /// Writes the result of a CB-prefixed operation: to a register, or to
    /// the byte at HL.
    pub fn set_cb_reg(emu: &mut Emulator, reg: &RegType, value: u8)
        requires
            reg.spec_valid(),
        ensures
            final(emu)@ == old(emu)@.set_cb_reg(*reg, value),
            old(emu)@.wf() ==> final(emu)@.wf(),
    {
        match reg {
            RegType::RT_HL => {
                CPU::set_cb_mem(emu, value);
            },
            _ => {
                CPU::set_cb_plain(emu, reg, value);
            },
        }
    }

    fn cb_clock_mem(emu: &mut Emulator)
        ensures
            final(emu)@ == old(emu)@.cb_clock(RegType::RT_HL),
            old(emu)@.wf() ==> final(emu)@.wf(),
    {
        proof {
            reveal(Machine::cb_clock);
        }
        emu.cycles(1);
        emu.cycles(2);
    }

    fn cb_clock_plain(emu: &mut Emulator, reg: &RegType)
        requires
            *reg != RegType::RT_HL,
        ensures
            final(emu)@ == old(emu)@.cb_clock(*reg),
            old(emu)@.wf() ==> final(emu)@.wf(),
    {
        proof {
            reveal(Machine::cb_clock);
        }
        emu.cycles(1);
    }

    fn cb_clock(emu: &mut Emulator, reg: &RegType)
        ensures
            final(emu)@ == old(emu)@.cb_clock(*reg),
            old(emu)@.wf() ==> final(emu)@.wf(),
    {
        match reg {
            RegType::RT_HL => {
                CPU::cb_clock_mem(emu);
            },
            _ => {
                CPU::cb_clock_plain(emu, reg);
            },
        }
    }

    fn cb_store(emu: &mut Emulator, cb: u8, value: u8)
        ensures
            final(emu)@ == old(emu)@.cb_store(cb, value),
            old(emu)@.wf() ==> final(emu)@.wf(),
    {
        proof {
            reveal(Machine::cb_store);
        }
        if cb / 64 != 1 {
            let reg: RegType = cb_decode_reg(cb % 8);
            CPU::set_cb_reg(emu, &reg, value);
        }
    }

    fn cb_finish(emu: &mut Emulator, cb: u8, reg: &RegType, val: u8, new_val: u8)
        ensures
            final(emu)@ == ({
                let m = old(emu)@.cb_clock(*reg).cb_store(cb, new_val);
                m.with_cpu(m.cpu.spec_cb_flags(cb, val, new_val))
            }),
            old(emu)@.wf() ==> final(emu)@.wf(),
    {
        CPU::cb_clock(emu, reg);
        CPU::cb_store(emu, cb, new_val);
        emu.cpu.cb_flags(cb, val, new_val);
    }

    /// Reads what a CB-prefixed operation works on: its second byte, the
    /// value it finds and the value it leaves.
    fn cb_plan(emu: &Emulator) -> (r: (u8, u8, u8))
        ensures
            r.0 == spec_lo(emu.cpu.fetched_data),
            r.1 == emu@.read_cb_reg(spec_reg8(r.0 as int % 8)),
            r.2 == spec_cb_value(r.0, r.1, emu.cpu.spec_get_flag(C_FLAG)),
    {
        let cb_opcode: u8 = lo(emu.cpu.fetched_data);
        let reg: RegType = cb_decode_reg(cb_opcode % 8);
        let reg_val: u8 = CPU::read_cb_reg(emu, &reg);
        let carry: bool = emu.cpu.get_flag(C_FLAG);
        let new_val: u8 = cb_value(cb_opcode, reg_val, carry);
        (cb_opcode, reg_val, new_val)
    }

    /// Executes a CB-prefixed operation.
    pub fn exec_cb(emu: &mut Emulator)
        ensures
            final(emu)@ == old(emu)@.exec_cb(),
            old(emu)@.wf() ==> final(emu)@.wf(),
    {
        proof {
            reveal(Machine::exec_cb);
        }
        let plan: (u8, u8, u8) = CPU::cb_plan(emu);
        let reg: RegType = cb_decode_reg(plan.0 % 8);
        CPU::cb_finish(emu, plan.0, &reg, plan.1, plan.2);
    }

    /// Executes the STOP instruction: the machine stops running.
    pub fn exec_stop(emu: &mut Emulator)
        ensures
            final(emu)@ == old(emu)@.exec_stop(),
            old(emu)@.wf() ==> final(emu)@.wf(),
    {
        emu.running = false;
    }

    fn run_local(emu: &mut Emulator)
        requires
            old(emu).cpu.spec_is_local(),
            old(emu).cpu.instr.wf(),
        ensures
            final(emu)@ == old(emu)@.execute(),
            old(emu)@.wf() ==> final(emu)@.wf(),
    {
        proof {
            reveal(Machine::execute);
        }
        emu.cpu.execute_local();
    }

    fn execute_idle(emu: &mut Emulator)
        requires
            !old(emu).cpu.spec_is_local(),
            old(emu).cpu.instr.instr_type != InstrType::IN_LD,
            old(emu).cpu.instr.instr_type != InstrType::IN_LDH,
            old(emu).cpu.instr.instr_type != InstrType::IN_INC,
            old(emu).cpu.instr.instr_type != InstrType::IN_DEC,
            old(emu).cpu.instr.instr_type != InstrType::IN_ADD,
            old(emu).cpu.instr.instr_type != InstrType::IN_JP,
            old(emu).cpu.instr.instr_type != InstrType::IN_JR,
            old(emu).cpu.instr.instr_type != InstrType::IN_CALL,
            old(emu).cpu.instr.instr_type != InstrType::IN_RET,
            old(emu).cpu.instr.instr_type != InstrType::IN_RETI,
            old(emu).cpu.instr.instr_type != InstrType::IN_RST,
            old(emu).cpu.instr.instr_type != InstrType::IN_CB,
            old(emu).cpu.instr.instr_type != InstrType::IN_STOP,
            old(emu).cpu.instr.instr_type != InstrType::IN_PUSH,
            old(emu).cpu.instr.instr_type != InstrType::IN_POP,
        ensures
            final(emu)@ == old(emu)@.execute(),
            old(emu)@.wf() ==> final(emu)@.wf(),
    {
        proof {
            reveal(Machine::execute);
        }
    }

    /// Executes the current instruction.
    pub fn execute(emu: &mut Emulator)
        requires
            old(emu).cpu.spec_ready(),
        ensures
            final(emu)@ == old(emu)@.execute(),
            old(emu)@.wf() ==> final(emu)@.wf(),
    {
        proof {
            reveal(Machine::execute);
        }
        match emu.cpu.instr.instr_type {
            InstrType::IN_NOP | InstrType::IN_ADC | InstrType::IN_SUB | InstrType::IN_SBC
            | InstrType::IN_XOR | InstrType::IN_AND | InstrType::IN_OR | InstrType::IN_CP
            | InstrType::IN_DI | InstrType::IN_EI | InstrType::IN_HALT | InstrType::IN_RLCA
            | InstrType::IN_RLA | InstrType::IN_RRCA | InstrType::IN_RRA | InstrType::IN_CPL
            | InstrType::IN_CCF | InstrType::IN_SCF | InstrType::IN_DAA => {
                CPU::run_local(emu);
            },
            InstrType::IN_LD => {
                CPU::exec_ld(emu);
            },
            InstrType::IN_LDH => {
                CPU::exec_ldh(emu);
            },
            InstrType::IN_INC => {
                CPU::exec_inc(emu);
            },
            InstrType::IN_DEC => {
                CPU::exec_dec(emu);
            },
            InstrType::IN_ADD => {
                CPU::exec_add(emu);
            },
            InstrType::IN_JP => {
                CPU::exec_jp(emu);
            },
            InstrType::IN_JR => {
                CPU::exec_jr(emu);
            },
            InstrType::IN_CALL => {
                CPU::exec_call(emu);
            },
            InstrType::IN_RET => {
                CPU::exec_ret(emu);
            },
            InstrType::IN_RETI => {
                CPU::exec_reti(emu);
            },
            InstrType::IN_RST => {
                CPU::exec_rst(emu);
            },
            InstrType::IN_CB => {
                CPU::exec_cb(emu);
            },
            InstrType::IN_STOP => {
                CPU::exec_stop(emu);
            },
            InstrType::IN_PUSH => {
                CPU::exec_push(emu);
            },
            InstrType::IN_POP => {
                CPU::exec_pop(emu);
            },
            _ => {
                CPU::execute_idle(emu);
            },
        }
    }

    fn halted_cycle(emu: &mut Emulator)
        ensures
            final(emu)@ == old(emu)@.halted_cycle(),
            old(emu)@.wf() ==> final(emu)@.wf(),
    {
        proof {
            reveal(Machine::halted_cycle);
        }
        emu.cycles(1);
        if emu.cpu.int_flags != 0 {
            emu.cpu.wake();
        }
    }

    fn service_interrupts(emu: &mut Emulator)
        ensures
            final(emu)@ == old(emu)@.service_interrupts(),
            old(emu)@.wf() ==> final(emu)@.wf(),
    {
        proof {
            reveal(Machine::service_interrupts);
        }
        if emu.cpu.interrupt_master_enabled {
            handle_interrupts(emu);
        }
    }

    fn finish_step(emu: &mut Emulator)
        ensures
            final(emu)@ == old(emu)@.finish_step(),
            old(emu)@.wf() ==> final(emu)@.wf(),
    {
        proof {
            reveal(Machine::finish_step);
        }
        CPU::service_interrupts(emu);
        emu.cpu.resolve_ei();
    }

    fn run_instruction(emu: &mut Emulator)
        requires
            old(emu).cpu.instr.wf(),
        ensures
            final(emu)@ == old(emu)@.run_instruction(),
            old(emu)@.wf() ==> final(emu)@.wf(),
    {
        proof {
            reveal(Machine::run_instruction);
        }
        emu.cycles(1);
        CPU::fetch_data(emu);
        dbg_update(emu);
        CPU::execute(emu);
    }

    fn step_halted(emu: &mut Emulator)
        requires
            old(emu).cpu.halted,
        ensures
            final(emu)@ == old(emu)@.step(),
            old(emu)@.wf() ==> final(emu)@.wf(),
    {
        proof {
            reveal(Machine::step);
        }
        CPU::halted_cycle(emu);
        CPU::finish_step(emu);
    }

    fn step_run(emu: &mut Emulator)
        requires
            old(emu).cpu.instr.wf(),
        ensures
            final(emu)@ == old(emu)@.run_instruction().finish_step(),
            old(emu)@.wf() ==> final(emu)@.wf(),
    {
        CPU::run_instruction(emu);
        CPU::finish_step(emu);
    }

    fn step_decoded(emu: &mut Emulator, stop: bool)
        requires
            old(emu).cpu.instr.wf(),
        ensures
            final(emu)@ == if stop {
                old(emu)@.run_instruction()
            } else {
                old(emu)@.run_instruction().finish_step()
            },
            old(emu)@.wf() ==> final(emu)@.wf(),
    {
        if stop {
            CPU::run_instruction(emu);
        } else {
            CPU::step_run(emu);
        }
    }

    fn step_running(emu: &mut Emulator) -> (r: Result<bool, CpuError>)
        requires
            !old(emu).cpu.halted,
        ensures
            final(emu)@ == old(emu)@.step(),
            r == old(emu)@.step_outcome(),
            old(emu)@.wf() ==> final(emu)@.wf(),
    {
        proof {
            reveal(Machine::step);
            reveal(Machine::step_running);
            reveal(Machine::fetch_instruction);
        }
        let known: bool = CPU::fetch_instruction(emu);
        if !known {
            return Err(CpuError::UnknownOpcode(emu.cpu.opcode));
        }
        let stop: bool = emu.cpu.instr.instr_type == InstrType::IN_STOP;
        CPU::step_decoded(emu, stop);
        Ok(!stop)
    }

    /// Executes a single instruction, or one M-cycle of a halted CPU, and
    /// services interrupts. Reports an opcode that names no instruction,
    /// and returns false once STOP was executed.
    pub fn step(emu: &mut Emulator) -> (r: Result<bool, CpuError>)
        ensures
            final(emu)@ == old(emu)@.step(),
            r == old(emu)@.step_outcome(),
            old(emu)@.wf() ==> final(emu)@.wf(),
            old(emu)@.wf() ==> final(emu).cpu.registers.f & 0x0F == 0,
    {
        proof {
            lemma_low_nibble(old(emu).cpu.registers.f);
        }
        if emu.cpu.halted {
            CPU::step_halted(emu);
            proof {
                lemma_low_nibble(emu.cpu.registers.f);
            }
            return Ok(true);
        }
        let r: Result<bool, CpuError> = CPU::step_running(emu);
        proof {
            lemma_low_nibble(emu.cpu.registers.f);
        }
        r
    }
}

} // verus!

use vstd::prelude::*;
use crate::emulator::address_bus::bus_read;
use crate::emulator::address_bus::bus_write;
use crate::emulator::bits::add16;
use crate::emulator::bits::hi;
use crate::emulator::bits::lo;
use crate::emulator::bits::spec_hi;
use crate::emulator::bits::spec_lo;
use crate::emulator::bits::spec_word;
use crate::emulator::bits::spec_wrap16;
use crate::emulator::bits::sub16;
use crate::emulator::bits::word;
use crate::emulator::cpu::high_page;
use crate::emulator::cpu::instruction::spec_decode;
use crate::emulator::cpu::instruction::AddrMode;
use crate::emulator::cpu::instruction::RegType;
use crate::emulator::cpu::spec_high_page;
use crate::emulator::cpu::CPU;
use crate::emulator::Emulator;
use crate::emulator::Machine;

verus! {

impl Machine {
    /// The machine with a register set.
    pub open spec fn set_reg(self, reg: RegType, value: u16) -> Machine {
        self.with_cpu(self.cpu.spec_set_register(reg, value))
    }

    /// The machine after a byte was pushed: SP moves down by one, then the
    /// byte is written at SP.
    #[verifier::opaque]
    pub open spec fn stack_push(self, data: u8) -> Machine {
        let sp = spec_wrap16(self.cpu.registers.sp - 1);
        self.set_reg(RegType::RT_SP, sp).bus_write(sp, data)
    }

    /// The machine after a word was pushed, high byte first.
    #[verifier::opaque]
    pub open spec fn stack_push16(self, data: u16) -> Machine {
        self.stack_push(spec_hi(data)).stack_push(spec_lo(data))
    }

    /// The byte at SP.
    pub open spec fn stack_top(self) -> u8 {
        self.bus_read(self.cpu.registers.sp)
    }

    /// The machine with SP moved up by one.
    pub open spec fn stack_drop(self) -> Machine {
        self.set_reg(RegType::RT_SP, spec_wrap16(self.cpu.registers.sp + 1))
    }

    /// The word at SP, low byte first.
    pub open spec fn stack_top16(self) -> u16 {
        spec_word(self.stack_drop().stack_top(), self.stack_top())
    }

    /// The byte at the program counter.
    pub open spec fn opcode_at_pc(self) -> u8 {
        self.bus_read(self.cpu.registers.pc)
    }

    /// The machine after the opcode at the program counter was fetched and
    /// decoded.
    #[verifier::opaque]
    pub open spec fn fetch_instruction(self) -> Machine {
        self.with_cpu(self.cpu.spec_begin_instruction(self.opcode_at_pc()))
    }

    /// The byte at the program counter becomes the operand; the program
    /// counter moves on and one M-cycle passes.
    #[verifier::opaque]
    pub open spec fn fetch_low(self) -> Machine {
        self.with_cpu(
            self.cpu.spec_set_fetched(self.opcode_at_pc() as u16).spec_increment_pc(),
        ).cycles(1)
    }

    /// The byte at the program counter becomes the high byte of the
    /// operand; the program counter moves on and one M-cycle passes.
    #[verifier::opaque]
    pub open spec fn fetch_high(self) -> Machine {
        self.with_cpu(
            self.cpu.spec_set_fetched(
                spec_word(self.opcode_at_pc(), spec_lo(self.cpu.fetched_data)),
            ).spec_increment_pc(),
        ).cycles(1)
    }

    /// The byte at `address` becomes the operand and one M-cycle passes.
    #[verifier::opaque]
    pub open spec fn fetch_from(self, address: u16) -> Machine {
        self.with_cpu(self.cpu.spec_set_fetched(self.bus_read(address) as u16)).cycles(1)
    }

    /// R and R_R: the operand is the first or the second register.
    #[verifier::opaque]
    pub open spec fn fetch_data_reg(self) -> Machine {
        let cpu = self.cpu.spec_clear_dest();
        self.with_cpu(
            cpu.spec_set_fetched(
                if cpu.instr.addr_mode == AddrMode::AM_R {
                    cpu.spec_reg1()
                } else {
                    cpu.spec_reg2()
                },
            ),
        )
    }

    /// R_D8, D8, R_A8 and HL_SPR: the operand is the byte after the opcode.
    #[verifier::opaque]
    pub open spec fn fetch_data_d8(self) -> Machine {
        self.with_cpu(self.cpu.spec_clear_dest()).fetch_low()
    }

    /// D16 and R_D16: the operand is the word after the opcode, low byte
    /// first.
    #[verifier::opaque]
    pub open spec fn fetch_data_d16(self) -> Machine {
        self.with_cpu(self.cpu.spec_clear_dest()).fetch_low().fetch_high()
    }

    /// MR_R: the operand is the second register, the destination the
    /// address the first register names.
    #[verifier::opaque]
    pub open spec fn fetch_data_mr_r(self) -> Machine {
        let cpu = self.cpu.spec_clear_dest();
        self.with_cpu(
            cpu.spec_set_fetched(cpu.spec_reg2()).spec_set_mem_dest(
                cpu.spec_reg_address(cpu.instr.reg1),
            ),
        )
    }

    /// R_MR: the operand is the byte at the address the second register
    /// names.
    #[verifier::opaque]
    pub open spec fn fetch_data_r_mr(self) -> Machine {
        let m = self.with_cpu(self.cpu.spec_clear_dest());
        m.fetch_from(m.cpu.spec_reg_address(m.cpu.instr.reg2))
    }

    /// R_HLI and R_HLD: the operand is the byte at HL; HL then moves up or
    /// down by one.
    #[verifier::opaque]
    pub open spec fn fetch_data_r_hl(self) -> Machine {
        let m = self.with_cpu(self.cpu.spec_clear_dest());
        let hl = m.cpu.spec_read_reg(RegType::RT_HL);
        m.fetch_from(hl).set_reg(
            RegType::RT_HL,
            if m.cpu.instr.addr_mode == AddrMode::AM_R_HLI {
                spec_wrap16(hl + 1)
            } else {
                spec_wrap16(hl - 1)
            },
        )
    }

    /// HLI_R and HLD_R: the operand is the second register, the
    /// destination HL; HL then moves up or down by one.
    #[verifier::opaque]
    pub open spec fn fetch_data_hl_r(self) -> Machine {
        let cpu = self.cpu.spec_clear_dest();
        let hl = cpu.spec_read_reg(RegType::RT_HL);
        self.with_cpu(
            cpu.spec_set_fetched(cpu.spec_reg2()).spec_set_mem_dest(hl).spec_set_register(
                RegType::RT_HL,
                if cpu.instr.addr_mode == AddrMode::AM_HLI_R {
                    spec_wrap16(hl + 1)
                } else {
                    spec_wrap16(hl - 1)
                },
            ),
        )
    }

    /// A8_R: the destination is the address in the page 0xFF00 that the
    /// byte after the opcode names. The operand is left as it was.
    #[verifier::opaque]
    pub open spec fn fetch_data_a8_r(self) -> Machine {
        self.with_cpu(
            self.cpu.spec_clear_dest().spec_set_mem_dest(
                spec_high_page(self.opcode_at_pc() as u16),
            ).spec_increment_pc(),
        ).cycles(1)
    }

    /// A16_R: the destination is the word after the opcode, the operand
    /// the second register.
    #[verifier::opaque]
    pub open spec fn fetch_data_a16_r(self) -> Machine {
        let m = self.with_cpu(self.cpu.spec_clear_dest()).fetch_low().fetch_high();
        m.with_cpu(m.cpu.spec_set_mem_dest(m.cpu.fetched_data).spec_set_fetched(m.cpu.spec_reg2()))
    }

    /// MR_D8: the operand is the byte after the opcode, the destination
    /// the address in the first register.
    #[verifier::opaque]
    pub open spec fn fetch_data_mr_d8(self) -> Machine {
        let m = self.with_cpu(self.cpu.spec_clear_dest()).fetch_low();
        m.with_cpu(m.cpu.spec_set_mem_dest(m.cpu.spec_reg1()))
    }

    /// MR: the destination is the address in the first register, the
    /// operand the byte there.
    #[verifier::opaque]
    pub open spec fn fetch_data_mr(self) -> Machine {
        let address = self.cpu.spec_reg1();
        self.with_cpu(self.cpu.spec_clear_dest().spec_set_mem_dest(address)).fetch_from(address)
    }

    /// R_A16: the operand is the byte at the address that the word after
    /// the opcode gives.
    #[verifier::opaque]
    pub open spec fn fetch_data_r_a16(self) -> Machine {
        let m = self.with_cpu(self.cpu.spec_clear_dest()).fetch_low().fetch_high();
        m.fetch_from(m.cpu.fetched_data)
    }

    /// The machine after the operands of the current instruction were
    /// fetched, as its addressing mode asks.
    #[verifier::opaque]
    pub open spec fn fetch_data(self) -> Machine {
        match self.cpu.instr.addr_mode {
            AddrMode::AM_IMP => self.with_cpu(self.cpu.spec_clear_dest()),
            AddrMode::AM_R | AddrMode::AM_R_R => self.fetch_data_reg(),
            AddrMode::AM_R_D8 | AddrMode::AM_D8 | AddrMode::AM_R_A8
            | AddrMode::AM_HL_SPR => self.fetch_data_d8(),
            AddrMode::AM_D16 | AddrMode::AM_R_D16 => self.fetch_data_d16(),
            AddrMode::AM_MR_R => self.fetch_data_mr_r(),
            AddrMode::AM_R_MR => self.fetch_data_r_mr(),
            AddrMode::AM_R_HLI | AddrMode::AM_R_HLD => self.fetch_data_r_hl(),
            AddrMode::AM_HLI_R | AddrMode::AM_HLD_R => self.fetch_data_hl_r(),
            AddrMode::AM_A8_R => self.fetch_data_a8_r(),
            AddrMode::AM_A16_R => self.fetch_data_a16_r(),
            AddrMode::AM_MR_D8 => self.fetch_data_mr_d8(),
            AddrMode::AM_MR => self.fetch_data_mr(),
            AddrMode::AM_R_A16 => self.fetch_data_r_a16(),
        }
    }
}

/// The stack in work RAM or high RAM: a byte that was pushed is the byte
/// that is popped, and the stack pointer is back where it was.
pub proof fn law_stack_round_trip(m: Machine, data: u8)
    requires
        0xC000 < m.cpu.registers.sp <= 0xE000 || 0xFF80 < m.cpu.registers.sp <= 0xFFFF,
    ensures
        m.stack_push(data).stack_top() == data,
        m.stack_push(data).stack_drop().cpu.registers.sp == m.cpu.registers.sp,
{
    reveal(Machine::stack_push);
    reveal(Machine::bus_read);
    reveal(Machine::bus_write);
}

impl CPU {
    /// Decrements the stack pointer, then writes the byte at the address
    /// it holds.
    pub fn stack_push(emu: &mut Emulator, data: u8)
        ensures
            final(emu)@ == old(emu)@.stack_push(data),
            old(emu)@.wf() ==> final(emu)@.wf(),
    {
        proof {
            reveal(Machine::stack_push);
        }
        let sp_val: u16 = sub16(emu.cpu.registers.sp, 1);
        emu.cpu.set_register(&RegType::RT_SP, sp_val);
        bus_write(emu, sp_val, data);
    }

    /// Pushes a 16-bit value onto the stack, high byte first.
    pub fn stack_push16(emu: &mut Emulator, data: u16)
        ensures
            final(emu)@ == old(emu)@.stack_push16(data),
            old(emu)@.wf() ==> final(emu)@.wf(),
    {
        proof {
            reveal(Machine::stack_push16);
        }
        CPU::stack_push(emu, hi(data));
        CPU::stack_push(emu, lo(data));
    }

    /// Reads the byte at the address in the stack pointer, then increments
    /// the stack pointer.
    pub fn stack_pop(emu: &mut Emulator) -> (data: u8)
        ensures
            data == old(emu)@.stack_top(),
            final(emu)@ == old(emu)@.stack_drop(),
            old(emu)@.wf() ==> final(emu)@.wf(),
    {
        let sp_val: u16 = emu.cpu.registers.sp;
        let data: u8 = bus_read(emu, sp_val);
        emu.cpu.set_register(&RegType::RT_SP, add16(sp_val, 1));
        data
    }

    /// Pops a 16-bit value from the stack, low byte first.
    pub fn stack_pop16(emu: &mut Emulator) -> (data: u16)
        ensures
            data == old(emu)@.stack_top16(),
            final(emu)@ == old(emu)@.stack_drop().stack_drop(),
            old(emu)@.wf() ==> final(emu)@.wf(),
    {
        let low: u8 = CPU::stack_pop(emu);
        let high: u8 = CPU::stack_pop(emu);
        word(high, low)
    }

    /// Fetches the opcode at the program counter and decodes it. Returns
    /// false where the opcode names no instruction.
    pub fn fetch_instruction(emu: &mut Emulator) -> (known: bool)
        ensures
            final(emu)@ == old(emu)@.fetch_instruction(),
            known == (spec_decode(old(emu)@.opcode_at_pc()) is Some),
            known ==> final(emu).cpu.instr.wf(),
            old(emu)@.wf() ==> final(emu)@.wf(),
    {
        proof {
            reveal(Machine::fetch_instruction);
        }
        let opcode: u8 = bus_read(emu, emu.cpu.registers.pc);
        emu.cpu.begin_instruction(opcode)
    }

    /// Takes the byte at the program counter as the operand.
    pub fn fetch_low(emu: &mut Emulator)
        ensures
            final(emu)@ == old(emu)@.fetch_low(),
            old(emu).cpu.spec_operand_frame(final(emu).cpu),
            old(emu)@.wf() ==> final(emu)@.wf(),
    {
        proof {
            reveal(Machine::fetch_low);
        }
        let data: u8 = bus_read(emu, emu.cpu.registers.pc);
        emu.cpu.set_fetched(data as u16);
        emu.cpu.increment_pc();
        emu.cycles(1);
    }

    /// Takes the byte at the program counter as the high byte of the
    /// operand.
    pub fn fetch_high(emu: &mut Emulator)
        ensures
            final(emu)@ == old(emu)@.fetch_high(),
            old(emu).cpu.spec_operand_frame(final(emu).cpu),
            old(emu)@.wf() ==> final(emu)@.wf(),
    {
        proof {
            reveal(Machine::fetch_high);
        }
        let data: u8 = bus_read(emu, emu.cpu.registers.pc);
        let value: u16 = word(data, lo(emu.cpu.fetched_data));
        emu.cpu.set_fetched(value);
        emu.cpu.increment_pc();
        emu.cycles(1);
    }

    /// Takes the byte at `address` as the operand.
    pub fn fetch_from(emu: &mut Emulator, address: u16)
        ensures
            final(emu)@ == old(emu)@.fetch_from(address),
            old(emu).cpu.spec_operand_frame(final(emu).cpu),
            final(emu).cpu.registers == old(emu).cpu.registers,
            old(emu)@.wf() ==> final(emu)@.wf(),
    {
        proof {
            reveal(Machine::fetch_from);
        }
        let data: u8 = bus_read(emu, address);
        emu.cpu.set_fetched(data as u16);
        emu.cycles(1);
    }

    fn fetch_data_imp(emu: &mut Emulator)
        requires
            old(emu).cpu.instr.addr_mode == AddrMode::AM_IMP,
        ensures
            final(emu)@ == old(emu)@.fetch_data(),
            old(emu)@.wf() ==> final(emu)@.wf(),
            old(emu).cpu.spec_fetch_frame(final(emu).cpu),
    {
        proof {
            reveal(Machine::fetch_data);
        }
        emu.cpu.clear_dest();
    }

    fn fetch_data_reg(emu: &mut Emulator)
        requires
            old(emu).cpu.instr.addr_mode == AddrMode::AM_R || old(emu).cpu.instr.addr_mode
                == AddrMode::AM_R_R,
            old(emu).cpu.instr.spec_operands_valid(),
        ensures
            final(emu)@ == old(emu)@.fetch_data_reg(),
            old(emu)@.wf() ==> final(emu)@.wf(),
            old(emu).cpu.spec_fetch_frame(final(emu).cpu),
    {
        proof {
            reveal(Machine::fetch_data_reg);
        }
        emu.cpu.clear_dest();
        let reg: RegType = if emu.cpu.instr.addr_mode == AddrMode::AM_R {
            emu.cpu.instr.reg1
        } else {
            emu.cpu.instr.reg2
        };
        let value: u16 = emu.cpu.read_reg(&reg);
        emu.cpu.set_fetched(value);
    }

    fn fetch_data_d8(emu: &mut Emulator)
        requires
            !old(emu).cpu.instr.addr_mode.spec_dest_is_mem(),
        ensures
            final(emu)@ == old(emu)@.fetch_data_d8(),
            old(emu)@.wf() ==> final(emu)@.wf(),
            old(emu).cpu.spec_fetch_frame(final(emu).cpu),
    {
        proof {
            reveal(Machine::fetch_data_d8);
        }
        emu.cpu.clear_dest();
        CPU::fetch_low(emu);
    }

    fn fetch_data_d16(emu: &mut Emulator)
        requires
            !old(emu).cpu.instr.addr_mode.spec_dest_is_mem(),
        ensures
            final(emu)@ == old(emu)@.fetch_data_d16(),
            old(emu)@.wf() ==> final(emu)@.wf(),
            old(emu).cpu.spec_fetch_frame(final(emu).cpu),
    {
        proof {
            reveal(Machine::fetch_data_d16);
        }
        emu.cpu.clear_dest();
        CPU::fetch_low(emu);
        CPU::fetch_high(emu);
    }

    fn fetch_data_mr_r(emu: &mut Emulator)
        requires
            old(emu).cpu.instr.addr_mode == AddrMode::AM_MR_R,
            old(emu).cpu.instr.spec_operands_valid(),
        ensures
            final(emu)@ == old(emu)@.fetch_data_mr_r(),
            old(emu)@.wf() ==> final(emu)@.wf(),
            old(emu).cpu.spec_fetch_frame(final(emu).cpu),
    {
        proof {
            reveal(Machine::fetch_data_mr_r);
        }
        emu.cpu.clear_dest();
        let reg1: RegType = emu.cpu.instr.reg1;
        let reg2: RegType = emu.cpu.instr.reg2;
        let value: u16 = emu.cpu.read_reg(&reg2);
        let address: u16 = emu.cpu.reg_address(&reg1);
        emu.cpu.set_fetched(value);
        emu.cpu.set_mem_dest(address);
    }

    fn fetch_data_r_mr(emu: &mut Emulator)
        requires
            old(emu).cpu.instr.addr_mode == AddrMode::AM_R_MR,
            old(emu).cpu.instr.spec_operands_valid(),
        ensures
            final(emu)@ == old(emu)@.fetch_data_r_mr(),
            old(emu)@.wf() ==> final(emu)@.wf(),
            old(emu).cpu.spec_fetch_frame(final(emu).cpu),
    {
        proof {
            reveal(Machine::fetch_data_r_mr);
        }
        emu.cpu.clear_dest();
        let reg2: RegType = emu.cpu.instr.reg2;
        let address: u16 = emu.cpu.reg_address(&reg2);
        CPU::fetch_from(emu, address);
    }

    fn fetch_data_r_hl(emu: &mut Emulator)
        requires
            old(emu).cpu.instr.addr_mode == AddrMode::AM_R_HLI || old(emu).cpu.instr.addr_mode
                == AddrMode::AM_R_HLD,
        ensures
            final(emu)@ == old(emu)@.fetch_data_r_hl(),
            old(emu)@.wf() ==> final(emu)@.wf(),
            old(emu).cpu.spec_fetch_frame(final(emu).cpu),
    {
        proof {
            reveal(Machine::fetch_data_r_hl);
        }
        emu.cpu.clear_dest();
        let hl_val: u16 = emu.cpu.read_reg(&RegType::RT_HL);
        let next: u16 = if emu.cpu.instr.addr_mode == AddrMode::AM_R_HLI {
            add16(hl_val, 1)
        } else {
            sub16(hl_val, 1)
        };
        CPU::fetch_from(emu, hl_val);
        emu.cpu.set_register(&RegType::RT_HL, next);
    }

    fn fetch_data_hl_r(emu: &mut Emulator)
        requires
            old(emu).cpu.instr.addr_mode == AddrMode::AM_HLI_R || old(emu).cpu.instr.addr_mode
                == AddrMode::AM_HLD_R,
            old(emu).cpu.instr.spec_operands_valid(),
        ensures
            final(emu)@ == old(emu)@.fetch_data_hl_r(),
            old(emu)@.wf() ==> final(emu)@.wf(),
            old(emu).cpu.spec_fetch_frame(final(emu).cpu),
    {
        proof {
            reveal(Machine::fetch_data_hl_r);
        }
        emu.cpu.clear_dest();
        let reg2: RegType = emu.cpu.instr.reg2;
        let value: u16 = emu.cpu.read_reg(&reg2);
        let hl_val: u16 = emu.cpu.read_reg(&RegType::RT_HL);
        let next: u16 = if emu.cpu.instr.addr_mode == AddrMode::AM_HLI_R {
            add16(hl_val, 1)
        } else {
            sub16(hl_val, 1)
        };
        emu.cpu.set_fetched(value);
        emu.cpu.set_mem_dest(hl_val);
        emu.cpu.set_register(&RegType::RT_HL, next);
    }

    fn fetch_data_a8_r(emu: &mut Emulator)
        requires
            old(emu).cpu.instr.addr_mode == AddrMode::AM_A8_R,
        ensures
            final(emu)@ == old(emu)@.fetch_data_a8_r(),
            old(emu)@.wf() ==> final(emu)@.wf(),
            old(emu).cpu.spec_fetch_frame(final(emu).cpu),
    {
        proof {
            reveal(Machine::fetch_data_a8_r);
        }
        let data: u8 = bus_read(emu, emu.cpu.registers.pc);
        emu.cpu.clear_dest();
        emu.cpu.set_mem_dest(high_page(data as u16));
        emu.cpu.increment_pc();
        emu.cycles(1);
    }

    fn fetch_data_a16_r(emu: &mut Emulator)
        requires
            old(emu).cpu.instr.addr_mode == AddrMode::AM_A16_R,
            old(emu).cpu.instr.spec_operands_valid(),
        ensures
            final(emu)@ == old(emu)@.fetch_data_a16_r(),
            old(emu)@.wf() ==> final(emu)@.wf(),
            old(emu).cpu.spec_fetch_frame(final(emu).cpu),
    {
        proof {
            reveal(Machine::fetch_data_a16_r);
        }
        emu.cpu.clear_dest();
        CPU::fetch_low(emu);
        CPU::fetch_high(emu);
        let address: u16 = emu.cpu.fetched_data;
        let reg2: RegType = emu.cpu.instr.reg2;
        let value: u16 = emu.cpu.read_reg(&reg2);
        emu.cpu.set_mem_dest(address);
        emu.cpu.set_fetched(value);
    }

    fn fetch_data_mr_d8(emu: &mut Emulator)
        requires
            old(emu).cpu.instr.addr_mode == AddrMode::AM_MR_D8,
            old(emu).cpu.instr.spec_operands_valid(),
        ensures
            final(emu)@ == old(emu)@.fetch_data_mr_d8(),
            old(emu)@.wf() ==> final(emu)@.wf(),
            old(emu).cpu.spec_fetch_frame(final(emu).cpu),
    {
        proof {
            reveal(Machine::fetch_data_mr_d8);
        }
        emu.cpu.clear_dest();
        CPU::fetch_low(emu);
        let reg1: RegType = emu.cpu.instr.reg1;
        let address: u16 = emu.cpu.read_reg(&reg1);
        emu.cpu.set_mem_dest(address);
    }

    fn fetch_data_mr(emu: &mut Emulator)
        requires
            old(emu).cpu.instr.addr_mode == AddrMode::AM_MR,
            old(emu).cpu.instr.spec_operands_valid(),
        ensures
            final(emu)@ == old(emu)@.fetch_data_mr(),
            old(emu)@.wf() ==> final(emu)@.wf(),
            old(emu).cpu.spec_fetch_frame(final(emu).cpu),
    {
        proof {
            reveal(Machine::fetch_data_mr);
        }
        let reg1: RegType = emu.cpu.instr.reg1;
        let address: u16 = emu.cpu.read_reg(&reg1);
        emu.cpu.clear_dest();
        emu.cpu.set_mem_dest(address);
        CPU::fetch_from(emu, address);
    }

    fn fetch_data_r_a16(emu: &mut Emulator)
        requires
            old(emu).cpu.instr.addr_mode == AddrMode::AM_R_A16,
        ensures
            final(emu)@ == old(emu)@.fetch_data_r_a16(),
            old(emu)@.wf() ==> final(emu)@.wf(),
            old(emu).cpu.spec_fetch_frame(final(emu).cpu),
    {
        proof {
            reveal(Machine::fetch_data_r_a16);
        }
        emu.cpu.clear_dest();
        CPU::fetch_low(emu);
        CPU::fetch_high(emu);
        let address: u16 = emu.cpu.fetched_data;
        CPU::fetch_from(emu, address);
    }

    /// Fetches the operands of the current instruction, as its addressing
    /// mode asks.
    pub fn fetch_data(emu: &mut Emulator)
        requires
            old(emu).cpu.instr.spec_operands_valid(),
        ensures
            final(emu)@ == old(emu)@.fetch_data(),
            old(emu)@.wf() ==> final(emu)@.wf(),
            old(emu).cpu.spec_fetch_frame(final(emu).cpu),
    {
        proof {
            reveal(Machine::fetch_data);
        }
        match emu.cpu.instr.addr_mode {
            AddrMode::AM_IMP => {
                CPU::fetch_data_imp(emu);
            },
            AddrMode::AM_R | AddrMode::AM_R_R => {
                CPU::fetch_data_reg(emu);
            },
            AddrMode::AM_R_D8 | AddrMode::AM_D8 | AddrMode::AM_R_A8 | AddrMode::AM_HL_SPR => {
                CPU::fetch_data_d8(emu);
            },
            AddrMode::AM_D16 | AddrMode::AM_R_D16 => {
                CPU::fetch_data_d16(emu);
            },
            AddrMode::AM_MR_R => {
                CPU::fetch_data_mr_r(emu);
            },
            AddrMode::AM_R_MR => {
                CPU::fetch_data_r_mr(emu);
            },
            AddrMode::AM_R_HLI | AddrMode::AM_R_HLD => {
                CPU::fetch_data_r_hl(emu);
            },
            AddrMode::AM_HLI_R | AddrMode::AM_HLD_R => {
                CPU::fetch_data_hl_r(emu);
            },
            AddrMode::AM_A8_R => {
                CPU::fetch_data_a8_r(emu);
            },
            AddrMode::AM_A16_R => {
                CPU::fetch_data_a16_r(emu);
            },
            AddrMode::AM_MR_D8 => {
                CPU::fetch_data_mr_d8(emu);
            },
            AddrMode::AM_MR => {
                CPU::fetch_data_mr(emu);
            },
            AddrMode::AM_R_A16 => {
                CPU::fetch_data_r_a16(emu);
            },
        }
    }
}

} // verus!

use vstd::prelude::*;
use crate::alu::{
    add_overflows, div_quot, div_rem, divu_quot, divu_rem, left_offset, lwl_merge, lwr_merge,
    right_offset, sra_spec, sub_overflows, swl_merge, swr_merge,
};
use crate::common::{sext16, sext8, signed32, w32};
use crate::coproc::{Coprocessor, Coprocessor0, EmptyCoproc, EmptyCoproc0};
use crate::cpu::{ExceptionCode, ExceptionReport};
use crate::decode::{decode_spec, Coproc, Instruction};
use crate::mem::Mem32;

verus! {

/// A MIPS I processor: the register file and PC bookkeeping, the memory bus,
/// coprocessor 0, and the optional coprocessors of slots 1 to 3.
pub struct MIPSI<
    M: Mem32,
    C0: Coprocessor0 = EmptyCoproc0,
    C1: Coprocessor = EmptyCoproc,
    C2: Coprocessor = EmptyCoproc,
    C3: Coprocessor = EmptyCoproc,
> {
    /// General-purpose registers; entry 0 is never written.
    pub gp_reg: [u32; 32],
    pub hi: u32,
    pub lo: u32,
    /// The address of the instruction to fetch next.
    pub pc: u32,
    /// The address to fetch after that one.
    pub pc_next: u32,
    /// Set when the instruction just executed was a taken branch or a jump,
    /// so that the next one is in its delay slot.
    pub branch_delay: bool,
    /// Whether the instruction in flight is in a delay slot.
    pub in_delay_slot: bool,
    /// The address of the instruction in flight, for exception reports.
    pub current_instr_addr: u32,
    pub mem: M,
    pub coproc0: C0,
    pub coproc1: Option<C1>,
    pub coproc2: Option<C2>,
    pub coproc3: Option<C3>,
}

impl<
    M: Mem32,
    C0: Coprocessor0,
    C1: Coprocessor,
    C2: Coprocessor,
    C3: Coprocessor,
> MIPSI<M, C0, C1, C2, C3> {
    /// General-purpose register `i`; register 0 reads as 0.
    pub open spec fn gpr(self, i: int) -> u32 {
        if i == 0 {
            0
        } else {
            self.gp_reg@[i]
        }
    }

    /// The state with register `i` set to `v`; a write to register 0 is dropped.
    pub open spec fn set_gpr(self, i: int, v: u32) -> Self {
        if i == 0 {
            self
        } else {
            MIPSI { gp_reg: vstd::array::spec_array_update(self.gp_reg, i, v), ..self }
        }
    }

    pub open spec fn set_hi(self, v: u32) -> Self {
        MIPSI { hi: v, ..self }
    }

    pub open spec fn set_lo(self, v: u32) -> Self {
        MIPSI { lo: v, ..self }
    }

    /// The state after register `i` is linked with the return address.
    pub open spec fn link(self, i: int) -> Self {
        self.set_gpr(i, self.pc_next)
    }

    /// Effective address: base register plus sign-extended offset.
    pub open spec fn ea(self, base: usize, imm: u16) -> u32 {
        w32(self.gpr(base as int) + sext16(imm))
    }

    /// The state after a taken branch by the sign-extended offset `imm`,
    /// counted in words from the delay slot.
    pub open spec fn branch_by(self, imm: u16) -> Self {
        MIPSI { pc_next: w32(self.pc + (sext16(imm) << 2u32)), branch_delay: true, ..self }
    }

    /// The state after a jump to `dest`.
    pub open spec fn jump_to(self, dest: u32) -> Self {
        MIPSI { pc_next: dest, branch_delay: true, ..self }
    }

    /// The destination of J and JAL: the 28-bit target within the segment of
    /// the address after the delay slot.
    pub open spec fn segment_target(self, target: u32) -> u32 {
        (self.pc_next & 0xF000_0000) | (target << 2u32)
    }

    /// The report for an exception raised by the instruction in flight.
    pub open spec fn report(self, code: ExceptionCode, bad: u32) -> ExceptionReport {
        ExceptionReport {
            code,
            ret_addr: if self.in_delay_slot {
                w32(self.current_instr_addr - 4)
            } else {
                self.current_instr_addr
            },
            bad_virtual_addr: bad,
            branch_delay: self.in_delay_slot,
        }
    }

    /// The state after an exception is handed to coprocessor 0 and the core
    /// vectors to the handler address it gives.
    pub open spec fn raised(self, code: ExceptionCode, bad: u32) -> Self {
        let report = self.report(code, bad);
        let vector = self.coproc0.exception_vector(report);
        MIPSI {
            coproc0: self.coproc0.after_exception(report),
            pc: vector,
            pc_next: w32(vector + 4),
            branch_delay: false,
            ..self
        }
    }

    /// Whether coprocessor slot `z` is filled; slot 0 always is.
    pub open spec fn usable(self, z: Coproc) -> bool {
        match z {
            Coproc::Cop0 => true,
            Coproc::Cop1 => self.coproc1 is Some,
            Coproc::Cop2 => self.coproc2 is Some,
            Coproc::Cop3 => self.coproc3 is Some,
        }
    }

    /// The state after a load puts `v` in register `rt`, with the bus left as `mem`.
    pub open spec fn loaded(self, mem: M, rt: usize, v: u32) -> Self {
        MIPSI { mem, ..self }.set_gpr(rt as int, v)
    }

    /// The state with the bus replaced by `mem`.
    pub open spec fn with_mem(self, mem: M) -> Self {
        MIPSI { mem, ..self }
    }

    /// The effect of a load instruction.
    pub open spec fn executed_load(self, i: Instruction) -> Self {
        match i {
            Instruction::Lb { base, rt, imm } => {
                let a = self.ea(base, imm);
                self.loaded(self.mem.after_read_byte(a), rt, sext8(self.mem.byte_at(a)))
            },
            Instruction::Lbu { base, rt, imm } => {
                let a = self.ea(base, imm);
                self.loaded(self.mem.after_read_byte(a), rt, self.mem.byte_at(a) as u32)
            },
            Instruction::Lh { base, rt, imm } => {
                let a = self.ea(base, imm);
                if a % 2 != 0 {
                    self.raised(ExceptionCode::AddrErrorLoad, a)
                } else {
                    self.loaded(self.mem.after_read_halfword(a), rt, sext16(self.mem.halfword_at(a)))
                }
            },
            Instruction::Lhu { base, rt, imm } => {
                let a = self.ea(base, imm);
                if a % 2 != 0 {
                    self.raised(ExceptionCode::AddrErrorLoad, a)
                } else {
                    self.loaded(self.mem.after_read_halfword(a), rt, self.mem.halfword_at(a) as u32)
                }
            },
            Instruction::Lw { base, rt, imm } => {
                let a = self.ea(base, imm);
                if a % 4 != 0 {
                    self.raised(ExceptionCode::AddrErrorLoad, a)
                } else {
                    self.loaded(self.mem.after_read_word(a), rt, self.mem.word_at(a))
                }
            },
            Instruction::Lwl { base, rt, imm } => {
                let a = self.ea(base, imm);
                let wa = (a - a % 4) as u32;
                let off = left_offset(a, self.mem.is_little_endian());
                self.loaded(
                    self.mem.after_read_word(wa),
                    rt,
                    lwl_merge(self.gpr(rt as int), self.mem.word_at(wa), off),
                )
            },
            Instruction::Lwr { base, rt, imm } => {
                let a = self.ea(base, imm);
                let wa = (a - a % 4) as u32;
                let off = right_offset(a, self.mem.is_little_endian());
                self.loaded(
                    self.mem.after_read_word(wa),
                    rt,
                    lwr_merge(self.gpr(rt as int), self.mem.word_at(wa), off),
                )
            },
            _ => self,
        }
    }

    /// The effect of a store instruction.
    pub open spec fn executed_store(self, i: Instruction) -> Self {
        match i {
            Instruction::Sb { base, rt, imm } => {
                let a = self.ea(base, imm);
                self.with_mem(self.mem.after_write_byte(a, (self.gpr(rt as int) % 0x100) as u8))
            },
            Instruction::Sh { base, rt, imm } => {
                let a = self.ea(base, imm);
                if a % 2 != 0 {
                    self.raised(ExceptionCode::AddrErrorStore, a)
                } else {
                    self.with_mem(
                        self.mem.after_write_halfword(a, (self.gpr(rt as int) % 0x1_0000) as u16),
                    )
                }
            },
            Instruction::Sw { base, rt, imm } => {
                let a = self.ea(base, imm);
                if a % 4 != 0 {
                    self.raised(ExceptionCode::AddrErrorStore, a)
                } else {
                    self.with_mem(self.mem.after_write_word(a, self.gpr(rt as int)))
                }
            },
            Instruction::Swl { base, rt, imm } => {
                let a = self.ea(base, imm);
                let wa = (a - a % 4) as u32;
                let off = left_offset(a, self.mem.is_little_endian());
                let m1 = self.mem.after_read_word(wa);
                self.with_mem(
                    m1.after_write_word(
                        wa,
                        swl_merge(self.mem.word_at(wa), self.gpr(rt as int), off),
                    ),
                )
            },
            Instruction::Swr { base, rt, imm } => {
                let a = self.ea(base, imm);
                let wa = (a - a % 4) as u32;
                let off = right_offset(a, self.mem.is_little_endian());
                let m1 = self.mem.after_read_word(wa);
                self.with_mem(
                    m1.after_write_word(
                        wa,
                        swr_merge(self.mem.word_at(wa), self.gpr(rt as int), off),
                    ),
                )
            },
            _ => self,
        }
    }

    /// The effect of a coprocessor instruction; an empty slot raises
    /// coprocessor-unusable before anything else happens.
    pub open spec fn executed_cop(self, i: Instruction) -> Self {
        match i {
            Instruction::Mtc { z, rt, rd } => {
                    match z {
                        Coproc::Cop0 => MIPSI { coproc0: self.coproc0.after_move_to_reg(rd, self.gpr(rt as int)), ..self },
                        Coproc::Cop1 => match self.coproc1 {
                            Some(c) => MIPSI { coproc1: Some(c.after_move_to_reg(rd, self.gpr(rt as int))), ..self },
                            None => self.raised(ExceptionCode::CoProcUnusable, 0),
                        },
                        Coproc::Cop2 => match self.coproc2 {
                            Some(c) => MIPSI { coproc2: Some(c.after_move_to_reg(rd, self.gpr(rt as int))), ..self },
                            None => self.raised(ExceptionCode::CoProcUnusable, 0),
                        },
                        Coproc::Cop3 => match self.coproc3 {
                            Some(c) => MIPSI { coproc3: Some(c.after_move_to_reg(rd, self.gpr(rt as int))), ..self },
                            None => self.raised(ExceptionCode::CoProcUnusable, 0),
                        },
                    }
            },
            Instruction::Mfc { z, rt, rd } => {
                    match z {
                        Coproc::Cop0 => MIPSI { coproc0: self.coproc0.after_move_from_reg(rd), ..self }.set_gpr(rt as int, self.coproc0.data_reg(rd)),
                        Coproc::Cop1 => match self.coproc1 {
                            Some(c) => MIPSI { coproc1: Some(c.after_move_from_reg(rd)), ..self }.set_gpr(rt as int, c.data_reg(rd)),
                            None => self.raised(ExceptionCode::CoProcUnusable, 0),
                        },
                        Coproc::Cop2 => match self.coproc2 {
                            Some(c) => MIPSI { coproc2: Some(c.after_move_from_reg(rd)), ..self }.set_gpr(rt as int, c.data_reg(rd)),
                            None => self.raised(ExceptionCode::CoProcUnusable, 0),
                        },
                        Coproc::Cop3 => match self.coproc3 {
                            Some(c) => MIPSI { coproc3: Some(c.after_move_from_reg(rd)), ..self }.set_gpr(rt as int, c.data_reg(rd)),
                            None => self.raised(ExceptionCode::CoProcUnusable, 0),
                        },
                    }
            },
            Instruction::Ctc { z, rt, rd } => {
                    match z {
                        Coproc::Cop0 => self,
                        Coproc::Cop1 => match self.coproc1 {
                            Some(c) => MIPSI { coproc1: Some(c.after_move_to_control(rd, self.gpr(rt as int))), ..self },
                            None => self.raised(ExceptionCode::CoProcUnusable, 0),
                        },
                        Coproc::Cop2 => match self.coproc2 {
                            Some(c) => MIPSI { coproc2: Some(c.after_move_to_control(rd, self.gpr(rt as int))), ..self },
                            None => self.raised(ExceptionCode::CoProcUnusable, 0),
                        },
                        Coproc::Cop3 => match self.coproc3 {
                            Some(c) => MIPSI { coproc3: Some(c.after_move_to_control(rd, self.gpr(rt as int))), ..self },
                            None => self.raised(ExceptionCode::CoProcUnusable, 0),
                        },
                    }
            },
            Instruction::Cfc { z, rt, rd } => {
                    match z {
                        Coproc::Cop0 => self,
                        Coproc::Cop1 => match self.coproc1 {
                            Some(c) => MIPSI { coproc1: Some(c.after_move_from_control(rd)), ..self }.set_gpr(rt as int, c.control_reg(rd)),
                            None => self.raised(ExceptionCode::CoProcUnusable, 0),
                        },
                        Coproc::Cop2 => match self.coproc2 {
                            Some(c) => MIPSI { coproc2: Some(c.after_move_from_control(rd)), ..self }.set_gpr(rt as int, c.control_reg(rd)),
                            None => self.raised(ExceptionCode::CoProcUnusable, 0),
                        },
                        Coproc::Cop3 => match self.coproc3 {
                            Some(c) => MIPSI { coproc3: Some(c.after_move_from_control(rd)), ..self }.set_gpr(rt as int, c.control_reg(rd)),
                            None => self.raised(ExceptionCode::CoProcUnusable, 0),
                        },
                    }
            },
            Instruction::Cop { z, cofun } => {
                    match z {
                        Coproc::Cop0 => MIPSI { coproc0: self.coproc0.after_operation(cofun), ..self },
                        Coproc::Cop1 => match self.coproc1 {
                            Some(c) => MIPSI { coproc1: Some(c.after_operation(cofun)), ..self },
                            None => self.raised(ExceptionCode::CoProcUnusable, 0),
                        },
                        Coproc::Cop2 => match self.coproc2 {
                            Some(c) => MIPSI { coproc2: Some(c.after_operation(cofun)), ..self },
                            None => self.raised(ExceptionCode::CoProcUnusable, 0),
                        },
                        Coproc::Cop3 => match self.coproc3 {
                            Some(c) => MIPSI { coproc3: Some(c.after_operation(cofun)), ..self },
                            None => self.raised(ExceptionCode::CoProcUnusable, 0),
                        },
                    }
            },
            Instruction::Lwc { z, base, rt, imm } => {
                let addr = self.ea(base, imm);
                    match z {
                        Coproc::Cop0 => self,
                        Coproc::Cop1 => match self.coproc1 {
                            Some(c) => if addr % 4 != 0 { self.raised(ExceptionCode::AddrErrorLoad, addr) } else { MIPSI { mem: self.mem.after_read_word(addr), coproc1: Some(c.after_load_from_mem(rt, self.mem.word_at(addr))), ..self } },
                            None => self.raised(ExceptionCode::CoProcUnusable, 0),
                        },
                        Coproc::Cop2 => match self.coproc2 {
                            Some(c) => if addr % 4 != 0 { self.raised(ExceptionCode::AddrErrorLoad, addr) } else { MIPSI { mem: self.mem.after_read_word(addr), coproc2: Some(c.after_load_from_mem(rt, self.mem.word_at(addr))), ..self } },
                            None => self.raised(ExceptionCode::CoProcUnusable, 0),
                        },
                        Coproc::Cop3 => match self.coproc3 {
                            Some(c) => if addr % 4 != 0 { self.raised(ExceptionCode::AddrErrorLoad, addr) } else { MIPSI { mem: self.mem.after_read_word(addr), coproc3: Some(c.after_load_from_mem(rt, self.mem.word_at(addr))), ..self } },
                            None => self.raised(ExceptionCode::CoProcUnusable, 0),
                        },
                    }
            },
            Instruction::Swc { z, base, rt, imm } => {
                let addr = self.ea(base, imm);
                    match z {
                        Coproc::Cop0 => self,
                        Coproc::Cop1 => match self.coproc1 {
                            Some(c) => if addr % 4 != 0 { self.raised(ExceptionCode::AddrErrorStore, addr) } else { MIPSI { mem: self.mem.after_write_word(addr, c.stored_value(rt)), coproc1: Some(c.after_store_to_mem(rt)), ..self } },
                            None => self.raised(ExceptionCode::CoProcUnusable, 0),
                        },
                        Coproc::Cop2 => match self.coproc2 {
                            Some(c) => if addr % 4 != 0 { self.raised(ExceptionCode::AddrErrorStore, addr) } else { MIPSI { mem: self.mem.after_write_word(addr, c.stored_value(rt)), coproc2: Some(c.after_store_to_mem(rt)), ..self } },
                            None => self.raised(ExceptionCode::CoProcUnusable, 0),
                        },
                        Coproc::Cop3 => match self.coproc3 {
                            Some(c) => if addr % 4 != 0 { self.raised(ExceptionCode::AddrErrorStore, addr) } else { MIPSI { mem: self.mem.after_write_word(addr, c.stored_value(rt)), coproc3: Some(c.after_store_to_mem(rt)), ..self } },
                            None => self.raised(ExceptionCode::CoProcUnusable, 0),
                        },
                    }
            },
            _ => self,
        }
    }

    /// The state after the instruction `i` executes. PC bookkeeping for the
    /// fetch is done by the step; this is the instruction's own effect.
    pub open spec fn executed(self, i: Instruction) -> Self {
        match i {
            Instruction::Add { rs, rt, rd } => {
                let (a, b) = (self.gpr(rs as int), self.gpr(rt as int));
                if add_overflows(a, b) {
                    self.raised(ExceptionCode::ArithmeticOverflow, 0)
                } else {
                    self.set_gpr(rd as int, w32(a + b))
                }
            },
            Instruction::Addi { rs, rt, imm } => {
                let (a, b) = (self.gpr(rs as int), sext16(imm));
                if add_overflows(a, b) {
                    self.raised(ExceptionCode::ArithmeticOverflow, 0)
                } else {
                    self.set_gpr(rt as int, w32(a + b))
                }
            },
            Instruction::Sub { rs, rt, rd } => {
                let (a, b) = (self.gpr(rs as int), self.gpr(rt as int));
                if sub_overflows(a, b) {
                    self.raised(ExceptionCode::ArithmeticOverflow, 0)
                } else {
                    self.set_gpr(rd as int, w32(a - b))
                }
            },
            Instruction::Addu { rs, rt, rd } => self.set_gpr(
                rd as int,
                w32(self.gpr(rs as int) + self.gpr(rt as int)),
            ),
            Instruction::Addiu { rs, rt, imm } => self.set_gpr(
                rt as int,
                w32(self.gpr(rs as int) + sext16(imm)),
            ),
            Instruction::Subu { rs, rt, rd } => self.set_gpr(
                rd as int,
                w32(self.gpr(rs as int) - self.gpr(rt as int)),
            ),
            Instruction::Mult { rs, rt } => {
                let p = signed32(self.gpr(rs as int)) * signed32(self.gpr(rt as int));
                self.set_hi(w32(p / 0x1_0000_0000)).set_lo(w32(p))
            },
            Instruction::Multu { rs, rt } => {
                let p = self.gpr(rs as int) as int * self.gpr(rt as int) as int;
                self.set_hi(w32(p / 0x1_0000_0000)).set_lo(w32(p))
            },
            Instruction::Div { rs, rt } => {
                let (a, b) = (self.gpr(rs as int), self.gpr(rt as int));
                self.set_hi(div_rem(a, b)).set_lo(div_quot(a, b))
            },
            Instruction::Divu { rs, rt } => {
                let (a, b) = (self.gpr(rs as int), self.gpr(rt as int));
                self.set_hi(divu_rem(a, b)).set_lo(divu_quot(a, b))
            },
            Instruction::Mfhi { rd } => self.set_gpr(rd as int, self.hi),
            Instruction::Mflo { rd } => self.set_gpr(rd as int, self.lo),
            Instruction::Mthi { rs } => self.set_hi(self.gpr(rs as int)),
            Instruction::Mtlo { rs } => self.set_lo(self.gpr(rs as int)),
            Instruction::And { rs, rt, rd } => self.set_gpr(
                rd as int,
                self.gpr(rs as int) & self.gpr(rt as int),
            ),
            Instruction::Or { rs, rt, rd } => self.set_gpr(
                rd as int,
                self.gpr(rs as int) | self.gpr(rt as int),
            ),
            Instruction::Xor { rs, rt, rd } => self.set_gpr(
                rd as int,
                self.gpr(rs as int) ^ self.gpr(rt as int),
            ),
            Instruction::Nor { rs, rt, rd } => self.set_gpr(
                rd as int,
                !(self.gpr(rs as int) | self.gpr(rt as int)),
            ),
            Instruction::Andi { rs, rt, imm } => self.set_gpr(
                rt as int,
                self.gpr(rs as int) & (imm as u32),
            ),
            Instruction::Ori { rs, rt, imm } => self.set_gpr(
                rt as int,
                self.gpr(rs as int) | (imm as u32),
            ),
            Instruction::Xori { rs, rt, imm } => self.set_gpr(
                rt as int,
                self.gpr(rs as int) ^ (imm as u32),
            ),
            Instruction::Sll { rt, rd, sa } => self.set_gpr(
                rd as int,
                self.gpr(rt as int) << (sa as u32),
            ),
            Instruction::Srl { rt, rd, sa } => self.set_gpr(
                rd as int,
                self.gpr(rt as int) >> (sa as u32),
            ),
            Instruction::Sra { rt, rd, sa } => self.set_gpr(
                rd as int,
                sra_spec(self.gpr(rt as int), sa as u32),
            ),
            Instruction::Sllv { rs, rt, rd } => self.set_gpr(
                rd as int,
                self.gpr(rt as int) << (self.gpr(rs as int) & 0x1F),
            ),
            Instruction::Srlv { rs, rt, rd } => self.set_gpr(
                rd as int,
                self.gpr(rt as int) >> (self.gpr(rs as int) & 0x1F),
            ),
            Instruction::Srav { rs, rt, rd } => self.set_gpr(
                rd as int,
                sra_spec(self.gpr(rt as int), self.gpr(rs as int) & 0x1F),
            ),
            Instruction::Slt { rs, rt, rd } => self.set_gpr(
                rd as int,
                if signed32(self.gpr(rs as int)) < signed32(self.gpr(rt as int)) {
                    1
                } else {
                    0
                },
            ),
            Instruction::Sltu { rs, rt, rd } => self.set_gpr(
                rd as int,
                if self.gpr(rs as int) < self.gpr(rt as int) {
                    1
                } else {
                    0
                },
            ),
            Instruction::Slti { rs, rt, imm } => self.set_gpr(
                rt as int,
                if signed32(self.gpr(rs as int)) < signed32(sext16(imm)) {
                    1
                } else {
                    0
                },
            ),
            Instruction::Sltiu { rs, rt, imm } => self.set_gpr(
                rt as int,
                if self.gpr(rs as int) < sext16(imm) {
                    1
                } else {
                    0
                },
            ),
            Instruction::Lui { rt, imm } => self.set_gpr(rt as int, (imm as u32) << 16u32),
            Instruction::Beq { rs, rt, imm } => if self.gpr(rs as int) == self.gpr(rt as int) {
                self.branch_by(imm)
            } else {
                self
            },
            Instruction::Bne { rs, rt, imm } => if self.gpr(rs as int) != self.gpr(rt as int) {
                self.branch_by(imm)
            } else {
                self
            },
            Instruction::Blez { rs, imm } => if signed32(self.gpr(rs as int)) <= 0 {
                self.branch_by(imm)
            } else {
                self
            },
            Instruction::Bgtz { rs, imm } => if signed32(self.gpr(rs as int)) > 0 {
                self.branch_by(imm)
            } else {
                self
            },
            Instruction::Bltz { rs, imm } => if signed32(self.gpr(rs as int)) < 0 {
                self.branch_by(imm)
            } else {
                self
            },
            Instruction::Bgez { rs, imm } => if signed32(self.gpr(rs as int)) >= 0 {
                self.branch_by(imm)
            } else {
                self
            },
            Instruction::Bltzal { rs, imm } => {
                let s = self.link(31);
                if signed32(s.gpr(rs as int)) < 0 {
                    s.branch_by(imm)
                } else {
                    s
                }
            },
            Instruction::Bgezal { rs, imm } => {
                let s = self.link(31);
                if signed32(s.gpr(rs as int)) >= 0 {
                    s.branch_by(imm)
                } else {
                    s
                }
            },
            Instruction::J { target } => self.jump_to(self.segment_target(target)),
            Instruction::Jal { target } => {
                let s = self.link(31);
                s.jump_to(s.segment_target(target))
            },
            Instruction::Jr { rs } => self.jump_to(self.gpr(rs as int)),
            Instruction::Jalr { rs, rd } => {
                let s = self.link(rd as int);
                s.jump_to(s.gpr(rs as int))
            },
            Instruction::Syscall => self.raised(ExceptionCode::Syscall, 0),
            Instruction::Break => self.raised(ExceptionCode::Breakpoint, 0),
            Instruction::Lb { .. }
            | Instruction::Lbu { .. }
            | Instruction::Lh { .. }
            | Instruction::Lhu { .. }
            | Instruction::Lw { .. }
            | Instruction::Lwl { .. }
            | Instruction::Lwr { .. } => self.executed_load(i),
            Instruction::Sb { .. }
            | Instruction::Sh { .. }
            | Instruction::Sw { .. }
            | Instruction::Swl { .. }
            | Instruction::Swr { .. } => self.executed_store(i),
            Instruction::Mtc { .. }
            | Instruction::Mfc { .. }
            | Instruction::Ctc { .. }
            | Instruction::Cfc { .. }
            | Instruction::Cop { .. }
            | Instruction::Lwc { .. }
            | Instruction::Swc { .. } => self.executed_cop(i),
        }
    }

    /// The state after the bus is clocked for one cycle and coprocessor 0 is
    /// shown the raised interrupt lines, taking an interrupt if it asks for one.
    pub open spec fn ticked(self) -> Self {
        let lines = self.mem.raised_lines(1);
        let s = MIPSI {
            mem: self.mem.after_clock(1),
            coproc0: self.coproc0.after_external_interrupt(lines),
            ..self
        };
        if self.coproc0.interrupt_taken(lines) {
            s.raised(ExceptionCode::Interrupt, 0)
        } else {
            s
        }
    }

    /// The state once the step has snapshotted the fetch address, shifted
    /// the pipeline and cleared the delay flag, remembering it.
    pub open spec fn advanced(self) -> Self {
        MIPSI {
            current_instr_addr: self.pc,
            pc: self.pc_next,
            pc_next: w32(self.pc_next + 4),
            in_delay_slot: self.branch_delay,
            branch_delay: false,
            ..self
        }
    }

    /// The advanced state, with the bus as the instruction fetch leaves it.
    pub open spec fn fetched(self) -> Self {
        self.advanced().with_mem(self.mem.after_read_word(self.pc))
    }

    /// The instruction the step fetches, if it decodes.
    pub open spec fn fetched_instr(self) -> Option<Instruction> {
        decode_spec(self.mem.word_at(self.pc))
    }

    /// The state after the fetched instruction has executed, before the clock.
    pub open spec fn executed_step(self) -> Self {
        if self.pc % 4 != 0 {
            self.advanced().raised(ExceptionCode::AddrErrorLoad, self.pc)
        } else {
            match self.fetched_instr() {
                Some(i) => self.fetched().executed(i),
                None => self.fetched().raised(ExceptionCode::ReservedInstruction, 0),
            }
        }
    }

    /// The state after one fetch/advance/execute/clock cycle.
    pub open spec fn step_spec(self) -> Self {
        self.executed_step().ticked()
    }

    /// Whether clocking the bus from this state makes coprocessor 0 take an interrupt.
    pub open spec fn interrupts(self) -> bool {
        self.coproc0.interrupt_taken(self.mem.raised_lines(1))
    }

    /// Whether executing `i` from this state raises an exception.
    pub open spec fn traps(self, i: Instruction) -> bool {
        match i {
            Instruction::Add { rs, rt, .. } => add_overflows(self.gpr(rs as int), self.gpr(rt as int)),
            Instruction::Addi { rs, imm, .. } => add_overflows(self.gpr(rs as int), sext16(imm)),
            Instruction::Sub { rs, rt, .. } => sub_overflows(self.gpr(rs as int), self.gpr(rt as int)),
            Instruction::Syscall | Instruction::Break => true,
            Instruction::Lh { base, imm, .. }
            | Instruction::Lhu { base, imm, .. }
            | Instruction::Sh { base, imm, .. } => self.ea(base, imm) % 2 != 0,
            Instruction::Lw { base, imm, .. } | Instruction::Sw { base, imm, .. } => self.ea(base, imm)
                % 4 != 0,
            Instruction::Mtc { z, .. }
            | Instruction::Mfc { z, .. }
            | Instruction::Ctc { z, .. }
            | Instruction::Cfc { z, .. }
            | Instruction::Cop { z, .. } => !self.usable(z),
            Instruction::Lwc { z, base, imm, .. } | Instruction::Swc { z, base, imm, .. } => !self.usable(z)
                || self.ea(base, imm) % 4 != 0,
            _ => false,
        }
    }

    /// Whether `i`, executed from this state, is a taken branch or a jump.
    pub open spec fn transfers(self, i: Instruction) -> bool {
        match i {
            Instruction::Beq { rs, rt, .. } => self.gpr(rs as int) == self.gpr(rt as int),
            Instruction::Bne { rs, rt, .. } => self.gpr(rs as int) != self.gpr(rt as int),
            Instruction::Blez { rs, .. } => signed32(self.gpr(rs as int)) <= 0,
            Instruction::Bgtz { rs, .. } => signed32(self.gpr(rs as int)) > 0,
            Instruction::Bltz { rs, .. } => signed32(self.gpr(rs as int)) < 0,
            Instruction::Bgez { rs, .. } => signed32(self.gpr(rs as int)) >= 0,
            Instruction::Bltzal { rs, .. } => signed32(self.link(31).gpr(rs as int)) < 0,
            Instruction::Bgezal { rs, .. } => signed32(self.link(31).gpr(rs as int)) >= 0,
            Instruction::J { .. }
            | Instruction::Jal { .. }
            | Instruction::Jr { .. }
            | Instruction::Jalr { .. } => true,
            _ => false,
        }
    }

    /// Whether a step from this state raises an exception: a misaligned
    /// fetch, an undecodable word, a trapping instruction, or an interrupt.
    pub open spec fn step_traps(self) -> bool {
        ||| self.pc % 4 != 0
        ||| self.fetched_instr() is None
        ||| (self.fetched_instr() matches Some(i) && self.fetched().traps(i))
        ||| self.executed_step().interrupts()
    }
}

impl<M: Mem32> MIPSI<M, EmptyCoproc0, EmptyCoproc, EmptyCoproc, EmptyCoproc> {
    /// Start building a MIPS I processor around a memory bus.
    ///
    /// Use the builder to add any coprocessors desired, then call `build`.
    pub fn with_memory(mem: Box<M>) -> (r: MIPSIBuilder<M>)
        ensures
            r.mem == *mem,
            r.coproc0 == (EmptyCoproc0 {  }),
            r.coproc1 is None,
            r.coproc2 is None,
            r.coproc3 is None,
    {
        MIPSIBuilder { mem: *mem, coproc0: EmptyCoproc0 {  }, coproc1: None, coproc2: None, coproc3: None }
    }
}

/// Wires a memory bus and coprocessors into a `MIPSI`.
pub struct MIPSIBuilder<
    M: Mem32,
    C0: Coprocessor0 = EmptyCoproc0,
    C1: Coprocessor = EmptyCoproc,
    C2: Coprocessor = EmptyCoproc,
    C3: Coprocessor = EmptyCoproc,
> {
    pub mem: M,
    pub coproc0: C0,
    pub coproc1: Option<C1>,
    pub coproc2: Option<C2>,
    pub coproc3: Option<C3>,
}

impl<
    M: Mem32,
    C0: Coprocessor0,
    C1: Coprocessor,
    C2: Coprocessor,
    C3: Coprocessor,
> MIPSIBuilder<M, C0, C1, C2, C3> {
    /// Put a coprocessor in slot 0.
    pub fn add_coproc0<N: Coprocessor0>(self, coproc0: N) -> (r: MIPSIBuilder<M, N, C1, C2, C3>)
        ensures
            r == (MIPSIBuilder {
                mem: self.mem,
                coproc0,
                coproc1: self.coproc1,
                coproc2: self.coproc2,
                coproc3: self.coproc3,
            }),
    {
        MIPSIBuilder {
            mem: self.mem,
            coproc0,
            coproc1: self.coproc1,
            coproc2: self.coproc2,
            coproc3: self.coproc3,
        }
    }

    /// Put a coprocessor in slot 1.
    pub fn add_coproc1<N: Coprocessor>(self, coproc1: N) -> (r: MIPSIBuilder<M, C0, N, C2, C3>)
        ensures
            r == (MIPSIBuilder {
                mem: self.mem,
                coproc0: self.coproc0,
                coproc1: Some(coproc1),
                coproc2: self.coproc2,
                coproc3: self.coproc3,
            }),
    {
        MIPSIBuilder {
            mem: self.mem,
            coproc0: self.coproc0,
            coproc1: Some(coproc1),
            coproc2: self.coproc2,
            coproc3: self.coproc3,
        }
    }

    /// Put a coprocessor in slot 2.
    pub fn add_coproc2<N: Coprocessor>(self, coproc2: N) -> (r: MIPSIBuilder<M, C0, C1, N, C3>)
        ensures
            r == (MIPSIBuilder {
                mem: self.mem,
                coproc0: self.coproc0,
                coproc1: self.coproc1,
                coproc2: Some(coproc2),
                coproc3: self.coproc3,
            }),
    {
        MIPSIBuilder {
            mem: self.mem,
            coproc0: self.coproc0,
            coproc1: self.coproc1,
            coproc2: Some(coproc2),
            coproc3: self.coproc3,
        }
    }

    /// Put a coprocessor in slot 3.
    pub fn add_coproc3<N: Coprocessor>(self, coproc3: N) -> (r: MIPSIBuilder<M, C0, C1, C2, N>)
        ensures
            r == (MIPSIBuilder {
                mem: self.mem,
                coproc0: self.coproc0,
                coproc1: self.coproc1,
                coproc2: self.coproc2,
                coproc3: Some(coproc3),
            }),
    {
        MIPSIBuilder {
            mem: self.mem,
            coproc0: self.coproc0,
            coproc1: self.coproc1,
            coproc2: self.coproc2,
            coproc3: Some(coproc3),
        }
    }

    /// Make the processor, in its power-on state: registers zero, PC at 0.
    pub fn build(self) -> (r: MIPSI<M, C0, C1, C2, C3>)
        ensures
            forall|i: int| 0 <= i < 32 ==> r.gpr(i) == 0,
            r.hi == 0 && r.lo == 0,
            r.pc == 0 && r.pc_next == 4,
            !r.branch_delay && !r.in_delay_slot && r.current_instr_addr == 0,
            r.mem == self.mem && r.coproc0 == self.coproc0,
            r.coproc1 == self.coproc1 && r.coproc2 == self.coproc2 && r.coproc3 == self.coproc3,
    {
        MIPSI::new(self.mem, self.coproc0, self.coproc1, self.coproc2, self.coproc3)
    }
}

impl<
    M: Mem32,
    C0: Coprocessor0,
    C1: Coprocessor,
    C2: Coprocessor,
    C3: Coprocessor,
> MIPSI<M, C0, C1, C2, C3> {
    /// The address of the next instruction to fetch.
    pub fn pc(&self) -> (r: u32)
        ensures
            r == self.pc,
    {
        self.pc
    }

    /// The address to fetch after the next instruction.
    pub fn pc_next(&self) -> (r: u32)
        ensures
            r == self.pc_next,
    {
        self.pc_next
    }

    /// Whether the next instruction sits in a branch delay slot.
    pub fn branch_delay(&self) -> (r: bool)
        ensures
            r == self.branch_delay,
    {
        self.branch_delay
    }

    /// Borrow the memory bus.
    pub fn mem(&mut self) -> (r: &mut M)
        ensures
            *r == old(self).mem,
            *final(self) == old(self).with_mem(*final(r)),
    {
        &mut self.mem
    }

    /// Borrow coprocessor 0.
    pub fn coproc_0(&mut self) -> (r: &mut C0)
        ensures
            *r == old(self).coproc0,
            *final(self) == (MIPSI { coproc0: *final(r), ..*old(self) }),
    {
        &mut self.coproc0
    }

    /// Borrow coprocessor 1, if slot 1 is filled.
    pub fn coproc_1(&mut self) -> (r: Option<&mut C1>)
        ensures
            (r is Some) == (old(self).coproc1 is Some),
            r matches Some(c) ==> old(self).coproc1 == Some(*c) && *final(self) == (MIPSI {
                coproc1: Some(*final(c)),
                ..*old(self)
            }),
            r is None ==> *final(self) == *old(self),
    {
        match &mut self.coproc1 {
            Some(c) => Some(c),
            None => None,
        }
    }

    /// Borrow coprocessor 2, if slot 2 is filled.
    pub fn coproc_2(&mut self) -> (r: Option<&mut C2>)
        ensures
            (r is Some) == (old(self).coproc2 is Some),
            r matches Some(c) ==> old(self).coproc2 == Some(*c) && *final(self) == (MIPSI {
                coproc2: Some(*final(c)),
                ..*old(self)
            }),
            r is None ==> *final(self) == *old(self),
    {
        match &mut self.coproc2 {
            Some(c) => Some(c),
            None => None,
        }
    }

    /// Borrow coprocessor 3, if slot 3 is filled.
    pub fn coproc_3(&mut self) -> (r: Option<&mut C3>)
        ensures
            (r is Some) == (old(self).coproc3 is Some),
            r matches Some(c) ==> old(self).coproc3 == Some(*c) && *final(self) == (MIPSI {
                coproc3: Some(*final(c)),
                ..*old(self)
            }),
            r is None ==> *final(self) == *old(self),
    {
        match &mut self.coproc3 {
            Some(c) => Some(c),
            None => None,
        }
    }
}

} // verus!

use vstd::prelude::*;
use crate::alu::{
    abs, add_overflows, div_quot, div_rem, left_keep, lwl_merge, lwr_merge, right_keep, sra_spec,
    sub_overflows, swl_merge, swr_merge,
};
use crate::common::{sign_extend_16, sign_extend_8, signed32, w32};
use crate::coproc::{Coprocessor, Coprocessor0};
use crate::cpu::{ExceptionCode, ExceptionReport, MIPSCore};
use crate::decode::{decode, Coproc, Instruction};
use crate::mem::Mem32;
use crate::mips1::MIPSI;

verus! {

proof fn lemma_wrapping_add(a: u32, b: u32)
    ensures
        a.wrapping_add(b) == w32(a + b),
{
}

proof fn lemma_wrapping_sub(a: u32, b: u32)
    ensures
        a.wrapping_sub(b) == w32(a - b),
{
}

impl<
    M: Mem32,
    C0: Coprocessor0,
    C1: Coprocessor,
    C2: Coprocessor,
    C3: Coprocessor,
> MIPSI<M, C0, C1, C2, C3> {
    /// Make a new processor: registers zero, PC at 0, PC_next at 4.
    pub fn new(mem: M, coproc0: C0, coproc1: Option<C1>, coproc2: Option<C2>, coproc3: Option<C3>) -> (r: Self)
        ensures
            forall|i: int| 0 <= i < 32 ==> r.gpr(i) == 0,
            r.hi == 0 && r.lo == 0,
            r.pc == 0 && r.pc_next == 4,
            !r.branch_delay && !r.in_delay_slot && r.current_instr_addr == 0,
            r.mem == mem && r.coproc0 == coproc0,
            r.coproc1 == coproc1 && r.coproc2 == coproc2 && r.coproc3 == coproc3,
    {
        MIPSI {
            gp_reg: [0u32; 32],
            hi: 0,
            lo: 0,
            pc: 0,
            pc_next: 4,
            branch_delay: false,
            in_delay_slot: false,
            current_instr_addr: 0,
            mem,
            coproc0,
            coproc1,
            coproc2,
            coproc3,
        }
    }

    /// Read a general-purpose register; register 0 reads as 0.
    pub fn read_gp(&self, reg: usize) -> (r: u32)
        requires
            reg < 32,
        ensures
            r == self.gpr(reg as int),
    {
        if reg == 0 {
            0
        } else {
            self.gp_reg[reg]
        }
    }

    /// Write a general-purpose register; a write to register 0 is dropped.
    pub fn write_gp(&mut self, reg: usize, val: u32)
        requires
            reg < 32,
        ensures
            *final(self) == old(self).set_gpr(reg as int, val),
    {
        if reg != 0 {
            self.gp_reg[reg] = val;
            assert(self.gp_reg =~= vstd::array::spec_array_update(old(self).gp_reg, reg as int, val));
        }
    }

    pub fn read_hi(&self) -> (r: u32)
        ensures
            r == self.hi,
    {
        self.hi
    }

    pub fn write_hi(&mut self, val: u32)
        ensures
            *final(self) == old(self).set_hi(val),
    {
        self.hi = val;
    }

    pub fn read_lo(&self) -> (r: u32)
        ensures
            r == self.lo,
    {
        self.lo
    }

    pub fn write_lo(&mut self, val: u32)
        ensures
            *final(self) == old(self).set_lo(val),
    {
        self.lo = val;
    }

    /// Link the specified register with the return address.
    pub fn link_register(&mut self, reg: usize)
        requires
            reg < 32,
        ensures
            *final(self) == old(self).link(reg as int),
    {
        let ret = self.pc_next;
        self.write_gp(reg, ret);
    }

    /// Set the next PC to the delay slot's address plus `offset` (a taken branch).
    pub fn branch(&mut self, offset: u32)
        ensures
            *final(self) == (MIPSI {
                pc_next: w32(old(self).pc + offset),
                branch_delay: true,
                ..*old(self)
            }),
    {
        proof {
            lemma_wrapping_add(self.pc, offset);
        }
        self.pc_next = self.pc.wrapping_add(offset);
        self.branch_delay = true;
    }

    /// Set the next PC to `dest` (a jump).
    pub fn jump(&mut self, dest: u32)
        ensures
            *final(self) == old(self).jump_to(dest),
    {
        self.pc_next = dest;
        self.branch_delay = true;
    }

    /// Hand an exception to coprocessor 0 and vector to the handler it gives.
    fn raise(&mut self, code: ExceptionCode, bad: u32)
        ensures
            *final(self) == old(self).raised(code, bad),
    {
        proof {
            lemma_wrapping_sub(self.current_instr_addr, 4);
        }
        let ret_addr = if self.in_delay_slot {
            self.current_instr_addr.wrapping_sub(4)
        } else {
            self.current_instr_addr
        };
        let report = ExceptionReport {
            code,
            ret_addr,
            bad_virtual_addr: bad,
            branch_delay: self.in_delay_slot,
        };
        let vector = self.coproc0.trigger_exception(&report);
        proof {
            lemma_wrapping_add(vector, 4);
        }
        self.pc = vector;
        self.pc_next = vector.wrapping_add(4);
        self.branch_delay = false;
    }

    /// Trigger an exception that carries no faulting address.
    pub fn trigger_exception(&mut self, exception: ExceptionCode)
        ensures
            *final(self) == old(self).raised(exception, 0),
    {
        self.raise(exception, 0);
    }

    // Arithmetic

    /// Add signed; traps on signed overflow without writing the destination.
    pub fn add(&mut self, src_reg: usize, tgt_reg: usize, dst_reg: usize)
        requires
            src_reg < 32,
            tgt_reg < 32,
            dst_reg < 32,
        ensures
            *final(self) == old(self).executed(
                Instruction::Add { rs: src_reg, rt: tgt_reg, rd: dst_reg },
            ),
    {
        let source = self.read_gp(src_reg);
        let target = self.read_gp(tgt_reg);
        if overflows_add(source, target) {
            self.raise(ExceptionCode::ArithmeticOverflow, 0);
        } else {
            proof {
                lemma_wrapping_add(source, target);
            }
            self.write_gp(dst_reg, source.wrapping_add(target));
        }
    }

    /// Add immediate signed; traps on signed overflow without writing the target.
    pub fn addi(&mut self, src_reg: usize, tgt_reg: usize, imm: u16)
        requires
            src_reg < 32,
            tgt_reg < 32,
        ensures
            *final(self) == old(self).executed(Instruction::Addi { rs: src_reg, rt: tgt_reg, imm }),
    {
        let source = self.read_gp(src_reg);
        let imm_32 = sign_extend_16(imm);
        if overflows_add(source, imm_32) {
            self.raise(ExceptionCode::ArithmeticOverflow, 0);
        } else {
            proof {
                lemma_wrapping_add(source, imm_32);
            }
            self.write_gp(tgt_reg, source.wrapping_add(imm_32));
        }
    }

    /// Add unsigned: wraps, never traps.
    pub fn addu(&mut self, src_reg: usize, tgt_reg: usize, dst_reg: usize)
        requires
            src_reg < 32,
            tgt_reg < 32,
            dst_reg < 32,
        ensures
            *final(self) == old(self).executed(
                Instruction::Addu { rs: src_reg, rt: tgt_reg, rd: dst_reg },
            ),
    {
        let source = self.read_gp(src_reg);
        let target = self.read_gp(tgt_reg);
        proof {
            lemma_wrapping_add(source, target);
        }
        self.write_gp(dst_reg, source.wrapping_add(target));
    }

    /// Add immediate unsigned: wraps, never traps.
    pub fn addiu(&mut self, src_reg: usize, tgt_reg: usize, imm: u16)
        requires
            src_reg < 32,
            tgt_reg < 32,
        ensures
            *final(self) == old(self).executed(Instruction::Addiu { rs: src_reg, rt: tgt_reg, imm }),
    {
        let source = self.read_gp(src_reg);
        let imm_32 = sign_extend_16(imm);
        proof {
            lemma_wrapping_add(source, imm_32);
        }
        self.write_gp(tgt_reg, source.wrapping_add(imm_32));
    }

    /// Subtract signed; traps on signed overflow without writing the destination.
    pub fn sub(&mut self, src_reg: usize, tgt_reg: usize, dst_reg: usize)
        requires
            src_reg < 32,
            tgt_reg < 32,
            dst_reg < 32,
        ensures
            *final(self) == old(self).executed(
                Instruction::Sub { rs: src_reg, rt: tgt_reg, rd: dst_reg },
            ),
    {
        let source = self.read_gp(src_reg);
        let target = self.read_gp(tgt_reg);
        if overflows_sub(source, target) {
            self.raise(ExceptionCode::ArithmeticOverflow, 0);
        } else {
            proof {
                lemma_wrapping_sub(source, target);
            }
            self.write_gp(dst_reg, source.wrapping_sub(target));
        }
    }

    /// Subtract unsigned: wraps, never traps.
    pub fn subu(&mut self, src_reg: usize, tgt_reg: usize, dst_reg: usize)
        requires
            src_reg < 32,
            tgt_reg < 32,
            dst_reg < 32,
        ensures
            *final(self) == old(self).executed(
                Instruction::Subu { rs: src_reg, rt: tgt_reg, rd: dst_reg },
            ),
    {
        let source = self.read_gp(src_reg);
        let target = self.read_gp(tgt_reg);
        proof {
            lemma_wrapping_sub(source, target);
        }
        self.write_gp(dst_reg, source.wrapping_sub(target));
    }
    // Multiplication/division

    /// Multiply signed: HI and LO take the high and low words of the 64-bit product.
    pub fn mult(&mut self, src_reg: usize, tgt_reg: usize)
        requires
            src_reg < 32,
            tgt_reg < 32,
        ensures
            *final(self) == old(self).executed(Instruction::Mult { rs: src_reg, rt: tgt_reg }),
    {
        let source = self.read_gp(src_reg);
        let target = self.read_gp(tgt_reg);
        let a = crate::common::sign_extend_32(source);
        let b = crate::common::sign_extend_32(target);
        proof {
            assert(-0x8000_0000 <= a <= 0x7FFF_FFFF && -0x8000_0000 <= b <= 0x7FFF_FFFF ==> -0x4000_0000_0000_0000
                <= a * b <= 0x4000_0000_0000_0000) by (nonlinear_arith);
        }
        let p = a * b;
        let u: u64 = if p >= 0 {
            p as u64
        } else {
            (p + 0x4000_0000_0000_0000) as u64 + 0xC000_0000_0000_0000
        };
        proof {
            lemma_product_words(p as int, u);
        }
        self.write_hi(crate::common::hi64(u));
        self.write_lo(crate::common::lo64(u));
    }

    /// Multiply unsigned: HI and LO take the high and low words of the 64-bit product.
    pub fn multu(&mut self, src_reg: usize, tgt_reg: usize)
        requires
            src_reg < 32,
            tgt_reg < 32,
        ensures
            *final(self) == old(self).executed(Instruction::Multu { rs: src_reg, rt: tgt_reg }),
    {
        let source = self.read_gp(src_reg);
        let target = self.read_gp(tgt_reg);
        let a = source as u64;
        let b = target as u64;
        proof {
            assert(a < 0x1_0000_0000 && b < 0x1_0000_0000 ==> a * b < 0x1_0000_0000_0000_0000)
                by (nonlinear_arith);
        }
        let p = a * b;
        proof {
            lemma_product_words(p as int, p);
        }
        self.write_hi(crate::common::hi64(p));
        self.write_lo(crate::common::lo64(p));
    }

    /// Divide signed: LO takes the quotient rounded toward zero, HI the remainder.
    pub fn div(&mut self, src_reg: usize, tgt_reg: usize)
        requires
            src_reg < 32,
            tgt_reg < 32,
        ensures
            *final(self) == old(self).executed(Instruction::Div { rs: src_reg, rt: tgt_reg }),
    {
        let source = self.read_gp(src_reg);
        let target = self.read_gp(tgt_reg);
        let (q, r) = divide_signed(source, target);
        self.write_hi(r);
        self.write_lo(q);
    }

    /// Divide unsigned: LO takes the quotient, HI the remainder.
    pub fn divu(&mut self, src_reg: usize, tgt_reg: usize)
        requires
            src_reg < 32,
            tgt_reg < 32,
        ensures
            *final(self) == old(self).executed(Instruction::Divu { rs: src_reg, rt: tgt_reg }),
    {
        let source = self.read_gp(src_reg);
        let target = self.read_gp(tgt_reg);
        if target == 0 {
            self.write_hi(source);
            self.write_lo(0xFFFF_FFFF);
        } else {
            self.write_hi(source % target);
            self.write_lo(source / target);
        }
    }

    /// Move from HI.
    pub fn mfhi(&mut self, dst_reg: usize)
        requires
            dst_reg < 32,
        ensures
            *final(self) == old(self).executed(Instruction::Mfhi { rd: dst_reg }),
    {
        let v = self.read_hi();
        self.write_gp(dst_reg, v);
    }

    /// Move to HI.
    pub fn mthi(&mut self, src_reg: usize)
        requires
            src_reg < 32,
        ensures
            *final(self) == old(self).executed(Instruction::Mthi { rs: src_reg }),
    {
        let v = self.read_gp(src_reg);
        self.write_hi(v);
    }

    /// Move from LO.
    pub fn mflo(&mut self, dst_reg: usize)
        requires
            dst_reg < 32,
        ensures
            *final(self) == old(self).executed(Instruction::Mflo { rd: dst_reg }),
    {
        let v = self.read_lo();
        self.write_gp(dst_reg, v);
    }

    /// Move to LO.
    pub fn mtlo(&mut self, src_reg: usize)
        requires
            src_reg < 32,
        ensures
            *final(self) == old(self).executed(Instruction::Mtlo { rs: src_reg }),
    {
        let v = self.read_gp(src_reg);
        self.write_lo(v);
    }

    // Logic

    /// Bitwise and.
    pub fn and(&mut self, src_reg: usize, tgt_reg: usize, dst_reg: usize)
        requires
            src_reg < 32,
            tgt_reg < 32,
            dst_reg < 32,
        ensures
            *final(self) == old(self).executed(
                Instruction::And { rs: src_reg, rt: tgt_reg, rd: dst_reg },
            ),
    {
        let source = self.read_gp(src_reg);
        let target = self.read_gp(tgt_reg);
        self.write_gp(dst_reg, source & target);
    }

    /// Bitwise and with the zero-extended immediate.
    pub fn andi(&mut self, src_reg: usize, tgt_reg: usize, imm: u16)
        requires
            src_reg < 32,
            tgt_reg < 32,
        ensures
            *final(self) == old(self).executed(Instruction::Andi { rs: src_reg, rt: tgt_reg, imm }),
    {
        let source = self.read_gp(src_reg);
        self.write_gp(tgt_reg, source & (imm as u32));
    }

    /// Bitwise or.
    pub fn or(&mut self, src_reg: usize, tgt_reg: usize, dst_reg: usize)
        requires
            src_reg < 32,
            tgt_reg < 32,
            dst_reg < 32,
        ensures
            *final(self) == old(self).executed(
                Instruction::Or { rs: src_reg, rt: tgt_reg, rd: dst_reg },
            ),
    {
        let source = self.read_gp(src_reg);
        let target = self.read_gp(tgt_reg);
        self.write_gp(dst_reg, source | target);
    }

    /// Bitwise or with the zero-extended immediate.
    pub fn ori(&mut self, src_reg: usize, tgt_reg: usize, imm: u16)
        requires
            src_reg < 32,
            tgt_reg < 32,
        ensures
            *final(self) == old(self).executed(Instruction::Ori { rs: src_reg, rt: tgt_reg, imm }),
    {
        let source = self.read_gp(src_reg);
        self.write_gp(tgt_reg, source | (imm as u32));
    }

    /// Bitwise exclusive or.
    pub fn xor(&mut self, src_reg: usize, tgt_reg: usize, dst_reg: usize)
        requires
            src_reg < 32,
            tgt_reg < 32,
            dst_reg < 32,
        ensures
            *final(self) == old(self).executed(
                Instruction::Xor { rs: src_reg, rt: tgt_reg, rd: dst_reg },
            ),
    {
        let source = self.read_gp(src_reg);
        let target = self.read_gp(tgt_reg);
        self.write_gp(dst_reg, source ^ target);
    }

    /// Bitwise exclusive or with the zero-extended immediate.
    pub fn xori(&mut self, src_reg: usize, tgt_reg: usize, imm: u16)
        requires
            src_reg < 32,
            tgt_reg < 32,
        ensures
            *final(self) == old(self).executed(Instruction::Xori { rs: src_reg, rt: tgt_reg, imm }),
    {
        let source = self.read_gp(src_reg);
        self.write_gp(tgt_reg, source ^ (imm as u32));
    }

    /// Bitwise nor.
    pub fn nor(&mut self, src_reg: usize, tgt_reg: usize, dst_reg: usize)
        requires
            src_reg < 32,
            tgt_reg < 32,
            dst_reg < 32,
        ensures
            *final(self) == old(self).executed(
                Instruction::Nor { rs: src_reg, rt: tgt_reg, rd: dst_reg },
            ),
    {
        let source = self.read_gp(src_reg);
        let target = self.read_gp(tgt_reg);
        self.write_gp(dst_reg, !(source | target));
    }

    // Shifts

    /// Shift left logical by a constant.
    pub fn sll(&mut self, tgt_reg: usize, sh_amt: usize, dst_reg: usize)
        requires
            tgt_reg < 32,
            sh_amt < 32,
            dst_reg < 32,
        ensures
            *final(self) == old(self).executed(
                Instruction::Sll { rt: tgt_reg, rd: dst_reg, sa: sh_amt },
            ),
    {
        let target = self.read_gp(tgt_reg);
        let s = sh_amt as u32;
        self.write_gp(dst_reg, target << s);
    }

    /// Shift right logical by a constant.
    pub fn srl(&mut self, tgt_reg: usize, sh_amt: usize, dst_reg: usize)
        requires
            tgt_reg < 32,
            sh_amt < 32,
            dst_reg < 32,
        ensures
            *final(self) == old(self).executed(
                Instruction::Srl { rt: tgt_reg, rd: dst_reg, sa: sh_amt },
            ),
    {
        let target = self.read_gp(tgt_reg);
        let s = sh_amt as u32;
        self.write_gp(dst_reg, target >> s);
    }

    /// Shift right arithmetic by a constant.
    pub fn sra(&mut self, tgt_reg: usize, sh_amt: usize, dst_reg: usize)
        requires
            tgt_reg < 32,
            sh_amt < 32,
            dst_reg < 32,
        ensures
            *final(self) == old(self).executed(
                Instruction::Sra { rt: tgt_reg, rd: dst_reg, sa: sh_amt },
            ),
    {
        let target = self.read_gp(tgt_reg);
        let s = sh_amt as u32;
        self.write_gp(dst_reg, shift_right_arith(target, s));
    }

    /// Shift left logical by the low five bits of the source register.
    pub fn sllv(&mut self, src_reg: usize, tgt_reg: usize, dst_reg: usize)
        requires
            src_reg < 32,
            tgt_reg < 32,
            dst_reg < 32,
        ensures
            *final(self) == old(self).executed(
                Instruction::Sllv { rs: src_reg, rt: tgt_reg, rd: dst_reg },
            ),
    {
        let source = self.read_gp(src_reg);
        let target = self.read_gp(tgt_reg);
        proof {
            assert(source & 0x1F < 32) by (bit_vector);
        }
        self.write_gp(dst_reg, target << (source & 0x1F));
    }

    /// Shift right logical by the low five bits of the source register.
    pub fn srlv(&mut self, src_reg: usize, tgt_reg: usize, dst_reg: usize)
        requires
            src_reg < 32,
            tgt_reg < 32,
            dst_reg < 32,
        ensures
            *final(self) == old(self).executed(
                Instruction::Srlv { rs: src_reg, rt: tgt_reg, rd: dst_reg },
            ),
    {
        let source = self.read_gp(src_reg);
        let target = self.read_gp(tgt_reg);
        proof {
            assert(source & 0x1F < 32) by (bit_vector);
        }
        self.write_gp(dst_reg, target >> (source & 0x1F));
    }

    /// Shift right arithmetic by the low five bits of the source register.
    pub fn srav(&mut self, src_reg: usize, tgt_reg: usize, dst_reg: usize)
        requires
            src_reg < 32,
            tgt_reg < 32,
            dst_reg < 32,
        ensures
            *final(self) == old(self).executed(
                Instruction::Srav { rs: src_reg, rt: tgt_reg, rd: dst_reg },
            ),
    {
        let source = self.read_gp(src_reg);
        let target = self.read_gp(tgt_reg);
        proof {
            assert(source & 0x1F < 32) by (bit_vector);
        }
        self.write_gp(dst_reg, shift_right_arith(target, source & 0x1F));
    }

    // Conditional sets

    /// Set on less than, signed.
    pub fn slt(&mut self, src_reg: usize, tgt_reg: usize, dst_reg: usize)
        requires
            src_reg < 32,
            tgt_reg < 32,
            dst_reg < 32,
        ensures
            *final(self) == old(self).executed(
                Instruction::Slt { rs: src_reg, rt: tgt_reg, rd: dst_reg },
            ),
    {
        let source = self.read_gp(src_reg);
        let target = self.read_gp(tgt_reg);
        self.write_gp(dst_reg, if signed_less(source, target) { 1 } else { 0 });
    }

    /// Set on less than, unsigned.
    pub fn sltu(&mut self, src_reg: usize, tgt_reg: usize, dst_reg: usize)
        requires
            src_reg < 32,
            tgt_reg < 32,
            dst_reg < 32,
        ensures
            *final(self) == old(self).executed(
                Instruction::Sltu { rs: src_reg, rt: tgt_reg, rd: dst_reg },
            ),
    {
        let source = self.read_gp(src_reg);
        let target = self.read_gp(tgt_reg);
        self.write_gp(dst_reg, if source < target { 1 } else { 0 });
    }

    /// Set on less than the sign-extended immediate, signed.
    pub fn slti(&mut self, src_reg: usize, tgt_reg: usize, imm: u16)
        requires
            src_reg < 32,
            tgt_reg < 32,
        ensures
            *final(self) == old(self).executed(Instruction::Slti { rs: src_reg, rt: tgt_reg, imm }),
    {
        let source = self.read_gp(src_reg);
        let imm32 = sign_extend_16(imm);
        self.write_gp(tgt_reg, if signed_less(source, imm32) { 1 } else { 0 });
    }

    /// Set on less than the sign-extended immediate, compared unsigned.
    pub fn sltiu(&mut self, src_reg: usize, tgt_reg: usize, imm: u16)
        requires
            src_reg < 32,
            tgt_reg < 32,
        ensures
            *final(self) == old(self).executed(Instruction::Sltiu { rs: src_reg, rt: tgt_reg, imm }),
    {
        let source = self.read_gp(src_reg);
        let imm32 = sign_extend_16(imm);
        self.write_gp(tgt_reg, if source < imm32 { 1 } else { 0 });
    }

    /// Load upper immediate.
    pub fn lui(&mut self, tgt_reg: usize, imm: u16)
        requires
            tgt_reg < 32,
        ensures
            *final(self) == old(self).executed(Instruction::Lui { rt: tgt_reg, imm }),
    {
        let upper_imm = (imm as u32) << 16u32;
        self.write_gp(tgt_reg, upper_imm);
    }

    // Memory access

    /// Base register plus sign-extended offset, wrapping.
    fn effective_address(&self, base_reg: usize, offset: u16) -> (r: u32)
        requires
            base_reg < 32,
        ensures
            r == self.ea(base_reg, offset),
    {
        let base = self.read_gp(base_reg);
        let offset32 = sign_extend_16(offset);
        proof {
            lemma_wrapping_add(base, offset32);
        }
        base.wrapping_add(offset32)
    }

    /// Load byte, sign-extended.
    pub fn lb(&mut self, base_reg: usize, tgt_reg: usize, offset: u16)
        requires
            base_reg < 32,
            tgt_reg < 32,
        ensures
            *final(self) == old(self).executed(
                Instruction::Lb { base: base_reg, rt: tgt_reg, imm: offset },
            ),
    {
        let addr = self.effective_address(base_reg, offset);
        let byte = self.mem.read_byte(addr);
        self.write_gp(tgt_reg, sign_extend_8(byte));
    }

    /// Load byte, zero-extended.
    pub fn lbu(&mut self, base_reg: usize, tgt_reg: usize, offset: u16)
        requires
            base_reg < 32,
            tgt_reg < 32,
        ensures
            *final(self) == old(self).executed(
                Instruction::Lbu { base: base_reg, rt: tgt_reg, imm: offset },
            ),
    {
        let addr = self.effective_address(base_reg, offset);
        let byte = self.mem.read_byte(addr);
        self.write_gp(tgt_reg, byte as u32);
    }

    /// Load halfword, sign-extended; the address must be halfword-aligned.
    pub fn lh(&mut self, base_reg: usize, tgt_reg: usize, offset: u16)
        requires
            base_reg < 32,
            tgt_reg < 32,
        ensures
            *final(self) == old(self).executed(
                Instruction::Lh { base: base_reg, rt: tgt_reg, imm: offset },
            ),
    {
        let addr = self.effective_address(base_reg, offset);
        if addr % 2 != 0 {
            self.raise(ExceptionCode::AddrErrorLoad, addr);
        } else {
            let halfword = self.mem.read_halfword(addr);
            self.write_gp(tgt_reg, sign_extend_16(halfword));
        }
    }

    /// Load halfword, zero-extended; the address must be halfword-aligned.
    pub fn lhu(&mut self, base_reg: usize, tgt_reg: usize, offset: u16)
        requires
            base_reg < 32,
            tgt_reg < 32,
        ensures
            *final(self) == old(self).executed(
                Instruction::Lhu { base: base_reg, rt: tgt_reg, imm: offset },
            ),
    {
        let addr = self.effective_address(base_reg, offset);
        if addr % 2 != 0 {
            self.raise(ExceptionCode::AddrErrorLoad, addr);
        } else {
            let halfword = self.mem.read_halfword(addr);
            self.write_gp(tgt_reg, halfword as u32);
        }
    }

    /// Load word; the address must be word-aligned.
    pub fn lw(&mut self, base_reg: usize, tgt_reg: usize, offset: u16)
        requires
            base_reg < 32,
            tgt_reg < 32,
        ensures
            *final(self) == old(self).executed(
                Instruction::Lw { base: base_reg, rt: tgt_reg, imm: offset },
            ),
    {
        let addr = self.effective_address(base_reg, offset);
        if addr % 4 != 0 {
            self.raise(ExceptionCode::AddrErrorLoad, addr);
        } else {
            let word = self.mem.read_word(addr);
            self.write_gp(tgt_reg, word);
        }
    }

    /// Load word left: merge the aligned word into the register's high bytes.
    pub fn lwl(&mut self, base_reg: usize, tgt_reg: usize, offset: u16)
        requires
            base_reg < 32,
            tgt_reg < 32,
        ensures
            *final(self) == old(self).executed(
                Instruction::Lwl { base: base_reg, rt: tgt_reg, imm: offset },
            ),
    {
        let addr = self.effective_address(base_reg, offset);
        let (word_addr, byte_addr) = split_address(addr);
        let little = self.mem.little_endian();
        let byte_offset = if little { 3 - byte_addr } else { byte_addr };
        let word = self.mem.read_word(word_addr);
        let old_word = self.read_gp(tgt_reg);
        self.write_gp(tgt_reg, merge_left(old_word, word, byte_offset));
    }

    /// Load word right: merge the aligned word into the register's low bytes.
    pub fn lwr(&mut self, base_reg: usize, tgt_reg: usize, offset: u16)
        requires
            base_reg < 32,
            tgt_reg < 32,
        ensures
            *final(self) == old(self).executed(
                Instruction::Lwr { base: base_reg, rt: tgt_reg, imm: offset },
            ),
    {
        let addr = self.effective_address(base_reg, offset);
        let (word_addr, byte_addr) = split_address(addr);
        let little = self.mem.little_endian();
        let byte_offset = if little { byte_addr } else { 3 - byte_addr };
        let word = self.mem.read_word(word_addr);
        let old_word = self.read_gp(tgt_reg);
        self.write_gp(tgt_reg, merge_right(old_word, word, byte_offset));
    }

    /// Store the register's low byte.
    pub fn sb(&mut self, base_reg: usize, tgt_reg: usize, offset: u16)
        requires
            base_reg < 32,
            tgt_reg < 32,
        ensures
            *final(self) == old(self).executed(
                Instruction::Sb { base: base_reg, rt: tgt_reg, imm: offset },
            ),
    {
        let addr = self.effective_address(base_reg, offset);
        let data = self.read_gp(tgt_reg);
        proof {
            assert(data & 0xFF == data % 0x100) by (bit_vector);
        }
        self.mem.write_byte(addr, (data & 0xFF) as u8);
    }

    /// Store the register's low halfword; the address must be halfword-aligned.
    pub fn sh(&mut self, base_reg: usize, tgt_reg: usize, offset: u16)
        requires
            base_reg < 32,
            tgt_reg < 32,
        ensures
            *final(self) == old(self).executed(
                Instruction::Sh { base: base_reg, rt: tgt_reg, imm: offset },
            ),
    {
        let addr = self.effective_address(base_reg, offset);
        if addr % 2 != 0 {
            self.raise(ExceptionCode::AddrErrorStore, addr);
        } else {
            let data = self.read_gp(tgt_reg);
            proof {
                assert(data & 0xFFFF == data % 0x1_0000) by (bit_vector);
            }
            self.mem.write_halfword(addr, (data & 0xFFFF) as u16);
        }
    }

    /// Store word; the address must be word-aligned.
    pub fn sw(&mut self, base_reg: usize, tgt_reg: usize, offset: u16)
        requires
            base_reg < 32,
            tgt_reg < 32,
        ensures
            *final(self) == old(self).executed(
                Instruction::Sw { base: base_reg, rt: tgt_reg, imm: offset },
            ),
    {
        let addr = self.effective_address(base_reg, offset);
        if addr % 4 != 0 {
            self.raise(ExceptionCode::AddrErrorStore, addr);
        } else {
            let data = self.read_gp(tgt_reg);
            self.mem.write_word(addr, data);
        }
    }

    /// Store word left: merge the register's high bytes into the aligned word.
    pub fn swl(&mut self, base_reg: usize, tgt_reg: usize, offset: u16)
        requires
            base_reg < 32,
            tgt_reg < 32,
        ensures
            *final(self) == old(self).executed(
                Instruction::Swl { base: base_reg, rt: tgt_reg, imm: offset },
            ),
    {
        let addr = self.effective_address(base_reg, offset);
        let (word_addr, byte_addr) = split_address(addr);
        let little = self.mem.little_endian();
        let byte_offset = if little { 3 - byte_addr } else { byte_addr };
        let word = self.mem.read_word(word_addr);
        let data = self.read_gp(tgt_reg);
        self.mem.write_word(word_addr, store_merge_left(word, data, byte_offset));
    }

    /// Store word right: merge the register's low bytes into the aligned word.
    pub fn swr(&mut self, base_reg: usize, tgt_reg: usize, offset: u16)
        requires
            base_reg < 32,
            tgt_reg < 32,
        ensures
            *final(self) == old(self).executed(
                Instruction::Swr { base: base_reg, rt: tgt_reg, imm: offset },
            ),
    {
        let addr = self.effective_address(base_reg, offset);
        let (word_addr, byte_addr) = split_address(addr);
        let little = self.mem.little_endian();
        let byte_offset = if little { byte_addr } else { 3 - byte_addr };
        let word = self.mem.read_word(word_addr);
        let data = self.read_gp(tgt_reg);
        self.mem.write_word(word_addr, store_merge_right(word, data, byte_offset));
    }

    // Branch

    /// Branch if equal.
    pub fn beq(&mut self, src_reg: usize, tgt_reg: usize, offset: u16)
        requires
            src_reg < 32,
            tgt_reg < 32,
        ensures
            *final(self) == old(self).executed(
                Instruction::Beq { rs: src_reg, rt: tgt_reg, imm: offset },
            ),
    {
        let source = self.read_gp(src_reg);
        let target = self.read_gp(tgt_reg);
        if source == target {
            self.branch(sign_extend_16(offset) << 2u32);
        }
    }

    /// Branch if not equal.
    pub fn bne(&mut self, src_reg: usize, tgt_reg: usize, offset: u16)
        requires
            src_reg < 32,
            tgt_reg < 32,
        ensures
            *final(self) == old(self).executed(
                Instruction::Bne { rs: src_reg, rt: tgt_reg, imm: offset },
            ),
    {
        let source = self.read_gp(src_reg);
        let target = self.read_gp(tgt_reg);
        if source != target {
            self.branch(sign_extend_16(offset) << 2u32);
        }
    }

    /// Branch if greater than zero.
    pub fn bgtz(&mut self, src_reg: usize, offset: u16)
        requires
            src_reg < 32,
        ensures
            *final(self) == old(self).executed(Instruction::Bgtz { rs: src_reg, imm: offset }),
    {
        let source = self.read_gp(src_reg);
        if 0 < source && source < 0x8000_0000 {
            self.branch(sign_extend_16(offset) << 2u32);
        }
    }

    /// Branch if greater than or equal to zero.
    pub fn bgez(&mut self, src_reg: usize, offset: u16)
        requires
            src_reg < 32,
        ensures
            *final(self) == old(self).executed(Instruction::Bgez { rs: src_reg, imm: offset }),
    {
        let source = self.read_gp(src_reg);
        if source < 0x8000_0000 {
            self.branch(sign_extend_16(offset) << 2u32);
        }
    }

    /// Branch if greater than or equal to zero, linking r31 whether or not the branch is taken.
    pub fn bgezal(&mut self, src_reg: usize, offset: u16)
        requires
            src_reg < 32,
        ensures
            *final(self) == old(self).executed(Instruction::Bgezal { rs: src_reg, imm: offset }),
    {
        self.link_register(31);
        let source = self.read_gp(src_reg);
        if source < 0x8000_0000 {
            self.branch(sign_extend_16(offset) << 2u32);
        }
    }

    /// Branch if less than zero.
    pub fn bltz(&mut self, src_reg: usize, offset: u16)
        requires
            src_reg < 32,
        ensures
            *final(self) == old(self).executed(Instruction::Bltz { rs: src_reg, imm: offset }),
    {
        let source = self.read_gp(src_reg);
        if source >= 0x8000_0000 {
            self.branch(sign_extend_16(offset) << 2u32);
        }
    }

    /// Branch if less than or equal to zero.
    pub fn blez(&mut self, src_reg: usize, offset: u16)
        requires
            src_reg < 32,
        ensures
            *final(self) == old(self).executed(Instruction::Blez { rs: src_reg, imm: offset }),
    {
        let source = self.read_gp(src_reg);
        if source == 0 || source >= 0x8000_0000 {
            self.branch(sign_extend_16(offset) << 2u32);
        }
    }

    /// Branch if less than zero, linking r31 whether or not the branch is taken.
    pub fn bltzal(&mut self, src_reg: usize, offset: u16)
        requires
            src_reg < 32,
        ensures
            *final(self) == old(self).executed(Instruction::Bltzal { rs: src_reg, imm: offset }),
    {
        self.link_register(31);
        let source = self.read_gp(src_reg);
        if source >= 0x8000_0000 {
            self.branch(sign_extend_16(offset) << 2u32);
        }
    }

    // Jump

    /// Jump within the current segment.
    pub fn j(&mut self, target: u32)
        ensures
            *final(self) == old(self).executed(Instruction::J { target }),
    {
        let dest = (self.pc_next & 0xF000_0000) | (target << 2u32);
        self.jump(dest);
    }

    /// Jump within the current segment and link r31.
    pub fn jal(&mut self, target: u32)
        ensures
            *final(self) == old(self).executed(Instruction::Jal { target }),
    {
        self.link_register(31);
        self.j(target);
    }

    /// Jump to the address in a register.
    pub fn jr(&mut self, src_reg: usize)
        requires
            src_reg < 32,
        ensures
            *final(self) == old(self).executed(Instruction::Jr { rs: src_reg }),
    {
        let dest = self.read_gp(src_reg);
        self.jump(dest);
    }

    /// Link a register, then jump to the address in a register.
    pub fn jalr(&mut self, src_reg: usize, dst_reg: usize)
        requires
            src_reg < 32,
            dst_reg < 32,
        ensures
            *final(self) == old(self).executed(Instruction::Jalr { rs: src_reg, rd: dst_reg }),
    {
        self.link_register(dst_reg);
        let dest = self.read_gp(src_reg);
        self.jump(dest);
    }

    // Special

    /// System call.
    pub fn syscall(&mut self)
        ensures
            *final(self) == old(self).executed(Instruction::Syscall),
    {
        self.raise(ExceptionCode::Syscall, 0);
    }

    /// Breakpoint.
    pub fn brk(&mut self)
        ensures
            *final(self) == old(self).executed(Instruction::Break),
    {
        self.raise(ExceptionCode::Breakpoint, 0);
    }

    // Coprocessor

    /// Whether coprocessor slot `z` is filled.
    fn coproc_usable(&self, z: Coproc) -> (r: bool)
        ensures
            r == self.usable(z),
    {
        match z {
            Coproc::Cop0 => true,
            Coproc::Cop1 => self.coproc1.is_some(),
            Coproc::Cop2 => self.coproc2.is_some(),
            Coproc::Cop3 => self.coproc3.is_some(),
        }
    }

    /// Move a register to a coprocessor data register.
    pub fn mtcz(&mut self, coproc: Coproc, tgt_reg: usize, cop_reg: usize)
        requires
            tgt_reg < 32,
            cop_reg < 32,
        ensures
            *final(self) == old(self).executed(Instruction::Mtc { z: coproc, rt: tgt_reg, rd: cop_reg }),
    {
        if !self.coproc_usable(coproc) {
            self.raise(ExceptionCode::CoProcUnusable, 0);
        } else {
            let val = self.read_gp(tgt_reg);
            match coproc {
            Coproc::Cop0 => {
                self.coproc0.move_to_reg(cop_reg, val);
            },
            Coproc::Cop1 => {
                if let Some(c) = &mut self.coproc1 {
                    c.move_to_reg(cop_reg, val);
                }
            },
            Coproc::Cop2 => {
                if let Some(c) = &mut self.coproc2 {
                    c.move_to_reg(cop_reg, val);
                }
            },
            Coproc::Cop3 => {
                if let Some(c) = &mut self.coproc3 {
                    c.move_to_reg(cop_reg, val);
                }
            },
            }
        }
    }

    /// Move a coprocessor data register to a register.
    pub fn mfcz(&mut self, coproc: Coproc, tgt_reg: usize, cop_reg: usize)
        requires
            tgt_reg < 32,
            cop_reg < 32,
        ensures
            *final(self) == old(self).executed(Instruction::Mfc { z: coproc, rt: tgt_reg, rd: cop_reg }),
    {
        if !self.coproc_usable(coproc) {
            self.raise(ExceptionCode::CoProcUnusable, 0);
        } else {

            match coproc {
            Coproc::Cop0 => {
                let val = self.coproc0.move_from_reg(cop_reg);
                self.write_gp(tgt_reg, val);
            },
            Coproc::Cop1 => {
                if let Some(c) = &mut self.coproc1 {
                    let val = c.move_from_reg(cop_reg);
                    self.write_gp(tgt_reg, val);
                }
            },
            Coproc::Cop2 => {
                if let Some(c) = &mut self.coproc2 {
                    let val = c.move_from_reg(cop_reg);
                    self.write_gp(tgt_reg, val);
                }
            },
            Coproc::Cop3 => {
                if let Some(c) = &mut self.coproc3 {
                    let val = c.move_from_reg(cop_reg);
                    self.write_gp(tgt_reg, val);
                }
            },
            }
        }
    }

    /// Move a register to a coprocessor control register.
    pub fn ctcz(&mut self, coproc: Coproc, tgt_reg: usize, ctrl_reg: usize)
        requires
            tgt_reg < 32,
            ctrl_reg < 32,
            coproc != Coproc::Cop0,
        ensures
            *final(self) == old(self).executed(Instruction::Ctc { z: coproc, rt: tgt_reg, rd: ctrl_reg }),
    {
        if !self.coproc_usable(coproc) {
            self.raise(ExceptionCode::CoProcUnusable, 0);
        } else {
            let val = self.read_gp(tgt_reg);
            match coproc {
            Coproc::Cop0 => {

            },
            Coproc::Cop1 => {
                if let Some(c) = &mut self.coproc1 {
                    c.move_to_control(ctrl_reg, val);
                }
            },
            Coproc::Cop2 => {
                if let Some(c) = &mut self.coproc2 {
                    c.move_to_control(ctrl_reg, val);
                }
            },
            Coproc::Cop3 => {
                if let Some(c) = &mut self.coproc3 {
                    c.move_to_control(ctrl_reg, val);
                }
            },
            }
        }
    }

    /// Move a coprocessor control register to a register.
    pub fn cfcz(&mut self, coproc: Coproc, tgt_reg: usize, ctrl_reg: usize)
        requires
            tgt_reg < 32,
            ctrl_reg < 32,
            coproc != Coproc::Cop0,
        ensures
            *final(self) == old(self).executed(Instruction::Cfc { z: coproc, rt: tgt_reg, rd: ctrl_reg }),
    {
        if !self.coproc_usable(coproc) {
            self.raise(ExceptionCode::CoProcUnusable, 0);
        } else {

            match coproc {
            Coproc::Cop0 => {

            },
            Coproc::Cop1 => {
                if let Some(c) = &mut self.coproc1 {
                    let val = c.move_from_control(ctrl_reg);
                    self.write_gp(tgt_reg, val);
                }
            },
            Coproc::Cop2 => {
                if let Some(c) = &mut self.coproc2 {
                    let val = c.move_from_control(ctrl_reg);
                    self.write_gp(tgt_reg, val);
                }
            },
            Coproc::Cop3 => {
                if let Some(c) = &mut self.coproc3 {
                    let val = c.move_from_control(ctrl_reg);
                    self.write_gp(tgt_reg, val);
                }
            },
            }
        }
    }

    /// Hand the raw 25-bit function to a coprocessor.
    pub fn copz(&mut self, coproc: Coproc, cofun: u32)
        requires
        ensures
            *final(self) == old(self).executed(Instruction::Cop { z: coproc, cofun }),
    {
        if !self.coproc_usable(coproc) {
            self.raise(ExceptionCode::CoProcUnusable, 0);
        } else {

            match coproc {
            Coproc::Cop0 => {
                self.coproc0.operation(cofun);
            },
            Coproc::Cop1 => {
                if let Some(c) = &mut self.coproc1 {
                    c.operation(cofun);
                }
            },
            Coproc::Cop2 => {
                if let Some(c) = &mut self.coproc2 {
                    c.operation(cofun);
                }
            },
            Coproc::Cop3 => {
                if let Some(c) = &mut self.coproc3 {
                    c.operation(cofun);
                }
            },
            }
        }
    }

    /// Load a word from memory into a coprocessor data register.
    pub fn lwcz(&mut self, coproc: Coproc, base_reg: usize, cop_reg: usize, offset: u16)
        requires
            coproc != Coproc::Cop0,
            base_reg < 32,
            cop_reg < 32,
        ensures
            *final(self) == old(self).executed(
                Instruction::Lwc { z: coproc, base: base_reg, rt: cop_reg, imm: offset },
            ),
    {
        if !self.coproc_usable(coproc) {
            self.raise(ExceptionCode::CoProcUnusable, 0);
        } else {
            let addr = self.effective_address(base_reg, offset);
            if addr % 4 != 0 {
                self.raise(ExceptionCode::AddrErrorLoad, addr);
            } else {
                let data = self.mem.read_word(addr);
                match coproc {
                    Coproc::Cop0 => {},
                    Coproc::Cop1 => {
                        if let Some(c) = &mut self.coproc1 {
                            c.load_from_mem(cop_reg, data);
                        }
                    },
                    Coproc::Cop2 => {
                        if let Some(c) = &mut self.coproc2 {
                            c.load_from_mem(cop_reg, data);
                        }
                    },
                    Coproc::Cop3 => {
                        if let Some(c) = &mut self.coproc3 {
                            c.load_from_mem(cop_reg, data);
                        }
                    },
                }
            }
        }
    }

    /// Store a word from a coprocessor data register to memory.
    pub fn swcz(&mut self, coproc: Coproc, base_reg: usize, cop_reg: usize, offset: u16)
        requires
            coproc != Coproc::Cop0,
            base_reg < 32,
            cop_reg < 32,
        ensures
            *final(self) == old(self).executed(
                Instruction::Swc { z: coproc, base: base_reg, rt: cop_reg, imm: offset },
            ),
    {
        if !self.coproc_usable(coproc) {
            self.raise(ExceptionCode::CoProcUnusable, 0);
        } else {
            let addr = self.effective_address(base_reg, offset);
            if addr % 4 != 0 {
                self.raise(ExceptionCode::AddrErrorStore, addr);
            } else {
                let mut data: u32 = 0;
                match coproc {
                    Coproc::Cop0 => {},
                    Coproc::Cop1 => {
                        if let Some(c) = &mut self.coproc1 {
                            data = c.store_to_mem(cop_reg);
                        }
                    },
                    Coproc::Cop2 => {
                        if let Some(c) = &mut self.coproc2 {
                            data = c.store_to_mem(cop_reg);
                        }
                    },
                    Coproc::Cop3 => {
                        if let Some(c) = &mut self.coproc3 {
                            data = c.store_to_mem(cop_reg);
                        }
                    },
                }
                self.mem.write_word(addr, data);
            }
        }
    }

    // Dispatch

    /// Execute a decoded instruction.
    pub fn execute(&mut self, instr: Instruction)
        requires
            instr.wf(),
        ensures
            *final(self) == old(self).executed(instr),
    {
        match instr {
            Instruction::Sll { rt, rd, sa } => self.sll(rt, sa, rd),
            Instruction::Srl { rt, rd, sa } => self.srl(rt, sa, rd),
            Instruction::Sra { rt, rd, sa } => self.sra(rt, sa, rd),
            Instruction::Sllv { rs, rt, rd } => self.sllv(rs, rt, rd),
            Instruction::Srlv { rs, rt, rd } => self.srlv(rs, rt, rd),
            Instruction::Srav { rs, rt, rd } => self.srav(rs, rt, rd),
            Instruction::Jr { rs } => self.jr(rs),
            Instruction::Jalr { rs, rd } => self.jalr(rs, rd),
            Instruction::Syscall => self.syscall(),
            Instruction::Break => self.brk(),
            Instruction::Mfhi { rd } => self.mfhi(rd),
            Instruction::Mthi { rs } => self.mthi(rs),
            Instruction::Mflo { rd } => self.mflo(rd),
            Instruction::Mtlo { rs } => self.mtlo(rs),
            Instruction::Mult { rs, rt } => self.mult(rs, rt),
            Instruction::Multu { rs, rt } => self.multu(rs, rt),
            Instruction::Div { rs, rt } => self.div(rs, rt),
            Instruction::Divu { rs, rt } => self.divu(rs, rt),
            Instruction::Add { rs, rt, rd } => self.add(rs, rt, rd),
            Instruction::Addu { rs, rt, rd } => self.addu(rs, rt, rd),
            Instruction::Sub { rs, rt, rd } => self.sub(rs, rt, rd),
            Instruction::Subu { rs, rt, rd } => self.subu(rs, rt, rd),
            Instruction::And { rs, rt, rd } => self.and(rs, rt, rd),
            Instruction::Or { rs, rt, rd } => self.or(rs, rt, rd),
            Instruction::Xor { rs, rt, rd } => self.xor(rs, rt, rd),
            Instruction::Nor { rs, rt, rd } => self.nor(rs, rt, rd),
            Instruction::Slt { rs, rt, rd } => self.slt(rs, rt, rd),
            Instruction::Sltu { rs, rt, rd } => self.sltu(rs, rt, rd),
            Instruction::Bltz { rs, imm } => self.bltz(rs, imm),
            Instruction::Bgez { rs, imm } => self.bgez(rs, imm),
            Instruction::Bltzal { rs, imm } => self.bltzal(rs, imm),
            Instruction::Bgezal { rs, imm } => self.bgezal(rs, imm),
            Instruction::J { target } => self.j(target),
            Instruction::Jal { target } => self.jal(target),
            Instruction::Beq { rs, rt, imm } => self.beq(rs, rt, imm),
            Instruction::Bne { rs, rt, imm } => self.bne(rs, rt, imm),
            Instruction::Blez { rs, imm } => self.blez(rs, imm),
            Instruction::Bgtz { rs, imm } => self.bgtz(rs, imm),
            Instruction::Addi { rs, rt, imm } => self.addi(rs, rt, imm),
            Instruction::Addiu { rs, rt, imm } => self.addiu(rs, rt, imm),
            Instruction::Slti { rs, rt, imm } => self.slti(rs, rt, imm),
            Instruction::Sltiu { rs, rt, imm } => self.sltiu(rs, rt, imm),
            Instruction::Andi { rs, rt, imm } => self.andi(rs, rt, imm),
            Instruction::Ori { rs, rt, imm } => self.ori(rs, rt, imm),
            Instruction::Xori { rs, rt, imm } => self.xori(rs, rt, imm),
            Instruction::Lui { rt, imm } => self.lui(rt, imm),
            Instruction::Mfc { z, rt, rd } => self.mfcz(z, rt, rd),
            Instruction::Cfc { z, rt, rd } => self.cfcz(z, rt, rd),
            Instruction::Mtc { z, rt, rd } => self.mtcz(z, rt, rd),
            Instruction::Ctc { z, rt, rd } => self.ctcz(z, rt, rd),
            Instruction::Cop { z, cofun } => self.copz(z, cofun),
            Instruction::Lb { base, rt, imm } => self.lb(base, rt, imm),
            Instruction::Lh { base, rt, imm } => self.lh(base, rt, imm),
            Instruction::Lwl { base, rt, imm } => self.lwl(base, rt, imm),
            Instruction::Lw { base, rt, imm } => self.lw(base, rt, imm),
            Instruction::Lbu { base, rt, imm } => self.lbu(base, rt, imm),
            Instruction::Lhu { base, rt, imm } => self.lhu(base, rt, imm),
            Instruction::Lwr { base, rt, imm } => self.lwr(base, rt, imm),
            Instruction::Sb { base, rt, imm } => self.sb(base, rt, imm),
            Instruction::Sh { base, rt, imm } => self.sh(base, rt, imm),
            Instruction::Swl { base, rt, imm } => self.swl(base, rt, imm),
            Instruction::Sw { base, rt, imm } => self.sw(base, rt, imm),
            Instruction::Swr { base, rt, imm } => self.swr(base, rt, imm),
            Instruction::Lwc { z, base, rt, imm } => self.lwcz(z, base, rt, imm),
            Instruction::Swc { z, base, rt, imm } => self.swcz(z, base, rt, imm),
        }
    }

    // Step loop

    /// Clock the bus one cycle, show coprocessor 0 the raised interrupt lines,
    /// and take an interrupt if it asks for one.
    fn tick(&mut self)
        ensures
            *final(self) == old(self).ticked(),
    {
        let lines = self.mem.clock(1);
        if self.coproc0.external_interrupt(lines) {
            self.raise(ExceptionCode::Interrupt, 0);
        }
    }

    /// Fetch, decode, and execute one instruction, then clock the bus.
    pub fn step(&mut self)
        ensures
            *final(self) == old(self).step_spec(),
    {
        let fetch_addr = self.pc;
        self.current_instr_addr = fetch_addr;
        let misaligned = fetch_addr % 4 != 0;
        let mut instr: u32 = 0;
        if !misaligned {
            instr = self.mem.read_word(fetch_addr);
        }
        self.pc = self.pc_next;
        proof {
            lemma_wrapping_add(self.pc_next, 4);
        }
        self.pc_next = self.pc_next.wrapping_add(4);
        self.in_delay_slot = self.branch_delay;
        self.branch_delay = false;
        if misaligned {
            self.raise(ExceptionCode::AddrErrorLoad, fetch_addr);
        } else {
            match decode(instr) {
                Some(i) => self.execute(i),
                None => self.raise(ExceptionCode::ReservedInstruction, 0),
            }
        }
        self.tick();
    }

    /// Reset through coprocessor 0: fetching restarts at the address it gives.
    pub fn reset(&mut self)
        ensures
            *final(self) == (MIPSI {
                coproc0: old(self).coproc0.after_reset(),
                pc: old(self).coproc0.reset_vector(),
                pc_next: w32(old(self).coproc0.reset_vector() + 4),
                branch_delay: false,
                ..*old(self)
            }),
    {
        let entry = self.coproc0.reset();
        proof {
            lemma_wrapping_add(entry, 4);
        }
        self.pc = entry;
        self.pc_next = entry.wrapping_add(4);
        self.branch_delay = false;
    }

}

impl<
    M: Mem32,
    C0: Coprocessor0,
    C1: Coprocessor,
    C2: Coprocessor,
    C3: Coprocessor,
> MIPSCore for MIPSI<M, C0, C1, C2, C3> {
    fn step(&mut self) {
        MIPSI::step(self);
    }
}

/// Whether the signed sum of two words overflows: the operands agree in sign
/// and the wrapped sum does not.
fn overflows_add(a: u32, b: u32) -> (r: bool)
    ensures
        r == add_overflows(a, b),
{
    let s = a.wrapping_add(b);
    let sa = a >= 0x8000_0000;
    let sb = b >= 0x8000_0000;
    let ss = s >= 0x8000_0000;
    sa == sb && ss != sa
}

/// Whether the signed difference of two words overflows: the operands differ
/// in sign and the wrapped difference has the sign of the subtrahend.
fn overflows_sub(a: u32, b: u32) -> (r: bool)
    ensures
        r == sub_overflows(a, b),
{
    let s = a.wrapping_sub(b);
    let sa = a >= 0x8000_0000;
    let sb = b >= 0x8000_0000;
    let ss = s >= 0x8000_0000;
    sa != sb && ss != sa
}

/// Signed division of two words: (quotient, remainder).
fn divide_signed(a: u32, b: u32) -> (r: (u32, u32))
    ensures
        r.0 == div_quot(a, b),
        r.1 == div_rem(a, b),
{
    if b == 0 {
        (if a < 0x8000_0000 { 0xFFFF_FFFF } else { 1 }, a)
    } else {
        let an = a >= 0x8000_0000;
        let bn = b >= 0x8000_0000;
        proof {
            lemma_wrapping_sub(0, a);
            lemma_wrapping_sub(0, b);
        }
        let ua = if an { 0u32.wrapping_sub(a) } else { a };
        let ub = if bn { 0u32.wrapping_sub(b) } else { b };
        assert(ua as int == abs(signed32(a)));
        assert(ub as int == abs(signed32(b)));
        let q = ua / ub;
        let r = ua % ub;
        proof {
            lemma_wrapping_sub(0, q);
            lemma_wrapping_sub(0, r);
        }
        let qs = if an != bn { 0u32.wrapping_sub(q) } else { q };
        let rs = if an { 0u32.wrapping_sub(r) } else { r };
        proof {
            vstd::arithmetic::div_mod::lemma_small_mod(q as nat, 0x1_0000_0000);
            vstd::arithmetic::div_mod::lemma_small_mod(r as nat, 0x1_0000_0000);
        }
        (qs, rs)
    }
}

/// The aligned word address and the byte position within the word.
fn split_address(addr: u32) -> (r: (u32, u32))
    ensures
        r.0 == (addr - addr % 4) as u32,
        r.0 % 4 == 0,
        r.1 == addr % 4,
{
    assert(addr & 0xFFFF_FFFC == (addr - addr % 4) as u32) by (bit_vector);
    assert((addr & 0xFFFF_FFFC) % 4 == 0) by (bit_vector);
    assert(addr & 3 == addr % 4) by (bit_vector);
    (addr & 0xFFFF_FFFC, addr & 3)
}

fn left_mask(off: u32) -> (r: u32)
    ensures
        r == left_keep(off),
{
    if off == 0 {
        0
    } else if off == 1 {
        0x0000_00FF
    } else if off == 2 {
        0x0000_FFFF
    } else {
        0x00FF_FFFF
    }
}

fn right_mask(off: u32) -> (r: u32)
    ensures
        r == right_keep(off),
{
    if off == 0 {
        0
    } else if off == 1 {
        0xFF00_0000
    } else if off == 2 {
        0xFFFF_0000
    } else {
        0xFFFF_FF00
    }
}

fn merge_left(reg: u32, word: u32, off: u32) -> (r: u32)
    requires
        off < 4,
    ensures
        r == lwl_merge(reg, word, off),
{
    (reg & left_mask(off)) | (word << (off * 8))
}

fn merge_right(reg: u32, word: u32, off: u32) -> (r: u32)
    requires
        off < 4,
    ensures
        r == lwr_merge(reg, word, off),
{
    (reg & right_mask(off)) | (word >> (off * 8))
}

fn store_merge_left(word: u32, reg: u32, off: u32) -> (r: u32)
    requires
        off < 4,
    ensures
        r == swl_merge(word, reg, off),
{
    (word & right_mask(off)) | (reg >> (off * 8))
}

fn store_merge_right(word: u32, reg: u32, off: u32) -> (r: u32)
    requires
        off < 4,
    ensures
        r == swr_merge(word, reg, off),
{
    (word & left_mask(off)) | (reg << (off * 8))
}

/// Arithmetic right shift.
fn shift_right_arith(x: u32, s: u32) -> (r: u32)
    requires
        s < 32,
    ensures
        r == sra_spec(x, s),
{
    if x >= 0x8000_0000 {
        (x >> s) | !(0xFFFF_FFFFu32 >> s)
    } else {
        x >> s
    }
}

/// Signed comparison of two words, made unsigned by flipping the sign bits.
fn signed_less(a: u32, b: u32) -> (r: bool)
    ensures
        r == (signed32(a) < signed32(b)),
{
    assert((a ^ 0x8000_0000) == if a < 0x8000_0000 {
        (a + 0x8000_0000) as u32
    } else {
        (a - 0x8000_0000) as u32
    }) by (bit_vector);
    assert((b ^ 0x8000_0000) == if b < 0x8000_0000 {
        (b + 0x8000_0000) as u32
    } else {
        (b - 0x8000_0000) as u32
    }) by (bit_vector);
    (a ^ 0x8000_0000) < (b ^ 0x8000_0000)
}

/// The high and low words of a product `p`, given as its 64-bit two's-complement
/// encoding `u`.
proof fn lemma_product_words(p: int, u: u64)
    requires
        -0x4000_0000_0000_0000 <= p < 0x1_0000_0000_0000_0000,
        u as int == if p >= 0 {
            p
        } else {
            p + 0x1_0000_0000_0000_0000
        },
    ensures
        u as int / 0x1_0000_0000 == (p / 0x1_0000_0000) % 0x1_0000_0000,
        u as int % 0x1_0000_0000 == p % 0x1_0000_0000,
{
    let d: int = 0x1_0000_0000;
    assert(u as int / d < d) by {
        vstd::arithmetic::div_mod::lemma_multiply_divide_lt(u as int, d, d);
    }
    if p < 0 {
        vstd::arithmetic::div_mod::lemma_hoist_over_denominator(p, d, d as nat);
        vstd::arithmetic::div_mod::lemma_mod_multiples_vanish(1, p / d, d);
        vstd::arithmetic::div_mod::lemma_mod_multiples_vanish(d, p, d);
        assert(p / d + d == (p + d * d) / d);
        assert(u as int == p + d * d);
    } else {
        vstd::arithmetic::div_mod::lemma_small_mod((u as int / d) as nat, d as nat);
    }
}

} // verus!

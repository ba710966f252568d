use vstd::prelude::*;

verus! {

/// A coprocessor slot.
#[derive(Clone, Copy, Debug, PartialEq, Eq, Structural)]
pub enum Coproc {
    Cop0,
    Cop1,
    Cop2,
    Cop3,
}

/// A decoded MIPS I instruction. Register fields are 5-bit indices.
#[derive(Clone, Copy, Debug, PartialEq, Eq, Structural)]
pub enum Instruction {
    Sll { rt: usize, rd: usize, sa: usize },
    Srl { rt: usize, rd: usize, sa: usize },
    Sra { rt: usize, rd: usize, sa: usize },
    Sllv { rs: usize, rt: usize, rd: usize },
    Srlv { rs: usize, rt: usize, rd: usize },
    Srav { rs: usize, rt: usize, rd: usize },
    Jr { rs: usize },
    Jalr { rs: usize, rd: usize },
    Syscall,
    Break,
    Mfhi { rd: usize },
    Mthi { rs: usize },
    Mflo { rd: usize },
    Mtlo { rs: usize },
    Mult { rs: usize, rt: usize },
    Multu { rs: usize, rt: usize },
    Div { rs: usize, rt: usize },
    Divu { rs: usize, rt: usize },
    Add { rs: usize, rt: usize, rd: usize },
    Addu { rs: usize, rt: usize, rd: usize },
    Sub { rs: usize, rt: usize, rd: usize },
    Subu { rs: usize, rt: usize, rd: usize },
    And { rs: usize, rt: usize, rd: usize },
    Or { rs: usize, rt: usize, rd: usize },
    Xor { rs: usize, rt: usize, rd: usize },
    Nor { rs: usize, rt: usize, rd: usize },
    Slt { rs: usize, rt: usize, rd: usize },
    Sltu { rs: usize, rt: usize, rd: usize },
    Bltz { rs: usize, imm: u16 },
    Bgez { rs: usize, imm: u16 },
    Bltzal { rs: usize, imm: u16 },
    Bgezal { rs: usize, imm: u16 },
    J { target: u32 },
    Jal { target: u32 },
    Beq { rs: usize, rt: usize, imm: u16 },
    Bne { rs: usize, rt: usize, imm: u16 },
    Blez { rs: usize, imm: u16 },
    Bgtz { rs: usize, imm: u16 },
    Addi { rs: usize, rt: usize, imm: u16 },
    Addiu { rs: usize, rt: usize, imm: u16 },
    Slti { rs: usize, rt: usize, imm: u16 },
    Sltiu { rs: usize, rt: usize, imm: u16 },
    Andi { rs: usize, rt: usize, imm: u16 },
    Ori { rs: usize, rt: usize, imm: u16 },
    Xori { rs: usize, rt: usize, imm: u16 },
    Lui { rt: usize, imm: u16 },
    Mfc { z: Coproc, rt: usize, rd: usize },
    Cfc { z: Coproc, rt: usize, rd: usize },
    Mtc { z: Coproc, rt: usize, rd: usize },
    Ctc { z: Coproc, rt: usize, rd: usize },
    Cop { z: Coproc, cofun: u32 },
    Lb { base: usize, rt: usize, imm: u16 },
    Lh { base: usize, rt: usize, imm: u16 },
    Lwl { base: usize, rt: usize, imm: u16 },
    Lw { base: usize, rt: usize, imm: u16 },
    Lbu { base: usize, rt: usize, imm: u16 },
    Lhu { base: usize, rt: usize, imm: u16 },
    Lwr { base: usize, rt: usize, imm: u16 },
    Sb { base: usize, rt: usize, imm: u16 },
    Sh { base: usize, rt: usize, imm: u16 },
    Swl { base: usize, rt: usize, imm: u16 },
    Sw { base: usize, rt: usize, imm: u16 },
    Swr { base: usize, rt: usize, imm: u16 },
    Lwc { z: Coproc, base: usize, rt: usize, imm: u16 },
    Swc { z: Coproc, base: usize, rt: usize, imm: u16 },
}

/// Bits 31..26: the primary opcode.
pub open spec fn op_of(w: u32) -> u32 {
    w >> 26u32
}

/// Bits 25..21: the source register.
pub open spec fn rs_of(w: u32) -> usize {
    ((w >> 21u32) & 0x1F) as usize
}

/// Bits 20..16: the target register.
pub open spec fn rt_of(w: u32) -> usize {
    ((w >> 16u32) & 0x1F) as usize
}

/// Bits 15..11: the destination register.
pub open spec fn rd_of(w: u32) -> usize {
    ((w >> 11u32) & 0x1F) as usize
}

/// Bits 10..6: the shift amount.
pub open spec fn sa_of(w: u32) -> usize {
    ((w >> 6u32) & 0x1F) as usize
}

/// Bits 5..0: the SPECIAL function.
pub open spec fn funct_of(w: u32) -> u32 {
    w & 0x3F
}

/// Bits 15..0: the immediate.
pub open spec fn imm_of(w: u32) -> u16 {
    (w & 0xFFFF) as u16
}

/// Bits 25..0: the jump target.
pub open spec fn target_of(w: u32) -> u32 {
    w & 0x3FF_FFFF
}

/// Bits 24..0: the coprocessor function.
pub open spec fn cofun_of(w: u32) -> u32 {
    w & 0x1FF_FFFF
}

/// The COPz sub-table, on the `rs` field. Coprocessor 0 has no control registers.
pub open spec fn decode_cop_spec(z: Coproc, w: u32) -> Option<Instruction> {
    let (rs, rt, rd) = (rs_of(w), rt_of(w), rd_of(w));
    if rs == 0x00 {
        Some(Instruction::Mfc { z, rt, rd })
    } else if rs == 0x02 && z != Coproc::Cop0 {
        Some(Instruction::Cfc { z, rt, rd })
    } else if rs == 0x04 {
        Some(Instruction::Mtc { z, rt, rd })
    } else if rs == 0x06 && z != Coproc::Cop0 {
        Some(Instruction::Ctc { z, rt, rd })
    } else if rs & 0x10 == 0x10 {
        Some(Instruction::Cop { z, cofun: cofun_of(w) })
    } else {
        None
    }
}

/// The SPECIAL sub-table, on the `funct` field.
pub open spec fn decode_special_spec(w: u32) -> Option<Instruction> {
    let (rs, rt, rd, sa) = (rs_of(w), rt_of(w), rd_of(w), sa_of(w));
    match funct_of(w) {
        0x00 => Some(Instruction::Sll { rt, rd, sa }),
        0x02 => Some(Instruction::Srl { rt, rd, sa }),
        0x03 => Some(Instruction::Sra { rt, rd, sa }),
        0x04 => Some(Instruction::Sllv { rs, rt, rd }),
        0x06 => Some(Instruction::Srlv { rs, rt, rd }),
        0x07 => Some(Instruction::Srav { rs, rt, rd }),
        0x08 => Some(Instruction::Jr { rs }),
        0x09 => Some(Instruction::Jalr { rs, rd }),
        0x0C => Some(Instruction::Syscall),
        0x0D => Some(Instruction::Break),
        0x10 => Some(Instruction::Mfhi { rd }),
        0x11 => Some(Instruction::Mthi { rs }),
        0x12 => Some(Instruction::Mflo { rd }),
        0x13 => Some(Instruction::Mtlo { rs }),
        0x18 => Some(Instruction::Mult { rs, rt }),
        0x19 => Some(Instruction::Multu { rs, rt }),
        0x1A => Some(Instruction::Div { rs, rt }),
        0x1B => Some(Instruction::Divu { rs, rt }),
        0x20 => Some(Instruction::Add { rs, rt, rd }),
        0x21 => Some(Instruction::Addu { rs, rt, rd }),
        0x22 => Some(Instruction::Sub { rs, rt, rd }),
        0x23 => Some(Instruction::Subu { rs, rt, rd }),
        0x24 => Some(Instruction::And { rs, rt, rd }),
        0x25 => Some(Instruction::Or { rs, rt, rd }),
        0x26 => Some(Instruction::Xor { rs, rt, rd }),
        0x27 => Some(Instruction::Nor { rs, rt, rd }),
        0x2A => Some(Instruction::Slt { rs, rt, rd }),
        0x2B => Some(Instruction::Sltu { rs, rt, rd }),
        _ => None,
    }
}

/// The instruction that a 32-bit word encodes, or `None` if it is undecodable.
pub open spec fn decode_spec(w: u32) -> Option<Instruction> {
    let (rs, rt, imm) = (rs_of(w), rt_of(w), imm_of(w));
    let base = rs;
    match op_of(w) {
        0x00 => decode_special_spec(w),
        0x01 => match rt {
            0x00 => Some(Instruction::Bltz { rs, imm }),
            0x01 => Some(Instruction::Bgez { rs, imm }),
            0x10 => Some(Instruction::Bltzal { rs, imm }),
            0x11 => Some(Instruction::Bgezal { rs, imm }),
            _ => None,
        },
        0x02 => Some(Instruction::J { target: target_of(w) }),
        0x03 => Some(Instruction::Jal { target: target_of(w) }),
        0x04 => Some(Instruction::Beq { rs, rt, imm }),
        0x05 => Some(Instruction::Bne { rs, rt, imm }),
        0x06 => Some(Instruction::Blez { rs, imm }),
        0x07 => Some(Instruction::Bgtz { rs, imm }),
        0x08 => Some(Instruction::Addi { rs, rt, imm }),
        0x09 => Some(Instruction::Addiu { rs, rt, imm }),
        0x0A => Some(Instruction::Slti { rs, rt, imm }),
        0x0B => Some(Instruction::Sltiu { rs, rt, imm }),
        0x0C => Some(Instruction::Andi { rs, rt, imm }),
        0x0D => Some(Instruction::Ori { rs, rt, imm }),
        0x0E => Some(Instruction::Xori { rs, rt, imm }),
        0x0F => Some(Instruction::Lui { rt, imm }),
        0x10 => decode_cop_spec(Coproc::Cop0, w),
        0x11 => decode_cop_spec(Coproc::Cop1, w),
        0x12 => decode_cop_spec(Coproc::Cop2, w),
        0x13 => decode_cop_spec(Coproc::Cop3, w),
        0x20 => Some(Instruction::Lb { base, rt, imm }),
        0x21 => Some(Instruction::Lh { base, rt, imm }),
        0x22 => Some(Instruction::Lwl { base, rt, imm }),
        0x23 => Some(Instruction::Lw { base, rt, imm }),
        0x24 => Some(Instruction::Lbu { base, rt, imm }),
        0x25 => Some(Instruction::Lhu { base, rt, imm }),
        0x26 => Some(Instruction::Lwr { base, rt, imm }),
        0x28 => Some(Instruction::Sb { base, rt, imm }),
        0x29 => Some(Instruction::Sh { base, rt, imm }),
        0x2A => Some(Instruction::Swl { base, rt, imm }),
        0x2B => Some(Instruction::Sw { base, rt, imm }),
        0x2E => Some(Instruction::Swr { base, rt, imm }),
        0x31 => Some(Instruction::Lwc { z: Coproc::Cop1, base, rt, imm }),
        0x32 => Some(Instruction::Lwc { z: Coproc::Cop2, base, rt, imm }),
        0x33 => Some(Instruction::Lwc { z: Coproc::Cop3, base, rt, imm }),
        0x39 => Some(Instruction::Swc { z: Coproc::Cop1, base, rt, imm }),
        0x3A => Some(Instruction::Swc { z: Coproc::Cop2, base, rt, imm }),
        0x3B => Some(Instruction::Swc { z: Coproc::Cop3, base, rt, imm }),
        _ => None,
    }
}

proof fn lemma_fields_bounded(w: u32)
    ensures
        rs_of(w) < 32,
        rt_of(w) < 32,
        rd_of(w) < 32,
        sa_of(w) < 32,
        target_of(w) < 0x400_0000,
        cofun_of(w) < 0x200_0000,
{
    assert((w >> 21u32) & 0x1F < 32 && (w >> 16u32) & 0x1F < 32 && (w >> 11u32) & 0x1F < 32 && (w
        >> 6u32) & 0x1F < 32 && w & 0x3FF_FFFF < 0x400_0000 && w & 0x1FF_FFFF < 0x200_0000)
        by (bit_vector);
}

impl Instruction {
    /// Register fields are 5-bit indices, the shift amount 5 bits, the jump
    /// target 26 bits, the coprocessor function 25 bits, and the instructions
    /// that coprocessor 0 lacks do not name it.
    pub open spec fn wf(self) -> bool {
        match self {
            Instruction::Sll { rt, rd, sa }
            | Instruction::Srl { rt, rd, sa }
            | Instruction::Sra { rt, rd, sa } => rt < 32 && rd < 32 && sa < 32,
            Instruction::Sllv { rs, rt, rd }
            | Instruction::Srlv { rs, rt, rd }
            | Instruction::Srav { rs, rt, rd }
            | Instruction::Add { rs, rt, rd }
            | Instruction::Addu { rs, rt, rd }
            | Instruction::Sub { rs, rt, rd }
            | Instruction::Subu { rs, rt, rd }
            | Instruction::And { rs, rt, rd }
            | Instruction::Or { rs, rt, rd }
            | Instruction::Xor { rs, rt, rd }
            | Instruction::Nor { rs, rt, rd }
            | Instruction::Slt { rs, rt, rd }
            | Instruction::Sltu { rs, rt, rd } => rs < 32 && rt < 32 && rd < 32,
            Instruction::Jr { rs }
            | Instruction::Mthi { rs }
            | Instruction::Mtlo { rs }
            | Instruction::Bltz { rs, .. }
            | Instruction::Bgez { rs, .. }
            | Instruction::Bltzal { rs, .. }
            | Instruction::Bgezal { rs, .. }
            | Instruction::Blez { rs, .. }
            | Instruction::Bgtz { rs, .. } => rs < 32,
            Instruction::Jalr { rs, rd } => rs < 32 && rd < 32,
            Instruction::Syscall | Instruction::Break => true,
            Instruction::Mfhi { rd } | Instruction::Mflo { rd } => rd < 32,
            Instruction::Mult { rs, rt }
            | Instruction::Multu { rs, rt }
            | Instruction::Div { rs, rt }
            | Instruction::Divu { rs, rt }
            | Instruction::Beq { rs, rt, .. }
            | Instruction::Bne { rs, rt, .. }
            | Instruction::Addi { rs, rt, .. }
            | Instruction::Addiu { rs, rt, .. }
            | Instruction::Slti { rs, rt, .. }
            | Instruction::Sltiu { rs, rt, .. }
            | Instruction::Andi { rs, rt, .. }
            | Instruction::Ori { rs, rt, .. }
            | Instruction::Xori { rs, rt, .. } => rs < 32 && rt < 32,
            Instruction::J { target } | Instruction::Jal { target } => target < 0x400_0000,
            Instruction::Lui { rt, .. } => rt < 32,
            Instruction::Mfc { rt, rd, .. } | Instruction::Mtc { rt, rd, .. } => rt < 32 && rd < 32,
            Instruction::Cfc { z, rt, rd } | Instruction::Ctc { z, rt, rd } => z != Coproc::Cop0
                && rt < 32 && rd < 32,
            Instruction::Cop { cofun, .. } => cofun < 0x200_0000,
            Instruction::Lb { base, rt, .. }
            | Instruction::Lh { base, rt, .. }
            | Instruction::Lwl { base, rt, .. }
            | Instruction::Lw { base, rt, .. }
            | Instruction::Lbu { base, rt, .. }
            | Instruction::Lhu { base, rt, .. }
            | Instruction::Lwr { base, rt, .. }
            | Instruction::Sb { base, rt, .. }
            | Instruction::Sh { base, rt, .. }
            | Instruction::Swl { base, rt, .. }
            | Instruction::Sw { base, rt, .. }
            | Instruction::Swr { base, rt, .. } => base < 32 && rt < 32,
            Instruction::Lwc { z, base, rt, .. } | Instruction::Swc { z, base, rt, .. } => z
                != Coproc::Cop0 && base < 32 && rt < 32,
        }
    }
}

/// Every instruction the decoder yields is well-formed.
pub proof fn lemma_decoded_wf(w: u32)
    ensures
        decode_spec(w) matches Some(i) ==> i.wf(),
{
    lemma_fields_bounded(w);
}

fn decode_cop(z: Coproc, w: u32) -> (r: Option<Instruction>)
    ensures
        r == decode_cop_spec(z, w),
{
    let rs = ((w >> 21u32) & 0x1F) as usize;
    let rt = ((w >> 16u32) & 0x1F) as usize;
    let rd = ((w >> 11u32) & 0x1F) as usize;
    let not0 = !matches!(z, Coproc::Cop0);
    if rs == 0x00 {
        Some(Instruction::Mfc { z, rt, rd })
    } else if rs == 0x02 && not0 {
        Some(Instruction::Cfc { z, rt, rd })
    } else if rs == 0x04 {
        Some(Instruction::Mtc { z, rt, rd })
    } else if rs == 0x06 && not0 {
        Some(Instruction::Ctc { z, rt, rd })
    } else if rs & 0x10 == 0x10 {
        Some(Instruction::Cop { z, cofun: w & 0x1FF_FFFF })
    } else {
        None
    }
}

fn decode_special(w: u32) -> (r: Option<Instruction>)
    ensures
        r == decode_special_spec(w),
{
    let rs = ((w >> 21u32) & 0x1F) as usize;
    let rt = ((w >> 16u32) & 0x1F) as usize;
    let rd = ((w >> 11u32) & 0x1F) as usize;
    let sa = ((w >> 6u32) & 0x1F) as usize;
    match w & 0x3F {
        0x00 => Some(Instruction::Sll { rt, rd, sa }),
        0x02 => Some(Instruction::Srl { rt, rd, sa }),
        0x03 => Some(Instruction::Sra { rt, rd, sa }),
        0x04 => Some(Instruction::Sllv { rs, rt, rd }),
        0x06 => Some(Instruction::Srlv { rs, rt, rd }),
        0x07 => Some(Instruction::Srav { rs, rt, rd }),
        0x08 => Some(Instruction::Jr { rs }),
        0x09 => Some(Instruction::Jalr { rs, rd }),
        0x0C => Some(Instruction::Syscall),
        0x0D => Some(Instruction::Break),
        0x10 => Some(Instruction::Mfhi { rd }),
        0x11 => Some(Instruction::Mthi { rs }),
        0x12 => Some(Instruction::Mflo { rd }),
        0x13 => Some(Instruction::Mtlo { rs }),
        0x18 => Some(Instruction::Mult { rs, rt }),
        0x19 => Some(Instruction::Multu { rs, rt }),
        0x1A => Some(Instruction::Div { rs, rt }),
        0x1B => Some(Instruction::Divu { rs, rt }),
        0x20 => Some(Instruction::Add { rs, rt, rd }),
        0x21 => Some(Instruction::Addu { rs, rt, rd }),
        0x22 => Some(Instruction::Sub { rs, rt, rd }),
        0x23 => Some(Instruction::Subu { rs, rt, rd }),
        0x24 => Some(Instruction::And { rs, rt, rd }),
        0x25 => Some(Instruction::Or { rs, rt, rd }),
        0x26 => Some(Instruction::Xor { rs, rt, rd }),
        0x27 => Some(Instruction::Nor { rs, rt, rd }),
        0x2A => Some(Instruction::Slt { rs, rt, rd }),
        0x2B => Some(Instruction::Sltu { rs, rt, rd }),
        _ => None,
    }
}

/// Decode a 32-bit instruction word; `None` if the word encodes no MIPS I
/// instruction.
pub fn decode(w: u32) -> (r: Option<Instruction>)
    ensures
        r == decode_spec(w),
        r matches Some(i) ==> i.wf(),
{
    proof {
        lemma_fields_bounded(w);
    }
    let rs = ((w >> 21u32) & 0x1F) as usize;
    let rt = ((w >> 16u32) & 0x1F) as usize;
    let imm = (w & 0xFFFF) as u16;
    let base = rs;
    let target = w & 0x3FF_FFFF;
    match w >> 26u32 {
        0x00 => decode_special(w),
        0x01 => match rt {
            0x00 => Some(Instruction::Bltz { rs, imm }),
            0x01 => Some(Instruction::Bgez { rs, imm }),
            0x10 => Some(Instruction::Bltzal { rs, imm }),
            0x11 => Some(Instruction::Bgezal { rs, imm }),
            _ => None,
        },
        0x02 => Some(Instruction::J { target }),
        0x03 => Some(Instruction::Jal { target }),
        0x04 => Some(Instruction::Beq { rs, rt, imm }),
        0x05 => Some(Instruction::Bne { rs, rt, imm }),
        0x06 => Some(Instruction::Blez { rs, imm }),
        0x07 => Some(Instruction::Bgtz { rs, imm }),
        0x08 => Some(Instruction::Addi { rs, rt, imm }),
        0x09 => Some(Instruction::Addiu { rs, rt, imm }),
        0x0A => Some(Instruction::Slti { rs, rt, imm }),
        0x0B => Some(Instruction::Sltiu { rs, rt, imm }),
        0x0C => Some(Instruction::Andi { rs, rt, imm }),
        0x0D => Some(Instruction::Ori { rs, rt, imm }),
        0x0E => Some(Instruction::Xori { rs, rt, imm }),
        0x0F => Some(Instruction::Lui { rt, imm }),
        0x10 => decode_cop(Coproc::Cop0, w),
        0x11 => decode_cop(Coproc::Cop1, w),
        0x12 => decode_cop(Coproc::Cop2, w),
        0x13 => decode_cop(Coproc::Cop3, w),
        0x20 => Some(Instruction::Lb { base, rt, imm }),
        0x21 => Some(Instruction::Lh { base, rt, imm }),
        0x22 => Some(Instruction::Lwl { base, rt, imm }),
        0x23 => Some(Instruction::Lw { base, rt, imm }),
        0x24 => Some(Instruction::Lbu { base, rt, imm }),
        0x25 => Some(Instruction::Lhu { base, rt, imm }),
        0x26 => Some(Instruction::Lwr { base, rt, imm }),
        0x28 => Some(Instruction::Sb { base, rt, imm }),
        0x29 => Some(Instruction::Sh { base, rt, imm }),
        0x2A => Some(Instruction::Swl { base, rt, imm }),
        0x2B => Some(Instruction::Sw { base, rt, imm }),
        0x2E => Some(Instruction::Swr { base, rt, imm }),
        0x31 => Some(Instruction::Lwc { z: Coproc::Cop1, base, rt, imm }),
        0x32 => Some(Instruction::Lwc { z: Coproc::Cop2, base, rt, imm }),
        0x33 => Some(Instruction::Lwc { z: Coproc::Cop3, base, rt, imm }),
        0x39 => Some(Instruction::Swc { z: Coproc::Cop1, base, rt, imm }),
        0x3A => Some(Instruction::Swc { z: Coproc::Cop2, base, rt, imm }),
        0x3B => Some(Instruction::Swc { z: Coproc::Cop3, base, rt, imm }),
        _ => None,
    }
}

} // verus!

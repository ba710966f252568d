use vstd::prelude::*;
use crate::alu::{left_offset, lwl_merge, lwr_merge, right_offset};
use crate::common::{sext16, signed32};
use crate::coproc::{Coprocessor, Coprocessor0};
use crate::cpu::ExceptionCode;
use crate::decode::Instruction;
use crate::mem::{lemma_bytes_value_bits, word_of, Mem16, Mem32, Memory, Ram};
use crate::mips1::MIPSI;

verus! {

/// Register 0 reads as 0 after any register write.
pub proof fn lemma_r0_reads_zero<
    M: Mem32,
    C0: Coprocessor0,
    C1: Coprocessor,
    C2: Coprocessor,
    C3: Coprocessor,
>(cpu: MIPSI<M, C0, C1, C2, C3>, i: int, v: u32)
    requires
        0 <= i < 32,
    ensures
        cpu.set_gpr(i, v).gpr(0) == 0,
{
}

/// Writing a register other than 0 and reading it back gives the value
/// written, and leaves every other register as it was.
pub proof fn lemma_write_then_read<
    M: Mem32,
    C0: Coprocessor0,
    C1: Coprocessor,
    C2: Coprocessor,
    C3: Coprocessor,
>(cpu: MIPSI<M, C0, C1, C2, C3>, i: int, v: u32)
    requires
        0 < i < 32,
    ensures
        cpu.set_gpr(i, v).gpr(i) == v,
        forall|j: int| 0 <= j < 32 && j != i ==> cpu.set_gpr(i, v).gpr(j) == cpu.gpr(j),
{
}

/// ADD, ADDI and SUB that overflow leave every register as it was and hand
/// coprocessor 0 an arithmetic-overflow report.
pub proof fn lemma_overflow_traps<
    M: Mem32,
    C0: Coprocessor0,
    C1: Coprocessor,
    C2: Coprocessor,
    C3: Coprocessor,
>(cpu: MIPSI<M, C0, C1, C2, C3>, i: Instruction)
    requires
        i.wf(),
        i is Add || i is Addi || i is Sub,
        cpu.traps(i),
    ensures
        cpu.executed(i).gp_reg == cpu.gp_reg,
        cpu.executed(i).coproc0 == cpu.coproc0.after_exception(
            cpu.report(ExceptionCode::ArithmeticOverflow, 0),
        ),
        cpu.report(ExceptionCode::ArithmeticOverflow, 0).code == ExceptionCode::ArithmeticOverflow,
{
}

/// ADDU, SUBU and ADDIU never trap, and give the sum or difference modulo 2^32.
pub proof fn lemma_unsigned_arith_wraps<
    M: Mem32,
    C0: Coprocessor0,
    C1: Coprocessor,
    C2: Coprocessor,
    C3: Coprocessor,
>(cpu: MIPSI<M, C0, C1, C2, C3>, rs: usize, rt: usize, rd: usize, imm: u16)
    requires
        rs < 32,
        rt < 32,
        0 < rd < 32,
    ensures
        ({
            let (a, b) = (cpu.gpr(rs as int), cpu.gpr(rt as int));
            let addu = Instruction::Addu { rs, rt, rd };
            let subu = Instruction::Subu { rs, rt, rd };
            let addiu = Instruction::Addiu { rs, rt: rd, imm };
            &&& !cpu.traps(addu) && !cpu.traps(subu) && !cpu.traps(addiu)
            &&& cpu.executed(addu).gpr(rd as int) as int == (a as int + b as int) % 0x1_0000_0000
            &&& cpu.executed(subu).gpr(rd as int) as int == (a as int - b as int) % 0x1_0000_0000
            &&& cpu.executed(addiu).gpr(rd as int) as int == (a as int + sext16(imm) as int)
                % 0x1_0000_0000
            &&& cpu.executed(addu).coproc0 == cpu.coproc0 && cpu.executed(addu).pc == cpu.pc
            &&& cpu.executed(subu).coproc0 == cpu.coproc0 && cpu.executed(subu).pc == cpu.pc
            &&& cpu.executed(addiu).coproc0 == cpu.coproc0 && cpu.executed(addiu).pc == cpu.pc
        }),
{
}

/// LUI followed by ORI of the same register loads `(imm << 16) | lo`.
pub proof fn lemma_lui_ori_constant<
    M: Mem32,
    C0: Coprocessor0,
    C1: Coprocessor,
    C2: Coprocessor,
    C3: Coprocessor,
>(cpu: MIPSI<M, C0, C1, C2, C3>, rt: usize, imm: u16, lo: u16)
    requires
        0 < rt < 32,
    ensures
        cpu.executed(Instruction::Lui { rt, imm }).executed(
            Instruction::Ori { rs: rt, rt, imm: lo },
        ).gpr(rt as int) == ((imm as u32) << 16u32) | (lo as u32),
        cpu.executed(Instruction::Lui { rt, imm }).executed(
            Instruction::Ori { rs: rt, rt, imm: lo },
        ).gpr(rt as int) as int == imm as int * 0x1_0000 + lo as int,
{
    let (hi32, lo32) = (imm as u32, lo as u32);
    assert(hi32 < 0x1_0000 && lo32 < 0x1_0000 ==> ((hi32 << 16u32) | lo32) == hi32 * 0x1_0000
        + lo32) by (bit_vector);
}

/// J from a state whose PC_next lies in the 0x8000_0000 segment jumps within it.
pub proof fn lemma_jump_keeps_segment<
    M: Mem32,
    C0: Coprocessor0,
    C1: Coprocessor,
    C2: Coprocessor,
    C3: Coprocessor,
>(cpu: MIPSI<M, C0, C1, C2, C3>, target: u32)
    requires
        cpu.pc_next & 0xF000_0000 == 0x8000_0000,
        target < 0x400_0000,
    ensures
        cpu.executed(Instruction::J { target }).pc_next == 0x8000_0000 | (target << 2u32),
        cpu.executed(Instruction::J { target }).pc_next & 0xF000_0000 == 0x8000_0000,
        cpu.executed(Instruction::J { target }).branch_delay,
{
    assert(target < 0x400_0000 ==> ((0x8000_0000u32 | (target << 2u32)) & 0xF000_0000)
        == 0x8000_0000) by (bit_vector);
}

/// BGEZAL with a negative `rs` links r31 but does not branch.
pub proof fn lemma_bgezal_negative_links_only<
    M: Mem32,
    C0: Coprocessor0,
    C1: Coprocessor,
    C2: Coprocessor,
    C3: Coprocessor,
>(cpu: MIPSI<M, C0, C1, C2, C3>, rs: usize, imm: u16)
    requires
        rs < 32,
        signed32(cpu.gpr(rs as int)) < 0,
        rs != 31 || signed32(cpu.pc_next) < 0,
    ensures
        cpu.executed(Instruction::Bgezal { rs, imm }).gpr(31) == cpu.pc_next,
        cpu.executed(Instruction::Bgezal { rs, imm }).pc_next == cpu.pc_next,
        cpu.executed(Instruction::Bgezal { rs, imm }).branch_delay == cpu.branch_delay,
{
}

/// An instruction that raises no exception leaves PC where it was, and sets
/// the delay flag exactly when it is a taken branch or a jump (or keeps a flag
/// already set).
pub proof fn lemma_executed_control<
    M: Mem32,
    C0: Coprocessor0,
    C1: Coprocessor,
    C2: Coprocessor,
    C3: Coprocessor,
>(cpu: MIPSI<M, C0, C1, C2, C3>, i: Instruction)
    requires
        i.wf(),
        !cpu.traps(i),
    ensures
        cpu.executed(i).pc == cpu.pc,
        cpu.executed(i).branch_delay == (cpu.transfers(i) || cpu.branch_delay),
{
}

/// A step that raises no exception leaves PC at the PC_next it started from.
pub proof fn lemma_step_advances_pc<
    M: Mem32,
    C0: Coprocessor0,
    C1: Coprocessor,
    C2: Coprocessor,
    C3: Coprocessor,
>(cpu: MIPSI<M, C0, C1, C2, C3>)
    requires
        !cpu.step_traps(),
    ensures
        cpu.step_spec().pc == cpu.pc_next,
{
    crate::decode::lemma_decoded_wf(cpu.mem.word_at(cpu.pc));
    let i = cpu.fetched_instr().unwrap();
    lemma_executed_control(cpu.fetched(), i);
}

/// No instruction changes the record of which instruction is in flight.
pub proof fn lemma_executed_keeps_flight<
    M: Mem32,
    C0: Coprocessor0,
    C1: Coprocessor,
    C2: Coprocessor,
    C3: Coprocessor,
>(cpu: MIPSI<M, C0, C1, C2, C3>, i: Instruction)
    ensures
        cpu.executed(i).current_instr_addr == cpu.current_instr_addr,
        cpu.executed(i).in_delay_slot == cpu.in_delay_slot,
{
}

/// A step records the instruction it fetched as the one in flight, and
/// whether it sat in a delay slot.
pub proof fn lemma_step_records_flight<
    M: Mem32,
    C0: Coprocessor0,
    C1: Coprocessor,
    C2: Coprocessor,
    C3: Coprocessor,
>(cpu: MIPSI<M, C0, C1, C2, C3>)
    ensures
        cpu.step_spec().current_instr_addr == cpu.pc,
        cpu.step_spec().in_delay_slot == cpu.branch_delay,
{
    if cpu.pc % 4 == 0 {
        if let Some(i) = cpu.fetched_instr() {
            lemma_executed_keeps_flight(cpu.fetched(), i);
        }
    }
}

/// A step that executes a taken branch or a jump sets the delay flag and
/// leaves PC at the delay slot; the following step executes the delay slot,
/// marked as such, and when it raises no exception moves PC to the target.
pub proof fn lemma_delay_slot<
    M: Mem32,
    C0: Coprocessor0,
    C1: Coprocessor,
    C2: Coprocessor,
    C3: Coprocessor,
>(cpu: MIPSI<M, C0, C1, C2, C3>)
    requires
        cpu.pc % 4 == 0,
        cpu.fetched_instr() matches Some(i) && cpu.fetched().transfers(i),
        !cpu.executed_step().interrupts(),
    ensures
        ({
            let t = cpu.step_spec();
            let target = cpu.fetched().executed(cpu.fetched_instr().unwrap()).pc_next;
            &&& t.branch_delay
            &&& t.pc == cpu.pc_next
            &&& t.pc_next == target
            &&& t.step_spec().current_instr_addr == cpu.pc_next
            &&& t.step_spec().in_delay_slot
            &&& !t.step_traps() ==> t.step_spec().pc == target
        }),
{
    crate::decode::lemma_decoded_wf(cpu.mem.word_at(cpu.pc));
    let i = cpu.fetched_instr().unwrap();
    let f = cpu.fetched();
    let e = f.executed(i);
    assert(!f.traps(i));
    lemma_executed_control(f, i);
    assert(cpu.executed_step() == e);
    let t = cpu.step_spec();
    assert(t.pc == e.pc && t.pc_next == e.pc_next && t.branch_delay == e.branch_delay);
    lemma_step_records_flight(t);
    if !t.step_traps() {
        lemma_step_advances_pc(t);
    }
}

/// On RAM, storing a register with SW and loading the same aligned address
/// with LW gives the stored word.
pub proof fn lemma_sw_then_lw<
    const N: usize,
    C0: Coprocessor0,
    C1: Coprocessor,
    C2: Coprocessor,
    C3: Coprocessor,
>(cpu: MIPSI<Ram<N>, C0, C1, C2, C3>, base: usize, rt: usize, rd: usize, imm: u16)
    requires
        base < 32,
        rt < 32,
        0 < rd < 32,
        cpu.ea(base, imm) % 4 == 0,
        cpu.ea(base, imm) as int + 3 < N,
    ensures
        cpu.executed(Instruction::Sw { base, rt, imm }).executed(
            Instruction::Lw { base, rt: rd, imm },
        ).gpr(rd as int) == cpu.gpr(rt as int),
{
    cpu.mem.lemma_word_round_trip(cpu.ea(base, imm), cpu.gpr(rt as int));
}

/// On RAM, storing a register's low halfword `v` with SH and loading the same
/// aligned address gives `v` through LHU and `v` sign-extended through LH.
pub proof fn lemma_sh_then_lh<
    const N: usize,
    C0: Coprocessor0,
    C1: Coprocessor,
    C2: Coprocessor,
    C3: Coprocessor,
>(cpu: MIPSI<Ram<N>, C0, C1, C2, C3>, base: usize, rt: usize, rd: usize, imm: u16)
    requires
        base < 32,
        rt < 32,
        0 < rd < 32,
        cpu.ea(base, imm) % 2 == 0,
        cpu.ea(base, imm) as int + 1 < N,
    ensures
        ({
            let v = (cpu.gpr(rt as int) % 0x1_0000) as u16;
            let stored = cpu.executed(Instruction::Sh { base, rt, imm });
            &&& stored.executed(Instruction::Lhu { base, rt: rd, imm }).gpr(rd as int) == v as u32
            &&& stored.executed(Instruction::Lh { base, rt: rd, imm }).gpr(rd as int) == sext16(v)
        }),
{
    cpu.mem.lemma_halfword_round_trip(cpu.ea(base, imm), (cpu.gpr(rt as int) % 0x1_0000) as u16);
}

/// A word as its bytes in order of rising address, shifted into place.
pub open spec fn word_bits(x0: u32, x1: u32, x2: u32, x3: u32, little: bool) -> u32 {
    if little {
        x0 | (x1 << 8u32) | (x2 << 16u32) | (x3 << 24u32)
    } else {
        (x0 << 24u32) | (x1 << 16u32) | (x2 << 8u32) | x3
    }
}

/// The merges of the LWL/LWR pair for byte position `ba`, over the two
/// aligned words `c0..c3` and `d0..d3` the unaligned word straddles, give the
/// word that bytes `ba..ba + 4` of the eight spell.
proof fn lemma_pair_merge(
    r0: u32,
    c0: u32,
    c1: u32,
    c2: u32,
    c3: u32,
    d0: u32,
    d1: u32,
    d2: u32,
    d3: u32,
    ba: u32,
    little: bool,
)
    requires
        1 <= ba < 4,
        c0 < 0x100 && c1 < 0x100 && c2 < 0x100 && c3 < 0x100,
        d0 < 0x100 && d1 < 0x100 && d2 < 0x100 && d3 < 0x100,
    ensures
        ({
            let w0 = word_bits(c0, c1, c2, c3, little);
            let w1 = word_bits(d0, d1, d2, d3, little);
            let b = seq![c0, c1, c2, c3, d0, d1, d2, d3];
            let expected = word_bits(b[ba as int], b[ba + 1], b[ba + 2], b[ba + 3], little);
            &&& little ==> lwl_merge(lwr_merge(r0, w0, ba), w1, (4 - ba) as u32) == expected
            &&& !little ==> lwr_merge(lwl_merge(r0, w0, ba), w1, (4 - ba) as u32) == expected
        }),
{
    if little && ba == 1 {
        assert(c0 < 0x100 && c1 < 0x100 && c2 < 0x100 && c3 < 0x100 && d0 < 0x100 && d1 < 0x100
            && d2 < 0x100 && d3 < 0x100 ==> ({
            let r1 = ((r0 & 0xFF00_0000) | ((c0 | (c1 << 8u32) | (c2 << 16u32) | (c3 << 24u32)) >> 8u32));
            ((r1 & 0x00FF_FFFF) | ((d0 | (d1 << 8u32) | (d2 << 16u32) | (d3 << 24u32)) << 24u32)) == (c1 | (c2 << 8u32) | (c3 << 16u32) | (d0 << 24u32))
        })) by (bit_vector);
    }
    if little && ba == 2 {
        assert(c0 < 0x100 && c1 < 0x100 && c2 < 0x100 && c3 < 0x100 && d0 < 0x100 && d1 < 0x100
            && d2 < 0x100 && d3 < 0x100 ==> ({
            let r1 = ((r0 & 0xFFFF_0000) | ((c0 | (c1 << 8u32) | (c2 << 16u32) | (c3 << 24u32)) >> 16u32));
            ((r1 & 0x0000_FFFF) | ((d0 | (d1 << 8u32) | (d2 << 16u32) | (d3 << 24u32)) << 16u32)) == (c2 | (c3 << 8u32) | (d0 << 16u32) | (d1 << 24u32))
        })) by (bit_vector);
    }
    if little && ba == 3 {
        assert(c0 < 0x100 && c1 < 0x100 && c2 < 0x100 && c3 < 0x100 && d0 < 0x100 && d1 < 0x100
            && d2 < 0x100 && d3 < 0x100 ==> ({
            let r1 = ((r0 & 0xFFFF_FF00) | ((c0 | (c1 << 8u32) | (c2 << 16u32) | (c3 << 24u32)) >> 24u32));
            ((r1 & 0x0000_00FF) | ((d0 | (d1 << 8u32) | (d2 << 16u32) | (d3 << 24u32)) << 8u32)) == (c3 | (d0 << 8u32) | (d1 << 16u32) | (d2 << 24u32))
        })) by (bit_vector);
    }
    if !little && ba == 1 {
        assert(c0 < 0x100 && c1 < 0x100 && c2 < 0x100 && c3 < 0x100 && d0 < 0x100 && d1 < 0x100
            && d2 < 0x100 && d3 < 0x100 ==> ({
            let r1 = ((r0 & 0x0000_00FF) | (((c0 << 24u32) | (c1 << 16u32) | (c2 << 8u32) | c3) << 8u32));
            ((r1 & 0xFFFF_FF00) | (((d0 << 24u32) | (d1 << 16u32) | (d2 << 8u32) | d3) >> 24u32)) == ((c1 << 24u32) | (c2 << 16u32) | (c3 << 8u32) | d0)
        })) by (bit_vector);
    }
    if !little && ba == 2 {
        assert(c0 < 0x100 && c1 < 0x100 && c2 < 0x100 && c3 < 0x100 && d0 < 0x100 && d1 < 0x100
            && d2 < 0x100 && d3 < 0x100 ==> ({
            let r1 = ((r0 & 0x0000_FFFF) | (((c0 << 24u32) | (c1 << 16u32) | (c2 << 8u32) | c3) << 16u32));
            ((r1 & 0xFFFF_0000) | (((d0 << 24u32) | (d1 << 16u32) | (d2 << 8u32) | d3) >> 16u32)) == ((c2 << 24u32) | (c3 << 16u32) | (d0 << 8u32) | d1)
        })) by (bit_vector);
    }
    if !little && ba == 3 {
        assert(c0 < 0x100 && c1 < 0x100 && c2 < 0x100 && c3 < 0x100 && d0 < 0x100 && d1 < 0x100
            && d2 < 0x100 && d3 < 0x100 ==> ({
            let r1 = ((r0 & 0x00FF_FFFF) | (((c0 << 24u32) | (c1 << 16u32) | (c2 << 8u32) | c3) << 24u32));
            ((r1 & 0xFF00_0000) | (((d0 << 24u32) | (d1 << 16u32) | (d2 << 8u32) | d3) >> 8u32)) == ((c3 << 24u32) | (d0 << 16u32) | (d1 << 8u32) | d2)
        })) by (bit_vector);
    }
}

/// A word composed from bytes equals its bytes shifted into place.
proof fn lemma_word_of_bits(b0: u8, b1: u8, b2: u8, b3: u8, little: bool)
    ensures
        word_of(b0, b1, b2, b3, little) == word_bits(
            b0 as u32,
            b1 as u32,
            b2 as u32,
            b3 as u32,
            little,
        ),
{
    lemma_bytes_value_bits(b0, b1, b2, b3);
    lemma_bytes_value_bits(b3, b2, b1, b0);
    let (x0, x1, x2, x3) = (b0 as u32, b1 as u32, b2 as u32, b3 as u32);
    assert((x3 | (x2 << 8u32) | (x1 << 16u32) | (x0 << 24u32)) == ((x0 << 24u32) | (x1 << 16u32) | (
    x2 << 8u32) | x3)) by (bit_vector);
}

/// The aligned word address holding `a`.
pub open spec fn word_base(a: u32) -> u32 {
    (a - a % 4) as u32
}

/// The register after the LWL/LWR pair that the byte order calls for, at `a`
/// then `a + 3`, starting from `r0`.
pub open spec fn pair_result<const N: usize>(ram: Ram<N>, a: u32, r0: u32) -> u32 {
    let a3 = (a + 3) as u32;
    if ram.little {
        lwl_merge(
            lwr_merge(r0, ram.word_at(word_base(a)), right_offset(a, true)),
            ram.word_at(word_base(a3)),
            left_offset(a3, true),
        )
    } else {
        lwr_merge(
            lwl_merge(r0, ram.word_at(word_base(a)), left_offset(a, false)),
            ram.word_at(word_base(a3)),
            right_offset(a3, false),
        )
    }
}

/// The pair's result, on RAM, is the word the four bytes from `a` spell.
proof fn lemma_ram_pair<const N: usize>(ram: Ram<N>, a: u32, r0: u32)
    requires
        a as int + 3 < 0x1_0000_0000,
    ensures
        pair_result(ram, a, r0) == word_of(
            ram.byte_at(a),
            ram.byte_at((a + 1) as u32),
            ram.byte_at((a + 2) as u32),
            ram.byte_at((a + 3) as u32),
            ram.little,
        ),
{
    let little = ram.little;
    let ba = a % 4;
    let wa0 = word_base(a);
    let wa1 = (wa0 + 4) as u32;
    let (c0, c1, c2, c3) = (
        ram.byte_at(wa0),
        ram.byte_at((wa0 + 1) as u32),
        ram.byte_at((wa0 + 2) as u32),
        ram.byte_at((wa0 + 3) as u32),
    );
    let (d0, d1, d2, d3) = (
        ram.byte_at(wa1),
        ram.byte_at((wa1 + 1) as u32),
        ram.byte_at((wa1 + 2) as u32),
        ram.byte_at((wa1 + 3) as u32),
    );
    lemma_word_of_bits(c0, c1, c2, c3, little);
    lemma_word_of_bits(d0, d1, d2, d3, little);
    lemma_word_of_bits(
        ram.byte_at(a),
        ram.byte_at((a + 1) as u32),
        ram.byte_at((a + 2) as u32),
        ram.byte_at((a + 3) as u32),
        little,
    );
    let w0 = ram.word_at(wa0);
    let r1 = if little {
        lwr_merge(r0, w0, right_offset(a, true))
    } else {
        lwl_merge(r0, w0, left_offset(a, false))
    };
    if ba == 0 {
        assert(word_base((a + 3) as u32) == wa0);
        assert((r1 & 0) | (w0 << 0u32) == w0 && (r1 & 0) | (w0 >> 0u32) == w0) by (bit_vector);
    } else {
        assert(word_base((a + 3) as u32) == wa1);
        assert(((a + 3) as u32) % 4 == ba - 1);
        lemma_pair_merge(
            r0,
            c0 as u32,
            c1 as u32,
            c2 as u32,
            c3 as u32,
            d0 as u32,
            d1 as u32,
            d2 as u32,
            d3 as u32,
            ba,
            little,
        );
        let b = seq![
            c0 as u32,
            c1 as u32,
            c2 as u32,
            c3 as u32,
            d0 as u32,
            d1 as u32,
            d2 as u32,
            d3 as u32,
        ];
        assert(b[ba as int] == ram.byte_at(a) as u32);
        assert(b[ba + 1] == ram.byte_at((a + 1) as u32) as u32);
        assert(b[ba + 2] == ram.byte_at((a + 2) as u32) as u32);
        assert(b[ba + 3] == ram.byte_at((a + 3) as u32) as u32);
    }
}

/// On RAM of either byte order, the LWL/LWR pair that the byte order calls
/// for (LWR at A then LWL at A + 3 when little-endian, LWL at A then LWR at
/// A + 3 when big-endian) loads the word that the four bytes from A spell,
/// whatever A's offset within its word.
pub proof fn lemma_unaligned_pair_loads_word<
    const N: usize,
    C0: Coprocessor0,
    C1: Coprocessor,
    C2: Coprocessor,
    C3: Coprocessor,
>(cpu: MIPSI<Ram<N>, C0, C1, C2, C3>, base: usize, rt: usize)
    requires
        base < 32,
        0 < rt < 32,
        base != rt,
        cpu.gpr(base as int) as int + 3 < 0x1_0000_0000,
    ensures
        ({
            let a = cpu.gpr(base as int);
            let little = cpu.mem.little;
            let first = if little {
                Instruction::Lwr { base, rt, imm: 0 }
            } else {
                Instruction::Lwl { base, rt, imm: 0 }
            };
            let second = if little {
                Instruction::Lwl { base, rt, imm: 3 }
            } else {
                Instruction::Lwr { base, rt, imm: 3 }
            };
            cpu.executed(first).executed(second).gpr(rt as int) == word_of(
                cpu.mem.byte_at(a),
                cpu.mem.byte_at((a + 1) as u32),
                cpu.mem.byte_at((a + 2) as u32),
                cpu.mem.byte_at((a + 3) as u32),
                little,
            )
        }),
{
    let a = cpu.gpr(base as int);
    assert(cpu.ea(base, 0) == a);
    assert(cpu.ea(base, 3) == (a + 3) as u32);
    lemma_ram_pair(cpu.mem, a, cpu.gpr(rt as int));
}

} // verus!

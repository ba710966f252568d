use mips::common::{
    bit, bytes32, bytes64, hi16, hi64, lo16, lo64, make16, make32, make64, sign_extend_16,
    sign_extend_32, sign_extend_8, test_bit,
};
use mips::coproc::{Coprocessor, Coprocessor0, EmptyCoproc, EmptyCoproc0};
use mips::cpu::{ExceptionCode, ExceptionReport, MIPSCore};
use mips::decode::{decode, Coproc, Instruction};
use mips::mem::{AddrBus, Mem16, Mem32, Mem64, Memory, Ram};
use mips::mips1::MIPSI;

/// Records the last exception it was handed; vectors to a fixed handler.
#[derive(Clone, Default)]
struct RecordingCop0 {
    data: [u32; 32],
    last: Option<ExceptionReport>,
    resets: u32,
    pending: bool,
}

impl Coprocessor0 for RecordingCop0 {
    fn data_reg(&self, reg: usize) -> u32 {
        self.data[reg]
    }
    fn after_move_from_reg(&self, _reg: usize) -> Self {
        self.clone()
    }
    fn after_move_to_reg(&self, reg: usize, val: u32) -> Self {
        let mut next = self.clone();
        next.data[reg] = val;
        next
    }
    fn after_operation(&self, _op: u32) -> Self {
        self.clone()
    }
    fn reset_vector(&self) -> u32 {
        0xBFC0_0000
    }
    fn after_reset(&self) -> Self {
        let mut next = self.clone();
        next.resets += 1;
        next
    }
    fn exception_vector(&self, _report: ExceptionReport) -> u32 {
        0x8000_0080
    }
    fn after_exception(&self, report: ExceptionReport) -> Self {
        let mut next = self.clone();
        next.last = Some(report);
        next
    }
    fn interrupt_taken(&self, lines: u8) -> bool {
        self.pending && lines == 0
    }
    fn after_external_interrupt(&self, _lines: u8) -> Self {
        self.clone()
    }

    fn move_from_reg(&mut self, reg: usize) -> u32 {
        let r = self.data_reg(reg);
        *self = self.after_move_from_reg(reg);
        r
    }
    fn move_to_reg(&mut self, reg: usize, val: u32) {
        *self = self.after_move_to_reg(reg, val);
    }
    fn operation(&mut self, op: u32) {
        *self = self.after_operation(op);
    }
    fn reset(&mut self) -> u32 {
        let r = self.reset_vector();
        *self = self.after_reset();
        r
    }
    fn trigger_exception(&mut self, report: &ExceptionReport) -> u32 {
        let r = self.exception_vector(*report);
        *self = self.after_exception(*report);
        r
    }
    fn external_interrupt(&mut self, lines: u8) -> bool {
        let r = self.interrupt_taken(lines);
        *self = self.after_external_interrupt(lines);
        r
    }
}

/// A coprocessor whose operation 1 adds data registers 1 and 2 into 3.
#[derive(Clone, Default)]
struct AddingCop {
    data: [u32; 32],
    control: [u32; 32],
}

impl Coprocessor for AddingCop {
    fn data_reg(&self, reg: usize) -> u32 {
        self.data[reg]
    }
    fn after_move_from_reg(&self, _reg: usize) -> Self {
        self.clone()
    }
    fn after_move_to_reg(&self, reg: usize, val: u32) -> Self {
        let mut next = self.clone();
        next.data[reg] = val;
        next
    }
    fn control_reg(&self, reg: usize) -> u32 {
        self.control[reg]
    }
    fn after_move_from_control(&self, _reg: usize) -> Self {
        self.clone()
    }
    fn after_move_to_control(&self, reg: usize, val: u32) -> Self {
        let mut next = self.clone();
        next.control[reg] = val;
        next
    }
    fn after_load_from_mem(&self, reg: usize, val: u32) -> Self {
        self.after_move_to_reg(reg, val)
    }
    fn stored_value(&self, reg: usize) -> u32 {
        self.data[reg]
    }
    fn after_store_to_mem(&self, _reg: usize) -> Self {
        self.clone()
    }
    fn after_operation(&self, op: u32) -> Self {
        let mut next = self.clone();
        if op == 1 {
            next.data[3] = self.data[1].wrapping_add(self.data[2]);
        }
        next
    }

    fn move_from_reg(&mut self, reg: usize) -> u32 {
        let r = self.data_reg(reg);
        *self = self.after_move_from_reg(reg);
        r
    }
    fn move_to_reg(&mut self, reg: usize, val: u32) {
        *self = self.after_move_to_reg(reg, val);
    }
    fn move_from_control(&mut self, reg: usize) -> u32 {
        let r = self.control_reg(reg);
        *self = self.after_move_from_control(reg);
        r
    }
    fn move_to_control(&mut self, reg: usize, val: u32) {
        *self = self.after_move_to_control(reg, val);
    }
    fn load_from_mem(&mut self, reg: usize, val: u32) {
        *self = self.after_load_from_mem(reg, val);
    }
    fn store_to_mem(&mut self, reg: usize) -> u32 {
        let r = self.stored_value(reg);
        *self = self.after_store_to_mem(reg);
        r
    }
    fn operation(&mut self, op: u32) {
        *self = self.after_operation(op);
    }
}

type Cpu = MIPSI<Ram<0x1000>, RecordingCop0, AddingCop, EmptyCoproc, EmptyCoproc>;

fn cpu_with(little: bool) -> Cpu {
    MIPSI::with_memory(Box::new(Ram::new(little)))
        .add_coproc0(RecordingCop0::default())
        .add_coproc1(AddingCop::default())
        .build()
}

fn new_cpu() -> Cpu {
    cpu_with(true)
}

fn last_code(cpu: &mut Cpu) -> Option<ExceptionCode> {
    cpu.coproc_0().last.map(|r| r.code)
}

fn i_type(op: u32, rs: u32, rt: u32, imm: u32) -> u32 {
    (op << 26) | (rs << 21) | (rt << 16) | (imm & 0xFFFF)
}

fn r_type(rs: u32, rt: u32, rd: u32, sa: u32, funct: u32) -> u32 {
    (rs << 21) | (rt << 16) | (rd << 11) | (sa << 6) | funct
}

#[test]
fn r0_stays_zero_after_write() {
    let mut cpu = new_cpu();
    cpu.write_gp(0, 0xDEAD_BEEF);
    assert_eq!(cpu.read_gp(0), 0);
    cpu.write_gp(5, 0x1234);
    assert_eq!(cpu.read_gp(0), 0);
}

#[test]
fn write_then_read_returns_value() {
    let mut cpu = new_cpu();
    for i in 1..32usize {
        cpu.write_gp(i, 0x100 + i as u32);
    }
    for i in 1..32usize {
        assert_eq!(cpu.read_gp(i), 0x100 + i as u32);
    }
}

#[test]
fn gpr_bedrock_scenario() {
    let mut cpu = new_cpu();
    cpu.write_gp(1, 0x1000);
    cpu.write_gp(2, 0x1234);
    cpu.add(1, 2, 3);
    assert_eq!(cpu.read_gp(3), 0x2234);
    assert_eq!(last_code(&mut cpu), None);

    cpu.write_gp(1, 0x8000_0000);
    cpu.write_gp(2, 0xFFFF_0000);
    cpu.add(1, 2, 3);
    assert_eq!(cpu.read_gp(3), 0x2234);
    assert_eq!(last_code(&mut cpu), Some(ExceptionCode::ArithmeticOverflow));
    assert_eq!(cpu.pc(), 0x8000_0080);
    assert_eq!(cpu.pc_next(), 0x8000_0084);
}

#[test]
fn add_boundary_traps_addu_wraps() {
    let mut cpu = new_cpu();
    cpu.write_gp(1, 0x7FFF_FFFF);
    cpu.write_gp(2, 1);
    cpu.write_gp(3, 0x55);
    cpu.add(1, 2, 3);
    assert_eq!(cpu.read_gp(3), 0x55);
    assert_eq!(last_code(&mut cpu), Some(ExceptionCode::ArithmeticOverflow));
    cpu.addu(1, 2, 3);
    assert_eq!(cpu.read_gp(3), 0x8000_0000);
}

#[test]
fn sub_and_addi_overflow_keep_destination() {
    let mut cpu = new_cpu();
    cpu.write_gp(1, 0x8000_0000);
    cpu.write_gp(2, 1);
    cpu.write_gp(3, 7);
    cpu.sub(1, 2, 3);
    assert_eq!(cpu.read_gp(3), 7);
    assert_eq!(last_code(&mut cpu), Some(ExceptionCode::ArithmeticOverflow));

    let mut cpu = cpu_with(true);
    cpu.write_gp(1, 0x7FFF_FFFF);
    cpu.write_gp(4, 9);
    cpu.addi(1, 4, 1);
    assert_eq!(cpu.read_gp(4), 9);
    assert_eq!(last_code(&mut cpu), Some(ExceptionCode::ArithmeticOverflow));
}

#[test]
fn unsigned_arithmetic_wraps() {
    let mut cpu = new_cpu();
    cpu.write_gp(1, 0);
    cpu.write_gp(2, 1);
    cpu.subu(1, 2, 3);
    assert_eq!(cpu.read_gp(3), 0xFFFF_FFFF);
    cpu.addiu(2, 4, 0xFFFF);
    assert_eq!(cpu.read_gp(4), 0);
    assert_eq!(last_code(&mut cpu), None);
}

#[test]
fn shift_right_boundary() {
    let mut cpu = new_cpu();
    cpu.write_gp(1, 0xFFFF_FFFF);
    cpu.sra(1, 1, 2);
    assert_eq!(cpu.read_gp(2), 0xFFFF_FFFF);
    cpu.srl(1, 1, 3);
    assert_eq!(cpu.read_gp(3), 0x7FFF_FFFF);
}

#[test]
fn lui_ori_builds_constant() {
    let mut cpu = new_cpu();
    cpu.write_gp(7, 0xFFFF_FFFF);
    cpu.lui(7, 0x1234);
    assert_eq!(cpu.read_gp(7), 0x1234_0000);
    cpu.ori(7, 7, 0xABCD);
    assert_eq!(cpu.read_gp(7), 0x1234_ABCD);
}

#[test]
fn sw_then_lw_round_trip() {
    for little in [true, false] {
        let mut cpu = cpu_with(little);
        cpu.write_gp(1, 0x100);
        cpu.write_gp(2, 0xCAFE_F00D);
        cpu.sw(1, 2, 0x10);
        cpu.lw(1, 3, 0x10);
        assert_eq!(cpu.read_gp(3), 0xCAFE_F00D);
    }
}

#[test]
fn sh_then_lhu_and_lh() {
    for little in [true, false] {
        let mut cpu = cpu_with(little);
        cpu.write_gp(1, 0x200);
        cpu.write_gp(2, 0x1234_8765);
        cpu.sh(1, 2, 2);
        cpu.lhu(1, 3, 2);
        assert_eq!(cpu.read_gp(3), 0x8765);
        cpu.lh(1, 4, 2);
        assert_eq!(cpu.read_gp(4), 0xFFFF_8765);
        assert_eq!(cpu.read_gp(4), sign_extend_16(0x8765));
    }
}

#[test]
fn big_endian_byte_order() {
    let mut cpu = cpu_with(false);
    cpu.mem().write_word(0, 0x1122_3344);
    assert_eq!(cpu.mem().read_byte(0), 0x11);
    assert_eq!(cpu.mem().read_byte(3), 0x44);
    assert_eq!(cpu.mem().read_halfword(2), 0x3344);
}

#[test]
fn unaligned_load_scenario() {
    let mut cpu = new_cpu();
    cpu.mem().write_word(0, 0x8765_4321);
    cpu.write_gp(1, 1);
    cpu.lwl(1, 2, 0);
    assert_eq!(cpu.read_gp(2), 0x4321_0000);

    let mut cpu = new_cpu();
    cpu.mem().write_word(0, 0x8765_4321);
    cpu.write_gp(1, 1);
    cpu.lwr(1, 2, 0);
    assert_eq!(cpu.read_gp(2), 0x0087_6543);
}

/// Loads the word at `addr` with an LWL/LWR pair and compares it with the
/// word the bytes at `addr..addr + 4` spell in the memory's byte order.
fn check_unaligned_pair(little: bool, addr: u32) {
    let mut cpu = cpu_with(little);
    for k in 0..16u32 {
        cpu.mem().write_byte(0x40 + k, (0x10 + 0x11 * k) as u8);
    }
    let b: Vec<u32> = (0..4).map(|k| cpu.mem.peek(addr + k) as u32).collect();
    let expected = if little {
        b[0] | (b[1] << 8) | (b[2] << 16) | (b[3] << 24)
    } else {
        (b[0] << 24) | (b[1] << 16) | (b[2] << 8) | b[3]
    };
    cpu.write_gp(1, addr);
    cpu.write_gp(2, 0xDEAD_BEEF);
    if little {
        cpu.lwr(1, 2, 0);
        cpu.lwl(1, 2, 3);
    } else {
        cpu.lwl(1, 2, 0);
        cpu.lwr(1, 2, 3);
    }
    assert_eq!(cpu.read_gp(2), expected, "little={} addr={:#x}", little, addr);
}

#[test]
fn lwl_lwr_pairs_reconstruct_word() {
    for little in [true, false] {
        for addr in 0x40..0x44u32 {
            check_unaligned_pair(little, addr);
        }
    }
}

#[test]
fn swl_swr_pairs_store_word() {
    for little in [true, false] {
        for addr in 0x40..0x44u32 {
            let mut cpu = cpu_with(little);
            cpu.write_gp(1, addr);
            cpu.write_gp(2, 0x0102_0304);
            if little {
                cpu.swr(1, 2, 0);
                cpu.swl(1, 2, 3);
            } else {
                cpu.swl(1, 2, 0);
                cpu.swr(1, 2, 3);
            }
            cpu.write_gp(3, 0);
            if little {
                cpu.lwr(1, 3, 0);
                cpu.lwl(1, 3, 3);
            } else {
                cpu.lwl(1, 3, 0);
                cpu.lwr(1, 3, 3);
            }
            assert_eq!(cpu.read_gp(3), 0x0102_0304);
        }
    }
}

#[test]
fn branch_delay_scenario() {
    let mut cpu = new_cpu();
    cpu.mem().write_word(0, i_type(0x04, 1, 2, 0x40));
    cpu.mem().write_word(4, i_type(0x08, 3, 3, 0x123));
    cpu.mem().write_word(0x104, i_type(0x08, 4, 4, 0x456));
    cpu.write_gp(1, 0x1234);
    cpu.write_gp(2, 0x1234);
    cpu.step();
    assert!(cpu.branch_delay());
    assert_eq!(cpu.pc(), 4);
    assert_eq!(cpu.pc_next(), 0x104);
    cpu.step();
    assert_eq!(cpu.read_gp(3), 0x123);
    assert!(!cpu.branch_delay());
    assert_eq!(cpu.pc(), 0x104);
    cpu.step();
    assert_eq!(cpu.read_gp(4), 0x456);
}

#[test]
fn link_semantics_scenario() {
    let mut cpu = new_cpu();
    cpu.mem().write_word(0, i_type(0x01, 1, 0x11, 0x40));
    cpu.mem().write_word(4, i_type(0x08, 3, 3, 0x123));
    cpu.mem().write_word(0x104, i_type(0x08, 4, 4, 0x456));
    cpu.write_gp(1, 0x1234_5678);
    cpu.step();
    assert_eq!(cpu.read_gp(31), 8);
    cpu.step();
    assert_eq!(cpu.read_gp(3), 0x123);
    cpu.step();
    assert_eq!(cpu.read_gp(4), 0x456);
}

#[test]
fn bgezal_negative_links_without_branch() {
    let mut cpu = new_cpu();
    cpu.write_gp(1, 0x8000_0000);
    cpu.bgezal(1, 0x40);
    assert_eq!(cpu.read_gp(31), 4);
    assert!(!cpu.branch_delay());
    assert_eq!(cpu.pc_next(), 4);
}

#[test]
fn jump_keeps_segment() {
    let mut cpu = new_cpu();
    cpu.write_gp(1, 0x8000_1000);
    cpu.jr(1);
    assert_eq!(cpu.pc_next(), 0x8000_1000);
    cpu.j(0x40);
    assert_eq!(cpu.pc_next(), 0x8000_0100);
    assert!(cpu.branch_delay());

    let mut cpu = new_cpu();
    cpu.reset();
    cpu.j(0x3FF_FFFF);
    assert_eq!(cpu.pc_next(), 0xBFFF_FFFC);
}

#[test]
fn jump_instruction_through_step() {
    let mut cpu = new_cpu();
    cpu.mem().write_word(0, (0x02 << 26) | 0x40);
    cpu.step();
    assert_eq!(cpu.pc(), 4);
    assert_eq!(cpu.pc_next(), 0x100);
    assert!(cpu.branch_delay());
    MIPSCore::step(&mut cpu);
    assert_eq!(cpu.pc(), 0x100);
}

#[test]
fn jal_and_jalr_link() {
    let mut cpu = new_cpu();
    cpu.jal(0x100);
    assert_eq!(cpu.read_gp(31), 4);
    assert_eq!(cpu.pc_next(), 0x400);
    cpu.write_gp(5, 0x2000);
    cpu.jalr(5, 6);
    assert_eq!(cpu.read_gp(6), 0x400);
    assert_eq!(cpu.pc_next(), 0x2000);
}

#[test]
fn coprocessor_move_scenario() {
    let mut cpu = new_cpu();
    cpu.write_gp(10, 0x100);
    cpu.mtcz(Coproc::Cop1, 10, 1);
    assert_eq!(cpu.coproc_1().unwrap().data[1], 0x100);
    cpu.coproc_1().unwrap().data[1] = 0xFF;
    cpu.mfcz(Coproc::Cop1, 10, 1);
    assert_eq!(cpu.read_gp(10), 0xFF);
    cpu.write_gp(11, 0x77);
    cpu.ctcz(Coproc::Cop1, 11, 4);
    cpu.cfcz(Coproc::Cop1, 12, 4);
    assert_eq!(cpu.read_gp(12), 0x77);
}

#[test]
fn coprocessor_operation_scenario() {
    let mut cpu = new_cpu();
    cpu.mem().write_word(0, (0x11 << 26) | (1 << 25) | 1);
    cpu.coproc_1().unwrap().data[1] = 0xFF;
    cpu.coproc_1().unwrap().data[2] = 0x2;
    cpu.step();
    assert_eq!(cpu.coproc_1().unwrap().data[3], 0x101);
}

#[test]
fn empty_slot_is_unusable_without_side_effects() {
    let mut cpu = new_cpu();
    cpu.write_gp(3, 0x1234);
    cpu.mtcz(Coproc::Cop2, 3, 1);
    assert_eq!(last_code(&mut cpu), Some(ExceptionCode::CoProcUnusable));
    let mut cpu = cpu_with(true);
    cpu.write_gp(4, 0x99);
    cpu.mfcz(Coproc::Cop3, 4, 1);
    assert_eq!(cpu.read_gp(4), 0x99);
    assert_eq!(last_code(&mut cpu), Some(ExceptionCode::CoProcUnusable));
    let mut cpu = cpu_with(true);
    cpu.mem().write_word(0x20, 0x5555_5555);
    cpu.write_gp(1, 0x20);
    cpu.swcz(Coproc::Cop2, 1, 0, 0);
    assert_eq!(cpu.mem().read_word(0x20), 0x5555_5555);
    assert_eq!(last_code(&mut cpu), Some(ExceptionCode::CoProcUnusable));
}

#[test]
fn lwc_swc_move_words() {
    let mut cpu = new_cpu();
    cpu.mem().write_word(0x30, 0xABCD_0123);
    cpu.write_gp(1, 0x30);
    cpu.lwcz(Coproc::Cop1, 1, 7, 0);
    assert_eq!(cpu.coproc_1().unwrap().data[7], 0xABCD_0123);
    cpu.swcz(Coproc::Cop1, 1, 7, 4);
    assert_eq!(cpu.mem().read_word(0x34), 0xABCD_0123);
}

#[test]
fn misaligned_accesses_raise_address_errors() {
    let mut cpu = new_cpu();
    cpu.write_gp(1, 0x11);
    cpu.write_gp(2, 0x42);
    cpu.lw(1, 2, 0);
    assert_eq!(cpu.read_gp(2), 0x42);
    let report = cpu.coproc_0().last.unwrap();
    assert_eq!(report.code, ExceptionCode::AddrErrorLoad);
    assert_eq!(report.bad_virtual_addr, 0x11);
    cpu.sh(1, 2, 0);
    let report = cpu.coproc_0().last.unwrap();
    assert_eq!(report.code, ExceptionCode::AddrErrorStore);
    assert_eq!(report.bad_virtual_addr, 0x11);
}

#[test]
fn reserved_instruction_and_syscall() {
    let mut cpu = new_cpu();
    cpu.mem().write_word(0, 0xFC00_0000);
    cpu.step();
    assert_eq!(last_code(&mut cpu), Some(ExceptionCode::ReservedInstruction));
    assert_eq!(cpu.pc(), 0x8000_0080);
    let mut cpu = cpu_with(true);
    cpu.mem().write_word(0, 0x0C);
    cpu.step();
    let report = cpu.coproc_0().last.unwrap();
    assert_eq!(report.code, ExceptionCode::Syscall);
    assert_eq!(report.ret_addr, 0);
    assert!(!report.branch_delay);
    cpu.brk();
    assert_eq!(last_code(&mut cpu), Some(ExceptionCode::Breakpoint));
}

#[test]
fn exception_in_delay_slot_reports_branch() {
    let mut cpu = new_cpu();
    cpu.mem().write_word(0x100, i_type(0x04, 0, 0, 0x10));
    cpu.mem().write_word(0x104, 0x0D);
    cpu.jr(0);
    cpu.write_gp(9, 0x100);
    cpu.jr(9);
    cpu.step();
    cpu.step();
    cpu.step();
    let report = cpu.coproc_0().last.unwrap();
    assert_eq!(report.code, ExceptionCode::Breakpoint);
    assert!(report.branch_delay);
    assert_eq!(report.ret_addr, 0x100);
}

#[test]
fn reset_and_interrupt() {
    let mut cpu = new_cpu();
    cpu.reset();
    assert_eq!(cpu.pc(), 0xBFC0_0000);
    assert_eq!(cpu.pc_next(), 0xBFC0_0004);
    assert_eq!(cpu.coproc_0().resets, 1);

    let mut cpu = cpu_with(true);
    cpu.coproc_0().pending = true;
    cpu.step();
    assert_eq!(last_code(&mut cpu), Some(ExceptionCode::Interrupt));
    assert_eq!(cpu.pc(), 0x8000_0080);
}

#[test]
fn step_without_trap_advances_pc() {
    let mut cpu = new_cpu();
    cpu.mem().write_word(0, r_type(1, 2, 3, 0, 0x21));
    cpu.step();
    assert_eq!(cpu.pc(), 4);
    assert_eq!(cpu.pc_next(), 8);
}

#[test]
fn divide_by_zero_and_overflow() {
    let mut cpu = new_cpu();
    cpu.write_gp(1, 7);
    cpu.div(1, 0);
    assert_eq!(cpu.read_lo(), 0xFFFF_FFFF);
    assert_eq!(cpu.read_hi(), 7);
    cpu.write_gp(1, 0xFFFF_FFF9);
    cpu.div(1, 0);
    assert_eq!(cpu.read_lo(), 1);
    assert_eq!(cpu.read_hi(), 0xFFFF_FFF9);
    cpu.divu(1, 0);
    assert_eq!(cpu.read_lo(), 0xFFFF_FFFF);
    cpu.write_gp(1, 0x8000_0000);
    cpu.write_gp(2, 0xFFFF_FFFF);
    cpu.div(1, 2);
    assert_eq!(cpu.read_lo(), 0x8000_0000);
    assert_eq!(cpu.read_hi(), 0);
    cpu.write_gp(1, 0xFFFF_FFF9);
    cpu.write_gp(2, 2);
    cpu.div(1, 2);
    assert_eq!(cpu.read_lo(), 0xFFFF_FFFD);
    assert_eq!(cpu.read_hi(), 0xFFFF_FFFF);
}

#[test]
fn hi_lo_moves() {
    let mut cpu = new_cpu();
    cpu.write_gp(1, 0x11);
    cpu.write_gp(2, 0x22);
    cpu.mthi(1);
    cpu.mtlo(2);
    cpu.mfhi(3);
    cpu.mflo(4);
    assert_eq!(cpu.read_gp(3), 0x11);
    assert_eq!(cpu.read_gp(4), 0x22);
    cpu.mem().write_word(0, r_type(1, 0, 0, 0, 0x13));
    cpu.write_gp(1, 0x33);
    cpu.step();
    assert_eq!(cpu.read_lo(), 0x33);
    assert_eq!(cpu.read_hi(), 0x11);
}

#[test]
fn decode_fields() {
    assert_eq!(decode(r_type(1, 2, 3, 0, 0x20)), Some(Instruction::Add { rs: 1, rt: 2, rd: 3 }));
    assert_eq!(decode(r_type(0, 4, 5, 7, 0x03)), Some(Instruction::Sra { rt: 4, rd: 5, sa: 7 }));
    assert_eq!(decode(i_type(0x0F, 0, 9, 0xBEEF)), Some(Instruction::Lui { rt: 9, imm: 0xBEEF }));
    assert_eq!(decode((0x03 << 26) | 0x3FF_FFFF), Some(Instruction::Jal { target: 0x3FF_FFFF }));
    assert_eq!(decode(i_type(0x01, 3, 0x10, 0xFFFC)), Some(Instruction::Bltzal { rs: 3, imm: 0xFFFC }));
    assert_eq!(decode(i_type(0x12, 0x02, 1, 0)), Some(Instruction::Cfc { z: Coproc::Cop2, rt: 1, rd: 0 }));
    assert_eq!(decode(i_type(0x10, 0x02, 1, 0)), None);
    assert_eq!(decode(i_type(0x33, 1, 2, 8)), Some(Instruction::Lwc { z: Coproc::Cop3, base: 1, rt: 2, imm: 8 }));
    assert_eq!(decode((0x13 << 26) | (1 << 25) | 0x1AB_CDEF), Some(Instruction::Cop { z: Coproc::Cop3, cofun: 0x1AB_CDEF }));
    assert_eq!(decode(r_type(0, 0, 0, 0, 0x13)), Some(Instruction::Mtlo { rs: 0 }));
    assert_eq!(decode(r_type(0, 0, 0, 0, 0x01)), None);
    assert_eq!(decode(i_type(0x30, 0, 0, 0)), None);
    assert_eq!(decode(i_type(0x01, 0, 0x02, 0)), None);
}

#[test]
fn execute_dispatches_decoded() {
    let mut cpu = new_cpu();
    cpu.write_gp(1, 6);
    cpu.write_gp(2, 7);
    cpu.execute(Instruction::Multu { rs: 1, rt: 2 });
    assert_eq!(cpu.read_lo(), 42);
}

#[test]
fn exception_numbers() {
    assert_eq!(ExceptionCode::Interrupt.number(), 0);
    assert_eq!(ExceptionCode::AddrErrorLoad.number(), 4);
    assert_eq!(ExceptionCode::Syscall.number(), 8);
    assert_eq!(ExceptionCode::ReservedInstruction.number(), 10);
    assert_eq!(ExceptionCode::CoProcUnusable.number(), 11);
    assert_eq!(ExceptionCode::ArithmeticOverflow.number(), 12);
}

#[test]
fn byte_helpers() {
    assert_eq!(bit(0), 1);
    assert_eq!(bit(31), 0x8000_0000);
    assert!(test_bit(0x10, 4));
    assert!(!test_bit(0x10, 3));
    assert_eq!(make16(0x34, 0x12), 0x1234);
    assert_eq!(lo16(0x1234), 0x34);
    assert_eq!(hi16(0x1234), 0x12);
    assert_eq!(make32(0x78, 0x56, 0x34, 0x12), 0x1234_5678);
    assert_eq!(bytes32(0x1234_5678), (0x78, 0x56, 0x34, 0x12));
    assert_eq!(make64(1, 2, 3, 4, 5, 6, 7, 8), 0x0807_0605_0403_0201);
    assert_eq!(bytes64(0x0807_0605_0403_0201), (1, 2, 3, 4, 5, 6, 7, 8));
    assert_eq!(lo64(0x1122_3344_5566_7788), 0x5566_7788);
    assert_eq!(hi64(0x1122_3344_5566_7788), 0x1122_3344);
    assert_eq!(sign_extend_8(0x80), 0xFFFF_FF80);
    assert_eq!(sign_extend_8(0x7F), 0x7F);
    assert_eq!(sign_extend_16(0x8000), 0xFFFF_8000);
    assert_eq!(sign_extend_16(0x7FFF), 0x7FFF);
    assert_eq!(sign_extend_32(0xFFFF_FFFF), -1);
    assert_eq!(sign_extend_32(0x7FFF_FFFF), 0x7FFF_FFFF);
}

#[test]
fn address_bus_wraps() {
    assert_eq!(AddrBus::new(5).inc().addr, 6);
    assert_eq!(AddrBus::new(0xFFFF_FFFF).inc().addr, 0);
}

#[test]
fn ram_outside_range() {
    let mut ram = Ram::<0x10>::new(true);
    ram.write_byte(0x20, 0xAA);
    assert_eq!(ram.read_byte(0x20), 0);
    assert_eq!(ram.clock(1), 0);
    assert!(ram.little_endian());
}

#[test]
fn empty_coprocessors_read_zero() {
    let mut c = EmptyCoproc {};
    c.move_to_reg(1, 5);
    assert_eq!(c.move_from_reg(1), 0);
    assert_eq!(c.store_to_mem(1), 0);
    let mut c0 = EmptyCoproc0 {};
    assert_eq!(c0.reset(), 0);
    assert!(!c0.external_interrupt(0xFF));
}

#[test]
fn doubleword_round_trip_both_orders() {
    let mut little = Ram::<0x40>::new(true);
    little.write_doubleword(8, 0x1122_3344_5566_7788);
    assert_eq!(little.read_doubleword(8), 0x1122_3344_5566_7788);
    assert_eq!(little.read_word(8), 0x5566_7788);
    assert_eq!(little.read_byte(8), 0x88);

    let mut big = Ram::<0x40>::new(false);
    big.write_doubleword(8, 0x1122_3344_5566_7788);
    assert_eq!(big.read_doubleword(8), 0x1122_3344_5566_7788);
    assert_eq!(big.read_word(8), 0x1122_3344);
    assert_eq!(big.read_byte(8), 0x11);
}

#[test]
fn misaligned_fetch_raises_address_error() {
    let mut cpu = new_cpu();
    cpu.write_gp(1, 0x102);
    cpu.jr(1);
    cpu.step();
    assert_eq!(cpu.pc(), 0x102);
    cpu.step();
    let report = cpu.coproc_0().last.unwrap();
    assert_eq!(report.code, ExceptionCode::AddrErrorLoad);
    assert_eq!(report.bad_virtual_addr, 0x102);
    assert_eq!(cpu.pc(), 0x8000_0080);
}

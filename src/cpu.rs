use vstd::prelude::*;

verus! {

/// Exception codes.
#[derive(Clone, Copy, Debug, PartialEq, Eq, Structural)]
pub enum ExceptionCode {
    Interrupt,
    TLBMod,
    TLBLoad,
    TLBStore,
    AddrErrorLoad,
    AddrErrorStore,
    InstructionBusError,
    DataBusError,
    Syscall,
    Breakpoint,
    ReservedInstruction,
    CoProcUnusable,
    ArithmeticOverflow,
}

impl ExceptionCode {
    /// The architectural number of the code, as coprocessor 0 records it.
    pub open spec fn spec_number(self) -> u32 {
        match self {
            ExceptionCode::Interrupt => 0,
            ExceptionCode::TLBMod => 1,
            ExceptionCode::TLBLoad => 2,
            ExceptionCode::TLBStore => 3,
            ExceptionCode::AddrErrorLoad => 4,
            ExceptionCode::AddrErrorStore => 5,
            ExceptionCode::InstructionBusError => 6,
            ExceptionCode::DataBusError => 7,
            ExceptionCode::Syscall => 8,
            ExceptionCode::Breakpoint => 9,
            ExceptionCode::ReservedInstruction => 10,
            ExceptionCode::CoProcUnusable => 11,
            ExceptionCode::ArithmeticOverflow => 12,
        }
    }

    /// The architectural number of the code.
    pub fn number(&self) -> (r: u32)
        ensures
            r == self.spec_number(),
    {
        match self {
            ExceptionCode::Interrupt => 0,
            ExceptionCode::TLBMod => 1,
            ExceptionCode::TLBLoad => 2,
            ExceptionCode::TLBStore => 3,
            ExceptionCode::AddrErrorLoad => 4,
            ExceptionCode::AddrErrorStore => 5,
            ExceptionCode::InstructionBusError => 6,
            ExceptionCode::DataBusError => 7,
            ExceptionCode::Syscall => 8,
            ExceptionCode::Breakpoint => 9,
            ExceptionCode::ReservedInstruction => 10,
            ExceptionCode::CoProcUnusable => 11,
            ExceptionCode::ArithmeticOverflow => 12,
        }
    }
}

/// What the core hands coprocessor 0 when it raises an exception.
#[derive(Clone, Copy, Debug, PartialEq, Eq, Structural)]
pub struct ExceptionReport {
    /// The kind of exception.
    pub code: ExceptionCode,
    /// The instruction the handler should treat as the offender: the branch
    /// itself when the faulting instruction sat in its delay slot.
    pub ret_addr: u32,
    /// The faulting address of a memory exception, 0 otherwise.
    pub bad_virtual_addr: u32,
    /// Whether the offending instruction was in a branch delay slot.
    pub branch_delay: bool,
}

/// The public face of a MIPS processor.
pub trait MIPSCore {
    /// Fetch, decode, and execute an instruction.
    fn step(&mut self);
}

} // verus!

use vstd::prelude::*;
use crate::cpu::ExceptionReport;

verus! {

/// A coprocessor for slots 1 to 3.
///
/// As with memory, a coprocessor is modelled as a deterministic state
/// machine: the spec functions give what each operation returns and the
/// state it leaves.
pub trait Coprocessor: Sized {
    /// What `move_from_reg(reg)` returns.
    spec fn data_reg(&self, reg: usize) -> u32;

    /// The state after `move_from_reg(reg)`.
    spec fn after_move_from_reg(&self, reg: usize) -> Self;

    /// The state after `move_to_reg(reg, val)`.
    spec fn after_move_to_reg(&self, reg: usize, val: u32) -> Self;

    /// What `move_from_control(reg)` returns.
    spec fn control_reg(&self, reg: usize) -> u32;

    /// The state after `move_from_control(reg)`.
    spec fn after_move_from_control(&self, reg: usize) -> Self;

    /// The state after `move_to_control(reg, val)`.
    spec fn after_move_to_control(&self, reg: usize, val: u32) -> Self;

    /// The state after `load_from_mem(reg, val)`.
    spec fn after_load_from_mem(&self, reg: usize, val: u32) -> Self;

    /// What `store_to_mem(reg)` returns.
    spec fn stored_value(&self, reg: usize) -> u32;

    /// The state after `store_to_mem(reg)`.
    spec fn after_store_to_mem(&self, reg: usize) -> Self;

    /// The state after `operation(op)`.
    spec fn after_operation(&self, op: u32) -> Self;

    fn move_from_reg(&mut self, reg: usize) -> (r: u32)
        requires
            reg < 32,
        ensures
            r == old(self).data_reg(reg),
            *final(self) == old(self).after_move_from_reg(reg),
    ;

    fn move_to_reg(&mut self, reg: usize, val: u32)
        requires
            reg < 32,
        ensures
            *final(self) == old(self).after_move_to_reg(reg, val),
    ;

    fn move_from_control(&mut self, reg: usize) -> (r: u32)
        requires
            reg < 32,
        ensures
            r == old(self).control_reg(reg),
            *final(self) == old(self).after_move_from_control(reg),
    ;

    fn move_to_control(&mut self, reg: usize, val: u32)
        requires
            reg < 32,
        ensures
            *final(self) == old(self).after_move_to_control(reg, val),
    ;

    /// Take a word loaded from memory into data register `reg`.
    fn load_from_mem(&mut self, reg: usize, val: u32)
        requires
            reg < 32,
        ensures
            *final(self) == old(self).after_load_from_mem(reg, val),
    ;

    /// Give the word of data register `reg` that is to be stored to memory.
    fn store_to_mem(&mut self, reg: usize) -> (r: u32)
        requires
            reg < 32,
        ensures
            r == old(self).stored_value(reg),
            *final(self) == old(self).after_store_to_mem(reg),
    ;

    /// Perform the raw 25-bit coprocessor function `op`.
    fn operation(&mut self, op: u32)
        ensures
            *final(self) == old(self).after_operation(op),
    ;
}

/// A coprocessor that holds nothing: reads give 0 and writes are dropped.
#[derive(Clone, Copy, Debug, Default, PartialEq, Eq, Structural)]
pub struct EmptyCoproc {}

impl Coprocessor for EmptyCoproc {
    open spec fn data_reg(&self, reg: usize) -> u32 {
        0
    }

    open spec fn after_move_from_reg(&self, reg: usize) -> Self {
        *self
    }

    open spec fn after_move_to_reg(&self, reg: usize, val: u32) -> Self {
        *self
    }

    open spec fn control_reg(&self, reg: usize) -> u32 {
        0
    }

    open spec fn after_move_from_control(&self, reg: usize) -> Self {
        *self
    }

    open spec fn after_move_to_control(&self, reg: usize, val: u32) -> Self {
        *self
    }

    open spec fn after_load_from_mem(&self, reg: usize, val: u32) -> Self {
        *self
    }

    open spec fn stored_value(&self, reg: usize) -> u32 {
        0
    }

    open spec fn after_store_to_mem(&self, reg: usize) -> Self {
        *self
    }

    open spec fn after_operation(&self, op: u32) -> Self {
        *self
    }

    fn move_from_reg(&mut self, reg: usize) -> (r: u32) {
        0
    }

    fn move_to_reg(&mut self, reg: usize, val: u32) {
    }

    fn move_from_control(&mut self, reg: usize) -> (r: u32) {
        0
    }

    fn move_to_control(&mut self, reg: usize, val: u32) {
    }

    fn load_from_mem(&mut self, reg: usize, val: u32) {
    }

    fn store_to_mem(&mut self, reg: usize) -> (r: u32) {
        0
    }

    fn operation(&mut self, op: u32) {
    }
}

/// Coprocessor 0: the system control coprocessor, the authority on resets,
/// exceptions and interrupts.
pub trait Coprocessor0: Sized {
    /// What `move_from_reg(reg)` returns.
    spec fn data_reg(&self, reg: usize) -> u32;

    /// The state after `move_from_reg(reg)`.
    spec fn after_move_from_reg(&self, reg: usize) -> Self;

    /// The state after `move_to_reg(reg, val)`.
    spec fn after_move_to_reg(&self, reg: usize, val: u32) -> Self;

    /// The state after `operation(op)`.
    spec fn after_operation(&self, op: u32) -> Self;

    /// The entry address that `reset` returns.
    spec fn reset_vector(&self) -> u32;

    /// The state after `reset()`.
    spec fn after_reset(&self) -> Self;

    /// The handler address that `trigger_exception(report)` returns.
    spec fn exception_vector(&self, report: ExceptionReport) -> u32;

    /// The state after `trigger_exception(report)`.
    spec fn after_exception(&self, report: ExceptionReport) -> Self;

    /// Whether `external_interrupt(lines)` asks for an interrupt.
    spec fn interrupt_taken(&self, lines: u8) -> bool;

    /// The state after `external_interrupt(lines)`.
    spec fn after_external_interrupt(&self, lines: u8) -> Self;

    fn move_from_reg(&mut self, reg: usize) -> (r: u32)
        requires
            reg < 32,
        ensures
            r == old(self).data_reg(reg),
            *final(self) == old(self).after_move_from_reg(reg),
    ;

    fn move_to_reg(&mut self, reg: usize, val: u32)
        requires
            reg < 32,
        ensures
            *final(self) == old(self).after_move_to_reg(reg, val),
    ;

    /// Perform the raw 25-bit coprocessor function `op`.
    fn operation(&mut self, op: u32)
        ensures
            *final(self) == old(self).after_operation(op),
    ;

    /// Reset; returns the address to start fetching from.
    fn reset(&mut self) -> (r: u32)
        ensures
            r == old(self).reset_vector(),
            *final(self) == old(self).after_reset(),
    ;

    /// Take an exception; returns the address of its handler.
    fn trigger_exception(&mut self, report: &ExceptionReport) -> (r: u32)
        ensures
            r == old(self).exception_vector(*report),
            *final(self) == old(self).after_exception(*report),
    ;

    /// Present the raised external interrupt lines; returns whether an
    /// interrupt is to be taken.
    fn external_interrupt(&mut self, lines: u8) -> (r: bool)
        ensures
            r == old(self).interrupt_taken(lines),
            *final(self) == old(self).after_external_interrupt(lines),
    ;
}

/// A coprocessor 0 that holds nothing: it vectors everything to address 0
/// and never asks for an interrupt.
#[derive(Clone, Copy, Debug, Default, PartialEq, Eq, Structural)]
pub struct EmptyCoproc0 {}

impl Coprocessor0 for EmptyCoproc0 {
    open spec fn data_reg(&self, reg: usize) -> u32 {
        0
    }

    open spec fn after_move_from_reg(&self, reg: usize) -> Self {
        *self
    }

    open spec fn after_move_to_reg(&self, reg: usize, val: u32) -> Self {
        *self
    }

    open spec fn after_operation(&self, op: u32) -> Self {
        *self
    }

    open spec fn reset_vector(&self) -> u32 {
        0
    }

    open spec fn after_reset(&self) -> Self {
        *self
    }

    open spec fn exception_vector(&self, report: ExceptionReport) -> u32 {
        0
    }

    open spec fn after_exception(&self, report: ExceptionReport) -> Self {
        *self
    }

    open spec fn interrupt_taken(&self, lines: u8) -> bool {
        false
    }

    open spec fn after_external_interrupt(&self, lines: u8) -> Self {
        *self
    }

    fn move_from_reg(&mut self, reg: usize) -> (r: u32) {
        0
    }

    fn move_to_reg(&mut self, reg: usize, val: u32) {
    }

    fn operation(&mut self, op: u32) {
    }

    fn reset(&mut self) -> (r: u32) {
        0
    }

    fn trigger_exception(&mut self, report: &ExceptionReport) -> (r: u32) {
        0
    }

    fn external_interrupt(&mut self, lines: u8) -> (r: bool) {
        false
    }
}

} // verus!

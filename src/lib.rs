//! A MIPS I instruction-set simulator core: decoder, executor and step loop,
//! driving a memory bus and up to four coprocessors.

/// Bit and byte helpers, and the word arithmetic the core is specified in.
pub mod common;

/// Memory bus traits, byte composition, and a plain RAM device.
pub mod mem;

/// Coprocessor traits, including coprocessor 0.
pub mod coproc;

/// Word-level semantics of the arithmetic, shift and merge operations.
pub mod alu;

/// The instruction decoder.
pub mod decode;

/// Exception codes and reports.
pub mod cpu;

/// The MIPS I processor: its state and the meaning of each instruction.
pub mod mips1;

/// The executable instruction set, the dispatcher and the step loop.
pub mod instructions;

/// Laws relating the instructions and the step loop.
pub mod laws;

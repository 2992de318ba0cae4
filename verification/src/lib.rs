//! Instruction-execution core of an 8-bit 6502-family processor emulator.
//!
//! The crate decodes machine-code bytes into structured instruction units,
//! executes them against a register file and a memory bus, and accounts for
//! hardware clock cycles, reproducing documented hardware quirks: page-cross
//! cycle penalties, the indirect-jump page-wrap defect, zero-page index
//! wraparound, and stack-pointer wraparound.

use vstd::prelude::*;

pub mod cpu;
pub mod decoder;
pub mod exec;
pub mod implementations;
pub mod ines;
pub mod instructions;
pub mod laws;
pub mod memory;
pub mod model;
pub mod utils;

verus! {

/// The failure signals of the core.
///
/// `MalformedStream` is fatal and marks a truncated program: decoding needed
/// an operand byte past the end of the byte stream.  `MemoryFault` is fatal
/// and marks an access outside the implemented bus region.  An opcode whose
/// semantics the executor does not define raises `UnsupportedOpcode`, which
/// marks incomplete core coverage rather than a malformed program.
#[derive(Clone, Copy, Debug, PartialEq, Eq, Structural)]
pub enum Fault {
    MalformedStream,
    MemoryFault,
    UnsupportedOpcode,
}

} // verus!

//! A MOS 6502 processor core: registers, status flags, a 64 KiB memory image
//! and an interpreter for the documented instruction set, each instruction
//! proved against a functional model of the processor.
pub mod cpu;
pub mod opcodes;
pub mod proofs;
pub mod state;
pub mod status;

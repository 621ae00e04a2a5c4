//! Arithmetic/logic execution unit of an 8-bit CPU: a register file, four
//! status flags, and the opcode-driven operations that update them.

pub mod alu;
pub mod cpu;
pub mod flags;
pub mod laws;
pub mod opcode;
pub mod registers;

//! Bytecode core of a small dynamically typed scripting language: an
//! append-only instruction chunk holding encoded instructions, a constant
//! pool and a per-byte source-line table, together with a stack-based
//! virtual machine that fetches, decodes and executes that instruction
//! stream against an operand stack and a global-variable table.

pub mod bytearray;
pub mod opcode;
pub mod value;
pub mod vm;

//! The instruction-execution core of an LR35902 (Game Boy class) CPU: the register
//! file and flag encoding, a flat 64 KiB memory bus, the instruction set with its
//! opcode decode tables, and the execute engine, each with its contract proved.

pub mod access;
pub mod arithmetic;
pub mod cpu;
pub mod decode;
pub mod instructions;
pub mod jump;
pub mod load_16;
pub mod load_8;
pub mod memory;
pub mod model;
pub mod registers;
pub mod util;

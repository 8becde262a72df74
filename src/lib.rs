//! A CHIP-8 virtual machine: machine state, instruction decoding and the
//! fetch-decode-execute cycle, each operation specified and verified.

pub mod fault;
pub mod lcg;
pub mod stack;
pub mod machine;
pub mod instr;
pub mod engine;
pub mod keymap;
pub mod laws;

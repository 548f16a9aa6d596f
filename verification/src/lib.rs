//! An assembler, disassembler and interpreter for the ARM7TDMI
//! instruction set (ARM state only).

pub mod assemble;
pub mod harness;
pub mod instr;
pub mod laws;
pub mod memory;
pub mod mode;
pub mod processor;
pub mod registers;

//! A verified interpreter core for the RV32I instruction set: a decoder from
//! 32-bit instruction words to tagged instruction values, execution semantics
//! for every instruction, a segmented little-endian memory subsystem, a
//! register file with a hard-wired zero register, and a fetch-decode-execute
//! loop that classifies its outcome as a halt or a structured fault.
pub mod cpu;
pub mod instructions;
pub mod mem;
pub mod registers;

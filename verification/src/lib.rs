//! Execution core of an 8-bit CPU emulator: a register file, a flat
//! byte-addressable memory with little-endian word helpers, an addressing-mode
//! resolver, the instruction executors, and the fetch-decode-execute loop that
//! drives a program until it halts or fails.

pub mod cpu;
pub mod flags;
pub mod machine;
pub mod opcode;
pub mod word;

pub use cpu::CPU;
pub use opcode::AddressingMode;
pub use opcode::EmuError;
pub use opcode::OpCode;
pub use opcode::Operation;
pub use word::lemma_word_round_trip;

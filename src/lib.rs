//! Emulation of the Zilog Z80 and Intel 8080 instruction sets: registers and flags,
//! decoding with prefixes, the execution of every opcode, and the step state machine
//! with interrupts, all with verified contracts.
pub mod cpu;
pub mod cycles;
pub mod decoder_8080;
pub mod decoder_z80;
pub mod environment;
pub mod execute;
pub mod machine;
pub mod opcode;
pub mod opcode_alu;
pub mod opcode_arith;
pub mod opcode_bits;
pub mod opcode_io;
pub mod opcode_jumps;
pub mod opcode_ld;
pub mod operators;
pub mod registers;
pub mod state;
pub mod text;
pub mod ville;

pub use cpu::{Cpu, Cpu8080};
pub use machine::{Machine, PlainMachine, PortAccess};
pub use ville::VilleMachine;
pub use registers::{Flag, Reg16, Reg8, Registers};
pub use state::{DeserializeError, State};

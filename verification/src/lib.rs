//! Fetch-decode-execute core of an 8-bit AVR-class microcontroller emulator.
//!
//! The core has two halves that share the `Instruction` data type: a decoder
//! that turns a raw 16-bit word into a structured instruction, and an
//! execution unit that applies an instruction's effect to the register bank
//! and the data memory, reproducing the carry/zero/negative/overflow/half-carry
//! flag arithmetic bit for bit.  Program-counter management belongs to the
//! surrounding fetch loop; control-flow instructions report their decision
//! outward as a `ControlSignal` value instead of mutating a program counter.

pub mod instruction;
pub mod register_bank;
pub mod memory_bank;
pub mod decoder;
pub mod alu;
pub mod arithmetic_logic;
pub mod transfer;
pub mod call_jmp;
pub mod branch;
pub mod disasm;

//! The instruction-processing core of a 6502-class 8-bit processor.
//!
//! The crate is layered the way the processor is:
//!
//! * [`memory`]: the 64 KiB address space, with byte and little-endian word access;
//! * [`flags`]: the status register and the rule by which a result sets Zero and Negative;
//! * [`instruction`]: the opcode table, from an opcode byte to operation and addressing mode;
//! * [`model`]: the processor as mathematics, the state and the functions on it that the
//!   contracts are stated over, with the lemmas that say what these functions do;
//! * [`cpu`]: the processor itself, with its registers, its instructions and the
//!   fetch-decode-execute loop.
pub mod cpu;
pub mod flags;
pub mod instruction;
pub mod memory;
pub mod model;

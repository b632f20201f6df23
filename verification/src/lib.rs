//! A minimal instruction-set simulator: sparse byte memory, a register file
//! with a hardwired-zero register, a strict instruction decoder and the
//! fetch-decode-execute engine that ties them together.
//!
//! Every function is verified against a contract over plain mathematical
//! values: a memory is a map from addresses to bytes, a register file a map
//! from registers to words, and a machine a [`State`] whose cycles
//! [`State::step`] defines. Failures are values of [`Error`]; no function
//! panics.

use vstd::prelude::*;

pub mod error;
pub mod instruction;
pub mod machine;
pub mod memory;
pub mod register;
pub mod syscall;

pub use error::Error;
pub use instruction::{Instruction, Opcode};
pub use machine::{Machine, Outcome, State, Status};
pub use memory::Memory;
pub use register::{RegisterID, Registers};
pub use syscall::Syscall;

verus! {

/// The unit of instruction encoding and of register contents.
pub type Word = u32;

/// The address of one byte of memory.
pub type Address = u32;

} // verus!

//! The ways in which decoding or executing an instruction can fail.

use crate::Word;
use std::num::TryFromIntError;
use vstd::prelude::*;

verus! {

/// A failure that ends the current run of a machine.
#[derive(Debug, PartialEq)]
pub enum Error {
    /// The opcode field of an instruction word names no opcode; holds the
    /// value of the field.
    OpcodeUnknown(Word),
    /// A register field of an instruction word names no register; holds the
    /// value of the field.
    RegisterUnknown(Word),
    /// The syscall-number register names no syscall; holds its value.
    SyscallUnknown(Word),
    /// The immediate field does not fit the immediate's width.
    ImmediateValue(TryFromIntError),
    /// A write syscall names a file descriptor other than standard output;
    /// holds the descriptor. Reported as a value like every other failure,
    /// so that the caller decides whether it is fatal.
    FileDescriptorUnsupported(Word),
}

} // verus!

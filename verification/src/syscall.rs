//! The syscall table: which operation a syscall number names.

use crate::error::Error;
use crate::Word;
use vstd::prelude::*;

verus! {

/// An operation that a program can ask of its host.
#[derive(Debug, Clone, Copy, PartialEq, Eq, Structural)]
pub enum Syscall {
    /// Append bytes of memory to the output.
    Write,
}

impl Syscall {
    /// The syscall that the number `word` names, if any.
    pub open spec fn resolve(word: Word) -> Result<Syscall, Error> {
        if word == 64 {
            Ok(Syscall::Write)
        } else {
            Err(Error::SyscallUnknown(word))
        }
    }
}

impl TryFrom<Word> for Syscall {
    type Error = Error;

    /// Looks a syscall number up in the table.
    fn try_from(word: Word) -> (resolved: Result<Self, Error>)
        ensures
            resolved == Syscall::resolve(word),
    {
        match word {
            64 => Ok(Syscall::Write),
            _ => Err(Error::SyscallUnknown(word)),
        }
    }
}

impl vstd::std_specs::convert::TryFromSpecImpl<Word> for Syscall {
    open spec fn obeys_try_from_spec() -> bool {
        true
    }

    open spec fn try_from_spec(word: Word) -> Result<Self, Error> {
        Syscall::resolve(word)
    }
}

} // verus!

//! Register identifiers and the register file.

use crate::error::Error;
use crate::Word;
use vstd::prelude::*;

verus! {

/// The name of a register. `X0` is hardwired to zero.
#[derive(Debug, Clone, Copy, PartialEq, Eq, Hash, PartialOrd, Structural)]
pub enum RegisterID {
    X0,
    A0,
    A1,
    A2,
    A3,
    A4,
    A5,
    A6,
    A7,
    A8,
    A9,
    A10,
    A11,
    A12,
    RA,
    SP,
}

/// How many registers there are: one for each pattern of four bits.
pub const REGISTER_COUNT: usize = 16;

impl RegisterID {
    /// The four-bit pattern that encodes this register in an instruction
    /// word.
    pub open spec fn code(self) -> nat {
        match self {
            RegisterID::X0 => 0,
            RegisterID::A0 => 1,
            RegisterID::A1 => 2,
            RegisterID::A2 => 3,
            RegisterID::A3 => 4,
            RegisterID::A4 => 5,
            RegisterID::A5 => 6,
            RegisterID::A6 => 7,
            RegisterID::A7 => 8,
            RegisterID::A8 => 9,
            RegisterID::A9 => 10,
            RegisterID::A10 => 11,
            RegisterID::A11 => 12,
            RegisterID::A12 => 13,
            RegisterID::RA => 14,
            RegisterID::SP => 15,
        }
    }

    /// The register that the pattern `word` encodes, if any.
    pub open spec fn decode(word: Word) -> Result<RegisterID, Error> {
        if word == 0 {
            Ok(RegisterID::X0)
        } else if word == 1 {
            Ok(RegisterID::A0)
        } else if word == 2 {
            Ok(RegisterID::A1)
        } else if word == 3 {
            Ok(RegisterID::A2)
        } else if word == 4 {
            Ok(RegisterID::A3)
        } else if word == 5 {
            Ok(RegisterID::A4)
        } else if word == 6 {
            Ok(RegisterID::A5)
        } else if word == 7 {
            Ok(RegisterID::A6)
        } else if word == 8 {
            Ok(RegisterID::A7)
        } else if word == 9 {
            Ok(RegisterID::A8)
        } else if word == 10 {
            Ok(RegisterID::A9)
        } else if word == 11 {
            Ok(RegisterID::A10)
        } else if word == 12 {
            Ok(RegisterID::A11)
        } else if word == 13 {
            Ok(RegisterID::A12)
        } else if word == 14 {
            Ok(RegisterID::RA)
        } else if word == 15 {
            Ok(RegisterID::SP)
        } else {
            Err(Error::RegisterUnknown(word))
        }
    }

    /// The slot of the register file that holds this register.
    pub fn index(&self) -> (slot: usize)
        ensures
            slot == self.code(),
            slot < REGISTER_COUNT,
    {
        match self {
            RegisterID::X0 => 0,
            RegisterID::A0 => 1,
            RegisterID::A1 => 2,
            RegisterID::A2 => 3,
            RegisterID::A3 => 4,
            RegisterID::A4 => 5,
            RegisterID::A5 => 6,
            RegisterID::A6 => 7,
            RegisterID::A7 => 8,
            RegisterID::A8 => 9,
            RegisterID::A9 => 10,
            RegisterID::A10 => 11,
            RegisterID::A11 => 12,
            RegisterID::A12 => 13,
            RegisterID::RA => 14,
            RegisterID::SP => 15,
        }
    }
}

impl TryFrom<Word> for RegisterID {
    type Error = Error;

    /// Decodes a register field. Every pattern of four bits names a
    /// register; any larger value is refused.
    fn try_from(word: Word) -> (decoded: Result<Self, Error>)
        ensures
            decoded == RegisterID::decode(word),
    {
        match word {
            0b0000 => Ok(RegisterID::X0),
            0b0001 => Ok(RegisterID::A0),
            0b0010 => Ok(RegisterID::A1),
            0b0011 => Ok(RegisterID::A2),
            0b0100 => Ok(RegisterID::A3),
            0b0101 => Ok(RegisterID::A4),
            0b0110 => Ok(RegisterID::A5),
            0b0111 => Ok(RegisterID::A6),
            0b1000 => Ok(RegisterID::A7),
            0b1001 => Ok(RegisterID::A8),
            0b1010 => Ok(RegisterID::A9),
            0b1011 => Ok(RegisterID::A10),
            0b1100 => Ok(RegisterID::A11),
            0b1101 => Ok(RegisterID::A12),
            0b1110 => Ok(RegisterID::RA),
            0b1111 => Ok(RegisterID::SP),
            _ => Err(Error::RegisterUnknown(word)),
        }
    }
}

impl vstd::std_specs::convert::TryFromSpecImpl<Word> for RegisterID {
    open spec fn obeys_try_from_spec() -> bool {
        true
    }

    open spec fn try_from_spec(word: Word) -> Result<Self, Error> {
        RegisterID::decode(word)
    }
}

/// The codes 0 to 15 and the sixteen registers correspond one to one:
/// `code` decodes to `reg` exactly when it is the code of `reg`, every code
/// below sixteen decodes, and a larger value is refused with the value
/// itself in the error.
pub proof fn lemma_codes_and_registers_correspond(code: Word, reg: RegisterID)
    ensures
        reg.code() < REGISTER_COUNT,
        RegisterID::decode(code) is Ok <==> code < REGISTER_COUNT,
        RegisterID::decode(code) is Ok && RegisterID::decode(code)->Ok_0 == reg <==> reg.code()
            == code,
        RegisterID::decode(code) is Err ==> RegisterID::decode(code)->Err_0
            == Error::RegisterUnknown(code),
{
}

/// The register mapping in which every register holds zero.
pub open spec fn zeroed() -> Map<RegisterID, Word> {
    Map::new(|reg: RegisterID| true, |reg: RegisterID| 0u32)
}

/// The register mapping after `value` is written to `reg`. A write to the
/// hardwired-zero register stores zero whatever the value.
pub open spec fn assign(regs: Map<RegisterID, Word>, reg: RegisterID, value: Word) -> Map<
    RegisterID,
    Word,
> {
    regs.insert(
        reg,
        if reg == RegisterID::X0 {
            0
        } else {
            value
        },
    )
}

/// The register mapping after the writes `entries` are applied to `regs`
/// one after another.
pub open spec fn assign_all(regs: Map<RegisterID, Word>, entries: Seq<(RegisterID, Word)>) -> Map<
    RegisterID,
    Word,
>
    decreases entries.len(),
{
    if entries.len() == 0 {
        regs
    } else {
        assign(assign_all(regs, entries.drop_last()), entries.last().0, entries.last().1)
    }
}

/// Writes never change what the hardwired-zero register holds: where it
/// holds zero before a sequence of writes, it holds zero after it.
pub proof fn lemma_zero_register_is_kept(
    regs: Map<RegisterID, Word>,
    entries: Seq<(RegisterID, Word)>,
)
    requires
        regs[RegisterID::X0] == 0,
    ensures
        assign_all(regs, entries)[RegisterID::X0] == 0,
    decreases entries.len(),
{
    if entries.len() > 0 {
        lemma_zero_register_is_kept(regs, entries.drop_last());
    }
}

/// After a write of any value to the hardwired-zero register, the register
/// reads as zero, and it still does after any further writes.
pub proof fn lemma_zero_register_reads_zero(
    regs: Map<RegisterID, Word>,
    value: Word,
    entries: Seq<(RegisterID, Word)>,
)
    ensures
        assign(regs, RegisterID::X0, value)[RegisterID::X0] == 0,
        assign_all(assign(regs, RegisterID::X0, value), entries)[RegisterID::X0] == 0,
{
    lemma_zero_register_is_kept(assign(regs, RegisterID::X0, value), entries);
}

/// The register file: one word for each register, all zero at first.
#[derive(Debug, PartialEq, Eq)]
pub struct Registers {
    inner: [Word; REGISTER_COUNT],
}

impl View for Registers {
    type V = Map<RegisterID, Word>;

    closed spec fn view(&self) -> Map<RegisterID, Word> {
        Map::new(|reg: RegisterID| true, |reg: RegisterID| self.inner@[reg.code() as int])
    }
}

impl Default for Registers {
    /// A register file in which every register holds zero.
    fn default() -> (regs: Self)
        ensures
            regs@ == zeroed(),
    {
        let regs = Registers { inner: [0; REGISTER_COUNT] };
        assert(regs@ =~= zeroed());
        regs
    }
}

impl Registers {
    #[verifier::type_invariant]
    spec fn zero_register_holds_zero(self) -> bool {
        self.inner@[0] == 0
    }

    /// Reads register `reg`. The hardwired-zero register always reads as
    /// zero.
    pub fn get(&self, reg: &RegisterID) -> (value: Word)
        ensures
            value == self@[*reg],
            *reg == RegisterID::X0 ==> value == 0,
    {
        proof {
            use_type_invariant(self);
        }
        self.inner[reg.index()]
    }

    /// Writes `value` to register `reg`. A write to the hardwired-zero
    /// register is accepted and stores zero.
    pub fn set(&mut self, reg: RegisterID, value: Word)
        ensures
            final(self)@ == assign(old(self)@, reg, value),
    {
        let value = match reg {
            RegisterID::X0 => 0,
            _ => value,
        };
        proof {
            use_type_invariant(&*self);
        }
        let slot = reg.index();
        self.inner[slot] = value;
        assert(self@ =~= assign(old(self)@, reg, value));
    }
}

impl<const N: usize> From<[(RegisterID, Word); N]> for Registers {
    /// A register file to which the listed writes were applied in order,
    /// starting from all zeros.
    fn from(values: [(RegisterID, Word); N]) -> (regs: Self)
        ensures
            regs@ == assign_all(zeroed(), values@),
    {
        let mut regs = Registers::default();
        let mut i: usize = 0;
        while i < N
            invariant
                i <= N,
                values@.len() == N,
                regs@ == assign_all(zeroed(), values@.take(i as int)),
            decreases N - i,
        {
            let entry = values[i];
            regs.set(entry.0, entry.1);
            assert(values@.take(i + 1).drop_last() == values@.take(i as int));
            i += 1;
        }
        assert(values@.take(N as int) == values@);
        regs
    }
}

impl<const N: usize> vstd::std_specs::convert::FromSpecImpl<[(RegisterID, Word); N]> for Registers {
    /// The conversion is described by the contract of `from`.
    open spec fn obeys_from_spec() -> bool {
        false
    }

    open spec fn from_spec(values: [(RegisterID, Word); N]) -> Self {
        arbitrary()
    }
}

} // verus!

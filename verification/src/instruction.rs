//! The instruction word format and its decoder.
//!
//! An instruction is one 32-bit word, bit 0 the least significant:
//!
//! | field  | bits  | width |
//! |--------|-------|-------|
//! | opcode | 0–4   | 5     |
//! | rd     | 5–8   | 4     |
//! | rs1    | 9–12  | 4     |
//! | rs2    | 13–16 | 4     |
//! | imm    | 17–31 | 15    |

use crate::error::Error;
use crate::register::RegisterID;
use crate::Word;
use vstd::prelude::*;

verus! {

/// The operation that an instruction selects.
#[derive(Debug, Clone, Copy, PartialEq, Eq, Structural)]
pub enum Opcode {
    /// Load the immediate into the destination register.
    LoadImmediate,
    /// Add the two source registers and the immediate.
    Add,
    /// Call the syscall that the syscall-number register names.
    ECall,
    /// Halt.
    EBreak,
}

/// Bits 0–4 of an instruction word.
pub open spec fn opcode_field(word: Word) -> Word {
    word % 0x20
}

/// Bits 5–8 of an instruction word.
pub open spec fn rd_field(word: Word) -> Word {
    word / 0x20 % 0x10
}

/// Bits 9–12 of an instruction word.
pub open spec fn rs1_field(word: Word) -> Word {
    word / 0x200 % 0x10
}

/// Bits 13–16 of an instruction word.
pub open spec fn rs2_field(word: Word) -> Word {
    word / 0x2000 % 0x10
}

/// Bits 17–31 of an instruction word.
pub open spec fn imm_field(word: Word) -> Word {
    word / 0x2_0000
}

/// The fields are the bit ranges of the instruction format.
pub proof fn lemma_fields_are_bit_ranges(word: Word)
    ensures
        opcode_field(word) == word & 0x1f,
        rd_field(word) == (word >> 5) & 0xf,
        rs1_field(word) == (word >> 9) & 0xf,
        rs2_field(word) == (word >> 13) & 0xf,
        imm_field(word) == word >> 17,
        imm_field(word) <= 0x7fff,
{
    assert(word % 0x20 == word & 0x1f) by (bit_vector);
    assert(word / 0x20 % 0x10 == (word >> 5) & 0xf) by (bit_vector);
    assert(word / 0x200 % 0x10 == (word >> 9) & 0xf) by (bit_vector);
    assert(word / 0x2000 % 0x10 == (word >> 13) & 0xf) by (bit_vector);
    assert(word / 0x2_0000 == word >> 17) by (bit_vector);
}

impl Opcode {
    /// The opcode that the pattern `word` encodes, if any.
    pub open spec fn decode(word: Word) -> Result<Opcode, Error> {
        if word == 0b00001 {
            Ok(Opcode::LoadImmediate)
        } else if word == 0b00010 {
            Ok(Opcode::Add)
        } else if word == 0b10111 {
            Ok(Opcode::ECall)
        } else if word == 0b11000 {
            Ok(Opcode::EBreak)
        } else {
            Err(Error::OpcodeUnknown(word))
        }
    }
}

impl TryFrom<Word> for Opcode {
    type Error = Error;

    /// Decodes an opcode field.
    fn try_from(word: Word) -> (decoded: Result<Self, Error>)
        ensures
            decoded == Opcode::decode(word),
    {
        match word {
            0b00001 => Ok(Opcode::LoadImmediate),
            0b00010 => Ok(Opcode::Add),
            0b10111 => Ok(Opcode::ECall),
            0b11000 => Ok(Opcode::EBreak),
            _ => Err(Error::OpcodeUnknown(word)),
        }
    }
}

impl vstd::std_specs::convert::TryFromSpecImpl<Word> for Opcode {
    open spec fn obeys_try_from_spec() -> bool {
        true
    }

    open spec fn try_from_spec(word: Word) -> Result<Self, Error> {
        Opcode::decode(word)
    }
}

/// A decoded instruction: the opcode, the destination register, the two
/// source registers and the immediate.
#[derive(Debug, PartialEq)]
pub struct Instruction {
    pub opcode: Opcode,
    pub rd: RegisterID,
    pub rs1: RegisterID,
    pub rs2: RegisterID,
    pub imm: u16,
}

impl Instruction {
    /// The instruction that `word` encodes. The opcode field is looked at
    /// first, so a word with an unknown opcode is refused for that reason
    /// whatever its other fields hold; the register fields cover exactly the
    /// sixteen registers and the immediate always fits, so nothing else is
    /// ever refused.
    pub open spec fn decode(word: Word) -> Result<Instruction, Error> {
        match Opcode::decode(opcode_field(word)) {
            Err(e) => Err(e),
            Ok(opcode) => Ok(
                Instruction {
                    opcode,
                    rd: RegisterID::decode(rd_field(word))->Ok_0,
                    rs1: RegisterID::decode(rs1_field(word))->Ok_0,
                    rs2: RegisterID::decode(rs2_field(word))->Ok_0,
                    imm: imm_field(word) as u16,
                },
            ),
        }
    }
}

/// A word decodes exactly when its opcode field names an opcode. Where it
/// does not, decoding fails with the value of that field in the error,
/// whatever the rest of the word holds; where it does, each register field
/// names a register and the immediate is kept whole.
pub proof fn lemma_only_the_opcode_is_refused(word: Word)
    ensures
        Instruction::decode(word) is Ok <==> Opcode::decode(opcode_field(word)) is Ok,
        Instruction::decode(word) is Err ==> Instruction::decode(word)->Err_0
            == Error::OpcodeUnknown(opcode_field(word)),
        RegisterID::decode(rd_field(word)) is Ok,
        RegisterID::decode(rs1_field(word)) is Ok,
        RegisterID::decode(rs2_field(word)) is Ok,
        imm_field(word) <= u16::MAX,
{
}

impl TryFrom<Word> for Instruction {
    type Error = Error;

    /// Decodes an instruction word: the opcode first, then `rd`, `rs1` and
    /// `rs2`, then the immediate.
    fn try_from(word: Word) -> (decoded: Result<Self, Error>)
        ensures
            decoded == Instruction::decode(word),
    {
        proof {
            lemma_fields_are_bit_ranges(word);
        }
        let opcode = Opcode::try_from(word & 0x1f)?;
        let rd = RegisterID::try_from((word >> 5) & 0xf)?;
        let rs1 = RegisterID::try_from((word >> 9) & 0xf)?;
        let rs2 = RegisterID::try_from((word >> 13) & 0xf)?;
        let imm = match u16::try_from(word >> 17) {
            Ok(imm) => imm,
            Err(e) => {
                return Err(Error::ImmediateValue(e));
            },
        };
        Ok(Instruction { opcode, rd, rs1, rs2, imm })
    }
}

impl vstd::std_specs::convert::TryFromSpecImpl<Word> for Instruction {
    open spec fn obeys_try_from_spec() -> bool {
        true
    }

    open spec fn try_from_spec(word: Word) -> Result<Self, Error> {
        Instruction::decode(word)
    }
}

} // verus!

//! The opcode table: which operation an opcode byte stands for, and how the operation
//! finds its operand.
//!
//! [`decode`] is the only place that knows the opcode bytes. An opcode that it does not
//! list is not an instruction of this processor.
use vstd::prelude::*;

verus! {

/// Opcode of Break.
pub const OPCODE_BRK: u8 = 0x00;

/// Opcode of Load Accumulator with an immediate operand.
pub const OPCODE_LDA_IMMEDIATE: u8 = 0xA9;

/// Opcode of Transfer Accumulator to X.
pub const OPCODE_TAX: u8 = 0xAA;

/// Opcode of Increment X.
pub const OPCODE_INX: u8 = 0xE8;

/// How an instruction finds its operand.
#[derive(Clone, Copy, Debug, PartialEq, Eq, Structural)]
pub enum AddressingMode {
    /// The instruction has no operand.
    Implied,
    /// The operand is the byte that follows the opcode.
    Immediate,
}

/// What an instruction does.
#[derive(Clone, Copy, Debug, PartialEq, Eq, Structural)]
pub enum Mnemonic {
    /// Break: stop the execution loop.
    Brk,
    /// Load Accumulator: the accumulator takes the operand's value.
    Lda,
    /// Transfer Accumulator to X: index register X takes the accumulator's value.
    Tax,
    /// Increment X: index register X goes up by one, from 255 round to 0.
    Inx,
}

/// One entry of the opcode table.
#[derive(Clone, Copy, Debug, PartialEq, Eq, Structural)]
pub struct Instruction {
    /// The byte that encodes the instruction.
    pub opcode: u8,
    /// What the instruction does.
    pub mnemonic: Mnemonic,
    /// How the instruction finds its operand.
    pub mode: AddressingMode,
}

impl AddressingMode {
    /// Number of operand bytes that follow the opcode.
    pub open spec fn spec_operand_width(self) -> u16 {
        match self {
            AddressingMode::Implied => 0,
            AddressingMode::Immediate => 1,
        }
    }

    /// Number of operand bytes that follow the opcode.
    #[verifier::when_used_as_spec(spec_operand_width)]
    pub fn operand_width(self) -> (width: u16)
        ensures
            width == self.spec_operand_width(),
    {
        match self {
            AddressingMode::Implied => 0,
            AddressingMode::Immediate => 1,
        }
    }
}

impl Instruction {
    /// Number of operand bytes that follow the opcode.
    pub open spec fn spec_operand_width(self) -> u16 {
        self.mode.spec_operand_width()
    }

    /// Number of operand bytes that follow the opcode.
    #[verifier::when_used_as_spec(spec_operand_width)]
    pub fn operand_width(self) -> (width: u16)
        ensures
            width == self.spec_operand_width(),
    {
        self.mode.operand_width()
    }
}

/// The opcode table: the instruction that `opcode` encodes, if it encodes one.
pub open spec fn opcode_table(opcode: u8) -> Option<Instruction> {
    if opcode == OPCODE_BRK {
        Some(Instruction { opcode, mnemonic: Mnemonic::Brk, mode: AddressingMode::Implied })
    } else if opcode == OPCODE_LDA_IMMEDIATE {
        Some(Instruction { opcode, mnemonic: Mnemonic::Lda, mode: AddressingMode::Immediate })
    } else if opcode == OPCODE_TAX {
        Some(Instruction { opcode, mnemonic: Mnemonic::Tax, mode: AddressingMode::Implied })
    } else if opcode == OPCODE_INX {
        Some(Instruction { opcode, mnemonic: Mnemonic::Inx, mode: AddressingMode::Implied })
    } else {
        None
    }
}

/// Number of bytes that the instruction at `opcode` takes after the opcode itself: the
/// width of its operand, and none for a byte that is no instruction.
pub open spec fn operand_width_of(opcode: u8) -> u16 {
    match opcode_table(opcode) {
        Some(instruction) => instruction.spec_operand_width(),
        None => 0,
    }
}

/// Looks `opcode` up in the opcode table.
pub fn decode(opcode: u8) -> (entry: Option<Instruction>)
    ensures
        entry == opcode_table(opcode),
{
    match opcode {
        OPCODE_BRK => Some(
            Instruction { opcode, mnemonic: Mnemonic::Brk, mode: AddressingMode::Implied },
        ),
        OPCODE_LDA_IMMEDIATE => Some(
            Instruction { opcode, mnemonic: Mnemonic::Lda, mode: AddressingMode::Immediate },
        ),
        OPCODE_TAX => Some(
            Instruction { opcode, mnemonic: Mnemonic::Tax, mode: AddressingMode::Implied },
        ),
        OPCODE_INX => Some(
            Instruction { opcode, mnemonic: Mnemonic::Inx, mode: AddressingMode::Implied },
        ),
        _ => None,
    }
}

} // verus!

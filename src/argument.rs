use crate::errors::SynacorError;
use vstd::prelude::*;

verus! {

/// First word of the register range: a register selector is a direct index
/// into the address space, just past the last memory cell.
pub const REGISTER_BASE: u16 = 32768;

/// One past the last register selector.
pub const REGISTER_END: u16 = 32776;

/// An operand, classified from its encoded word.
#[derive(Debug, Clone, Copy, PartialEq, Eq, Structural)]
pub enum Argument {
    /// A value in `0..32768`, used as it is.
    Literal(u16),
    /// A register, held as its index in the address space (`32768..32776`).
    Register(usize),
}

impl Argument {
    /// How an operand word is classified.
    pub open spec fn classify(word: u16) -> Result<Argument, SynacorError> {
        if word < REGISTER_BASE {
            Ok(Argument::Literal(word))
        } else if word < REGISTER_END {
            Ok(Argument::Register(word as usize))
        } else {
            Err(SynacorError::InvalidArgument(word))
        }
    }

    /// Whether this operand is one that classifying a word can give: a literal
    /// below 32768 or a register selector.
    pub open spec fn classified(self) -> bool {
        match self {
            Argument::Literal(n) => n < REGISTER_BASE,
            Argument::Register(i) => REGISTER_BASE <= i < REGISTER_END,
        }
    }

    /// Whether reading or writing this operand stays inside a memory of `len` cells.
    pub open spec fn fits(self, len: int) -> bool {
        match self {
            Argument::Literal(_) => true,
            Argument::Register(i) => i < len,
        }
    }

    /// The value this operand stands for in `memory`.
    pub open spec fn value_in(self, memory: Seq<u16>) -> u16 {
        match self {
            Argument::Literal(n) => n,
            Argument::Register(i) => memory[i as int],
        }
    }

    /// Classifies an operand word: a literal, a register selector, or a fault
    /// for a word in the reserved range.
    pub fn from_word(value: u16) -> (r: Result<Argument, SynacorError>)
        ensures
            r == Self::classify(value),
    {
        if value < REGISTER_BASE {
            Ok(Argument::Literal(value))
        } else if value < REGISTER_END {
            Ok(Argument::Register(value as usize))
        } else {
            Err(SynacorError::InvalidArgument(value))
        }
    }

    /// Reads the value of this operand: a literal is its own value, a register
    /// is read from its cell.
    pub fn read(&self, memory: &[u16]) -> (r: u16)
        requires
            self.fits(memory@.len() as int),
        ensures
            r == self.value_in(memory@),
    {
        match *self {
            Argument::Literal(n) => n,
            Argument::Register(n) => memory[n],
        }
    }
}

} // verus!

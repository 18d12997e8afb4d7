use vstd::prelude::*;

verus! {

/// Why a program image could not be loaded.
#[derive(Debug, Clone, Copy, PartialEq, Eq, Structural)]
pub enum ImageError {
    /// The buffer holds an odd number of bytes, so its last word is incomplete.
    OddLength(usize),
    /// The buffer holds more words than the address space has cells.
    TooLarge(usize),
}

/// A fault of the virtual machine: execution cannot go on after one.
#[derive(Debug, Clone, Copy, PartialEq, Eq, Structural)]
pub enum SynacorError {
    /// `pop` found the stack empty.
    EmptyStack,
    /// An operand word lies in the reserved range, or a divisor is zero.
    InvalidArgument(u16),
    /// An address (the program counter, or an indirect memory reference) lies
    /// outside `0..32768`.
    InvalidAddress(u16),
    /// `in` found no character although input was believed to be available.
    NoInput,
    /// The program image was malformed.
    ParseError(ImageError),
    /// The opcode fetched is not in the instruction set.
    UnsupportedOpCode(u16),
    /// An instruction tried to store its result in a literal operand.
    WriteToLiteral(u16),
}

} // verus!

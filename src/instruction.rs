use crate::argument::Argument;
use crate::errors::SynacorError;
use vstd::prelude::*;

verus! {

/// A decoded instruction, its operands already classified.
#[derive(Debug, Clone, Copy, PartialEq, Eq, Structural)]
pub enum Instruction {
    Add(Argument, Argument, Argument),
    And(Argument, Argument, Argument),
    Call(Argument),
    Equal(Argument, Argument, Argument),
    GreaterThan(Argument, Argument, Argument),
    Halt,
    Input(Argument),
    Jump(Argument),
    JumpNonZero(Argument, Argument),
    JumpZero(Argument, Argument),
    Mod(Argument, Argument, Argument),
    Multiply(Argument, Argument, Argument),
    Noop,
    Not(Argument, Argument),
    Or(Argument, Argument, Argument),
    Output(Argument),
    Push(Argument),
    Pop(Argument),
    Read(Argument, Argument),
    Return,
    Assign(Argument, Argument),
    Write(Argument, Argument),
}

/// The largest opcode of the instruction set; every opcode up to it is defined.
pub const LAST_OPCODE: u16 = 21;

/// Number of operand words that follow an opcode (0 for an unknown opcode).
pub open spec fn arity(opcode: u16) -> nat {
    if opcode == 0 || opcode == 18 || opcode == 21 || opcode > LAST_OPCODE {
        0
    } else if opcode == 2 || opcode == 3 || opcode == 6 || opcode == 17 || opcode == 19 || opcode
        == 20 {
        1
    } else if opcode == 1 || opcode == 7 || opcode == 8 || opcode == 14 || opcode == 15 || opcode
        == 16 {
        2
    } else {
        3
    }
}

/// The `k`-th operand word after the opcode at `pointer`, classified.
pub open spec fn operand_at(memory: Seq<u16>, pointer: int, k: int) -> Result<
    Argument,
    SynacorError,
> {
    Argument::classify(memory[pointer + k])
}

/// The instruction of a known `opcode` with operands `a`, `b`, `c` (those past
/// its arity are ignored).
pub open spec fn assemble(opcode: u16, a: Argument, b: Argument, c: Argument) -> Instruction {
    match opcode {
        0 => Instruction::Halt,
        1 => Instruction::Assign(a, b),
        2 => Instruction::Push(a),
        3 => Instruction::Pop(a),
        4 => Instruction::Equal(a, b, c),
        5 => Instruction::GreaterThan(a, b, c),
        6 => Instruction::Jump(a),
        7 => Instruction::JumpNonZero(a, b),
        8 => Instruction::JumpZero(a, b),
        9 => Instruction::Add(a, b, c),
        10 => Instruction::Multiply(a, b, c),
        11 => Instruction::Mod(a, b, c),
        12 => Instruction::And(a, b, c),
        13 => Instruction::Or(a, b, c),
        14 => Instruction::Not(a, b),
        15 => Instruction::Read(a, b),
        16 => Instruction::Write(a, b),
        17 => Instruction::Call(a),
        18 => Instruction::Return,
        19 => Instruction::Output(a),
        20 => Instruction::Input(a),
        _ => Instruction::Noop,
    }
}

/// What decoding the instruction at `pointer` gives: an unknown opcode is a
/// fault, and so is the first of its operand words that does not classify.
pub open spec fn decode(pointer: int, memory: Seq<u16>) -> Result<Instruction, SynacorError> {
    let opcode = memory[pointer];
    let n = arity(opcode);
    if opcode > LAST_OPCODE {
        Err(SynacorError::UnsupportedOpCode(opcode))
    } else if n >= 1 && operand_at(memory, pointer, 1) is Err {
        Err(operand_at(memory, pointer, 1)->Err_0)
    } else if n >= 2 && operand_at(memory, pointer, 2) is Err {
        Err(operand_at(memory, pointer, 2)->Err_0)
    } else if n >= 3 && operand_at(memory, pointer, 3) is Err {
        Err(operand_at(memory, pointer, 3)->Err_0)
    } else {
        Ok(
            assemble(
                opcode,
                operand_at(memory, pointer, 1)->Ok_0,
                operand_at(memory, pointer, 2)->Ok_0,
                operand_at(memory, pointer, 3)->Ok_0,
            ),
        )
    }
}

/// Whether the whole encoding of the instruction at `pointer` lies inside `memory`.
pub open spec fn encoded_within(pointer: int, memory: Seq<u16>) -> bool {
    0 <= pointer < memory.len() && pointer + arity(memory[pointer]) < memory.len()
}

/// Every operand of a decoded instruction is a classified one.
pub proof fn lemma_decoded_operands_classified(pointer: int, memory: Seq<u16>)
    requires
        decode(pointer, memory) is Ok,
    ensures
        decode(pointer, memory)->Ok_0.well_classified(),
{
}

fn operand(memory: &[u16], index: usize) -> (r: Result<Argument, SynacorError>)
    requires
        index < memory@.len(),
    ensures
        r == Argument::classify(memory@[index as int]),
{
    Argument::from_word(memory[index])
}

impl Instruction {
    /// Number of words the instruction occupies: its opcode and its operands.
    pub open spec fn spec_size(self) -> nat {
        match self {
            Instruction::Halt | Instruction::Noop | Instruction::Return => 1,
            Instruction::Call(_) | Instruction::Input(_) | Instruction::Jump(_)
            | Instruction::Output(_) | Instruction::Push(_) | Instruction::Pop(_) => 2,
            Instruction::JumpNonZero(_, _) | Instruction::JumpZero(_, _) | Instruction::Not(_, _)
            | Instruction::Read(_, _) | Instruction::Assign(_, _) | Instruction::Write(_, _) => 3,
            _ => 4,
        }
    }

    /// Number of words the instruction occupies.
    pub fn size(&self) -> (r: usize)
        ensures
            r == self.spec_size(),
    {
        match self {
            Instruction::Add(_, _, _) => 4,
            Instruction::And(_, _, _) => 4,
            Instruction::Call(_) => 2,
            Instruction::Equal(_, _, _) => 4,
            Instruction::GreaterThan(_, _, _) => 4,
            Instruction::Halt => 1,
            Instruction::Input(_) => 2,
            Instruction::Jump(_) => 2,
            Instruction::JumpNonZero(_, _) => 3,
            Instruction::JumpZero(_, _) => 3,
            Instruction::Mod(_, _, _) => 4,
            Instruction::Multiply(_, _, _) => 4,
            Instruction::Noop => 1,
            Instruction::Not(_, _) => 3,
            Instruction::Or(_, _, _) => 4,
            Instruction::Output(_) => 2,
            Instruction::Push(_) => 2,
            Instruction::Pop(_) => 2,
            Instruction::Read(_, _) => 3,
            Instruction::Return => 1,
            Instruction::Assign(_, _) => 3,
            Instruction::Write(_, _) => 3,
        }
    }

    /// Whether every operand of the instruction is a classified one.
    pub open spec fn well_classified(self) -> bool {
        match self {
            Instruction::Halt | Instruction::Noop | Instruction::Return => true,
            Instruction::Call(a) | Instruction::Input(a) | Instruction::Jump(a)
            | Instruction::Output(a) | Instruction::Push(a) | Instruction::Pop(a) => a.classified(),
            Instruction::JumpNonZero(a, b) | Instruction::JumpZero(a, b) | Instruction::Not(a, b)
            | Instruction::Read(a, b) | Instruction::Assign(a, b) | Instruction::Write(a, b) => {
                a.classified() && b.classified()
            },
            Instruction::Add(a, b, c) | Instruction::And(a, b, c) | Instruction::Equal(a, b, c)
            | Instruction::GreaterThan(a, b, c) | Instruction::Mod(a, b, c)
            | Instruction::Multiply(a, b, c) | Instruction::Or(a, b, c) => {
                a.classified() && b.classified() && c.classified()
            },
        }
    }

    /// Decodes the instruction whose opcode stands at `pointer`.
    pub fn from_state(pointer: usize, memory: &[u16]) -> (r: Result<Instruction, SynacorError>)
        requires
            encoded_within(pointer as int, memory@),
        ensures
            r == decode(pointer as int, memory@),
            r matches Ok(ins) ==> ins.spec_size() == 1 + arity(memory@[pointer as int]),
    {
        let opcode = memory[pointer];
        match opcode {
            0 => Ok(Instruction::Halt),
            1 => Ok(Instruction::Assign(
                operand(memory, pointer + 1)?,
                operand(memory, pointer + 2)?,
            )),
            2 => Ok(Instruction::Push(operand(memory, pointer + 1)?)),
            3 => Ok(Instruction::Pop(operand(memory, pointer + 1)?)),
            4 => Ok(Instruction::Equal(
                operand(memory, pointer + 1)?,
                operand(memory, pointer + 2)?,
                operand(memory, pointer + 3)?,
            )),
            5 => Ok(Instruction::GreaterThan(
                operand(memory, pointer + 1)?,
                operand(memory, pointer + 2)?,
                operand(memory, pointer + 3)?,
            )),
            6 => Ok(Instruction::Jump(operand(memory, pointer + 1)?)),
            7 => Ok(Instruction::JumpNonZero(
                operand(memory, pointer + 1)?,
                operand(memory, pointer + 2)?,
            )),
            8 => Ok(Instruction::JumpZero(
                operand(memory, pointer + 1)?,
                operand(memory, pointer + 2)?,
            )),
            9 => Ok(Instruction::Add(
                operand(memory, pointer + 1)?,
                operand(memory, pointer + 2)?,
                operand(memory, pointer + 3)?,
            )),
            10 => Ok(Instruction::Multiply(
                operand(memory, pointer + 1)?,
                operand(memory, pointer + 2)?,
                operand(memory, pointer + 3)?,
            )),
            11 => Ok(Instruction::Mod(
                operand(memory, pointer + 1)?,
                operand(memory, pointer + 2)?,
                operand(memory, pointer + 3)?,
            )),
            12 => Ok(Instruction::And(
                operand(memory, pointer + 1)?,
                operand(memory, pointer + 2)?,
                operand(memory, pointer + 3)?,
            )),
            13 => Ok(Instruction::Or(
                operand(memory, pointer + 1)?,
                operand(memory, pointer + 2)?,
                operand(memory, pointer + 3)?,
            )),
            14 => Ok(Instruction::Not(
                operand(memory, pointer + 1)?,
                operand(memory, pointer + 2)?,
            )),
            15 => Ok(Instruction::Read(
                operand(memory, pointer + 1)?,
                operand(memory, pointer + 2)?,
            )),
            16 => Ok(Instruction::Write(
                operand(memory, pointer + 1)?,
                operand(memory, pointer + 2)?,
            )),
            17 => Ok(Instruction::Call(operand(memory, pointer + 1)?)),
            18 => Ok(Instruction::Return),
            19 => Ok(Instruction::Output(operand(memory, pointer + 1)?)),
            20 => Ok(Instruction::Input(operand(memory, pointer + 1)?)),
            21 => Ok(Instruction::Noop),
            _ => Err(SynacorError::UnsupportedOpCode(opcode)),
        }
    }
}

} // verus!

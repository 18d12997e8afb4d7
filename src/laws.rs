//! Properties of the engine that hold across steps and runs.
use crate::argument::Argument;
use crate::errors::SynacorError;
use crate::instruction::{decode, lemma_decoded_operands_classified, Instruction};
use crate::loader::load;
use crate::machine::{
    char_of, code_of, initial_state, run, step, well_formed, Step, VmState, YieldReason,
    ADDRESS_SPACE, MEMORY_SIZE,
};
use vstd::prelude::*;

verus! {

/// Every register and every stack entry holds a literal value (below 32768).
pub open spec fn literal_values(s: VmState) -> bool {
    &&& forall|i: int| MEMORY_SIZE <= i < ADDRESS_SPACE ==> #[trigger] s.memory[i] < MEMORY_SIZE
    &&& forall|i: int| 0 <= i < s.stack.len() ==> #[trigger] s.stack[i] < MEMORY_SIZE
}

/// Whether the next step takes a word from outside the registers and the
/// stack: a word `rmem` reads from memory, the code of the character `in`
/// consumes, or the return address `call` pushes; and that word is not literal.
pub open spec fn takes_foreign_word(s: VmState) -> bool {
    let m = s.memory;
    match decode(s.pc, m) {
        Ok(Instruction::Read(_, b)) => b.value_in(m) < MEMORY_SIZE && m[b.value_in(m) as int]
            >= MEMORY_SIZE,
        Ok(Instruction::Input(_)) => s.input.len() > 0 && code_of(s.input[0]) >= MEMORY_SIZE,
        Ok(Instruction::Call(_)) => s.pc + 2 >= MEMORY_SIZE,
        _ => false,
    }
}

proof fn lemma_literal_operand(s: VmState, a: Argument)
    requires
        well_formed(s),
        literal_values(s),
        a.classified(),
    ensures
        a.value_in(s.memory) < MEMORY_SIZE,
{
}

/// A freshly loaded machine holds only literal values in its registers and stack.
pub proof fn lemma_loaded_values_literal(bytes: Seq<u8>)
    requires
        load(bytes) is Ok,
    ensures
        literal_values(initial_state(load(bytes)->Ok_0)),
{
}

/// Every word stored through an operand is a literal value: a step keeps the
/// registers and the stack literal, unless it takes a non-literal word from
/// memory, from the input or as a return address.
pub proof fn lemma_stored_words_literal(s: VmState)
    requires
        well_formed(s),
        literal_values(s),
        !takes_foreign_word(s),
        step(s) is Next,
    ensures
        literal_values(step(s)->Next_0),
{
    let m = s.memory;
    lemma_decoded_operands_classified(s.pc, m);
    let ins = decode(s.pc, m)->Ok_0;
    let t = step(s)->Next_0;
    match ins {
        Instruction::Assign(a, b) => lemma_literal_operand(s, b),
        Instruction::Push(a) => lemma_literal_operand(s, a),
        Instruction::Add(a, b, c) | Instruction::Multiply(a, b, c) => {},
        Instruction::Mod(a, b, c) => lemma_literal_operand(s, b),
        Instruction::And(a, b, c) => {
            lemma_literal_operand(s, b);
            let x = b.value_in(m);
            let y = c.value_in(m);
            assert(x < 32768 ==> x & y < 32768) by (bit_vector);
        },
        Instruction::Or(a, b, c) => {
            lemma_literal_operand(s, b);
            lemma_literal_operand(s, c);
            let x = b.value_in(m);
            let y = c.value_in(m);
            assert(x < 32768 && y < 32768 ==> x | y < 32768) by (bit_vector);
        },
        Instruction::Not(a, b) => {
            let x = b.value_in(m);
            assert(!x & 0x7FFF < 32768) by (bit_vector);
        },
        Instruction::Pop(a) => {
            assert(s.stack.last() < MEMORY_SIZE);
        },
        _ => {},
    }
}

/// Whether the instruction may assign the program counter directly.
pub open spec fn is_branch(ins: Instruction) -> bool {
    match ins {
        Instruction::Jump(_) | Instruction::JumpNonZero(_, _) | Instruction::JumpZero(_, _)
        | Instruction::Call(_) | Instruction::Return => true,
        _ => false,
    }
}

/// The address a branching instruction assigns to the program counter when it branches.
pub open spec fn branch_target(s: VmState, ins: Instruction) -> int {
    match ins {
        Instruction::Jump(a) | Instruction::Call(a) => a.value_in(s.memory) as int,
        Instruction::JumpNonZero(_, b) | Instruction::JumpZero(_, b) => b.value_in(s.memory) as int,
        _ => s.stack.last() as int,
    }
}

/// After a step the program counter has moved past the instruction, or, for a
/// branching instruction, it holds the value that the branch assigned.
pub proof fn lemma_pc_after_step(s: VmState)
    requires
        well_formed(s),
        step(s) is Next,
    ensures
        ({
            let ins = decode(s.pc, s.memory)->Ok_0;
            let t = step(s)->Next_0;
            if is_branch(ins) {
                t.pc == s.pc + ins.spec_size() || t.pc == branch_target(s, ins)
            } else {
                t.pc == s.pc + ins.spec_size()
            }
        }),
{
}

/// The character that the next step emits: one for `out`, none otherwise.
pub open spec fn emitted(s: VmState) -> Seq<char> {
    match decode(s.pc, s.memory) {
        Ok(Instruction::Output(a)) => if s.pc < MEMORY_SIZE {
            seq![char_of(a.value_in(s.memory))]
        } else {
            Seq::empty()
        },
        _ => Seq::empty(),
    }
}

/// The characters that the `out` instructions executed by `run(s, fuel)` emit, in order.
pub open spec fn run_emitted(s: VmState, fuel: nat) -> Seq<char>
    decreases fuel,
{
    if fuel == 0 {
        Seq::empty()
    } else {
        match step(s) {
            Step::Next(t) => emitted(s) + run_emitted(t, (fuel - 1) as nat),
            _ => Seq::empty(),
        }
    }
}

/// A run leaves in the output queue what was there before, followed by
/// exactly the characters that its `out` instructions emitted, in order.
pub proof fn lemma_run_output(s: VmState, fuel: nat)
    ensures
        run(s, fuel).0.output == s.output + run_emitted(s, fuel),
    decreases fuel,
{
    if fuel == 0 {
        assert(s.output + Seq::<char>::empty() =~= s.output);
    } else {
        match step(s) {
            Step::Next(t) => {
                lemma_run_output(t, (fuel - 1) as nat);
                assert(t.output == s.output + emitted(s));
                assert(s.output + (emitted(s) + run_emitted(t, (fuel - 1) as nat)) =~= (s.output
                    + emitted(s)) + run_emitted(t, (fuel - 1) as nat));
            },
            _ => {
                assert(s.output + Seq::<char>::empty() =~= s.output);
            },
        }
    }
}

/// A run that stops for input, halts or faults stops in the same way, with
/// the state unchanged, when run again without new input: suspension is
/// idempotent, and the halted and faulted states are final.
pub proof fn lemma_stop_is_stable(s: VmState, fuel: nat, again: nat)
    requires
        run(s, fuel).1 != Ok::<YieldReason, SynacorError>(YieldReason::Preempted),
        again >= 1,
    ensures
        run(run(s, fuel).0, again) == run(s, fuel),
    decreases fuel,
{
    match step(s) {
        Step::Next(t) => lemma_stop_is_stable(t, (fuel - 1) as nat, again),
        _ => {},
    }
}

/// Input is consumed first in, first out: after characters are supplied to an
/// empty queue, the next `in` stores the code of the first of them and leaves the rest.
pub proof fn lemma_input_fifo(s: VmState, supplied: Seq<char>, register: usize)
    requires
        well_formed(s),
        s.pc < MEMORY_SIZE,
        decode(s.pc, s.memory) == Ok::<Instruction, SynacorError>(
            Instruction::Input(Argument::Register(register)),
        ),
        s.input.len() == 0,
        supplied.len() > 0,
    ensures
        ({
            let fed = VmState { input: s.input + supplied, ..s };
            &&& step(fed) is Next
            &&& step(fed)->Next_0.memory[register as int] == code_of(supplied[0])
            &&& step(fed)->Next_0.input == supplied.drop_first()
        }),
{
    let fed = VmState { input: s.input + supplied, ..s };
    assert(fed.input =~= supplied);
    assert(fed.input.subrange(1, fed.input.len() as int) =~= supplied.drop_first());
    lemma_decoded_operands_classified(s.pc, s.memory);
}

/// `mod` by one stores zero, whatever the dividend.
pub proof fn lemma_mod_by_one(s: VmState, register: usize, b: Argument, c: Argument)
    requires
        well_formed(s),
        s.pc < MEMORY_SIZE,
        decode(s.pc, s.memory) == Ok::<Instruction, SynacorError>(
            Instruction::Mod(Argument::Register(register), b, c),
        ),
        c.value_in(s.memory) == 1,
    ensures
        step(s) is Next,
        step(s)->Next_0.memory[register as int] == 0,
{
    lemma_decoded_operands_classified(s.pc, s.memory);
}

/// `mod` by zero faults with an invalid argument and changes nothing.
pub proof fn lemma_mod_by_zero(s: VmState, a: Argument, b: Argument, c: Argument)
    requires
        well_formed(s),
        s.pc < MEMORY_SIZE,
        decode(s.pc, s.memory) == Ok::<Instruction, SynacorError>(Instruction::Mod(a, b, c)),
        c.value_in(s.memory) == 0,
    ensures
        step(s) == Step::Fault(SynacorError::InvalidArgument(0)),
{
}

} // verus!

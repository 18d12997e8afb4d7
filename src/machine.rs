use crate::argument::Argument;
use crate::errors::SynacorError;
use crate::instruction::{decode, Instruction};
use crate::loader::{load, load_image};
use crate::memory::{store, MemoryExt};
use crate::text::push_char;
use std::collections::VecDeque;
use vstd::prelude::*;

verus! {

/// Number of memory cells; also the bound of every literal value and address.
pub const MEMORY_SIZE: usize = 32768;

/// Number of registers.
pub const REGISTER_COUNT: usize = 8;

/// Cells of the address space: memory followed by the registers.
pub const ADDRESS_SPACE: usize = 32776;

/// Why `execute` gave control back without a fault.
#[derive(Debug, Clone, Copy, PartialEq, Eq, Structural)]
pub enum YieldReason {
    /// The program ended: `halt`, or `ret` with an empty stack.
    Halted,
    /// `in` found the input queue empty; the program counter still points at it.
    InputRequired,
    /// The step budget of the call ran out; execution can be resumed.
    Preempted,
}

/// The mathematical state of a machine.
pub struct VmState {
    /// The address space: memory cells `0..32768`, then the registers.
    pub memory: Seq<u16>,
    /// Index of the next instruction.
    pub pc: int,
    /// The call stack, its top last.
    pub stack: Seq<u16>,
    /// Characters supplied and not yet consumed, the next one first.
    pub input: Seq<char>,
    /// Characters emitted and not yet drained, the oldest first.
    pub output: Seq<char>,
}

/// What one step of execution leads to.
pub enum Step {
    /// The instruction ran; this is the new state.
    Next(VmState),
    /// Execution yields; the state is left as it was.
    Yield(YieldReason),
    /// Execution faults; the state is left as it was.
    Fault(SynacorError),
}

/// A state whose address space has its full size and whose program counter is a word.
pub open spec fn well_formed(s: VmState) -> bool {
    &&& s.memory.len() == ADDRESS_SPACE
    &&& 0 <= s.pc <= u16::MAX
}

/// The character that `out` emits for a value: its low eight bits.
pub open spec fn char_of(value: u16) -> char {
    ((value % 256) as u8) as char
}

/// The word that `in` stores for a character: its code, truncated to sixteen bits.
pub open spec fn code_of(c: char) -> u16 {
    ((c as u32) % 65536) as u16
}

/// The step that stores `value` through `dest` and moves on to `next`.
pub open spec fn stored(s: VmState, dest: Argument, value: u16, next: int) -> Step {
    match store(s.memory, dest, value) {
        Ok(m) => Step::Next(VmState { memory: m, pc: next, ..s }),
        Err(e) => Step::Fault(e),
    }
}

/// The effect of the decoded instruction `ins` on `s`.
pub open spec fn effect(s: VmState, ins: Instruction) -> Step {
    let next = s.pc + ins.spec_size();
    let m = s.memory;
    match ins {
        Instruction::Halt => Step::Yield(YieldReason::Halted),
        Instruction::Noop => Step::Next(VmState { pc: next, ..s }),
        Instruction::Assign(a, b) => stored(s, a, b.value_in(m), next),
        Instruction::Push(a) => Step::Next(
            VmState { stack: s.stack.push(a.value_in(m)), pc: next, ..s },
        ),
        Instruction::Pop(a) => if s.stack.len() == 0 {
            Step::Fault(SynacorError::EmptyStack)
        } else {
            stored(
                VmState { stack: s.stack.subrange(0, s.stack.len() - 1), ..s },
                a,
                s.stack.last(),
                next,
            )
        },
        Instruction::Equal(a, b, c) => stored(
            s,
            a,
            if b.value_in(m) == c.value_in(m) {
                1
            } else {
                0
            },
            next,
        ),
        Instruction::GreaterThan(a, b, c) => stored(
            s,
            a,
            if b.value_in(m) > c.value_in(m) {
                1
            } else {
                0
            },
            next,
        ),
        Instruction::Jump(a) => Step::Next(VmState { pc: a.value_in(m) as int, ..s }),
        Instruction::JumpNonZero(a, b) => Step::Next(
            VmState {
                pc: if a.value_in(m) != 0 {
                    b.value_in(m) as int
                } else {
                    next
                },
                ..s
            },
        ),
        Instruction::JumpZero(a, b) => Step::Next(
            VmState {
                pc: if a.value_in(m) == 0 {
                    b.value_in(m) as int
                } else {
                    next
                },
                ..s
            },
        ),
        Instruction::Add(a, b, c) => stored(
            s,
            a,
            ((b.value_in(m) + c.value_in(m)) % 32768) as u16,
            next,
        ),
        Instruction::Multiply(a, b, c) => stored(
            s,
            a,
            ((b.value_in(m) * c.value_in(m)) % 32768) as u16,
            next,
        ),
        Instruction::Mod(a, b, c) => if c.value_in(m) == 0 {
            Step::Fault(SynacorError::InvalidArgument(0))
        } else {
            stored(s, a, (b.value_in(m) % c.value_in(m)) as u16, next)
        },
        Instruction::And(a, b, c) => stored(s, a, b.value_in(m) & c.value_in(m), next),
        Instruction::Or(a, b, c) => stored(s, a, b.value_in(m) | c.value_in(m), next),
        Instruction::Not(a, b) => stored(s, a, !b.value_in(m) & 0x7FFF, next),
        Instruction::Read(a, b) => if b.value_in(m) >= MEMORY_SIZE {
            Step::Fault(SynacorError::InvalidAddress(b.value_in(m)))
        } else {
            stored(s, a, m[b.value_in(m) as int], next)
        },
        Instruction::Write(a, b) => if a.value_in(m) >= MEMORY_SIZE {
            Step::Fault(SynacorError::InvalidAddress(a.value_in(m)))
        } else {
            Step::Next(
                VmState { memory: m.update(a.value_in(m) as int, b.value_in(m)), pc: next, ..s },
            )
        },
        Instruction::Call(a) => Step::Next(
            VmState { stack: s.stack.push(next as u16), pc: a.value_in(m) as int, ..s },
        ),
        Instruction::Return => if s.stack.len() == 0 {
            Step::Yield(YieldReason::Halted)
        } else {
            Step::Next(
                VmState {
                    stack: s.stack.subrange(0, s.stack.len() - 1),
                    pc: s.stack.last() as int,
                    ..s
                },
            )
        },
        Instruction::Output(a) => Step::Next(
            VmState { output: s.output.push(char_of(a.value_in(m))), pc: next, ..s },
        ),
        Instruction::Input(a) => if s.input.len() == 0 {
            Step::Yield(YieldReason::InputRequired)
        } else {
            stored(
                VmState { input: s.input.subrange(1, s.input.len() as int), ..s },
                a,
                code_of(s.input[0]),
                next,
            )
        },
    }
}

/// One fetch/decode/execute step from `s`.
pub open spec fn step(s: VmState) -> Step {
    if s.pc >= MEMORY_SIZE {
        Step::Fault(SynacorError::InvalidAddress(s.pc as u16))
    } else {
        match decode(s.pc, s.memory) {
            Ok(ins) => effect(s, ins),
            Err(e) => Step::Fault(e),
        }
    }
}

/// Whether `t` and `r` are the state and result of one step from `s`, in the
/// form the executable step reports it: `None` to go on, `Some` to yield.
pub open spec fn step_reported(
    s: VmState,
    t: VmState,
    r: Result<Option<YieldReason>, SynacorError>,
) -> bool {
    match step(s) {
        Step::Next(n) => r == Ok::<Option<YieldReason>, SynacorError>(None) && t == n,
        Step::Yield(y) => r == Ok::<Option<YieldReason>, SynacorError>(Some(y)) && t == s,
        Step::Fault(e) => r == Err::<Option<YieldReason>, SynacorError>(e) && t == s,
    }
}

/// The state and result of running from `s` for at most `fuel` steps.
pub open spec fn run(s: VmState, fuel: nat) -> (VmState, Result<YieldReason, SynacorError>)
    decreases fuel,
{
    if fuel == 0 {
        (s, Ok(YieldReason::Preempted))
    } else {
        match step(s) {
            Step::Next(t) => run(t, (fuel - 1) as nat),
            Step::Yield(y) => (s, Ok(y)),
            Step::Fault(e) => (s, Err(e)),
        }
    }
}

/// The Synacor virtual machine: address space, program counter, call stack
/// and the two character queues.
pub struct VirtualMachine {
    memory: Vec<u16>,
    pointer: usize,
    stack: Vec<u16>,
    stdin: VecDeque<char>,
    stdout: VecDeque<char>,
}

impl View for VirtualMachine {
    type V = VmState;

    closed spec fn view(&self) -> VmState {
        VmState {
            memory: self.memory@,
            pc: self.pointer as int,
            stack: self.stack@,
            input: self.stdin@,
            output: self.stdout@,
        }
    }
}

/// The state of a machine freshly loaded with the address space `memory`.
pub open spec fn initial_state(memory: Seq<u16>) -> VmState {
    VmState { memory, pc: 0, stack: Seq::empty(), input: Seq::empty(), output: Seq::empty() }
}

impl VirtualMachine {
    /// The machine's state is well formed.
    pub open spec fn wf(&self) -> bool {
        well_formed(self@)
    }

    /// Stores `value` through `dest` and moves the program counter to `next`;
    /// nothing changes on a fault.
    fn store_and_advance(&mut self, dest: &Argument, value: u16, next: usize) -> (r: Result<
        Option<YieldReason>,
        SynacorError,
    >)
        requires
            old(self).wf(),
            dest.fits(ADDRESS_SPACE as int),
            next <= u16::MAX,
        ensures
            final(self).wf(),
            match store(old(self)@.memory, *dest, value) {
                Ok(m) => r == Ok::<Option<YieldReason>, SynacorError>(None) && final(self)@ == (
                VmState { memory: m, pc: next as int, ..old(self)@ }),
                Err(e) => r == Err::<Option<YieldReason>, SynacorError>(e) && final(self)@ == old(
                    self,
                )@,
            },
    {
        match self.memory.write(dest, value) {
            Ok(()) => {
                self.pointer = next;
                Ok(None)
            },
            Err(e) => Err(e),
        }
    }

    /// Executes the instruction at the program counter.
    fn step(&mut self) -> (r: Result<Option<YieldReason>, SynacorError>)
        requires
            old(self).wf(),
        ensures
            final(self).wf(),
            step_reported(old(self)@, final(self)@, r),
    {
        let pc = self.pointer;
        if pc >= MEMORY_SIZE {
            return Err(SynacorError::InvalidAddress(pc as u16));
        }
        let instruction = Instruction::from_state(pc, self.memory.as_slice())?;
        let next = pc + instruction.size();
        match instruction {
            Instruction::Halt => Ok(Some(YieldReason::Halted)),
            Instruction::Noop => {
                self.pointer = next;
                Ok(None)
            },
            Instruction::Assign(dest, src) => {
                let value = self.memory.read(&src);
                self.store_and_advance(&dest, value, next)
            },
            Instruction::Push(src) => {
                let value = self.memory.read(&src);
                self.stack.push(value);
                self.pointer = next;
                Ok(None)
            },
            Instruction::Pop(dest) => {
                let len = self.stack.len();
                if len == 0 {
                    return Err(SynacorError::EmptyStack);
                }
                let value = self.stack[len - 1];
                let r = self.store_and_advance(&dest, value, next);
                if r.is_ok() {
                    self.stack.pop();
                }
                r
            },
            Instruction::Equal(dest, left, right) => {
                let value: u16 = if self.memory.read(&left) == self.memory.read(&right) {
                    1
                } else {
                    0
                };
                self.store_and_advance(&dest, value, next)
            },
            Instruction::GreaterThan(dest, left, right) => {
                let value: u16 = if self.memory.read(&left) > self.memory.read(&right) {
                    1
                } else {
                    0
                };
                self.store_and_advance(&dest, value, next)
            },
            Instruction::Jump(target) => {
                self.pointer = self.memory.read(&target) as usize;
                Ok(None)
            },
            Instruction::JumpNonZero(cond, target) => {
                if self.memory.read(&cond) != 0 {
                    self.pointer = self.memory.read(&target) as usize;
                } else {
                    self.pointer = next;
                }
                Ok(None)
            },
            Instruction::JumpZero(cond, target) => {
                if self.memory.read(&cond) == 0 {
                    self.pointer = self.memory.read(&target) as usize;
                } else {
                    self.pointer = next;
                }
                Ok(None)
            },
            Instruction::Add(dest, left, right) => {
                let sum = self.memory.read(&left) as u32 + self.memory.read(&right) as u32;
                self.store_and_advance(&dest, (sum % 32768) as u16, next)
            },
            Instruction::Multiply(dest, left, right) => {
                let l = self.memory.read(&left);
                let r = self.memory.read(&right);
                assert(l as int * r as int <= 65535 * 65535) by (nonlinear_arith)
                    requires
                        l <= 65535,
                        r <= 65535,
                ;
                let product = l as u32 * r as u32;
                self.store_and_advance(&dest, (product % 32768) as u16, next)
            },
            Instruction::Mod(dest, left, right) => {
                let divisor = self.memory.read(&right);
                if divisor == 0 {
                    return Err(SynacorError::InvalidArgument(0));
                }
                let value = self.memory.read(&left) % divisor;
                self.store_and_advance(&dest, value, next)
            },
            Instruction::And(dest, left, right) => {
                let value = self.memory.read(&left) & self.memory.read(&right);
                self.store_and_advance(&dest, value, next)
            },
            Instruction::Or(dest, left, right) => {
                let value = self.memory.read(&left) | self.memory.read(&right);
                self.store_and_advance(&dest, value, next)
            },
            Instruction::Not(dest, src) => {
                // fifteen-bit complement
                let value = !self.memory.read(&src) & 0x7FFF;
                self.store_and_advance(&dest, value, next)
            },
            Instruction::Read(dest, src) => {
                let address = self.memory.read(&src);
                if address as usize >= MEMORY_SIZE {
                    return Err(SynacorError::InvalidAddress(address));
                }
                let value = self.memory[address as usize];
                self.store_and_advance(&dest, value, next)
            },
            Instruction::Write(dest, src) => {
                let address = self.memory.read(&dest);
                if address as usize >= MEMORY_SIZE {
                    return Err(SynacorError::InvalidAddress(address));
                }
                let value = self.memory.read(&src);
                self.memory.set(address as usize, value);
                self.pointer = next;
                Ok(None)
            },
            Instruction::Call(target) => {
                self.stack.push(next as u16);
                self.pointer = self.memory.read(&target) as usize;
                Ok(None)
            },
            Instruction::Return => {
                match self.stack.pop() {
                    Some(address) => {
                        self.pointer = address as usize;
                        Ok(None)
                    },
                    None => Ok(Some(YieldReason::Halted)),
                }
            },
            Instruction::Output(src) => {
                let value = self.memory.read(&src);
                self.stdout.push_back(((value % 256) as u8) as char);
                self.pointer = next;
                Ok(None)
            },
            Instruction::Input(dest) => {
                if self.stdin.len() == 0 {
                    return Ok(Some(YieldReason::InputRequired));
                }
                let c = self.stdin[0];
                let code = (c as u32) % 65536;
                let r = self.store_and_advance(&dest, code as u16, next);
                if r.is_ok() {
                    self.stdin.pop_front();
                }
                r
            },
        }
    }

    /// Creates a machine from a program image of little-endian words: the
    /// program counter at 0, stack and queues empty.
    pub fn from_bytes(buffer: &[u8]) -> (r: Result<VirtualMachine, SynacorError>)
        ensures
            r matches Ok(vm) ==> vm.wf() && load(buffer@) == Ok::<Seq<u16>, SynacorError>(
                vm@.memory,
            ) && vm@ == initial_state(vm@.memory),
            r matches Err(e) ==> load(buffer@) == Err::<Seq<u16>, SynacorError>(e),
    {
        match load_image(buffer) {
            Ok(memory) => Ok(
                VirtualMachine {
                    memory,
                    pointer: 0,
                    stack: Vec::new(),
                    stdin: VecDeque::new(),
                    stdout: VecDeque::new(),
                },
            ),
            Err(e) => Err(e),
        }
    }

    /// Appends the characters of `line` to the input queue, in order.
    pub fn write_stdin(&mut self, line: String)
        requires
            old(self).wf(),
        ensures
            final(self).wf(),
            final(self)@ == (VmState { input: old(self)@.input + line@, ..old(self)@ }),
    {
        for c in it: line.as_str().chars()
            invariant
                self.wf(),
                it.seq() == line@,
                self@ == (VmState {
                    input: old(self)@.input + it.seq().take(it.index() as int),
                    ..old(self)@
                }),
        {
            proof {
                assert(old(self)@.input + it.seq().take(it.index() + 1) =~= (old(self)@.input
                    + it.seq().take(it.index() as int)).push(c));
            }
            self.stdin.push_back(c);
        }
        proof {
            assert(line@.take(line@.len() as int) =~= line@);
        }
    }

    /// Removes and returns everything in the output queue, oldest first.
    pub fn flush_stdout(&mut self) -> (r: String)
        requires
            old(self).wf(),
        ensures
            final(self).wf(),
            r@ == old(self)@.output,
            final(self)@ == (VmState { output: Seq::empty(), ..old(self)@ }),
    {
        let mut out = String::new();
        while self.stdout.len() > 0
            invariant
                self.wf(),
                out@ + self@.output == old(self)@.output,
                self@ == (VmState { output: self@.output, ..old(self)@ }),
            decreases self@.output.len(),
        {
            let ghost before = self@.output;
            match self.stdout.pop_front() {
                Some(c) => {
                    proof {
                        assert(out@.push(c) + self@.output =~= out@ + before);
                    }
                    push_char(&mut out, c);
                },
                None => {},
            }
        }
        proof {
            assert(self@.output =~= Seq::empty());
            assert(out@ =~= out@ + self@.output);
        }
        out
    }

    /// Runs at most `steps` instructions: until the program halts, needs
    /// input, faults, or the budget is spent.
    pub fn execute_for(&mut self, steps: u64) -> (r: Result<YieldReason, SynacorError>)
        requires
            old(self).wf(),
        ensures
            final(self).wf(),
            (final(self)@, r) == run(old(self)@, steps as nat),
    {
        let mut fuel = steps;
        while fuel > 0
            invariant
                self.wf(),
                run(self@, fuel as nat) == run(old(self)@, steps as nat),
            decreases fuel,
        {
            match self.step() {
                Ok(None) => {},
                Ok(Some(reason)) => return Ok(reason),
                Err(e) => return Err(e),
            }
            fuel = fuel - 1;
        }
        Ok(YieldReason::Preempted)
    }

    /// Runs the program until it yields: it halts, needs input, or faults.
    /// The run is bounded by `u64::MAX` instructions, after which it yields
    /// `Preempted` and can be resumed.
    pub fn execute(&mut self) -> (r: Result<YieldReason, SynacorError>)
        requires
            old(self).wf(),
        ensures
            final(self).wf(),
            (final(self)@, r) == run(old(self)@, u64::MAX as nat),
    {
        self.execute_for(u64::MAX)
    }

    /// The value of register `index`, if there is such a register.
    pub fn register(&self, index: usize) -> (r: Option<u16>)
        requires
            self.wf(),
        ensures
            index < REGISTER_COUNT ==> r == Some(self@.memory[MEMORY_SIZE + index]),
            index >= REGISTER_COUNT ==> r is None,
    {
        if index < REGISTER_COUNT {
            Some(self.memory[MEMORY_SIZE + index])
        } else {
            None
        }
    }

    /// The program counter.
    pub fn pointer(&self) -> (r: usize)
        ensures
            r == self@.pc,
    {
        self.pointer
    }
}

} // verus!

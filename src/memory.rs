use crate::argument::Argument;
use crate::errors::SynacorError;
use vstd::prelude::*;

verus! {

/// The memory after storing `value` through the operand `dest`: a register
/// takes the value, a literal cannot be written.
pub open spec fn store(memory: Seq<u16>, dest: Argument, value: u16) -> Result<
    Seq<u16>,
    SynacorError,
> {
    match dest {
        Argument::Literal(n) => Err(SynacorError::WriteToLiteral(n)),
        Argument::Register(i) => Ok(memory.update(i as int, value)),
    }
}

/// Reading and writing an address space through operands.
pub trait MemoryExt {
    /// The cells of the address space.
    spec fn cells(&self) -> Seq<u16>;

    /// Reads the value of an operand.
    fn read(&self, src: &Argument) -> (r: u16)
        requires
            src.fits(self.cells().len() as int),
        ensures
            r == src.value_in(self.cells()),
    ;

    /// Stores `value` through the operand `dest`; memory is left as it was on a fault.
    fn write(&mut self, dest: &Argument, value: u16) -> (r: Result<(), SynacorError>)
        requires
            dest.fits(old(self).cells().len() as int),
        ensures
            match store(old(self).cells(), *dest, value) {
                Ok(m) => r is Ok && final(self).cells() == m,
                Err(e) => r == Err::<(), SynacorError>(e) && final(self).cells() == old(
                    self,
                ).cells(),
            },
    ;
}

impl MemoryExt for Vec<u16> {
    open spec fn cells(&self) -> Seq<u16> {
        self@
    }

    fn read(&self, src: &Argument) -> (r: u16) {
        src.read(self.as_slice())
    }

    fn write(&mut self, dest: &Argument, value: u16) -> (r: Result<(), SynacorError>) {
        match *dest {
            Argument::Literal(n) => Err(SynacorError::WriteToLiteral(n)),
            Argument::Register(n) => {
                self.set(n, value);
                Ok(())
            },
        }
    }
}

} // verus!

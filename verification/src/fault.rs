//! The conditions that stop the machine.

use vstd::prelude::*;

verus! {

/// A fatal condition. The machine does not recover from any of them: the
/// instruction that raised it is not executed, and the state is left as it
/// was for inspection.
#[derive(Clone, Copy, Debug, PartialEq, Eq, Structural)]
pub enum Fault {
    /// The fetched word is all zero: execution ran off the program.
    NullInstruction,
    /// A return with nothing on the call stack.
    StackUnderflow,
    /// A jump to its own address, which would loop forever.
    SelfJump,
    /// An instruction, its operand range in memory, or the next program
    /// counter lies beyond the end of memory.
    MemoryOverflow,
}

} // verus!

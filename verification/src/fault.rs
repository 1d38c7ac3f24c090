//! Fatal conditions and the run-loop state.

use vstd::prelude::*;

verus! {

/// A fatal condition. Every fault ends the run loop.
#[derive(Clone, Copy, Debug, PartialEq, Eq, Structural)]
pub enum Fault {
    /// A call was made with all sixteen stack slots in use.
    StackOverflow,
    /// A return was made with no frame on the stack.
    StackUnderflow,
    /// A fetch or a load reached outside the memory.
    OutOfBounds,
    /// The decoder could not classify the instruction word it carries.
    UnknownOpcode(u16),
    /// The instruction word it carries is a known instruction that the
    /// executor has no handler for.
    Unimplemented(u16),
}

/// The state of the run loop.
#[derive(Clone, Copy, Debug, PartialEq, Eq, Structural)]
pub enum RunState {
    /// The next step will fetch and execute an instruction.
    Running,
    /// The halt instruction was executed.
    Halted,
    /// A fault occurred.
    Faulted(Fault),
}

impl RunState {
    /// Whether no further step will execute.
    pub open spec fn is_terminal(self) -> bool {
        self !is Running
    }

    /// Whether no further step will execute.
    pub fn terminal(&self) -> (t: bool)
        ensures
            t == self.is_terminal(),
    {
        match self {
            RunState::Running => false,
            _ => true,
        }
    }
}

} // verus!

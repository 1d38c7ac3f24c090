//! The run loop: single steps, and runs of steps up to a halt or a fault.

use vstd::prelude::*;
use crate::cpu::CPU;
use crate::decoder::{decode, Operation};
use crate::fault::RunState;

verus! {

/// What one step did.
#[derive(Clone, Copy, Debug, PartialEq, Eq)]
pub struct StepResult {
    /// The state of the run loop after the step.
    pub state: RunState,
    /// The operation that the step fetched and handed to the executor: the
    /// description of its effect. `None` if the step fetched nothing.
    pub operation: Option<Operation>,
}

impl CPU {
    /// Executes one fetch-decode-execute cycle.
    ///
    /// A machine that has halted or faulted is left as it is. A fetch
    /// outside the memory stops the machine with `OutOfBounds`. Otherwise
    /// the program counter moves past the instruction before the
    /// instruction is executed, so that a call pushes the address of the
    /// instruction after it, and a jump overwrites the advanced counter.
    pub fn step(&mut self) -> (result: StepResult)
        ensures
            final(self)@ == old(self)@.step(),
            result.state == final(self)@.state,
            result.operation == old(self)@.fetched(),
    {
        let state = self.state();
        if state.terminal() {
            return StepResult { state, operation: None };
        }
        match self.read_opcode() {
            Err(fault) => {
                let state = RunState::Faulted(fault);
                self.set_state(state);
                StepResult { state, operation: None }
            },
            Ok(word) => {
                let operation = decode(word);
                let pc = self.program_counter();
                self.set_program_counter(pc + 2);
                let state = self.execute(operation);
                StepResult { state, operation: Some(operation) }
            },
        }
    }

    /// Steps until the machine has halted or faulted, or `max_steps` steps
    /// were made, and returns the state of the run loop: `Running` only if
    /// the steps ran out first.
    pub fn run_to_halt(&mut self, max_steps: u64) -> (state: RunState)
        ensures
            final(self)@ == old(self)@.run(max_steps as nat),
            state == final(self)@.state,
    {
        let mut remaining = max_steps;
        let mut state = self.state();
        while remaining > 0 && !state.terminal()
            invariant
                state == self@.state,
                self@.run(remaining as nat) == old(self)@.run(max_steps as nat),
            decreases remaining,
        {
            state = self.step().state;
            remaining = remaining - 1;
        }
        state
    }

    /// Runs the program: steps until the machine has halted or faulted, for
    /// as many steps as a `u64` counts.
    pub fn run(&mut self) -> (state: RunState)
        ensures
            final(self)@ == old(self)@.run(u64::MAX as nat),
            state == final(self)@.state,
    {
        self.run_to_halt(u64::MAX)
    }
}

} // verus!

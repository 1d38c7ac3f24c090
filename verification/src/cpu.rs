//! The state of the machine: registers, memory, program counter and call
//! stack, with the bounds checks that guard them.

use vstd::prelude::*;
use crate::fault::{Fault, RunState};
use crate::machine::{Machine, MEMORY_SIZE, REGISTER_COUNT, STACK_CAPACITY};

verus! {

/// A CHIP-8 machine. Its view is the [`Machine`] that the contracts speak
/// of.
#[derive(Debug)]
pub struct CPU {
    registers: [u8; REGISTER_COUNT],
    memory: [u8; MEMORY_SIZE],
    program_counter: u16,
    stack: [u16; STACK_CAPACITY],
    stack_pointer: usize,
    state: RunState,
}

impl View for CPU {
    type V = Machine;

    /// The frames of the model are the slots below the stack pointer.
    closed spec fn view(&self) -> Machine {
        Machine {
            registers: self.registers@,
            memory: self.memory@,
            program_counter: self.program_counter as int,
            stack: self.stack@.subrange(0, self.stack_pointer as int),
            state: self.state,
        }
    }
}

impl Clone for CPU {
    /// A snapshot of the machine.
    fn clone(&self) -> (snapshot: CPU)
        ensures
            snapshot@ == self@,
    {
        proof {
            use_type_invariant(self);
        }
        CPU {
            registers: self.registers,
            memory: self.memory,
            program_counter: self.program_counter,
            stack: self.stack,
            stack_pointer: self.stack_pointer,
            state: self.state,
        }
    }
}

impl Default for CPU {
    /// The machine at startup.
    fn default() -> (cpu: CPU)
        ensures
            cpu@ == Machine::fresh(),
            cpu@.wf(),
    {
        CPU::new()
    }
}

impl CPU {
    #[verifier::type_invariant]
    spec fn stack_pointer_in_range(&self) -> bool {
        self.stack_pointer <= STACK_CAPACITY
    }

    /// The machine at startup: registers, memory and stack all zero, the
    /// program counter at 0, running.
    pub fn new() -> (cpu: CPU)
        ensures
            cpu@ == Machine::fresh(),
            cpu@.wf(),
    {
        let cpu = CPU {
            registers: [0; REGISTER_COUNT],
            memory: [0; MEMORY_SIZE],
            program_counter: 0,
            stack: [0; STACK_CAPACITY],
            stack_pointer: 0,
            state: RunState::Running,
        };
        assert(cpu@.registers =~= Machine::fresh().registers);
        assert(cpu@.memory =~= Machine::fresh().memory);
        assert(cpu@.stack =~= Machine::fresh().stack);
        cpu
    }

    /// Every machine is well formed. This does nothing at run time; it
    /// hands the fact to a caller's proof.
    pub fn well_formed(&self)
        ensures
            self@.wf(),
    {
        proof {
            use_type_invariant(self);
        }
    }

    /// The value of register `register_number`.
    pub fn get_register(&self, register_number: u8) -> (value: u8)
        requires
            register_number < REGISTER_COUNT,
        ensures
            value == self@.register(register_number),
    {
        self.registers[register_number as usize]
    }

    /// Writes `value` to register `register_number`.
    pub fn set_register(&mut self, register_number: u8, value: u8)
        requires
            register_number < REGISTER_COUNT,
        ensures
            final(self)@ == old(self)@.with_register(register_number, value),
            final(self)@.register(register_number) == value,
    {
        proof {
            use_type_invariant(&*self);
        }
        self.registers[register_number as usize] = value;
    }

    /// The byte at `address`.
    pub fn get_memory(&self, address: u16) -> (value: u8)
        requires
            address < MEMORY_SIZE,
        ensures
            value == self@.memory[address as int],
    {
        self.memory[address as usize]
    }

    /// Writes `value` at `address`.
    pub fn set_memory(&mut self, address: u16, value: u8)
        requires
            address < MEMORY_SIZE,
        ensures
            final(self)@ == old(self)@.with_byte(address as int, value),
    {
        proof {
            use_type_invariant(&*self);
        }
        self.memory[address as usize] = value;
    }

    /// The address of the next instruction to fetch.
    pub fn program_counter(&self) -> (pc: u16)
        ensures
            pc == self@.program_counter,
    {
        self.program_counter
    }

    /// Moves the program counter to `address`.
    pub fn set_program_counter(&mut self, address: u16)
        ensures
            final(self)@ == old(self)@.with_program_counter(address as int),
    {
        proof {
            use_type_invariant(&*self);
        }
        self.program_counter = address;
    }

    /// The state of the run loop.
    pub fn state(&self) -> (state: RunState)
        ensures
            state == self@.state,
    {
        self.state
    }

    /// Puts the run loop in `state`.
    pub(crate) fn set_state(&mut self, state: RunState)
        ensures
            final(self)@ == old(self)@.with_state(state),
    {
        proof {
            use_type_invariant(&*self);
        }
        self.state = state;
    }

    /// The number of calls that have not returned.
    pub fn stack_depth(&self) -> (depth: usize)
        ensures
            depth == self@.stack.len(),
            depth <= STACK_CAPACITY,
    {
        proof {
            use_type_invariant(self);
        }
        self.stack_pointer
    }

    /// Pushes `return_address` onto the call stack, or fails with
    /// `StackOverflow` if all sixteen slots are in use.
    pub fn push(&mut self, return_address: u16) -> (r: Result<(), Fault>)
        ensures
            old(self)@.stack.len() < STACK_CAPACITY ==> r is Ok
                && final(self)@ == old(self)@.pushed(return_address),
            old(self)@.stack.len() >= STACK_CAPACITY ==> r === Err(Fault::StackOverflow)
                && final(self)@ == old(self)@,
    {
        proof {
            use_type_invariant(&*self);
        }
        if self.stack_pointer >= STACK_CAPACITY {
            return Err(Fault::StackOverflow);
        }
        self.stack[self.stack_pointer] = return_address;
        self.stack_pointer = self.stack_pointer + 1;
        assert(self@.stack =~= old(self)@.stack.push(return_address));
        Ok(())
    }

    /// Pops the latest return address off the call stack, or fails with
    /// `StackUnderflow` if the stack is empty.
    pub fn pop(&mut self) -> (r: Result<u16, Fault>)
        ensures
            old(self)@.stack.len() > 0 ==> r === Ok(old(self)@.stack.last())
                && final(self)@ == old(self)@.popped(),
            old(self)@.stack.len() == 0 ==> r === Err(Fault::StackUnderflow)
                && final(self)@ == old(self)@,
    {
        proof {
            use_type_invariant(&*self);
        }
        if self.stack_pointer == 0 {
            return Err(Fault::StackUnderflow);
        }
        self.stack_pointer = self.stack_pointer - 1;
        let address = self.stack[self.stack_pointer];
        assert(self@.stack =~= old(self)@.stack.drop_last());
        Ok(address)
    }

    /// The big-endian word at `address` and `address + 1`, or `OutOfBounds`
    /// if either byte lies outside the memory.
    pub fn fetch_word(&self, address: u16) -> (r: Result<u16, Fault>)
        ensures
            Machine::holds_word(address as int) ==> r === Ok(self@.word_at(address as int)),
            !Machine::holds_word(address as int) ==> r === Err(Fault::OutOfBounds),
    {
        let at = address as usize;
        if at >= MEMORY_SIZE - 1 {
            return Err(Fault::OutOfBounds);
        }
        let high = self.memory[at];
        let low = self.memory[at + 1];
        assert(((high as u16) << 8) | (low as u16) == high * 256 + low) by (bit_vector);
        Ok(((high as u16) << 8) | (low as u16))
    }

    /// The instruction word at the program counter, or `OutOfBounds` if it
    /// does not lie in the memory.
    pub fn read_opcode(&self) -> (r: Result<u16, Fault>)
        ensures
            Machine::holds_word(self@.program_counter) ==> r === Ok(
                self@.word_at(self@.program_counter),
            ),
            !Machine::holds_word(self@.program_counter) ==> r === Err(Fault::OutOfBounds),
    {
        self.fetch_word(self.program_counter)
    }

    /// Copies `bytes` into memory from `base_address` on, or fails with
    /// `OutOfBounds`, leaving the memory as it was, if they would reach
    /// past its end.
    pub fn load(&mut self, base_address: u16, bytes: &[u8]) -> (r: Result<(), Fault>)
        ensures
            base_address + bytes@.len() <= MEMORY_SIZE ==> r is Ok
                && final(self)@ == old(self)@.loaded(base_address as int, bytes@),
            base_address + bytes@.len() > MEMORY_SIZE ==> r === Err(Fault::OutOfBounds)
                && final(self)@ == old(self)@,
    {
        let base = base_address as usize;
        let count = bytes.len();
        if base > MEMORY_SIZE || count > MEMORY_SIZE - base {
            return Err(Fault::OutOfBounds);
        }
        let mut i: usize = 0;
        while i < count
            invariant
                i <= count,
                count == bytes@.len(),
                base + count <= MEMORY_SIZE,
                self.registers == old(self).registers,
                self.program_counter == old(self).program_counter,
                self.stack == old(self).stack,
                self.stack_pointer == old(self).stack_pointer,
                self.state == old(self).state,
                forall|a: int|
                    0 <= a < MEMORY_SIZE ==> self.memory@[a] == if base <= a < base + i {
                        bytes@[a - base]
                    } else {
                        old(self).memory@[a]
                    },
            decreases count - i,
        {
            proof {
                use_type_invariant(&*self);
            }
            self.memory[base + i] = bytes[i];
            i = i + 1;
        }
        assert(self@.memory =~= old(self)@.loaded(base_address as int, bytes@).memory);
        Ok(())
    }

    /// The `length` bytes of memory from `start` on, or `OutOfBounds` if
    /// they would reach past its end.
    pub fn memory_range(&self, start: u16, length: usize) -> (r: Result<Vec<u8>, Fault>)
        ensures
            start + length <= MEMORY_SIZE ==> r is Ok
                && r->Ok_0@ == self@.memory.subrange(start as int, start + length),
            start + length > MEMORY_SIZE ==> r === Err(Fault::OutOfBounds),
    {
        let base = start as usize;
        if base > MEMORY_SIZE || length > MEMORY_SIZE - base {
            return Err(Fault::OutOfBounds);
        }
        let mut bytes: Vec<u8> = Vec::new();
        let mut i: usize = 0;
        while i < length
            invariant
                i <= length,
                base + length <= MEMORY_SIZE,
                bytes@ == self.memory@.subrange(base as int, base + i),
            decreases length - i,
        {
            bytes.push(self.memory[base + i]);
            i = i + 1;
        }
        Ok(bytes)
    }
}

} // verus!

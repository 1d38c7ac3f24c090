//! The mathematical model of the machine: what each operation, each step
//! and each run makes of a state.

use vstd::prelude::*;
use crate::decoder::{decoded, Operation};
use crate::fault::{Fault, RunState};

verus! {

/// The number of bytes of memory.
pub const MEMORY_SIZE: usize = 4096;

/// The number of general-purpose registers.
pub const REGISTER_COUNT: usize = 16;

/// The number of return addresses that the call stack holds.
pub const STACK_CAPACITY: usize = 16;

/// The index of `VF`, the register that takes carry, borrow and shifted-out
/// bits.
pub const FLAG_REGISTER: u8 = 0xF;

/// `a + b` in 8 bits.
pub open spec fn sum_byte(a: u8, b: u8) -> u8 {
    ((a + b) % 256) as u8
}

/// 1 if `a + b` does not fit in 8 bits, else 0.
pub open spec fn carry_flag(a: u8, b: u8) -> u8 {
    if a + b > 255 {
        1
    } else {
        0
    }
}

/// `a - b` in 8 bits.
pub open spec fn difference_byte(a: u8, b: u8) -> u8 {
    ((a - b) % 256) as u8
}

/// 1 if `a - b` needs no borrow, that is if `a >= b`, else 0.
pub open spec fn no_borrow_flag(a: u8, b: u8) -> u8 {
    if a >= b {
        1
    } else {
        0
    }
}

/// `a` shifted right by one bit.
pub open spec fn halved_byte(a: u8) -> u8 {
    (a / 2) as u8
}

/// The lowest bit of `a`, 0 or 1.
pub open spec fn low_bit(a: u8) -> u8 {
    (a % 2) as u8
}

/// `a` shifted left by one bit, in 8 bits.
pub open spec fn doubled_byte(a: u8) -> u8 {
    ((a * 2) % 256) as u8
}

/// The highest bit of `a`, 0 or 1.
pub open spec fn high_bit(a: u8) -> u8 {
    (a / 128) as u8
}

/// The state of the machine as plain values.
pub ghost struct Machine {
    /// `V0` to `VF`.
    pub registers: Seq<u8>,
    /// The 4096 bytes of memory.
    pub memory: Seq<u8>,
    /// The address of the next instruction to fetch.
    pub program_counter: int,
    /// The return addresses of the calls that have not returned, the latest
    /// last.
    pub stack: Seq<u16>,
    /// The state of the run loop.
    pub state: RunState,
}

impl Machine {
    /// Sixteen registers, 4096 bytes, at most sixteen frames, and a program
    /// counter of 16 bits.
    pub open spec fn wf(self) -> bool {
        &&& self.registers.len() == REGISTER_COUNT
        &&& self.memory.len() == MEMORY_SIZE
        &&& self.stack.len() <= STACK_CAPACITY
        &&& 0 <= self.program_counter <= u16::MAX
    }

    /// The machine at startup: everything zero, the stack empty, running.
    pub open spec fn fresh() -> Machine {
        Machine {
            registers: Seq::new(REGISTER_COUNT as nat, |i: int| 0u8),
            memory: Seq::new(MEMORY_SIZE as nat, |i: int| 0u8),
            program_counter: 0,
            stack: Seq::empty(),
            state: RunState::Running,
        }
    }

    /// The value of register `index`.
    pub open spec fn register(self, index: u8) -> u8 {
        self.registers[index as int]
    }

    /// The value of `VF`.
    pub open spec fn flag(self) -> u8 {
        self.registers[FLAG_REGISTER as int]
    }

    /// `self` with `value` in register `index`.
    pub open spec fn with_register(self, index: u8, value: u8) -> Machine {
        Machine { registers: self.registers.update(index as int, value), ..self }
    }

    /// `self` with `result` in register `x` and then `flag` in `VF`: where
    /// `x` is `VF` itself, the flag is what stays.
    pub open spec fn with_flagged(self, x: u8, result: u8, flag: u8) -> Machine {
        self.with_register(x, result).with_register(FLAG_REGISTER, flag)
    }

    /// `self` with `value` at `address`.
    pub open spec fn with_byte(self, address: int, value: u8) -> Machine {
        Machine { memory: self.memory.update(address, value), ..self }
    }

    /// `self` with `bytes` copied to `base` and the addresses after it.
    pub open spec fn loaded(self, base: int, bytes: Seq<u8>) -> Machine {
        Machine {
            memory: Seq::new(
                self.memory.len(),
                |a: int|
                    if base <= a < base + bytes.len() {
                        bytes[a - base]
                    } else {
                        self.memory[a]
                    },
            ),
            ..self
        }
    }

    /// `self` with the program counter at `address`.
    pub open spec fn with_program_counter(self, address: int) -> Machine {
        Machine { program_counter: address, ..self }
    }

    /// `self` in run state `state`.
    pub open spec fn with_state(self, state: RunState) -> Machine {
        Machine { state, ..self }
    }

    /// `self` stopped by `fault`.
    pub open spec fn faulted(self, fault: Fault) -> Machine {
        self.with_state(RunState::Faulted(fault))
    }

    /// `self` with `address` on top of the stack.
    pub open spec fn pushed(self, address: u16) -> Machine {
        Machine { stack: self.stack.push(address), ..self }
    }

    /// `self` without the top of the stack.
    pub open spec fn popped(self) -> Machine {
        Machine { stack: self.stack.drop_last(), ..self }
    }

    /// Whether the two bytes of a word at `address` lie in memory.
    pub open spec fn holds_word(address: int) -> bool {
        0 <= address && address + 1 < MEMORY_SIZE
    }

    /// The big-endian word at `address` and `address + 1`.
    pub open spec fn word_at(self, address: int) -> u16 {
        (self.memory[address] * 256 + self.memory[address + 1]) as u16
    }

    /// `self` after a call to `address`: the program counter goes onto the
    /// stack, and `address` takes its place.
    pub open spec fn called(self, address: u16) -> Machine {
        self.pushed(self.program_counter as u16).with_program_counter(address as int)
    }

    /// `self` after a return: the top of the stack becomes the program
    /// counter.
    pub open spec fn returned(self) -> Machine {
        self.popped().with_program_counter(self.stack.last() as int)
    }

    /// Whether the program counter can move past one more instruction.
    pub open spec fn can_skip(self) -> bool {
        self.program_counter + 2 <= u16::MAX
    }

    /// `self` with the program counter past one more instruction.
    pub open spec fn skipped(self) -> Machine {
        self.with_program_counter(self.program_counter + 2)
    }

    /// The address that `JP V0, nnn` jumps to: the sum, wrapped into the
    /// 12-bit address space.
    pub open spec fn offset_target(self, address: u16) -> int {
        (self.registers[0] + address) % (MEMORY_SIZE as int)
    }

    /// `self` after the skip that a test asks for: unchanged if `taken` is
    /// false, past the next instruction if it is true, and stopped by
    /// `OutOfBounds` if that would leave the 16-bit address range.
    pub open spec fn skip_if(self, taken: bool) -> Machine {
        if !taken {
            self
        } else if self.can_skip() {
            self.skipped()
        } else {
            self.faulted(Fault::OutOfBounds)
        }
    }

    /// What `op` makes of `self`: the instruction semantics.
    ///
    /// The arithmetic and shift operations that set `VF` write it last. An
    /// operation that fails stops the machine with its fault and changes
    /// nothing else.
    pub open spec fn execute(self, op: Operation) -> Machine {
        match op {
            Operation::Halt => self.with_state(RunState::Halted),
            Operation::Return => if self.stack.len() == 0 {
                self.faulted(Fault::StackUnderflow)
            } else {
                self.returned()
            },
            Operation::Jump { address } => self.with_program_counter(address as int),
            Operation::Call { address } => if self.stack.len() >= STACK_CAPACITY {
                self.faulted(Fault::StackOverflow)
            } else {
                self.called(address)
            },
            Operation::SkipEqual { x, byte } => self.skip_if(self.register(x) == byte),
            Operation::SkipNotEqual { x, byte } => self.skip_if(self.register(x) != byte),
            Operation::SkipEqualRegister { x, y } => self.skip_if(
                self.register(x) == self.register(y),
            ),
            Operation::Load { x, byte } => self.with_register(x, byte),
            Operation::Add { x, byte } => self.with_register(
                x,
                sum_byte(self.register(x), byte),
            ),
            Operation::LoadRegister { x, y } => self.with_register(x, self.register(y)),
            Operation::Or { x, y } => self.with_register(
                x,
                self.register(x) | self.register(y),
            ),
            Operation::And { x, y } => self.with_register(
                x,
                self.register(x) & self.register(y),
            ),
            Operation::Xor { x, y } => self.with_register(
                x,
                self.register(x) ^ self.register(y),
            ),
            Operation::AddRegister { x, y } => self.with_flagged(
                x,
                sum_byte(self.register(x), self.register(y)),
                carry_flag(self.register(x), self.register(y)),
            ),
            Operation::Subtract { x, y } => self.with_flagged(
                x,
                difference_byte(self.register(x), self.register(y)),
                no_borrow_flag(self.register(x), self.register(y)),
            ),
            Operation::ShiftRight { x } => self.with_flagged(
                x,
                halved_byte(self.register(x)),
                low_bit(self.register(x)),
            ),
            Operation::SubtractFrom { x, y } => self.with_flagged(
                x,
                difference_byte(self.register(y), self.register(x)),
                no_borrow_flag(self.register(y), self.register(x)),
            ),
            Operation::ShiftLeft { x } => self.with_flagged(
                x,
                doubled_byte(self.register(x)),
                high_bit(self.register(x)),
            ),
            Operation::SkipNotEqualRegister { x, y } => self.skip_if(
                self.register(x) != self.register(y),
            ),
            Operation::JumpOffset { address } => self.with_program_counter(
                self.offset_target(address),
            ),
            Operation::Unimplemented { word } => self.faulted(Fault::Unimplemented(word)),
            Operation::UnknownOpcode { word } => self.faulted(Fault::UnknownOpcode(word)),
        }
    }

    /// The operation that the next step fetches: none if the machine has
    /// halted or faulted, or if the word at the program counter does not lie
    /// in the memory.
    pub open spec fn fetched(self) -> Option<Operation> {
        if self.state.is_terminal() || !Self::holds_word(self.program_counter) {
            None
        } else {
            Some(decoded(self.word_at(self.program_counter)))
        }
    }

    /// `self` after one fetch-decode-execute cycle.
    ///
    /// A machine that has halted or faulted stays as it is. A fetch outside
    /// the memory stops the machine with `OutOfBounds`. Otherwise the
    /// program counter moves past the instruction, and then the instruction
    /// is executed.
    pub open spec fn step(self) -> Machine {
        if self.state.is_terminal() {
            self
        } else {
            match self.fetched() {
                None => self.faulted(Fault::OutOfBounds),
                Some(op) => self.skipped().execute(op),
            }
        }
    }

    /// `self` after at most `steps` cycles: the run stops early once the
    /// machine has halted or faulted.
    pub open spec fn run(self, steps: nat) -> Machine
        decreases steps,
    {
        if steps == 0 || self.state.is_terminal() {
            self
        } else {
            self.step().run((steps - 1) as nat)
        }
    }
}

} // verus!

//! The executor: one handler for each instruction, and the dispatch from a
//! decoded operation to its handler.

use vstd::prelude::*;
use crate::cpu::CPU;
use crate::decoder::Operation;
use crate::fault::{Fault, RunState};
use crate::machine::{
    carry_flag, difference_byte, doubled_byte, halved_byte, high_bit, low_bit, no_borrow_flag,
    sum_byte, FLAG_REGISTER, MEMORY_SIZE, REGISTER_COUNT, STACK_CAPACITY,
};

verus! {

impl CPU {
    /// `CALL address`: pushes the program counter and jumps to `address`, or
    /// fails with `StackOverflow`, changing nothing, if the stack is full.
    pub fn call(&mut self, address: u16) -> (r: Result<(), Fault>)
        ensures
            old(self)@.stack.len() < STACK_CAPACITY ==> r is Ok
                && final(self)@ == old(self)@.called(address),
            old(self)@.stack.len() >= STACK_CAPACITY ==> r === Err(Fault::StackOverflow)
                && final(self)@ == old(self)@,
    {
        let return_address = self.program_counter();
        match self.push(return_address) {
            Ok(()) => {
                self.set_program_counter(address);
                Ok(())
            },
            Err(fault) => Err(fault),
        }
    }

    /// `RET`: pops the latest return address into the program counter, or
    /// fails with `StackUnderflow`, changing nothing, if the stack is empty.
    pub fn ret(&mut self) -> (r: Result<(), Fault>)
        ensures
            old(self)@.stack.len() > 0 ==> r is Ok && final(self)@ == old(self)@.returned(),
            old(self)@.stack.len() == 0 ==> r === Err(Fault::StackUnderflow)
                && final(self)@ == old(self)@,
    {
        match self.pop() {
            Ok(return_address) => {
                self.set_program_counter(return_address);
                Ok(())
            },
            Err(fault) => Err(fault),
        }
    }

    /// `JP nnn` where `flag` is not 0: jumps to `nnn`. `JP V0, nnn` where
    /// `flag` is 0: jumps to `V0 + nnn`, wrapped into the 12-bit address
    /// space.
    pub fn jp(&mut self, flag: u8, nnn: u16)
        ensures
            flag != 0 ==> final(self)@ == old(self)@.with_program_counter(nnn as int),
            flag == 0 ==> final(self)@ == old(self)@.with_program_counter(
                old(self)@.offset_target(nnn),
            ),
    {
        if flag == 0 {
            let offset = self.get_register(0);
            let target = (offset as u32 + nnn as u32) % (MEMORY_SIZE as u32);
            self.set_program_counter(target as u16);
        } else {
            self.set_program_counter(nnn);
        }
    }

    /// Moves the program counter past the next instruction, or fails with
    /// `OutOfBounds`, changing nothing, if that would leave the 16-bit
    /// address range.
    pub fn skip(&mut self) -> (r: Result<(), Fault>)
        ensures
            old(self)@.can_skip() ==> r is Ok && final(self)@ == old(self)@.skipped(),
            !old(self)@.can_skip() ==> r === Err(Fault::OutOfBounds)
                && final(self)@ == old(self)@,
    {
        let pc = self.program_counter();
        if pc > u16::MAX - 2 {
            return Err(Fault::OutOfBounds);
        }
        self.set_program_counter(pc + 2);
        Ok(())
    }

    /// `SE Vx, kk`: skips the next instruction if `Vx == kk`. Fails as
    /// [`CPU::skip`] does.
    pub fn se(&mut self, x: u8, kk: u8) -> (r: Result<(), Fault>)
        requires
            x < REGISTER_COUNT,
        ensures
            old(self)@.register(x) != kk ==> r is Ok && final(self)@ == old(self)@,
            old(self)@.register(x) == kk && old(self)@.can_skip() ==> r is Ok
                && final(self)@ == old(self)@.skipped(),
            old(self)@.register(x) == kk && !old(self)@.can_skip()
                ==> r === Err(Fault::OutOfBounds) && final(self)@ == old(self)@,
    {
        if self.get_register(x) == kk {
            self.skip()
        } else {
            Ok(())
        }
    }

    /// `SNE Vx, kk`: skips the next instruction if `Vx != kk`. Fails as
    /// [`CPU::skip`] does.
    pub fn sne(&mut self, x: u8, kk: u8) -> (r: Result<(), Fault>)
        requires
            x < REGISTER_COUNT,
        ensures
            old(self)@.register(x) == kk ==> r is Ok && final(self)@ == old(self)@,
            old(self)@.register(x) != kk && old(self)@.can_skip() ==> r is Ok
                && final(self)@ == old(self)@.skipped(),
            old(self)@.register(x) != kk && !old(self)@.can_skip()
                ==> r === Err(Fault::OutOfBounds) && final(self)@ == old(self)@,
    {
        if self.get_register(x) != kk {
            self.skip()
        } else {
            Ok(())
        }
    }

    /// `LD Vx, kk`: `Vx = kk`.
    pub fn ld(&mut self, register_number: u8, value: u8)
        requires
            register_number < REGISTER_COUNT,
        ensures
            final(self)@ == old(self)@.with_register(register_number, value),
            final(self)@.register(register_number) == value,
    {
        self.set_register(register_number, value);
    }

    /// `ADD Vx, kk`: `Vx = Vx + kk` in 8 bits. `VF` is not touched.
    pub fn add(&mut self, x: u8, kk: u8)
        requires
            x < REGISTER_COUNT,
        ensures
            final(self)@ == old(self)@.with_register(x, sum_byte(old(self)@.register(x), kk)),
            x != FLAG_REGISTER ==> final(self)@.flag() == old(self)@.flag(),
    {
        self.well_formed();
        let a = self.get_register(x);
        let sum: u16 = a as u16 + kk as u16;
        self.set_register(x, (sum % 256) as u8);
    }

    /// `ADD Vx, Vy`: `Vx = Vx + Vy` in 8 bits, then `VF` = 1 if the sum
    /// did not fit, else 0.
    pub fn add_carry(&mut self, x: u8, y: u8)
        requires
            x < REGISTER_COUNT,
            y < REGISTER_COUNT,
        ensures
            final(self)@ == old(self)@.with_flagged(
                x,
                sum_byte(old(self)@.register(x), old(self)@.register(y)),
                carry_flag(old(self)@.register(x), old(self)@.register(y)),
            ),
            final(self)@.flag() == 1 <==> old(self)@.register(x) + old(self)@.register(y) > 255,
            final(self)@.flag() == 0 <==> old(self)@.register(x) + old(self)@.register(y) <= 255,
            x != FLAG_REGISTER ==> final(self)@.register(x)
                == (old(self)@.register(x) + old(self)@.register(y)) % 256,
    {
        self.well_formed();
        let a = self.get_register(x);
        let b = self.get_register(y);
        let sum: u16 = a as u16 + b as u16;
        let carry: u8 = if sum > 255 {
            1
        } else {
            0
        };
        self.set_register(x, (sum % 256) as u8);
        self.set_register(FLAG_REGISTER, carry);
    }

    /// `ADD Vx, Vy`, as [`CPU::add_carry`].
    pub fn add_code(&mut self, x: u8, y: u8)
        requires
            x < REGISTER_COUNT,
            y < REGISTER_COUNT,
        ensures
            final(self)@ == old(self)@.with_flagged(
                x,
                sum_byte(old(self)@.register(x), old(self)@.register(y)),
                carry_flag(old(self)@.register(x), old(self)@.register(y)),
            ),
    {
        self.add_carry(x, y);
    }

    /// `SUB Vx, Vy`: `Vx = Vx - Vy` in 8 bits, then `VF` = 1 if `Vx >= Vy`
    /// held, so that nothing was borrowed, else 0.
    pub fn sub(&mut self, x: u8, y: u8)
        requires
            x < REGISTER_COUNT,
            y < REGISTER_COUNT,
        ensures
            final(self)@ == old(self)@.with_flagged(
                x,
                difference_byte(old(self)@.register(x), old(self)@.register(y)),
                no_borrow_flag(old(self)@.register(x), old(self)@.register(y)),
            ),
            final(self)@.flag() == 1 <==> old(self)@.register(x) >= old(self)@.register(y),
            final(self)@.flag() == 0 <==> old(self)@.register(x) < old(self)@.register(y),
            x != FLAG_REGISTER ==> final(self)@.register(x)
                == (old(self)@.register(x) - old(self)@.register(y)) % 256,
    {
        self.well_formed();
        let a = self.get_register(x);
        let b = self.get_register(y);
        self.store_difference(x, a, b);
    }

    /// `SUBN Vx, Vy`: `Vx = Vy - Vx` in 8 bits, then `VF` = 1 if `Vy >= Vx`
    /// held, so that nothing was borrowed, else 0.
    pub fn subn(&mut self, x: u8, y: u8)
        requires
            x < REGISTER_COUNT,
            y < REGISTER_COUNT,
        ensures
            final(self)@ == old(self)@.with_flagged(
                x,
                difference_byte(old(self)@.register(y), old(self)@.register(x)),
                no_borrow_flag(old(self)@.register(y), old(self)@.register(x)),
            ),
            final(self)@.flag() == 1 <==> old(self)@.register(y) >= old(self)@.register(x),
            final(self)@.flag() == 0 <==> old(self)@.register(y) < old(self)@.register(x),
            x != FLAG_REGISTER ==> final(self)@.register(x)
                == (old(self)@.register(y) - old(self)@.register(x)) % 256,
    {
        self.well_formed();
        let a = self.get_register(x);
        let b = self.get_register(y);
        self.store_difference(x, b, a);
    }

    /// Writes `minuend - subtrahend` in 8 bits to `Vx`, then the no-borrow
    /// flag to `VF`.
    fn store_difference(&mut self, x: u8, minuend: u8, subtrahend: u8)
        requires
            x < REGISTER_COUNT,
        ensures
            final(self)@ == old(self)@.with_flagged(
                x,
                difference_byte(minuend, subtrahend),
                no_borrow_flag(minuend, subtrahend),
            ),
    {
        if minuend >= subtrahend {
            self.set_register(x, minuend - subtrahend);
            self.set_register(FLAG_REGISTER, 1);
        } else {
            let wrapped: u16 = 256 + minuend as u16 - subtrahend as u16;
            self.set_register(x, wrapped as u8);
            self.set_register(FLAG_REGISTER, 0);
        }
    }

    /// `OR Vx, Vy`: `Vx = Vx | Vy`.
    pub fn or(&mut self, x: u8, y: u8)
        requires
            x < REGISTER_COUNT,
            y < REGISTER_COUNT,
        ensures
            final(self)@ == old(self)@.with_register(
                x,
                old(self)@.register(x) | old(self)@.register(y),
            ),
    {
        let a = self.get_register(x);
        let b = self.get_register(y);
        self.set_register(x, a | b);
    }

    /// `AND Vx, Vy`: `Vx = Vx & Vy`.
    pub fn and(&mut self, x: u8, y: u8)
        requires
            x < REGISTER_COUNT,
            y < REGISTER_COUNT,
        ensures
            final(self)@ == old(self)@.with_register(
                x,
                old(self)@.register(x) & old(self)@.register(y),
            ),
    {
        let a = self.get_register(x);
        let b = self.get_register(y);
        self.set_register(x, a & b);
    }

    /// `XOR Vx, Vy`: `Vx = Vx ^ Vy`.
    pub fn xor(&mut self, x: u8, y: u8)
        requires
            x < REGISTER_COUNT,
            y < REGISTER_COUNT,
        ensures
            final(self)@ == old(self)@.with_register(
                x,
                old(self)@.register(x) ^ old(self)@.register(y),
            ),
    {
        let a = self.get_register(x);
        let b = self.get_register(y);
        self.set_register(x, a ^ b);
    }

    /// `SHR Vx`: `Vx = Vx >> 1`, then `VF` = the bit shifted out.
    pub fn shr(&mut self, x: u8)
        requires
            x < REGISTER_COUNT,
        ensures
            final(self)@ == old(self)@.with_flagged(
                x,
                halved_byte(old(self)@.register(x)),
                low_bit(old(self)@.register(x)),
            ),
            final(self)@.flag() == 0 || final(self)@.flag() == 1,
    {
        self.well_formed();
        let a = self.get_register(x);
        assert(a >> 1 == a / 2) by (bit_vector);
        assert(a & 1 == a % 2) by (bit_vector);
        self.set_register(x, a >> 1);
        self.set_register(FLAG_REGISTER, a & 1);
    }

    /// `SHL Vx`: `Vx = Vx << 1` in 8 bits, then `VF` = the bit shifted out.
    pub fn shl(&mut self, x: u8)
        requires
            x < REGISTER_COUNT,
        ensures
            final(self)@ == old(self)@.with_flagged(
                x,
                doubled_byte(old(self)@.register(x)),
                high_bit(old(self)@.register(x)),
            ),
            final(self)@.flag() == 0 || final(self)@.flag() == 1,
    {
        self.well_formed();
        let a = self.get_register(x);
        assert(a << 1 == (a * 2) % 256) by (bit_vector);
        assert((a & 0x80) >> 7 == a / 128) by (bit_vector);
        self.set_register(x, a << 1);
        self.set_register(FLAG_REGISTER, (a & 0x80) >> 7);
    }

    /// Stops the machine with the fault of `outcome`, if it holds one.
    fn settle(&mut self, outcome: Result<(), Fault>)
        ensures
            outcome is Ok ==> final(self)@ == old(self)@,
            outcome matches Err(fault) ==> final(self)@ == old(self)@.faulted(fault),
    {
        match outcome {
            Ok(()) => {},
            Err(fault) => self.set_state(RunState::Faulted(fault)),
        }
    }

    /// Applies one decoded operation and returns the state of the run loop
    /// after it.
    ///
    /// `Halt` halts the machine. A return on an empty stack, a call on a
    /// full one, a skip out of the address range, and an `Unimplemented` or
    /// `UnknownOpcode` operation stop it with their fault and change nothing
    /// else. The run state is not consulted: that is the run loop's part.
    pub fn execute(&mut self, op: Operation) -> (state: RunState)
        requires
            op.valid(),
        ensures
            final(self)@ == old(self)@.execute(op),
            state == final(self)@.state,
    {
        match op {
            Operation::Halt => self.set_state(RunState::Halted),
            Operation::Return => {
                let outcome = self.ret();
                self.settle(outcome);
            },
            Operation::Jump { address } => self.jp(1, address),
            Operation::Call { address } => {
                let outcome = self.call(address);
                self.settle(outcome);
            },
            Operation::SkipEqual { x, byte } => {
                let outcome = self.se(x, byte);
                self.settle(outcome);
            },
            Operation::SkipNotEqual { x, byte } => {
                let outcome = self.sne(x, byte);
                self.settle(outcome);
            },
            Operation::SkipEqualRegister { x, y } => {
                let other = self.get_register(y);
                let outcome = self.se(x, other);
                self.settle(outcome);
            },
            Operation::Load { x, byte } => self.ld(x, byte),
            Operation::Add { x, byte } => self.add(x, byte),
            Operation::LoadRegister { x, y } => {
                let other = self.get_register(y);
                self.ld(x, other);
            },
            Operation::Or { x, y } => self.or(x, y),
            Operation::And { x, y } => self.and(x, y),
            Operation::Xor { x, y } => self.xor(x, y),
            Operation::AddRegister { x, y } => self.add_carry(x, y),
            Operation::Subtract { x, y } => self.sub(x, y),
            Operation::ShiftRight { x } => self.shr(x),
            Operation::SubtractFrom { x, y } => self.subn(x, y),
            Operation::ShiftLeft { x } => self.shl(x),
            Operation::SkipNotEqualRegister { x, y } => {
                let other = self.get_register(y);
                let outcome = self.sne(x, other);
                self.settle(outcome);
            },
            Operation::JumpOffset { address } => self.jp(0, address),
            Operation::Unimplemented { word } => self.set_state(
                RunState::Faulted(Fault::Unimplemented(word)),
            ),
            Operation::UnknownOpcode { word } => self.set_state(
                RunState::Faulted(Fault::UnknownOpcode(word)),
            ),
        }
        self.state()
    }
}

} // verus!

//! Laws of the machine, proved of the model that the contracts speak of.

use vstd::prelude::*;
use crate::decoder::{decoded, Operation};
use crate::fault::{Fault, RunState};
use crate::machine::{Machine, FLAG_REGISTER, MEMORY_SIZE, REGISTER_COUNT, STACK_CAPACITY};

verus! {

/// The decoder yields valid operations only: every register index it
/// extracts is below 16, and every address below 4096.
pub proof fn law_decoded_is_valid(word: u16)
    ensures
        decoded(word).valid(),
{
}

/// An operation outside the executor's table carries the word that it was
/// decoded from.
pub proof fn law_decoded_keeps_word(word: u16)
    ensures
        decoded(word) matches Operation::UnknownOpcode { word: kept } ==> kept == word,
        decoded(word) matches Operation::Unimplemented { word: kept } ==> kept == word,
{
}

/// A machine that has halted or faulted executes no further step: a step
/// and a run leave it as it is.
pub proof fn law_terminal_is_final(m: Machine, steps: nat)
    requires
        m.state.is_terminal(),
    ensures
        m.step() == m,
        m.run(steps) == m,
{
}

/// No valid operation takes a well-formed machine to one that is not: the
/// stack never grows past its sixteen slots, and the program counter stays
/// within 16 bits.
pub proof fn law_execute_preserves_wf(m: Machine, op: Operation)
    requires
        m.wf(),
        op.valid(),
    ensures
        m.execute(op).wf(),
{
}

/// No step takes a well-formed machine to one that is not.
pub proof fn law_step_preserves_wf(m: Machine)
    requires
        m.wf(),
    ensures
        m.step().wf(),
{
    match m.fetched() {
        Some(op) => {
            law_decoded_is_valid(m.word_at(m.program_counter));
            law_execute_preserves_wf(m.skipped(), op);
        },
        None => {},
    }
}

/// No run takes a well-formed machine to one that is not.
pub proof fn law_run_preserves_wf(m: Machine, steps: nat)
    requires
        m.wf(),
    ensures
        m.run(steps).wf(),
    decreases steps,
{
    if steps > 0 && !m.state.is_terminal() {
        law_step_preserves_wf(m);
        law_run_preserves_wf(m.step(), (steps - 1) as nat);
    }
}

/// A run of `first + second` steps is a run of `first` steps followed by a
/// run of `second` steps.
pub proof fn law_run_split(m: Machine, first: nat, second: nat)
    ensures
        m.run(first + second) == m.run(first).run(second),
    decreases first,
{
    if first > 0 && !m.state.is_terminal() {
        law_run_split(m.step(), (first - 1) as nat, second);
    }
}

/// Once a run has halted or faulted, more steps change nothing: a run ends
/// `Running` only if every shorter run did.
pub proof fn law_run_stays_stopped(m: Machine, steps: nat, more: nat)
    requires
        m.run(steps).state.is_terminal(),
    ensures
        m.run(steps + more) == m.run(steps),
{
    law_run_split(m, steps, more);
}

/// What was loaded is read back, byte by byte and as big-endian words, and
/// the memory around it is as it was.
pub proof fn law_loaded_reads_back(m: Machine, base: int, bytes: Seq<u8>)
    requires
        m.wf(),
        0 <= base,
        base + bytes.len() <= MEMORY_SIZE,
    ensures
        m.loaded(base, bytes).wf(),
        m.loaded(base, bytes).memory.subrange(base, base + bytes.len()) == bytes,
        forall|a: int|
            0 <= a < MEMORY_SIZE && !(base <= a < base + bytes.len())
                ==> m.loaded(base, bytes).memory[a] == m.memory[a],
        forall|i: int|
            0 <= i && i + 1 < bytes.len()
                ==> #[trigger] m.loaded(base, bytes).word_at(base + i)
                    == bytes[i] * 256 + bytes[i + 1],
{
}

/// After `LD Vx, kk`, register `x` holds `kk`.
pub proof fn law_load_then_read(m: Machine, x: u8, byte: u8)
    requires
        m.wf(),
        x < REGISTER_COUNT,
    ensures
        m.execute(Operation::Load { x, byte }).register(x) == byte,
{
}

/// `ADD Vx, kk` leaves `VF` alone: unless `x` is the flag register, `VF` is
/// after it what it was before, whether the sum wrapped or not.
pub proof fn law_add_immediate_keeps_flag(m: Machine, x: u8, byte: u8)
    requires
        m.wf(),
        x < REGISTER_COUNT,
        x != FLAG_REGISTER,
    ensures
        m.execute(Operation::Add { x, byte }).flag() == m.flag(),
        m.execute(Operation::Add { x, byte }).register(x) == (m.register(x) + byte) % 256,
{
}

/// `ADD Vx, Vy` sets `VF` to 1 if and only if the sum exceeds 255, and to 0
/// otherwise. Unless `x` is the flag register, `Vx` becomes the sum modulo
/// 256.
pub proof fn law_add_register(m: Machine, x: u8, y: u8)
    requires
        m.wf(),
        x < REGISTER_COUNT,
        y < REGISTER_COUNT,
    ensures
        ({
            let after = m.execute(Operation::AddRegister { x, y });
            let sum = m.register(x) + m.register(y);
            &&& after.flag() == 1 <==> sum > 255
            &&& after.flag() == 0 <==> sum <= 255
            &&& x != FLAG_REGISTER ==> after.register(x) == sum % 256
        }),
{
}

/// `SUB Vx, Vy` sets `VF` to 1 if and only if `Vx >= Vy`, so that nothing
/// is borrowed, and to 0 otherwise. Unless `x` is the flag register, `Vx`
/// becomes `Vx - Vy` modulo 256.
pub proof fn law_subtract(m: Machine, x: u8, y: u8)
    requires
        m.wf(),
        x < REGISTER_COUNT,
        y < REGISTER_COUNT,
    ensures
        ({
            let after = m.execute(Operation::Subtract { x, y });
            let difference = m.register(x) - m.register(y);
            &&& after.flag() == 1 <==> difference >= 0
            &&& after.flag() == 0 <==> difference < 0
            &&& x != FLAG_REGISTER ==> after.register(x) == difference % 256
        }),
{
}

/// `SUBN Vx, Vy` follows the convention of `SUB` with the operands
/// exchanged: `VF` is 1 if and only if `Vy >= Vx`, and unless `x` is the
/// flag register, `Vx` becomes `Vy - Vx` modulo 256.
pub proof fn law_subtract_from(m: Machine, x: u8, y: u8)
    requires
        m.wf(),
        x < REGISTER_COUNT,
        y < REGISTER_COUNT,
    ensures
        ({
            let after = m.execute(Operation::SubtractFrom { x, y });
            let difference = m.register(y) - m.register(x);
            &&& after.flag() == 1 <==> difference >= 0
            &&& after.flag() == 0 <==> difference < 0
            &&& x != FLAG_REGISTER ==> after.register(x) == difference % 256
        }),
{
}

/// `SUB Vx, Vy` and `SUBN Vy, Vx` compute the same difference and the same
/// flag.
pub proof fn law_subtract_directions_agree(m: Machine, x: u8, y: u8)
    requires
        m.wf(),
        x < REGISTER_COUNT,
        y < REGISTER_COUNT,
        x != FLAG_REGISTER,
        y != FLAG_REGISTER,
    ensures
        ({
            let forward = m.execute(Operation::Subtract { x, y });
            let backward = m.execute(Operation::SubtractFrom { x: y, y: x });
            &&& forward.register(x) == backward.register(y)
            &&& forward.flag() == backward.flag()
        }),
{
}

/// After `SHR Vx` and after `SHL Vx`, `VF` is 0 or 1, whatever `x` is.
pub proof fn law_shift_flag_is_a_bit(m: Machine, x: u8)
    requires
        m.wf(),
        x < REGISTER_COUNT,
    ensures
        ({
            let right = m.execute(Operation::ShiftRight { x }).flag();
            let left = m.execute(Operation::ShiftLeft { x }).flag();
            &&& right == 0 || right == 1
            &&& left == 0 || left == 1
        }),
{
}

/// A call followed at once by a return gives back the machine as it was
/// before the call, at every depth that leaves a slot for the call: the
/// program counter is again the address after the call instruction.
pub proof fn law_call_then_return(m: Machine, address: u16)
    requires
        m.wf(),
        m.stack.len() < STACK_CAPACITY,
    ensures
        m.execute(Operation::Call { address }).execute(Operation::Return) == m,
{
    let called = m.execute(Operation::Call { address });
    assert(called.stack.drop_last() =~= m.stack);
}

/// `m` after a call to each of `targets` in turn.
pub open spec fn after_calls(m: Machine, targets: Seq<u16>) -> Machine
    decreases targets.len(),
{
    if targets.len() == 0 {
        m
    } else {
        after_calls(m, targets.drop_last()).execute(Operation::Call { address: targets.last() })
    }
}

/// `m` after `count` returns.
pub open spec fn after_returns(m: Machine, count: nat) -> Machine
    decreases count,
{
    if count == 0 {
        m
    } else {
        after_returns(m.execute(Operation::Return), (count - 1) as nat)
    }
}

/// Calls that fit the stack all succeed: each adds one frame and none
/// stops the machine.
pub proof fn law_calls_nest(m: Machine, targets: Seq<u16>)
    requires
        m.wf(),
        m.stack.len() + targets.len() <= STACK_CAPACITY,
    ensures
        after_calls(m, targets).wf(),
        after_calls(m, targets).state == m.state,
        after_calls(m, targets).stack.len() == m.stack.len() + targets.len(),
    decreases targets.len(),
{
    if targets.len() > 0 {
        law_calls_nest(m, targets.drop_last());
    }
}

/// Nested calls unwind: after calls to any targets that fit the stack, up
/// to sixteen deep, as many returns give back the machine as it was before
/// the first call.
pub proof fn law_nested_calls_unwind(m: Machine, targets: Seq<u16>)
    requires
        m.wf(),
        m.stack.len() + targets.len() <= STACK_CAPACITY,
    ensures
        after_returns(after_calls(m, targets), targets.len()) == m,
    decreases targets.len(),
{
    if targets.len() > 0 {
        let outer = after_calls(m, targets.drop_last());
        law_calls_nest(m, targets.drop_last());
        law_call_then_return(outer, targets.last());
        law_nested_calls_unwind(m, targets.drop_last());
    }
}

/// A call on a full stack stops the machine with `StackOverflow` and leaves
/// the sixteen frames and the program counter as they were.
pub proof fn law_call_on_full_stack(m: Machine, address: u16)
    requires
        m.wf(),
        m.stack.len() == STACK_CAPACITY,
    ensures
        m.execute(Operation::Call { address }) == m.faulted(Fault::StackOverflow),
        m.execute(Operation::Call { address }).state == RunState::Faulted(Fault::StackOverflow),
{
}

/// A return on an empty stack stops the machine with `StackUnderflow`.
pub proof fn law_return_on_empty_stack(m: Machine)
    requires
        m.wf(),
        m.stack.len() == 0,
    ensures
        m.execute(Operation::Return) == m.faulted(Fault::StackUnderflow),
        m.execute(Operation::Return).state == RunState::Faulted(Fault::StackUnderflow),
{
}

/// A step whose instruction does not lie in the memory with both its bytes
/// stops the machine with `OutOfBounds`: so at 4095, the last address.
pub proof fn law_fetch_needs_two_bytes(m: Machine)
    requires
        m.wf(),
        m.state is Running,
        m.program_counter >= 4095,
    ensures
        m.step() == m.faulted(Fault::OutOfBounds),
        m.step().state == RunState::Faulted(Fault::OutOfBounds),
{
}

/// One step executes the instruction at the program counter, with the
/// counter already past it.
pub proof fn law_step_executes_fetched(m: Machine)
    requires
        m.wf(),
        m.state is Running,
        m.program_counter <= 4094,
    ensures
        m.step() == m.skipped().execute(decoded(m.word_at(m.program_counter))),
{
}

/// The transitions of the run loop. A step of a running machine halts it
/// on the halt instruction `0000` and on nothing else, and stops it with
/// each fault in exactly one case: `OutOfBounds` when the instruction does
/// not lie in the memory, `StackOverflow` on a call with sixteen frames,
/// `StackUnderflow` on a return with none, and `UnknownOpcode` and
/// `Unimplemented` on a word that decodes to it. In every other case the
/// machine runs on.
pub proof fn law_step_transitions(m: Machine)
    requires
        m.wf(),
        m.state is Running,
    ensures
        ({
            let after = m.step().state;
            let fetched = m.fetched();
            &&& after == RunState::Halted <==> Machine::holds_word(m.program_counter)
                && m.word_at(m.program_counter) == 0x0000
            &&& after == RunState::Faulted(Fault::OutOfBounds)
                <==> !Machine::holds_word(m.program_counter)
            &&& after == RunState::Faulted(Fault::StackOverflow)
                <==> (fetched matches Some(Operation::Call { .. }))
                    && m.stack.len() == STACK_CAPACITY
            &&& after == RunState::Faulted(Fault::StackUnderflow)
                <==> fetched == Some(Operation::Return) && m.stack.len() == 0
            &&& forall|word: u16|
                after == RunState::Faulted(Fault::UnknownOpcode(word))
                    <==> fetched == Some(Operation::UnknownOpcode { word })
            &&& forall|word: u16|
                after == RunState::Faulted(Fault::Unimplemented(word))
                    <==> fetched == Some(Operation::Unimplemented { word })
        }),
{
    if Machine::holds_word(m.program_counter) {
        law_decoded_is_valid(m.word_at(m.program_counter));
    }
}

/// At the level of steps: with `CALL target` at the program counter and
/// `RET` at `target`, two steps leave the machine as it was but for the
/// program counter, which is at the instruction after the call.
pub proof fn law_step_call_then_return(m: Machine, target: u16)
    requires
        m.wf(),
        m.state is Running,
        m.stack.len() < STACK_CAPACITY,
        Machine::holds_word(m.program_counter),
        Machine::holds_word(target as int),
        m.word_at(m.program_counter) == 0x2000 + target,
        m.word_at(target as int) == 0x00EE,
    ensures
        m.step().step() == m.skipped(),
{
    let word = m.word_at(m.program_counter);
    assert(decoded(word) == Operation::Call { address: target });
    let called = m.step();
    assert(called == m.skipped().called(target));
    assert(decoded(0x00EEu16) == Operation::Return);
    assert(called.step() == called.skipped().returned());
    assert(called.step().stack =~= m.stack);
}

} // verus!

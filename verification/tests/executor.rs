use chip8::{Fault, Operation, RunState, CPU};

fn machine_with(x: u8, a: u8, y: u8, b: u8) -> CPU {
    let mut cpu = CPU::new();
    cpu.set_register(y, b);
    cpu.set_register(x, a);
    cpu
}

#[test]
fn add_immediate_wraps_and_leaves_the_flag() {
    let mut cpu = CPU::new();
    cpu.set_register(0xF, 0x5A);
    cpu.set_register(2, 200);
    cpu.add(2, 100);
    assert_eq!(cpu.get_register(2), 44);
    assert_eq!(cpu.get_register(0xF), 0x5A);
    cpu.add(2, 0);
    assert_eq!(cpu.get_register(2), 44);
    cpu.add(2, 211);
    assert_eq!(cpu.get_register(2), 255);
    cpu.add(2, 1);
    assert_eq!(cpu.get_register(2), 0);
    assert_eq!(cpu.get_register(0xF), 0x5A);
}

#[test]
fn add_immediate_on_the_flag_register_is_a_plain_sum() {
    let mut cpu = CPU::new();
    cpu.set_register(0xF, 0xFF);
    cpu.add(0xF, 2);
    assert_eq!(cpu.get_register(0xF), 1);
}

#[test]
fn add_carry_without_overflow() {
    let mut cpu = machine_with(0, 5, 1, 10);
    cpu.set_register(0xF, 7);
    cpu.add_carry(0, 1);
    assert_eq!(cpu.get_register(0), 15);
    assert_eq!(cpu.get_register(1), 10);
    assert_eq!(cpu.get_register(0xF), 0);
}

#[test]
fn add_carry_with_overflow() {
    let mut cpu = machine_with(3, 200, 4, 100);
    cpu.add_carry(3, 4);
    assert_eq!(cpu.get_register(3), 44);
    assert_eq!(cpu.get_register(4), 100);
    assert_eq!(cpu.get_register(0xF), 1);
}

#[test]
fn add_carry_at_the_boundary() {
    let mut cpu = machine_with(3, 255, 4, 0);
    cpu.add_carry(3, 4);
    assert_eq!(cpu.get_register(3), 255);
    assert_eq!(cpu.get_register(0xF), 0);

    let mut cpu = machine_with(3, 255, 4, 1);
    cpu.add_carry(3, 4);
    assert_eq!(cpu.get_register(3), 0);
    assert_eq!(cpu.get_register(0xF), 1);

    let mut cpu = machine_with(3, 255, 4, 255);
    cpu.add_carry(3, 4);
    assert_eq!(cpu.get_register(3), 254);
    assert_eq!(cpu.get_register(0xF), 1);
}

#[test]
fn add_carry_for_all_pairs() {
    for a in 0..=255u8 {
        for b in 0..=255u8 {
            let mut cpu = machine_with(2, a, 9, b);
            cpu.add_carry(2, 9);
            let sum = a as u32 + b as u32;
            assert_eq!(cpu.get_register(2) as u32, sum % 256);
            assert_eq!(cpu.get_register(0xF) == 1, sum > 255);
            assert_eq!(cpu.get_register(0xF) == 0, sum <= 255);
            assert_eq!(cpu.get_register(9), b);
        }
    }
}

#[test]
fn add_carry_of_a_register_to_itself() {
    let mut cpu = CPU::new();
    cpu.set_register(6, 0x90);
    cpu.add_carry(6, 6);
    assert_eq!(cpu.get_register(6), 0x20);
    assert_eq!(cpu.get_register(0xF), 1);
}

#[test]
fn add_carry_into_the_flag_register_keeps_the_carry() {
    let mut cpu = machine_with(0xF, 200, 1, 100);
    cpu.add_carry(0xF, 1);
    assert_eq!(cpu.get_register(0xF), 1);

    let mut cpu = machine_with(0xF, 20, 1, 10);
    cpu.add_carry(0xF, 1);
    assert_eq!(cpu.get_register(0xF), 0);
}

#[test]
fn add_carry_from_the_flag_register_reads_it_first() {
    let mut cpu = machine_with(1, 0xF0, 0xF, 0x20);
    cpu.add_carry(1, 0xF);
    assert_eq!(cpu.get_register(1), 0x10);
    assert_eq!(cpu.get_register(0xF), 1);
}

#[test]
fn add_code_is_add_carry() {
    let mut cpu = machine_with(0, 5, 1, 10);
    cpu.add_code(0, 1);
    assert_eq!(cpu.get_register(0), 15);
    assert_eq!(cpu.get_register(0xF), 0);

    let mut cpu = machine_with(0, 0x80, 1, 0x81);
    cpu.add_code(0, 1);
    assert_eq!(cpu.get_register(0), 1);
    assert_eq!(cpu.get_register(0xF), 1);
}

#[test]
fn sub_without_borrow_sets_the_flag() {
    let mut cpu = machine_with(0, 10, 1, 3);
    cpu.sub(0, 1);
    assert_eq!(cpu.get_register(0), 7);
    assert_eq!(cpu.get_register(1), 3);
    assert_eq!(cpu.get_register(0xF), 1);
}

#[test]
fn sub_with_borrow_clears_the_flag() {
    let mut cpu = machine_with(0, 3, 1, 10);
    cpu.set_register(0xF, 1);
    cpu.sub(0, 1);
    assert_eq!(cpu.get_register(0), 249);
    assert_eq!(cpu.get_register(0xF), 0);
}

#[test]
fn sub_of_equal_values_is_zero_without_borrow() {
    let mut cpu = machine_with(0, 77, 1, 77);
    cpu.sub(0, 1);
    assert_eq!(cpu.get_register(0), 0);
    assert_eq!(cpu.get_register(0xF), 1);
}

#[test]
fn sub_for_all_pairs() {
    for a in 0..=255u8 {
        for b in 0..=255u8 {
            let mut cpu = machine_with(2, a, 9, b);
            cpu.sub(2, 9);
            let difference = (a as i32 - b as i32).rem_euclid(256);
            assert_eq!(cpu.get_register(2) as i32, difference);
            assert_eq!(cpu.get_register(0xF), if a >= b { 1 } else { 0 });
            assert_eq!(cpu.get_register(9), b);
        }
    }
}

#[test]
fn subn_without_borrow_sets_the_flag() {
    let mut cpu = machine_with(0, 3, 1, 10);
    cpu.subn(0, 1);
    assert_eq!(cpu.get_register(0), 7);
    assert_eq!(cpu.get_register(1), 10);
    assert_eq!(cpu.get_register(0xF), 1);
}

#[test]
fn subn_with_borrow_clears_the_flag() {
    let mut cpu = machine_with(0, 10, 1, 3);
    cpu.set_register(0xF, 1);
    cpu.subn(0, 1);
    assert_eq!(cpu.get_register(0), 249);
    assert_eq!(cpu.get_register(0xF), 0);
}

#[test]
fn subn_for_all_pairs() {
    for a in 0..=255u8 {
        for b in 0..=255u8 {
            let mut cpu = machine_with(2, a, 9, b);
            cpu.subn(2, 9);
            let difference = (b as i32 - a as i32).rem_euclid(256);
            assert_eq!(cpu.get_register(2) as i32, difference);
            assert_eq!(cpu.get_register(0xF), if b >= a { 1 } else { 0 });
            assert_eq!(cpu.get_register(9), b);
        }
    }
}

#[test]
fn sub_and_subn_agree_with_operands_exchanged() {
    for a in 0..=255u8 {
        for b in 0..=255u8 {
            let mut forward = machine_with(2, a, 9, b);
            forward.sub(2, 9);
            let mut backward = machine_with(2, a, 9, b);
            backward.subn(9, 2);
            assert_eq!(forward.get_register(2), backward.get_register(9));
            assert_eq!(forward.get_register(0xF), backward.get_register(0xF));
        }
    }
}

#[test]
fn sub_into_the_flag_register_keeps_the_flag() {
    let mut cpu = machine_with(0xF, 10, 1, 3);
    cpu.sub(0xF, 1);
    assert_eq!(cpu.get_register(0xF), 1);

    let mut cpu = machine_with(0xF, 3, 1, 10);
    cpu.sub(0xF, 1);
    assert_eq!(cpu.get_register(0xF), 0);

    let mut cpu = machine_with(0xF, 3, 1, 10);
    cpu.subn(0xF, 1);
    assert_eq!(cpu.get_register(0xF), 1);
}

#[test]
fn bitwise_operations() {
    let mut cpu = machine_with(1, 0b1100_1010, 2, 0b1010_0110);
    cpu.set_register(0xF, 9);
    cpu.or(1, 2);
    assert_eq!(cpu.get_register(1), 0b1110_1110);
    assert_eq!(cpu.get_register(2), 0b1010_0110);

    let mut cpu = machine_with(1, 0b1100_1010, 2, 0b1010_0110);
    cpu.and(1, 2);
    assert_eq!(cpu.get_register(1), 0b1000_0010);

    let mut cpu = machine_with(1, 0b1100_1010, 2, 0b1010_0110);
    cpu.set_register(0xF, 9);
    cpu.xor(1, 2);
    assert_eq!(cpu.get_register(1), 0b0110_1100);
    assert_eq!(cpu.get_register(0xF), 9);

    let mut cpu = machine_with(1, 0x5A, 2, 0);
    cpu.xor(1, 1);
    assert_eq!(cpu.get_register(1), 0);
}

#[test]
fn shr_moves_the_low_bit_into_the_flag() {
    let mut cpu = CPU::new();
    cpu.set_register(4, 0b0000_0101);
    cpu.shr(4);
    assert_eq!(cpu.get_register(4), 0b0000_0010);
    assert_eq!(cpu.get_register(0xF), 1);
    cpu.shr(4);
    assert_eq!(cpu.get_register(4), 0b0000_0001);
    assert_eq!(cpu.get_register(0xF), 0);
    cpu.shr(4);
    assert_eq!(cpu.get_register(4), 0);
    assert_eq!(cpu.get_register(0xF), 1);
    cpu.shr(4);
    assert_eq!(cpu.get_register(4), 0);
    assert_eq!(cpu.get_register(0xF), 0);
}

#[test]
fn shl_moves_the_high_bit_into_the_flag_as_one() {
    let mut cpu = CPU::new();
    cpu.set_register(4, 0b1100_0001);
    cpu.shl(4);
    assert_eq!(cpu.get_register(4), 0b1000_0010);
    assert_eq!(cpu.get_register(0xF), 1);
    cpu.shl(4);
    assert_eq!(cpu.get_register(4), 0b0000_0100);
    assert_eq!(cpu.get_register(0xF), 1);
    cpu.shl(4);
    assert_eq!(cpu.get_register(4), 0b0000_1000);
    assert_eq!(cpu.get_register(0xF), 0);

    cpu.set_register(4, 0x80);
    cpu.shl(4);
    assert_eq!(cpu.get_register(4), 0);
    assert_eq!(cpu.get_register(0xF), 1);
}

#[test]
fn shift_flag_is_zero_or_one_for_every_byte_and_register() {
    for x in 0..16u8 {
        for a in 0..=255u8 {
            let mut cpu = CPU::new();
            cpu.set_register(x, a);
            cpu.shr(x);
            assert_eq!(cpu.get_register(0xF), a & 1);
            if x != 0xF {
                assert_eq!(cpu.get_register(x), a >> 1);
            }

            let mut cpu = CPU::new();
            cpu.set_register(x, a);
            cpu.shl(x);
            assert_eq!(cpu.get_register(0xF), a >> 7);
            if x != 0xF {
                assert_eq!(cpu.get_register(x), a << 1);
            }
        }
    }
}

#[test]
fn jp_with_nonzero_flag_jumps_to_the_address() {
    let mut cpu = CPU::new();
    cpu.set_register(0, 0x55);
    cpu.jp(1, 0x2A0);
    assert_eq!(cpu.program_counter(), 0x2A0);
    cpu.jp(7, 0xFFF);
    assert_eq!(cpu.program_counter(), 0xFFF);
}

#[test]
fn jp_with_zero_flag_adds_register_zero() {
    let mut cpu = CPU::new();
    cpu.set_register(0, 0x10);
    cpu.jp(0, 0x200);
    assert_eq!(cpu.program_counter(), 0x210);
    cpu.set_register(0, 0);
    cpu.jp(0, 0x123);
    assert_eq!(cpu.program_counter(), 0x123);
}

#[test]
fn jp_with_zero_flag_wraps_in_twelve_bits() {
    let mut cpu = CPU::new();
    cpu.set_register(0, 0xFF);
    cpu.jp(0, 0xFFF);
    assert_eq!(cpu.program_counter(), 0x0FE);
    cpu.set_register(0, 1);
    cpu.jp(0, 0xFFF);
    assert_eq!(cpu.program_counter(), 0);
    cpu.set_register(0, 2);
    cpu.jp(0, 0xFFD);
    assert_eq!(cpu.program_counter(), 0xFFF);
}

#[test]
fn se_skips_when_equal() {
    let mut cpu = CPU::new();
    cpu.set_register(3, 0x42);
    cpu.set_program_counter(0x200);
    assert_eq!(cpu.se(3, 0x42), Ok(()));
    assert_eq!(cpu.program_counter(), 0x202);
    assert_eq!(cpu.se(3, 0x43), Ok(()));
    assert_eq!(cpu.program_counter(), 0x202);
}

#[test]
fn sne_skips_when_different() {
    let mut cpu = CPU::new();
    cpu.set_register(3, 0x42);
    cpu.set_program_counter(0x200);
    assert_eq!(cpu.sne(3, 0x43), Ok(()));
    assert_eq!(cpu.program_counter(), 0x202);
    assert_eq!(cpu.sne(3, 0x42), Ok(()));
    assert_eq!(cpu.program_counter(), 0x202);
}

#[test]
fn skip_out_of_the_address_range_is_out_of_bounds() {
    let mut cpu = CPU::new();
    cpu.set_program_counter(0xFFFD);
    assert_eq!(cpu.skip(), Ok(()));
    assert_eq!(cpu.program_counter(), 0xFFFF);
    assert_eq!(cpu.skip(), Err(Fault::OutOfBounds));
    assert_eq!(cpu.program_counter(), 0xFFFF);

    cpu.set_program_counter(0xFFFE);
    assert_eq!(cpu.se(0, 0), Err(Fault::OutOfBounds));
    assert_eq!(cpu.program_counter(), 0xFFFE);
    assert_eq!(cpu.se(0, 1), Ok(()));
    assert_eq!(cpu.sne(0, 1), Err(Fault::OutOfBounds));
    assert_eq!(cpu.sne(0, 0), Ok(()));
    assert_eq!(cpu.program_counter(), 0xFFFE);
}

#[test]
fn call_pushes_the_program_counter_and_jumps() {
    let mut cpu = CPU::new();
    cpu.set_program_counter(0x202);
    assert_eq!(cpu.call(0x300), Ok(()));
    assert_eq!(cpu.program_counter(), 0x300);
    assert_eq!(cpu.stack_depth(), 1);
    assert_eq!(cpu.pop(), Ok(0x202));
}

#[test]
fn call_then_ret_restores_the_program_counter_at_every_depth() {
    let mut cpu = CPU::new();
    for depth in 0..16u16 {
        let before = 0x200 + 2 * depth;
        cpu.set_program_counter(before);
        assert_eq!(cpu.call(0x400 + depth), Ok(()));
        assert_eq!(cpu.program_counter(), 0x400 + depth);
        assert_eq!(cpu.stack_depth(), depth as usize + 1);
        assert_eq!(cpu.ret(), Ok(()));
        assert_eq!(cpu.program_counter(), before);
        assert_eq!(cpu.stack_depth(), depth as usize);
        // Go one level down for the next round.
        assert_eq!(cpu.call(0x600), Ok(()));
    }
    assert_eq!(cpu.stack_depth(), 16);
}

#[test]
fn sixteen_nested_calls_unwind_in_reverse_order() {
    let mut cpu = CPU::new();
    cpu.set_program_counter(0x002);
    for depth in 1..=16u16 {
        assert_eq!(cpu.call(0x100 * (depth % 16) + 2), Ok(()));
    }
    assert_eq!(cpu.stack_depth(), 16);
    for depth in (1..16u16).rev() {
        assert_eq!(cpu.ret(), Ok(()));
        assert_eq!(cpu.program_counter(), 0x100 * depth + 2);
    }
    assert_eq!(cpu.ret(), Ok(()));
    assert_eq!(cpu.program_counter(), 0x002);
    assert_eq!(cpu.stack_depth(), 0);
}

#[test]
fn seventeenth_call_is_stack_overflow_and_changes_nothing() {
    let mut cpu = CPU::new();
    for depth in 0..16u16 {
        cpu.set_program_counter(2 * depth);
        assert_eq!(cpu.call(0x100), Ok(()));
    }
    cpu.set_program_counter(0x102);
    assert_eq!(cpu.call(0x300), Err(Fault::StackOverflow));
    assert_eq!(cpu.program_counter(), 0x102);
    assert_eq!(cpu.stack_depth(), 16);
    assert_eq!(cpu.pop(), Ok(30));
}

#[test]
fn ret_on_empty_stack_is_stack_underflow_and_changes_nothing() {
    let mut cpu = CPU::new();
    cpu.set_program_counter(0x123);
    assert_eq!(cpu.ret(), Err(Fault::StackUnderflow));
    assert_eq!(cpu.program_counter(), 0x123);
    assert_eq!(cpu.stack_depth(), 0);
}

#[test]
fn execute_halt_halts() {
    let mut cpu = CPU::new();
    assert_eq!(cpu.execute(Operation::Halt), RunState::Halted);
    assert_eq!(cpu.state(), RunState::Halted);
    assert_eq!(cpu.program_counter(), 0);
}

#[test]
fn execute_dispatches_to_each_handler() {
    let mut cpu = CPU::new();
    assert_eq!(cpu.execute(Operation::Load { x: 1, byte: 0x0F }), RunState::Running);
    assert_eq!(cpu.execute(Operation::Load { x: 2, byte: 0xF1 }), RunState::Running);
    assert_eq!(cpu.get_register(1), 0x0F);
    assert_eq!(cpu.get_register(2), 0xF1);

    assert_eq!(cpu.execute(Operation::LoadRegister { x: 3, y: 2 }), RunState::Running);
    assert_eq!(cpu.get_register(3), 0xF1);

    assert_eq!(cpu.execute(Operation::Add { x: 3, byte: 0x10 }), RunState::Running);
    assert_eq!(cpu.get_register(3), 0x01);
    assert_eq!(cpu.get_register(0xF), 0);

    assert_eq!(cpu.execute(Operation::Or { x: 3, y: 1 }), RunState::Running);
    assert_eq!(cpu.get_register(3), 0x0F);
    assert_eq!(cpu.execute(Operation::And { x: 3, y: 2 }), RunState::Running);
    assert_eq!(cpu.get_register(3), 0x01);
    assert_eq!(cpu.execute(Operation::Xor { x: 3, y: 2 }), RunState::Running);
    assert_eq!(cpu.get_register(3), 0xF0);

    assert_eq!(cpu.execute(Operation::AddRegister { x: 3, y: 2 }), RunState::Running);
    assert_eq!(cpu.get_register(3), 0xE1);
    assert_eq!(cpu.get_register(0xF), 1);

    assert_eq!(cpu.execute(Operation::Subtract { x: 1, y: 2 }), RunState::Running);
    assert_eq!(cpu.get_register(1), 0x1E);
    assert_eq!(cpu.get_register(0xF), 0);

    assert_eq!(cpu.execute(Operation::SubtractFrom { x: 1, y: 2 }), RunState::Running);
    assert_eq!(cpu.get_register(1), 0xD3);
    assert_eq!(cpu.get_register(0xF), 1);

    assert_eq!(cpu.execute(Operation::ShiftRight { x: 1 }), RunState::Running);
    assert_eq!(cpu.get_register(1), 0x69);
    assert_eq!(cpu.get_register(0xF), 1);

    assert_eq!(cpu.execute(Operation::ShiftLeft { x: 1 }), RunState::Running);
    assert_eq!(cpu.get_register(1), 0xD2);
    assert_eq!(cpu.get_register(0xF), 0);

    assert_eq!(cpu.program_counter(), 0);
    assert_eq!(cpu.stack_depth(), 0);
}

#[test]
fn execute_jumps_calls_and_returns() {
    let mut cpu = CPU::new();
    assert_eq!(cpu.execute(Operation::Jump { address: 0x204 }), RunState::Running);
    assert_eq!(cpu.program_counter(), 0x204);
    assert_eq!(cpu.execute(Operation::Call { address: 0x300 }), RunState::Running);
    assert_eq!(cpu.program_counter(), 0x300);
    assert_eq!(cpu.stack_depth(), 1);
    assert_eq!(cpu.execute(Operation::Return), RunState::Running);
    assert_eq!(cpu.program_counter(), 0x204);
    assert_eq!(cpu.stack_depth(), 0);
    cpu.set_register(0, 0x11);
    assert_eq!(cpu.execute(Operation::JumpOffset { address: 0xFF0 }), RunState::Running);
    assert_eq!(cpu.program_counter(), 0x001);
}

#[test]
fn execute_skips_compare_registers_and_bytes() {
    let mut cpu = CPU::new();
    cpu.set_register(1, 7);
    cpu.set_register(2, 7);
    cpu.set_register(3, 8);

    assert_eq!(cpu.execute(Operation::SkipEqual { x: 1, byte: 7 }), RunState::Running);
    assert_eq!(cpu.program_counter(), 2);
    assert_eq!(cpu.execute(Operation::SkipEqual { x: 1, byte: 8 }), RunState::Running);
    assert_eq!(cpu.program_counter(), 2);
    assert_eq!(cpu.execute(Operation::SkipNotEqual { x: 1, byte: 8 }), RunState::Running);
    assert_eq!(cpu.program_counter(), 4);
    assert_eq!(cpu.execute(Operation::SkipNotEqual { x: 1, byte: 7 }), RunState::Running);
    assert_eq!(cpu.program_counter(), 4);
    assert_eq!(cpu.execute(Operation::SkipEqualRegister { x: 1, y: 2 }), RunState::Running);
    assert_eq!(cpu.program_counter(), 6);
    assert_eq!(cpu.execute(Operation::SkipEqualRegister { x: 1, y: 3 }), RunState::Running);
    assert_eq!(cpu.program_counter(), 6);
    assert_eq!(cpu.execute(Operation::SkipNotEqualRegister { x: 1, y: 3 }), RunState::Running);
    assert_eq!(cpu.program_counter(), 8);
    assert_eq!(cpu.execute(Operation::SkipNotEqualRegister { x: 1, y: 2 }), RunState::Running);
    assert_eq!(cpu.program_counter(), 8);
}

#[test]
fn execute_turns_failures_into_faults() {
    let mut cpu = CPU::new();
    assert_eq!(cpu.execute(Operation::Return), RunState::Faulted(Fault::StackUnderflow));
    assert_eq!(cpu.state(), RunState::Faulted(Fault::StackUnderflow));

    let mut cpu = CPU::new();
    for _ in 0..16 {
        assert_eq!(cpu.execute(Operation::Call { address: 0x100 }), RunState::Running);
    }
    assert_eq!(
        cpu.execute(Operation::Call { address: 0x200 }),
        RunState::Faulted(Fault::StackOverflow)
    );
    assert_eq!(cpu.program_counter(), 0x100);
    assert_eq!(cpu.stack_depth(), 16);

    let mut cpu = CPU::new();
    cpu.set_program_counter(0xFFFE);
    assert_eq!(
        cpu.execute(Operation::SkipEqual { x: 0, byte: 0 }),
        RunState::Faulted(Fault::OutOfBounds)
    );
    assert_eq!(cpu.program_counter(), 0xFFFE);

    let mut cpu = CPU::new();
    assert_eq!(
        cpu.execute(Operation::Unimplemented { word: 0xD123 }),
        RunState::Faulted(Fault::Unimplemented(0xD123))
    );

    let mut cpu = CPU::new();
    assert_eq!(
        cpu.execute(Operation::UnknownOpcode { word: 0x5121 }),
        RunState::Faulted(Fault::UnknownOpcode(0x5121))
    );
    assert_eq!(cpu.state(), RunState::Faulted(Fault::UnknownOpcode(0x5121)));
}

use regvm::{
    transform_bytes_to_program_code, Fault, Instruction, Memory, RunStop, Status, Trap,
    VirtualMachine, VmError,
};

fn machine_with(program: &[u16]) -> VirtualMachine {
    let mut vm = VirtualMachine::default();
    vm.load_data(program);
    vm
}

#[test]
fn test_load_program_into_memory() {
    let program: [u16; 6] = [9, 32768, 32769, 4, 19, 32768];
    let mut vm = VirtualMachine::default();
    vm.load_data(&program);

    for (offset, value) in program.iter().enumerate() {
        assert_eq!(vm.memory.heap[offset], *value);
    }
}

#[test]
fn literal_operands_read_as_themselves() {
    let mut memory = Memory::default();
    memory.registers = [5, 6, 7, 8, 9, 10, 11, 12];
    for v in [0u16, 1, 4, 100, 32766, 32767] {
        assert_eq!(memory.read(&v), Ok(v));
    }
}

#[test]
fn register_operands_resolve_through_aliases() {
    let mut memory = Memory::default();
    memory.registers[0] = 32769;
    memory.registers[1] = 42;
    assert_eq!(memory.read(&32769), Ok(42));
    assert_eq!(memory.read(&32768), Ok(42));
}

#[test]
fn out_of_range_operand_is_a_violation() {
    let memory = Memory::default();
    assert_eq!(memory.read(&32776), Err(VmError::AddressingViolation(32776)));
    assert_eq!(memory.mem_read(&40000), Err(VmError::AddressingViolation(40000)));
}

#[test]
fn register_cycle_is_detected() {
    let mut memory = Memory::default();
    memory.registers[0] = 32769;
    memory.registers[1] = 32768;
    assert_eq!(memory.read(&32768), Err(VmError::RegisterCycle(32768)));
    let mut self_loop = Memory::default();
    self_loop.registers[3] = 32771;
    assert_eq!(self_loop.read(&32771), Err(VmError::RegisterCycle(32771)));
}

#[test]
fn write_literal_then_read_returns_it() {
    let mut memory = Memory::default();
    for r in 32768u16..=32775 {
        assert_eq!(memory.write(&r, 1234), Ok(()));
        assert_eq!(memory.read(&r), Ok(1234));
    }
}

#[test]
fn write_of_register_address_copies_current_content() {
    let mut memory = Memory::default();
    memory.write(&32769, 77).unwrap();
    memory.write(&32768, 32769).unwrap();
    assert_eq!(memory.registers[0], 77);
    memory.write(&32769, 5).unwrap();
    assert_eq!(memory.read(&32768), Ok(77));
}

#[test]
fn write_to_literal_address_is_a_violation() {
    let mut memory = Memory::default();
    assert_eq!(memory.write(&100, 1), Err(VmError::AddressingViolation(100)));
    assert_eq!(memory.registers, [0; 8]);
}

#[test]
fn raw_memory_reaches_heap_and_registers() {
    let mut memory = Memory::default();
    memory.mem_write(&10, 32770).unwrap();
    memory.mem_write(&32775, 9).unwrap();
    assert_eq!(memory.mem_read(&10), Ok(32770));
    assert_eq!(memory.registers[7], 9);
    assert_eq!(memory.mem_read(&32775), Ok(9));
    assert_eq!(memory.mem_write(&32776, 1), Err(VmError::AddressingViolation(32776)));
}

#[test]
fn add_wraps_in_fifteen_bits() {
    let mut vm = VirtualMachine::default();
    assert_eq!(Instruction::Add(32768, 32767, 2).execute(&mut vm), Ok(Status::Executed));
    assert_eq!(vm.memory.registers[0], 1);
    assert_eq!(vm.program_counter, 4);
}

#[test]
fn mult_wraps_in_fifteen_bits() {
    let mut vm = VirtualMachine::default();
    Instruction::Mult(32768, 32767, 32767).execute(&mut vm).unwrap();
    assert_eq!(vm.memory.registers[0], (32767u32 * 32767 % 32768) as u16);
    assert_eq!(vm.memory.registers[0], 1);
    Instruction::Mult(32769, 300, 200).execute(&mut vm).unwrap();
    assert_eq!(vm.memory.registers[1], 60000 % 32768);
}

#[test]
fn mod_and_bitwise_ops() {
    let mut vm = VirtualMachine::default();
    Instruction::Mod(32768, 17, 5).execute(&mut vm).unwrap();
    assert_eq!(vm.memory.registers[0], 2);
    Instruction::And(32769, 12, 10).execute(&mut vm).unwrap();
    assert_eq!(vm.memory.registers[1], 8);
    Instruction::Or(32770, 12, 10).execute(&mut vm).unwrap();
    assert_eq!(vm.memory.registers[2], 14);
    Instruction::Not(32771, 0).execute(&mut vm).unwrap();
    assert_eq!(vm.memory.registers[3], 32767);
    Instruction::Not(32771, 32767).execute(&mut vm).unwrap();
    assert_eq!(vm.memory.registers[3], 0);
}

#[test]
fn comparisons_write_one_or_zero() {
    let mut vm = VirtualMachine::default();
    Instruction::Equality(32768, 3, 3).execute(&mut vm).unwrap();
    assert_eq!(vm.memory.registers[0], 1);
    Instruction::Equality(32768, 3, 4).execute(&mut vm).unwrap();
    assert_eq!(vm.memory.registers[0], 0);
    Instruction::GreaterThan(32768, 4, 3).execute(&mut vm).unwrap();
    assert_eq!(vm.memory.registers[0], 1);
    Instruction::GreaterThan(32768, 3, 3).execute(&mut vm).unwrap();
    assert_eq!(vm.memory.registers[0], 0);
}

#[test]
fn mod_by_zero_traps() {
    let mut vm = VirtualMachine::default();
    assert_eq!(Instruction::Mod(32768, 7, 0).execute(&mut vm), Err(VmError::ArithmeticError));
    assert_eq!(vm.program_counter, 0);

    let mut vm = machine_with(&[11, 32768, 7, 32769, 0]);
    let r = vm.run(10);
    assert_eq!(
        r,
        Err(Trap {
            program_counter: 0,
            fault: Fault::Execute(Instruction::Mod(32768, 7, 32769), VmError::ArithmeticError),
        })
    );
    assert_eq!(vm.cycle, 0);
    assert_eq!(vm.memory.registers[0], 0);
}

#[test]
fn call_then_return_resumes_after_call() {
    for target in [0u16, 7, 500, 32767] {
        let mut vm = VirtualMachine::default();
        vm.program_counter = 100;
        Instruction::Call(target).execute(&mut vm).unwrap();
        assert_eq!(vm.program_counter, target);
        assert_eq!(vm.memory.stack, vec![(102, Some(target))]);
        Instruction::Return.execute(&mut vm).unwrap();
        assert_eq!(vm.program_counter, 102);
        assert!(vm.memory.stack.is_empty());
    }
}

#[test]
fn push_then_pop_round_trips() {
    let mut vm = VirtualMachine::default();
    Instruction::Push(11).execute(&mut vm).unwrap();
    Instruction::Push(22).execute(&mut vm).unwrap();
    Instruction::Push(33).execute(&mut vm).unwrap();
    Instruction::Pop(32768).execute(&mut vm).unwrap();
    assert_eq!(vm.memory.registers[0], 33);
    Instruction::Pop(32768).execute(&mut vm).unwrap();
    assert_eq!(vm.memory.registers[0], 22);
    Instruction::Pop(32768).execute(&mut vm).unwrap();
    assert_eq!(vm.memory.registers[0], 11);
    assert!(vm.memory.stack.is_empty());
}

#[test]
fn pop_and_return_on_empty_stack_underflow() {
    let mut vm = VirtualMachine::default();
    assert_eq!(Instruction::Pop(32768).execute(&mut vm), Err(VmError::StackUnderflow));
    assert_eq!(Instruction::Return.execute(&mut vm), Err(VmError::StackUnderflow));
    let mut vm = machine_with(&[3, 32768]);
    assert_eq!(
        vm.run(5),
        Err(Trap {
            program_counter: 0,
            fault: Fault::Execute(Instruction::Pop(32768), VmError::StackUnderflow),
        })
    );
}

#[test]
fn test_instruction_halt() {
    let mut vm = VirtualMachine::default();
    let program: [u16; 1] = [0];
    vm.load_data(&program);
    let instruction = Instruction::Halt;
    instruction.execute(&mut vm).unwrap();
    assert!(vm.halted);
}

#[test]
fn test_instructions_jump() {
    let mut vm = VirtualMachine::default();
    let program: [u16; 2] = [0, 11];
    vm.load_data(&program);

    vm.program_counter = 100;
    let instruction = Instruction::Jump(300);
    instruction.execute(&mut vm).unwrap();
    assert_eq!(vm.program_counter, 300);

    vm.program_counter = 100;
    let instruction = Instruction::JumpIfNonZero(0, 300);
    instruction.execute(&mut vm).unwrap();
    assert_eq!(vm.program_counter, 103);

    vm.program_counter = 100;
    let instruction = Instruction::JumpIfNonZero(1, 300);
    instruction.execute(&mut vm).unwrap();
    assert_eq!(vm.program_counter, 300);

    vm.program_counter = 100;
    let instruction = Instruction::JumpIfZero(0, 300);
    instruction.execute(&mut vm).unwrap();
    assert_eq!(vm.program_counter, 300);

    vm.program_counter = 100;
    let instruction = Instruction::JumpIfZero(1, 300);
    instruction.execute(&mut vm).unwrap();
    assert_eq!(vm.program_counter, 103);
}

#[test]
fn load_and_store_use_raw_memory() {
    let mut vm = machine_with(&[0; 4]);
    vm.memory.heap[500] = 4321;
    Instruction::Load(32768, 500).execute(&mut vm).unwrap();
    assert_eq!(vm.memory.registers[0], 4321);
    Instruction::Store(600, 32768).execute(&mut vm).unwrap();
    assert_eq!(vm.memory.heap[600], 4321);
    vm.memory.registers[1] = 700;
    Instruction::Store(32769, 9).execute(&mut vm).unwrap();
    assert_eq!(vm.memory.heap[700], 9);
}

#[test]
fn out_appends_low_byte_as_character() {
    let mut vm = VirtualMachine::default();
    Instruction::Out(65).execute(&mut vm).unwrap();
    vm.memory.registers[2] = 66;
    Instruction::Out(32770).execute(&mut vm).unwrap();
    assert_eq!(vm.output_buffer, "AB");
    assert_eq!(vm.program_counter, 4);
}

#[test]
fn in_consumes_queued_input_or_waits() {
    let mut vm = VirtualMachine::default();
    assert_eq!(Instruction::In(32768).execute(&mut vm), Ok(Status::AwaitingInput));
    assert_eq!(vm.program_counter, 0);
    vm.supply_input("hi");
    assert_eq!(Instruction::In(32768).execute(&mut vm), Ok(Status::Executed));
    assert_eq!(vm.memory.registers[0], 'h' as u16);
    assert_eq!(vm.program_counter, 2);
    assert_eq!(vm.get_stdin(), Some(b'i'));
    assert_eq!(vm.get_stdin(), None);
}

#[test]
fn add_then_out_program_prints_four() {
    let mut vm = machine_with(&[9, 32768, 32769, 4, 19, 32768]);
    while !vm.halted && vm.output_buffer.is_empty() {
        vm.cycle().unwrap();
    }
    assert_eq!(vm.output_buffer.chars().count(), 1);
    assert_eq!(vm.output_buffer.chars().next().unwrap() as u32, 4);
    assert_eq!(vm.cycle, 2);
}

#[test]
fn run_stops_when_halted() {
    let mut vm = machine_with(&[21, 21, 0]);
    assert_eq!(vm.run(100), Ok(RunStop::Idle));
    assert!(vm.halted);
    assert_eq!(vm.cycle, 3);
    assert_eq!(vm.program_counter, 2);
}

#[test]
fn run_respects_budget_pause_and_step() {
    let mut vm = machine_with(&[21, 21, 21, 0]);
    assert_eq!(vm.run(2), Ok(RunStop::BudgetSpent));
    assert_eq!(vm.program_counter, 2);
    vm.paused = true;
    assert_eq!(vm.run(5), Ok(RunStop::Idle));
    assert_eq!(vm.program_counter, 2);
    vm.step_once = true;
    assert_eq!(vm.run(5), Ok(RunStop::Idle));
    assert_eq!(vm.program_counter, 3);
    assert!(!vm.step_once);
}

#[test]
fn run_waits_for_input() {
    let mut vm = machine_with(&[20, 32768, 19, 32768, 0]);
    assert_eq!(vm.run(10), Ok(RunStop::AwaitingInput));
    assert_eq!(vm.program_counter, 0);
    vm.supply_input("z");
    assert_eq!(vm.run(10), Ok(RunStop::Idle));
    assert_eq!(vm.output_buffer, "z");
}

#[test]
fn decode_faults_trap_with_program_counter() {
    let mut vm = machine_with(&[21, 300]);
    assert_eq!(
        vm.run(10),
        Err(Trap { program_counter: 1, fault: Fault::Decode(regvm::DecoderError::Invalid(300)) })
    );
    let mut vm = VirtualMachine::default();
    vm.program_counter = 40000;
    assert_eq!(
        vm.cycle(),
        Err(Trap { program_counter: 40000, fault: Fault::Decode(regvm::DecoderError::Empty) })
    );
    let mut vm = VirtualMachine::default();
    vm.memory.heap[32767] = 9;
    vm.program_counter = 32767;
    assert_eq!(vm.fetch(), &[9]);
    assert_eq!(
        vm.cycle(),
        Err(Trap {
            program_counter: 32767,
            fault: Fault::Decode(regvm::DecoderError::ParameterMissing),
        })
    );
}

#[test]
fn reset_clears_memory_and_counter() {
    let mut vm = machine_with(&[1, 2, 3]);
    vm.program_counter = 9;
    vm.halted = true;
    vm.reset();
    assert!(!vm.halted);
    assert_eq!(vm.program_counter, 0);
    assert_eq!(vm.memory.heap[1], 0);
}

#[test]
fn image_bytes_become_little_endian_words() {
    assert_eq!(transform_bytes_to_program_code(&[9, 0, 0, 128, 1, 128]), vec![9, 32768, 32769]);
    assert_eq!(transform_bytes_to_program_code(&[0x34, 0x12, 7]), vec![0x1234]);
    assert_eq!(transform_bytes_to_program_code(&[]), Vec::<u16>::new());
}

#[test]
fn write_of_value_above_register_range_is_a_violation() {
    let mut memory = Memory::default();
    memory.registers[2] = 7;
    assert_eq!(memory.write(&32770, 40000), Err(VmError::AddressingViolation(40000)));
    assert_eq!(memory.registers[2], 7);
    assert_eq!(memory.write(&32770, 32776), Err(VmError::AddressingViolation(32776)));
    assert_eq!(memory.registers[2], 7);
}

#[test]
fn register_chain_ending_off_range_is_a_violation() {
    let mut memory = Memory::default();
    memory.registers[0] = 32769;
    memory.registers[1] = 40000;
    assert_eq!(memory.read(&32768), Err(VmError::AddressingViolation(40000)));
    let mut copy = Memory::default();
    copy.registers = memory.registers;
    assert_eq!(copy.write(&32770, 32768), Err(VmError::AddressingViolation(40000)));
    assert_eq!(copy.registers[2], 0);
}

#[test]
fn set_and_load_of_non_literal_trap() {
    let mut vm = VirtualMachine::default();
    assert_eq!(
        Instruction::SetRegister(32768, 40000).execute(&mut vm),
        Err(VmError::AddressingViolation(40000))
    );
    vm.memory.heap[500] = 40000;
    assert_eq!(
        Instruction::Load(32768, 500).execute(&mut vm),
        Err(VmError::AddressingViolation(40000))
    );
    assert_eq!(vm.memory.registers[0], 0);
    assert_eq!(vm.program_counter, 0);
    vm.memory.heap[501] = 32769;
    vm.memory.registers[1] = 12;
    Instruction::Load(32768, 501).execute(&mut vm).unwrap();
    assert_eq!(vm.memory.registers[0], 12);
}

#[test]
fn jumps_and_returns_need_no_room_past_themselves() {
    let mut vm = VirtualMachine::default();
    vm.program_counter = 65535;
    Instruction::Jump(5).execute(&mut vm).unwrap();
    assert_eq!(vm.program_counter, 5);
    vm.program_counter = 65535;
    Instruction::JumpIfNonZero(1, 6).execute(&mut vm).unwrap();
    assert_eq!(vm.program_counter, 6);
    vm.program_counter = 65535;
    Instruction::Halt.execute(&mut vm).unwrap();
    assert!(vm.halted);
}

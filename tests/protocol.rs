use regvm::{
    App, Instruction, RunStop, VirtualMachine, VirtualMachineSubscriptionTick,
    VirtualMachineSubscriptionUpdate,
};

fn tick() -> VirtualMachineSubscriptionTick {
    VirtualMachineSubscriptionTick::default()
}

#[test]
fn default_directive_asks_nothing() {
    let t = tick();
    assert!(t.additional_stdin.is_empty());
    assert!(!t.save_state && !t.load_state && !t.write_history);
    assert!(!t.toggle_pause && !t.step_once);
    assert_eq!(t.set_register_id, None);
    assert_eq!(t.set_register_value, 0);
    let u = VirtualMachineSubscriptionUpdate::default();
    assert_eq!(u.current_instruction, Ok(Instruction::Noop));
    assert_eq!(u.savestate.cycle, 0);
}

#[test]
fn input_directive_queues_records_and_echoes() {
    let mut vm = VirtualMachine::default();
    let mut t = tick();
    t.additional_stdin = String::from("go\n");
    assert_eq!(vm.handle_subscriber_tick(t), None);
    assert_eq!(vm.output_buffer, "go\n");
    assert_eq!(vm.stdin_history, "go\n");
    assert_eq!(vm.stdin_buffer.iter().copied().collect::<Vec<u8>>(), vec![b'g', b'o', b'\n']);
}

#[test]
fn update_reflects_state_after_directive() {
    let mut vm = VirtualMachine::default();
    vm.load_data(&[19, 65, 0]);
    let mut t = tick();
    t.set_register_id = Some(2);
    t.set_register_value = 99;
    t.toggle_pause = true;
    let reply = vm.handle_subscriber(Some(t)).unwrap();
    assert_eq!(reply.update.current_instruction, Ok(Instruction::Out(65)));
    assert_eq!(reply.update.savestate.memory.registers[2], 99);
    assert!(reply.update.savestate.paused);
    assert!(reply.history_to_write.is_none());
    assert!(vm.handle_subscriber(None).is_none());
}

#[test]
fn set_register_past_the_last_is_ignored() {
    let mut vm = VirtualMachine::default();
    let mut t = tick();
    t.set_register_id = Some(8);
    t.set_register_value = 5;
    vm.handle_subscriber_blocking(t);
    assert_eq!(vm.memory.registers, [0; 8]);
}

#[test]
fn snapshot_restore_reproduces_state() {
    let mut vm = VirtualMachine::default();
    vm.load_data(&[9, 32768, 32768, 1, 6, 0]);
    vm.run(5);
    let mut save = tick();
    save.save_state = true;
    vm.handle_subscriber_tick(save);
    let cycle = vm.cycle;
    let pc = vm.program_counter;
    let heap = vm.memory.heap;
    let registers = vm.memory.registers;

    vm.run(7);
    let mut meddle = tick();
    meddle.set_register_id = Some(3);
    meddle.set_register_value = 1000;
    vm.handle_subscriber_tick(meddle);
    vm.memory.heap[100] = 1;
    assert_ne!(vm.cycle, cycle);

    let mut load = tick();
    load.load_state = true;
    vm.handle_subscriber_tick(load);
    assert_eq!(vm.cycle, cycle);
    assert_eq!(vm.program_counter, pc);
    assert_eq!(vm.memory.heap, heap);
    assert_eq!(vm.memory.registers, registers);
}

#[test]
fn load_state_unhalts() {
    let mut vm = VirtualMachine::default();
    vm.load_data(&[21, 0]);
    let mut save = tick();
    save.save_state = true;
    vm.handle_subscriber_tick(save);
    assert_eq!(vm.run(10), Ok(RunStop::Idle));
    assert!(vm.halted);
    let mut load = tick();
    load.load_state = true;
    vm.handle_subscriber_tick(load);
    assert!(!vm.halted);
    assert_eq!(vm.cycle, 0);
}

#[test]
fn history_written_then_replayed() {
    let mut vm = VirtualMachine::default();
    let mut t = tick();
    t.additional_stdin = String::from("ab\n");
    vm.handle_subscriber_tick(t);
    let mut w = tick();
    w.write_history = true;
    let history = vm.handle_subscriber_tick(w).unwrap();
    assert_eq!(history, "ab\n");

    let mut fresh = VirtualMachine::default();
    fresh.load_data(&[20, 32768, 19, 32768, 6, 0]);
    fresh.supply_input(&history);
    assert_eq!(fresh.run(1000), Ok(RunStop::AwaitingInput));
    assert_eq!(fresh.output_buffer, "ab\n");
    assert!(fresh.stdin_buffer.is_empty());
}

#[test]
fn step_once_directive_runs_one_cycle() {
    let mut vm = VirtualMachine::default();
    vm.load_data(&[21, 21, 21]);
    let mut pause = tick();
    pause.toggle_pause = true;
    vm.handle_subscriber_tick(pause);
    assert_eq!(vm.run(10), Ok(RunStop::Idle));
    let mut step = tick();
    step.step_once = true;
    vm.handle_subscriber_tick(step);
    assert_eq!(vm.run(10), Ok(RunStop::Idle));
    assert_eq!(vm.program_counter, 1);
    assert_eq!(vm.cycle, 1);
}

#[test]
fn app_tick_hands_out_and_clears_directive() {
    let mut app = App::new();
    app.next_tick_to_send.save_state = true;
    let t = app.tick();
    assert!(t.save_state);
    assert!(!app.next_tick_to_send.save_state);
    let mut vm = VirtualMachine::default();
    vm.cycle = 12;
    app.update(vm.get_subscription_update());
    assert_eq!(app.last_update.savestate.cycle, 12);
}

#[test]
fn set_register_directive_resolves_its_value() {
    let mut vm = VirtualMachine::default();
    vm.memory.registers[1] = 31;
    let mut t = tick();
    t.set_register_id = Some(0);
    t.set_register_value = 32769;
    vm.handle_subscriber_tick(t);
    assert_eq!(vm.memory.registers[0], 31);
    let mut bad = tick();
    bad.set_register_id = Some(0);
    bad.set_register_value = 40000;
    vm.handle_subscriber_tick(bad);
    assert_eq!(vm.memory.registers[0], 31);
}

#[test]
fn replayed_history_is_taken_in_order() {
    let mut vm = VirtualMachine::default();
    vm.supply_input("ab");
    assert_eq!(vm.get_stdin(), Some(b'a'));
    assert_eq!(vm.get_stdin(), Some(b'b'));
    assert_eq!(vm.get_stdin(), None);
    assert_eq!(vm.stdin_history, "ab");
}

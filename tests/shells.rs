use regvm::{handle_command, update, App, DebugReply, Debugger, Key, Page, VirtualMachine};

#[test]
fn debugger_collects_output() {
    let mut debugger = Debugger::default();
    debugger.push_output('o');
    debugger.push_output('k');
    assert_eq!(debugger.collected_output, "ok");
    let vm = VirtualMachine::default();
    match debugger.interrupt(&vm, "output") {
        DebugReply::ShowOutput(s) => assert_eq!(s, "ok"),
        other => panic!("unexpected {:?}", other),
    }
}

#[test]
fn breakpoints_toggle_and_gate() {
    let vm = VirtualMachine::default();
    let mut debugger = Debugger::default();
    assert!(matches!(debugger.interrupt(&vm, "break 12"), DebugReply::BreakpointToggled(12)));
    assert!(matches!(debugger.interrupt(&vm, "  break   30 "), DebugReply::BreakpointToggled(30)));
    assert_eq!(debugger.breakpoints, vec![12, 30]);
    assert!(debugger.should_interrupt(12));
    assert!(!debugger.should_interrupt(13));
    debugger.interrupt(&vm, "break 12");
    assert_eq!(debugger.breakpoints, vec![30]);
    assert!(!debugger.should_interrupt(12));
    assert!(matches!(debugger.interrupt(&vm, "break x"), DebugReply::BadArgument));
    assert!(matches!(debugger.interrupt(&vm, "break"), DebugReply::BadArgument));
    assert!(matches!(debugger.interrupt(&vm, "break 70000"), DebugReply::BadArgument));
    assert_eq!(debugger.breakpoints, vec![30]);
}

#[test]
fn step_and_empty_line_stop_before_next_cycle() {
    let vm = VirtualMachine::default();
    let mut debugger = Debugger::default();
    assert!(matches!(debugger.interrupt(&vm, "step"), DebugReply::Step));
    assert!(debugger.break_next);
    assert!(debugger.should_interrupt(500));
    assert!(!debugger.break_next);
    assert!(matches!(debugger.interrupt(&vm, "   "), DebugReply::Step));
    assert!(debugger.break_next);
}

#[test]
fn shell_commands_dispatch() {
    let mut vm = VirtualMachine::default();
    vm.load_data(&[5, 6, 7, 8]);
    vm.memory.registers[0] = 44;
    vm.memory.stack.push((3, None));
    vm.memory.stack.push((9, Some(100)));
    let mut debugger = Debugger::default();
    match debugger.interrupt(&vm, "mem 1 3") {
        DebugReply::Cells(start, cells) => {
            assert_eq!(start, 1);
            assert_eq!(cells, vec![6, 7]);
        }
        other => panic!("unexpected {:?}", other),
    }
    match debugger.interrupt(&vm, "mem 32767 32769") {
        DebugReply::Cells(_, cells) => assert_eq!(cells, vec![0, 44]),
        other => panic!("unexpected {:?}", other),
    }
    assert!(matches!(debugger.interrupt(&vm, "mem 0 40000"), DebugReply::BadArgument));
    assert!(matches!(debugger.interrupt(&vm, "mem 0"), DebugReply::BadArgument));
    match debugger.interrupt(&vm, "stack") {
        DebugReply::Stack(s) => assert_eq!(s, vec![(3, None), (9, Some(100))]),
        other => panic!("unexpected {:?}", other),
    }
    assert!(matches!(debugger.interrupt(&vm, "run"), DebugReply::Resume));
    assert!(matches!(debugger.interrupt(&vm, "quit"), DebugReply::Quit));
    assert!(matches!(debugger.interrupt(&vm, "exit"), DebugReply::Quit));
    assert!(matches!(debugger.interrupt(&vm, "dance"), DebugReply::Unknown));
    assert!(!debugger.break_next);
}

#[test]
fn viewer_keys_edit_and_send_input() {
    let mut app = App::new();
    update(&mut app, Key::Char('h'));
    update(&mut app, Key::Char('x'));
    update(&mut app, Key::Backspace);
    update(&mut app, Key::Char('i'));
    assert_eq!(app.current_input, "hi");
    update(&mut app, Key::Enter);
    assert_eq!(app.current_input, "");
    assert_eq!(app.next_tick_to_send.additional_stdin, "hi\n");
    update(&mut app, Key::Backspace);
    assert_eq!(app.current_input, "");
}

#[test]
fn viewer_keys_set_flags_and_pages() {
    let mut app = App::new();
    update(&mut app, Key::F(5));
    update(&mut app, Key::F(6));
    update(&mut app, Key::F(8));
    update(&mut app, Key::F(9));
    let t = app.tick();
    assert!(t.save_state && t.write_history && t.step_once && t.load_state);
    update(&mut app, Key::F(7));
    update(&mut app, Key::Other);
    assert!(!app.next_tick_to_send.save_state);
    update(&mut app, Key::Tab);
    assert_eq!(app.active_page, Page::MemoryView);
    update(&mut app, Key::Tab);
    assert_eq!(app.active_page, Page::Output);
    update(&mut app, Key::Up);
    assert_eq!(app.memory_page_scroll, 0);
    update(&mut app, Key::Down);
    update(&mut app, Key::Down);
    update(&mut app, Key::Up);
    assert_eq!(app.memory_page_scroll, 1);
    assert!(!app.should_quit);
    update(&mut app, Key::Esc);
    assert!(app.should_quit);
}

#[test]
fn viewer_bang_commands() {
    let mut app = App::new();
    for c in "!setr 3 77".chars() {
        update(&mut app, Key::Char(c));
    }
    update(&mut app, Key::Enter);
    assert_eq!(app.next_tick_to_send.set_register_id, Some(3));
    assert_eq!(app.next_tick_to_send.set_register_value, 77);
    assert_eq!(app.next_tick_to_send.additional_stdin, "");

    let mut app = App::new();
    handle_command(&mut app, String::from("!pause"));
    assert!(app.next_tick_to_send.toggle_pause);

    let mut app = App::new();
    handle_command(&mut app, String::from("!setr 3 99999"));
    handle_command(&mut app, String::from("!setr three 1"));
    handle_command(&mut app, String::from("!setr 3"));
    handle_command(&mut app, String::from("!nothing"));
    assert_eq!(app.next_tick_to_send.set_register_id, None);
    assert!(!app.next_tick_to_send.toggle_pause);
    handle_command(&mut app, String::from("!setr +4 +12"));
    assert_eq!(app.next_tick_to_send.set_register_id, Some(4));
    assert_eq!(app.next_tick_to_send.set_register_value, 12);
}

#[test]
fn memory_scroll_is_clamped_to_heap() {
    let mut app = App::new();
    app.memory_page_scroll = 10_000;
    app.clamp_memory_scroll(20, 400);
    assert_eq!(app.memory_page_scroll, (32768 - 400) / 20);
    app.memory_page_scroll = 3;
    app.clamp_memory_scroll(20, 400);
    assert_eq!(app.memory_page_scroll, 3);
}

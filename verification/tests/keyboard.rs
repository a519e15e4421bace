use kfs_v2::task::console::{debug_command, DebugCommand};
use kfs_v2::task::keyboard::{Console, KeyInput, KeyResponse, ScancodeStream, SCANCODE_QUEUE_CAPACITY};
use pc_keyboard::KeyCode;

#[test]
fn scancodes_come_out_in_order() {
    let mut s = ScancodeStream::new();
    assert_eq!(s.next_scancode(), None);
    assert!(s.add_scancode(0x23));
    assert!(s.add_scancode(0xa3));
    assert_eq!(s.next_scancode(), Some(0x23));
    assert_eq!(s.next_scancode(), Some(0xa3));
    assert_eq!(s.next_scancode(), None);
}

#[test]
fn full_queue_drops_scancodes() {
    let mut s = ScancodeStream::new();
    for i in 0..SCANCODE_QUEUE_CAPACITY {
        assert!(s.add_scancode(i as u8));
    }
    assert!(!s.add_scancode(0xff));
    assert_eq!(s.next_scancode(), Some(0));
    assert!(s.add_scancode(0xfe));
    for i in 1..SCANCODE_QUEUE_CAPACITY {
        assert_eq!(s.next_scancode(), Some(i as u8));
    }
    assert_eq!(s.next_scancode(), Some(0xfe));
    assert_eq!(s.next_scancode(), None);
}

#[test]
fn typed_line_is_submitted_on_enter() {
    let mut c = Console::new();
    for ch in "help".chars() {
        assert!(matches!(c.handle_unicode(ch), KeyResponse::Echo(e) if e == ch));
    }
    match c.handle_unicode('\n') {
        KeyResponse::Submit(line) => {
            assert_eq!(line, "help");
            assert_eq!(debug_command(&line), DebugCommand::Help);
        }
        _ => panic!("expected a submitted line"),
    }
    match c.handle_unicode('\n') {
        KeyResponse::Submit(line) => assert_eq!(line, ""),
        _ => panic!("expected a submitted line"),
    }
}

#[test]
fn raw_keys_leave_the_line() {
    let mut c = Console::new();
    assert!(matches!(c.handle_key(KeyInput::Unicode('e')), KeyResponse::Echo('e')));
    assert!(matches!(c.handle_key(KeyInput::Raw(KeyCode::F1)), KeyResponse::Raw(KeyCode::F1)));
    assert!(matches!(c.handle_key(KeyInput::Unicode('x')), KeyResponse::Echo('x')));
    match c.handle_key(KeyInput::Unicode('\n')) {
        KeyResponse::Submit(line) => assert_eq!(line, "ex"),
        _ => panic!("expected a submitted line"),
    }
}

#[test]
fn scancodes_decode_to_keys() {
    let mut c = Console::new();
    assert!(matches!(c.handle_scancode(0x23), KeyResponse::Echo('h')));
    assert!(matches!(c.handle_scancode(0xa3), KeyResponse::Nothing));
    assert!(matches!(c.handle_scancode(0x3b), KeyResponse::Raw(KeyCode::F1)));
    match c.handle_scancode(0x1c) {
        KeyResponse::Submit(line) => assert_eq!(line, "h"),
        _ => panic!("expected a submitted line"),
    }
}

#[test]
fn debug_commands() {
    assert_eq!(debug_command(&String::new()), DebugCommand::Empty);
    assert_eq!(debug_command(&"help".to_string()), DebugCommand::Help);
    assert_eq!(debug_command(&"exit".to_string()), DebugCommand::Exit);
    assert_eq!(debug_command(&"reboot".to_string()), DebugCommand::Unknown);
    assert_eq!(debug_command(&"help ".to_string()), DebugCommand::Unknown);
    assert_eq!(debug_command(&"HELP".to_string()), DebugCommand::Unknown);
}

use hachi::input::InputEvent;
use hachi::input::KeyCommand;
use hachi::input::process_events;
use hachi::keymap::Key;

#[test]
fn process_empty_events_keeps_running() {
    let out = process_events(&Vec::new());
    assert!(out.running);
    assert!(out.commands.is_empty());
}

#[test]
fn process_maps_key_down_and_up() {
    let events = vec![InputEvent::KeyDown(Key::Q), InputEvent::KeyUp(Key::Q)];
    let out = process_events(&events);
    assert!(out.running);
    assert_eq!(
        out.commands,
        vec![
            KeyCommand { index: 0x4, pressed: true },
            KeyCommand { index: 0x4, pressed: false },
        ]
    );
}

#[test]
fn process_ignores_unmapped_and_other_events() {
    let events = vec![
        InputEvent::Other,
        InputEvent::KeyDown(Key::Other),
        InputEvent::KeyUp(Key::Other),
        InputEvent::KeyUp(Key::Escape),
        InputEvent::KeyDown(Key::V),
    ];
    let out = process_events(&events);
    assert!(out.running);
    assert_eq!(out.commands, vec![KeyCommand { index: 0xF, pressed: true }]);
}

#[test]
fn process_quit_stops_immediately() {
    let events = vec![
        InputEvent::KeyDown(Key::W),
        InputEvent::Quit,
        InputEvent::KeyDown(Key::E),
    ];
    let out = process_events(&events);
    assert!(!out.running);
    assert_eq!(out.commands, vec![KeyCommand { index: 0x5, pressed: true }]);
}

#[test]
fn process_escape_key_stops() {
    let events = vec![InputEvent::KeyDown(Key::Escape), InputEvent::KeyDown(Key::A)];
    let out = process_events(&events);
    assert!(!out.running);
    assert!(out.commands.is_empty());
}

#[test]
fn repeated_key_down_is_idempotent_on_keypad_levels() {
    let events = vec![InputEvent::KeyDown(Key::Z), InputEvent::KeyDown(Key::Z)];
    let out = process_events(&events);
    assert!(out.running);
    assert_eq!(out.commands.len(), 2);

    let mut keypad = [false; 16];
    keypad[out.commands[0].index as usize] = out.commands[0].pressed;
    let after_first = keypad;
    keypad[out.commands[1].index as usize] = out.commands[1].pressed;
    assert_eq!(keypad, after_first);
}

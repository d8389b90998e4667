//! Input translation: order preservation, the modifier snapshot, the key
//! table, and the rebuild-every-tick guarantee of the shared queue.

use bevy_iced::iced::{Event, Key, KeyboardEvent, MouseButton, MouseEvent, NamedKey, Point, TouchEvent};
use bevy_iced::conversions::{is_modifier_key, key_code};
use bevy_iced::systems::{
    compute_modifiers, process_input, IcedEventQueue, InputEvents, KeyCode, RawKey, RawKeyInput,
    RawMouseButton, RawTouch, TouchPhase,
};

fn no_input() -> InputEvents {
    InputEvents {
        cursor_entered: 0,
        cursor_left: 0,
        cursor_moved: Vec::new(),
        mouse_button: Vec::new(),
        mouse_wheel: Vec::new(),
        received_character: Vec::new(),
        keyboard_input: Vec::new(),
        touch_input: Vec::new(),
    }
}

#[test]
fn translation_preserves_order_within_a_source() {
    let mut input = no_input();
    input.cursor_moved = vec![Point { x: 1000, y: 2000 }, Point { x: 3000, y: 4000 }];
    let mut queue = IcedEventQueue::new();
    process_input(&input, &mut queue, &Vec::new());
    assert_eq!(
        queue.0,
        vec![
            Event::Mouse(MouseEvent::CursorMoved { position: Point { x: 1000, y: 2000 } }),
            Event::Mouse(MouseEvent::CursorMoved { position: Point { x: 3000, y: 4000 } }),
        ]
    );
}

#[test]
fn translation_source_order_is_fixed() {
    let mut input = no_input();
    input.cursor_entered = 1;
    input.cursor_left = 1;
    input.cursor_moved = vec![Point { x: 0, y: 0 }];
    input.mouse_button = vec![RawMouseButton { button: MouseButton::Left, pressed: true }];
    input.mouse_wheel = vec![Point { x: 0, y: -120_000 }];
    input.received_character = vec!['a'];
    input.touch_input =
        vec![RawTouch { phase: TouchPhase::Started, finger: 4, position: Point { x: 5, y: 6 } }];
    let mut queue = IcedEventQueue::new();
    process_input(&input, &mut queue, &Vec::new());
    assert_eq!(queue.0.len(), 7);
    assert!(matches!(queue.0[0], Event::Mouse(MouseEvent::CursorMoved { .. })));
    assert!(matches!(queue.0[1], Event::Mouse(MouseEvent::ButtonPressed(MouseButton::Left))));
    assert!(matches!(queue.0[2], Event::Mouse(MouseEvent::CursorEntered)));
    assert!(matches!(queue.0[3], Event::Mouse(MouseEvent::CursorLeft)));
    assert!(matches!(queue.0[4], Event::Mouse(MouseEvent::WheelScrolled { .. })));
    assert!(matches!(queue.0[5], Event::Keyboard(KeyboardEvent::KeyPressed { .. })));
    assert!(matches!(queue.0[6], Event::Touch(TouchEvent::FingerPressed { finger: 4, .. })));
}

#[test]
fn translation_rebuilds_queue_discarding_stale_events() {
    let mut queue = IcedEventQueue::new();
    queue.0.push(Event::Mouse(MouseEvent::CursorEntered));
    queue.0.push(Event::Mouse(MouseEvent::CursorLeft));
    process_input(&no_input(), &mut queue, &Vec::new());
    assert!(queue.0.is_empty());
}

#[test]
fn wheel_delta_is_carried_in_pixels() {
    let mut input = no_input();
    input.mouse_wheel = vec![Point { x: 1500, y: -2500 }];
    let mut queue = IcedEventQueue::new();
    process_input(&input, &mut queue, &Vec::new());
    assert_eq!(
        queue.0,
        vec![Event::Mouse(MouseEvent::WheelScrolled { delta: Point { x: 1500, y: -2500 } })]
    );
}

#[test]
fn received_character_becomes_key_press_with_text() {
    let mut input = no_input();
    input.received_character = vec!['h', 'i'];
    let mut queue = IcedEventQueue::new();
    process_input(&input, &mut queue, &Vec::new());
    assert_eq!(
        queue.0,
        vec![
            Event::Keyboard(KeyboardEvent::KeyPressed {
                key: Key::Character('h'),
                modifiers: compute_modifiers(&Vec::new()),
                text: Some('h'),
            }),
            Event::Keyboard(KeyboardEvent::KeyPressed {
                key: Key::Character('i'),
                modifiers: compute_modifiers(&Vec::new()),
                text: Some('i'),
            }),
        ]
    );
}

#[test]
fn unmapped_key_is_dropped_silently() {
    let mut input = no_input();
    input.keyboard_input = vec![RawKeyInput {
        key_code: KeyCode::Other(200),
        logical_key: RawKey::Unidentified,
        pressed: true,
    }];
    let mut queue = IcedEventQueue::new();
    process_input(&input, &mut queue, &Vec::new());
    assert!(queue.0.is_empty());
}

#[test]
fn modifier_key_becomes_modifiers_changed() {
    let mut input = no_input();
    input.keyboard_input = vec![RawKeyInput {
        key_code: KeyCode::ControlLeft,
        logical_key: RawKey::Control,
        pressed: true,
    }];
    let pressed = vec![KeyCode::ControlLeft];
    let mut queue = IcedEventQueue::new();
    process_input(&input, &mut queue, &pressed);
    let m = compute_modifiers(&pressed);
    assert!(m.ctrl);
    assert_eq!(queue.0, vec![Event::Keyboard(KeyboardEvent::ModifiersChanged(m))]);
}

#[test]
fn named_key_goes_through_the_table() {
    let mut input = no_input();
    input.keyboard_input = vec![
        RawKeyInput { key_code: KeyCode::Other(1), logical_key: RawKey::Enter, pressed: true },
        RawKeyInput { key_code: KeyCode::Other(1), logical_key: RawKey::Enter, pressed: false },
    ];
    let mut queue = IcedEventQueue::new();
    process_input(&input, &mut queue, &Vec::new());
    let m = compute_modifiers(&Vec::new());
    assert_eq!(
        queue.0,
        vec![
            Event::Keyboard(KeyboardEvent::KeyPressed {
                key: Key::Named(NamedKey::Enter),
                modifiers: m,
                text: None,
            }),
            Event::Keyboard(KeyboardEvent::KeyReleased {
                key: Key::Named(NamedKey::Enter),
                modifiers: m,
            }),
        ]
    );
}

#[test]
fn ctrl_held_marks_key_press_with_ctrl() {
    let mut input = no_input();
    input.keyboard_input = vec![RawKeyInput {
        key_code: KeyCode::Other(30),
        logical_key: RawKey::Character('a'),
        pressed: true,
    }];
    let pressed = vec![KeyCode::ControlLeft];
    let mut queue = IcedEventQueue::new();
    process_input(&input, &mut queue, &pressed);
    match &queue.0[0] {
        Event::Keyboard(KeyboardEvent::KeyPressed { key, modifiers, text }) => {
            assert_eq!(*key, Key::Character('a'));
            assert!(modifiers.ctrl);
            assert!(!modifiers.shift);
            assert_eq!(*text, None);
        }
        other => panic!("expected a key press, got {:?}", other),
    }
}

#[test]
fn ctrl_released_marks_key_press_without_ctrl() {
    let mut input = no_input();
    input.keyboard_input = vec![RawKeyInput {
        key_code: KeyCode::Other(30),
        logical_key: RawKey::Character('a'),
        pressed: true,
    }];
    let mut queue = IcedEventQueue::new();
    process_input(&input, &mut queue, &Vec::new());
    match &queue.0[0] {
        Event::Keyboard(KeyboardEvent::KeyPressed { modifiers, .. }) => {
            assert!(!modifiers.ctrl);
        }
        other => panic!("expected a key press, got {:?}", other),
    }
}

#[test]
fn modifiers_from_either_side_key() {
    let m = compute_modifiers(&vec![KeyCode::ControlRight, KeyCode::ShiftLeft]);
    assert!(m.ctrl);
    assert!(m.shift);
    assert!(!m.alt);
    assert!(!m.logo);
    let m = compute_modifiers(&vec![KeyCode::AltRight, KeyCode::SuperLeft, KeyCode::Other(9)]);
    assert!(!m.ctrl);
    assert!(!m.shift);
    assert!(m.alt);
    assert!(m.logo);
}

#[test]
fn touch_phases_map_to_finger_events() {
    let p = Point { x: 10, y: 20 };
    let mut input = no_input();
    input.touch_input = vec![
        RawTouch { phase: TouchPhase::Started, finger: 1, position: p },
        RawTouch { phase: TouchPhase::Moved, finger: 1, position: p },
        RawTouch { phase: TouchPhase::Ended, finger: 1, position: p },
        RawTouch { phase: TouchPhase::Canceled, finger: 2, position: p },
    ];
    let mut queue = IcedEventQueue::new();
    process_input(&input, &mut queue, &Vec::new());
    assert_eq!(
        queue.0,
        vec![
            Event::Touch(TouchEvent::FingerPressed { finger: 1, position: p }),
            Event::Touch(TouchEvent::FingerMoved { finger: 1, position: p }),
            Event::Touch(TouchEvent::FingerLifted { finger: 1, position: p }),
            Event::Touch(TouchEvent::FingerLost { finger: 2, position: p }),
        ]
    );
}

#[test]
fn key_table_entries() {
    assert_eq!(key_code(&RawKey::Character('z')), Some(Key::Character('z')));
    assert_eq!(key_code(&RawKey::Escape), Some(Key::Named(NamedKey::Escape)));
    assert_eq!(key_code(&RawKey::ArrowLeft), Some(Key::Named(NamedKey::ArrowLeft)));
    assert_eq!(key_code(&RawKey::F(5)), Some(Key::Named(NamedKey::F(5))));
    assert_eq!(key_code(&RawKey::Unidentified), None);
}

#[test]
fn modifier_key_classification() {
    assert!(is_modifier_key(KeyCode::ControlLeft));
    assert!(is_modifier_key(KeyCode::SuperRight));
    assert!(!is_modifier_key(KeyCode::Other(30)));
}

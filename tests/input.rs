use ronin::input::{
    apply_events, Action, InputEvent, KeyInputStateCollection, MouseInputStateCollection, KEY_COUNT,
};

#[test]
fn key_press_and_release() {
    let mut keys = KeyInputStateCollection::default();
    assert!(!keys.is_key_pressed(87));
    keys.push(87);
    assert!(keys.is_key_pressed(87));
    keys.pop(87);
    assert!(!keys.is_key_pressed(87));
    keys.push(348);
    assert!(keys.is_key_pressed(348));
    keys.reset();
    assert!(!keys.is_key_pressed(348));
}

#[test]
fn unknown_codes_are_ignored() {
    let mut keys = KeyInputStateCollection::default();
    keys.push(-1);
    keys.push(KEY_COUNT as i32);
    assert!(!keys.is_key_pressed(-1));
    assert!(!keys.is_key_pressed(KEY_COUNT as i32));
    let mut mouse = MouseInputStateCollection::default();
    mouse.push(8);
    assert!(!mouse.is_key_pressed(8));
    mouse.push(1);
    assert!(mouse.is_key_pressed(1));
    mouse.pop(1);
    assert!(!mouse.is_key_pressed(1));
    mouse.push(7);
    mouse.reset();
    assert!(!mouse.is_key_pressed(7));
}

#[test]
fn events_are_applied_in_order() {
    let mut keys = KeyInputStateCollection::default();
    let mut mouse = MouseInputStateCollection::default();
    let events = vec![
        InputEvent::Key { code: 65, action: Action::Press },
        InputEvent::Key { code: 87, action: Action::Press },
        InputEvent::Key { code: 65, action: Action::Release },
        InputEvent::Key { code: 87, action: Action::Repeat },
        InputEvent::MouseButton { button: 1, action: Action::Press },
        InputEvent::Other,
    ];
    apply_events(&mut keys, &mut mouse, &events);
    assert!(!keys.is_key_pressed(65));
    assert!(keys.is_key_pressed(87));
    assert!(mouse.is_key_pressed(1));
    assert!(!mouse.is_key_pressed(0));
}

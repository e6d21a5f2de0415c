use input_monitor::events::{get_device_id, get_session_id, EventMetadata, InputEvent, MouseButton};
use input_monitor::modifiers::{get_active_modifiers, update_modifiers, Modifier, ModifierSet};

#[test]
fn test_event_creation() {
    let event = InputEvent::new_key_press(EventMetadata::new(None, None), "A".to_string(), vec!["Shift".to_string()]);

    match event {
        InputEvent::KeyPress { key, modifiers, .. } => {
            assert_eq!(key, "A");
            assert_eq!(modifiers, vec!["Shift"]);
        }
        _ => panic!("Expected KeyPress event"),
    }
}

#[test]
fn test_mouse_event_creation() {
    let event = InputEvent::new_mouse_click(
        EventMetadata::new(None, None),
        MouseButton::Left,
        100.0f64.to_bits(),
        200.0f64.to_bits(),
    );

    match event {
        InputEvent::MouseClick { button, position, .. } => {
            assert!(matches!(button, MouseButton::Left));
            assert_eq!(f64::from_bits(position.x_bits), 100.0);
            assert_eq!(f64::from_bits(position.y_bits), 200.0);
        }
        _ => panic!("Expected MouseClick event"),
    }
}

#[test]
fn scroll_event_keeps_delta_and_position() {
    let m = EventMetadata::new(None, None);
    let event = InputEvent::new_mouse_scroll(m, 1.5f64.to_bits(), (-2.0f64).to_bits(), 10.0f64.to_bits(), 20.25f64.to_bits());
    match event {
        InputEvent::MouseScroll { delta, position, .. } => {
            assert_eq!(f64::from_bits(delta.x_bits), 1.5);
            assert_eq!(f64::from_bits(delta.y_bits), -2.0);
            assert_eq!(f64::from_bits(position.x_bits), 10.0);
            assert_eq!(f64::from_bits(position.y_bits), 20.25);
        }
        _ => panic!("Expected MouseScroll event"),
    }
}

#[test]
fn metadata_identifiers() {
    let m = EventMetadata::new(None, None);
    assert_eq!(m.session_id, "default_session");
    assert_eq!(m.device_id, "default_device");
    let m = EventMetadata::new(Some("s-1".to_string()), Some("d-9".to_string()));
    assert_eq!(m.session_id, "s-1");
    assert_eq!(m.device_id, "d-9");
    assert!(m.timestamp_micros > 0);
    assert_eq!(get_session_id(None), "default_session");
    assert_eq!(get_device_id(Some("x".to_string())), "x");
}

#[test]
fn screenshot_is_base64_png() {
    let event = InputEvent::screenshot_from_png(EventMetadata::new(None, None), &b"abcd".to_vec());
    match event {
        InputEvent::Screenshot { data, format, .. } => {
            assert_eq!(data, "YWJjZA==");
            assert_eq!(format, "png");
        }
        _ => panic!("Expected Screenshot event"),
    }
    let empty = InputEvent::screenshot_from_png(EventMetadata::new(None, None), &Vec::new());
    match empty {
        InputEvent::Screenshot { data, .. } => assert_eq!(data, ""),
        _ => panic!("Expected Screenshot event"),
    }
}

#[test]
fn held_modifiers_are_listed_once() {
    let mut held = ModifierSet::new();
    assert!(get_active_modifiers(&held).is_empty());
    update_modifiers(&mut held, Some(Modifier::Shift), true);
    update_modifiers(&mut held, Some(Modifier::Shift), true);
    update_modifiers(&mut held, Some(Modifier::Meta), true);
    update_modifiers(&mut held, None, true);
    assert_eq!(get_active_modifiers(&held), vec!["Shift", "Meta"]);
    update_modifiers(&mut held, Some(Modifier::Shift), false);
    update_modifiers(&mut held, Some(Modifier::Control), true);
    update_modifiers(&mut held, Some(Modifier::Alt), true);
    assert_eq!(get_active_modifiers(&held), vec!["Control", "Alt", "Meta"]);
    update_modifiers(&mut held, Some(Modifier::Alt), false);
    update_modifiers(&mut held, Some(Modifier::Alt), false);
    assert_eq!(get_active_modifiers(&held), vec!["Control", "Meta"]);
}

use uiohook_rs::legacy::{KeyboardEvent, KeyboardEventType, MouseEvent, MouseEventType};
use uiohook_rs::{
    KeyCode, KeyboardEvent as NewKeyboardEvent, KeyboardEventType as NewKeyboardEventType,
    MouseButton, MouseEvent as NewMouseEvent, MouseEventType as NewMouseEventType, WheelEvent,
};

#[test]
fn test_legacy_keyboard_event_conversion() {
    let new_event = NewKeyboardEvent {
        event_type: NewKeyboardEventType::Pressed,
        key_code: KeyCode::A,
        raw_code: 65,
        key_char: Some('A'),
    };

    let legacy_event = KeyboardEvent::from(&new_event);

    assert_eq!(legacy_event.event_type, KeyboardEventType::Pressed);
    assert_eq!(legacy_event.key_code, KeyCode::A as u16);
    assert_eq!(legacy_event.key_raw, 65);
    assert_eq!(legacy_event.key_char, Some('A'));
    assert_eq!(legacy_event.key_name, Some("A"));
}

#[test]
fn test_legacy_mouse_event_conversion() {
    let new_event = NewMouseEvent {
        event_type: NewMouseEventType::Clicked,
        button: MouseButton::Button1,
        clicks: 1,
        x: 100,
        y: 200,
    };

    let legacy_event = MouseEvent::from(&new_event);

    assert_eq!(legacy_event.event_type, MouseEventType::Clicked);
    assert_eq!(legacy_event.button, MouseButton::Button1 as u16);
    assert_eq!(legacy_event.clicks, 1);
    assert_eq!(legacy_event.x, 100);
    assert_eq!(legacy_event.y, 200);
}

#[test]
fn test_legacy_wheel_event_conversion() {
    let wheel_event = WheelEvent {
        clicks: 1,
        x: 100,
        y: 200,
        type_: 1,
        amount: 120,
        rotation: 1,
        direction: 3,
    };

    let legacy_event = MouseEvent::from(&wheel_event);

    assert_eq!(legacy_event.event_type, MouseEventType::Wheel);
    assert_eq!(legacy_event.clicks, 1);
    assert_eq!(legacy_event.x, 100);
    assert_eq!(legacy_event.y, 200);
    assert_eq!(legacy_event.amount, 120);
    assert_eq!(legacy_event.rotation, 1);
    assert_eq!(legacy_event.direction, 3);
}

#[test]
fn test_legacy_handlers_project_by_event_kind() {
    let keyboard = uiohook_rs::UiohookEvent::Keyboard(NewKeyboardEvent {
        event_type: NewKeyboardEventType::Released,
        key_code: KeyCode::Enter,
        raw_code: 28,
        key_char: None,
    });
    let wheel = uiohook_rs::UiohookEvent::Wheel(WheelEvent::new(1, 10, 20, 1, 3, 120, 3));
    let enabled = uiohook_rs::UiohookEvent::HookEnabled;

    let ke = uiohook_rs::legacy::handle_keyboard_event(&keyboard).unwrap();
    assert_eq!(ke.event_type, KeyboardEventType::Released);
    assert_eq!(ke.key_raw, 28);
    assert_eq!(ke.key_name, Some("Enter"));
    assert!(uiohook_rs::legacy::handle_keyboard_event(&wheel).is_none());
    assert!(uiohook_rs::legacy::handle_keyboard_event(&enabled).is_none());

    let me = uiohook_rs::legacy::handle_mouse_event(&wheel).unwrap();
    assert_eq!(me.event_type, MouseEventType::Wheel);
    assert_eq!(me.amount, 3);
    assert_eq!(me.rotation, 120);
    assert!(uiohook_rs::legacy::handle_mouse_event(&keyboard).is_none());
    assert!(uiohook_rs::legacy::handle_mouse_event(&enabled).is_none());
}

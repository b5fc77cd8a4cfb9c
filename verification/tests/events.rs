use uiohook_rs::native::{KeyboardData, MouseData, RawEvent};
use uiohook_rs::{
    KeyCode, KeyboardEvent, KeyboardEventType, MouseButton, MouseEvent, MouseEventType,
    UiohookError, UiohookEvent, WheelEvent, EVENT_KEY_TYPED, WHEEL_UNIT_SCROLL,
    WHEEL_VERTICAL_DIRECTION,
};

#[test]
fn test_pressed_keyboard_event_round_trips() {
    let original = UiohookEvent::Keyboard(KeyboardEvent {
        event_type: KeyboardEventType::Pressed,
        key_code: KeyCode::A,
        raw_code: 65,
        key_char: None,
    });

    let raw = original.to_raw_event();
    let back = UiohookEvent::from_raw_event(&raw).unwrap();

    match back {
        UiohookEvent::Keyboard(ke) => {
            assert_eq!(ke.event_type, KeyboardEventType::Pressed);
            assert_eq!(ke.key_code, KeyCode::A);
            assert_eq!(ke.raw_code, 65);
            assert_eq!(ke.key_char, None);
        }
        other => panic!("expected a keyboard event, got {:?}", other),
    }
}

#[test]
fn test_typed_keyboard_event_round_trips_with_its_character() {
    let original = UiohookEvent::Keyboard(KeyboardEvent {
        event_type: KeyboardEventType::Typed,
        key_code: KeyCode::A,
        raw_code: 65,
        key_char: Some('A'),
    });

    let raw = original.to_raw_event();
    assert_eq!(raw.type_, EVENT_KEY_TYPED);
    assert_eq!(raw.keyboard.keychar, 'A' as u16);

    match UiohookEvent::from_raw_event(&raw).unwrap() {
        UiohookEvent::Keyboard(ke) => {
            assert_eq!(ke.event_type, KeyboardEventType::Typed);
            assert_eq!(ke.key_char, Some('A'));
        }
        other => panic!("expected a keyboard event, got {:?}", other),
    }
}

#[test]
fn test_vertical_wheel_event_round_trips() {
    let original = WheelEvent::new(
        1,
        100,
        200,
        WHEEL_UNIT_SCROLL,
        3,
        -120,
        WHEEL_VERTICAL_DIRECTION,
    );

    let raw = UiohookEvent::Wheel(original).to_raw_event();
    match UiohookEvent::from_raw_event(&raw).unwrap() {
        UiohookEvent::Wheel(we) => {
            assert_eq!(we, original);
            assert!(we.is_vertical());
            assert!(!we.is_horizontal());
        }
        other => panic!("expected a wheel event, got {:?}", other),
    }
}

#[test]
fn test_mouse_event_round_trips() {
    let original = UiohookEvent::Mouse(MouseEvent {
        event_type: MouseEventType::Dragged,
        button: MouseButton::Button3,
        clicks: 2,
        x: -300,
        y: 450,
    });

    let raw = original.to_raw_event();
    match UiohookEvent::from_raw_event(&raw).unwrap() {
        UiohookEvent::Mouse(me) => {
            assert_eq!(me.event_type, MouseEventType::Dragged);
            assert_eq!(me.button, MouseButton::Button3);
            assert_eq!(me.clicks, 2);
            assert_eq!(me.x, -300);
            assert_eq!(me.y, 450);
        }
        other => panic!("expected a mouse event, got {:?}", other),
    }
}

#[test]
fn test_hook_lifecycle_events_round_trip() {
    let enabled = UiohookEvent::HookEnabled.to_raw_event();
    assert!(matches!(
        UiohookEvent::from_raw_event(&enabled),
        Ok(UiohookEvent::HookEnabled)
    ));

    let disabled = UiohookEvent::HookDisabled.to_raw_event();
    assert!(matches!(
        UiohookEvent::from_raw_event(&disabled),
        Ok(UiohookEvent::HookDisabled)
    ));
}

#[test]
fn test_unknown_discriminant_reports_unknown() {
    let mut raw = RawEvent::zeroed();
    raw.type_ = 42;
    assert!(matches!(
        UiohookEvent::from_raw_event(&raw),
        Err(UiohookError::Unknown(42))
    ));

    raw.type_ = 0;
    assert!(matches!(
        UiohookEvent::from_raw_event(&raw),
        Err(UiohookError::Unknown(0))
    ));
}

#[test]
fn test_every_mouse_phase_round_trips() {
    let phases = vec![
        MouseEventType::Moved,
        MouseEventType::Pressed,
        MouseEventType::Released,
        MouseEventType::Clicked,
        MouseEventType::Dragged,
    ];
    for phase in phases {
        let original = UiohookEvent::Mouse(MouseEvent {
            event_type: phase,
            button: MouseButton::Button2,
            clicks: 1,
            x: 5,
            y: 6,
        });
        match UiohookEvent::from_raw_event(&original.to_raw_event()).unwrap() {
            UiohookEvent::Mouse(me) => assert_eq!(me.event_type, phase),
            other => panic!("expected a mouse event, got {:?}", other),
        }
    }
}

#[test]
fn test_conversion_drops_no_payload_fields() {
    let raw = RawEvent {
        type_: EVENT_KEY_TYPED,
        time: 0,
        mask: 0,
        reserved: 0,
        keyboard: KeyboardData {
            keycode: u32::from(KeyCode::Enter) as u16,
            rawcode: 28,
            keychar: '\n' as u16,
        },
        mouse: MouseData {
            button: 0,
            clicks: 0,
            x: 0,
            y: 0,
        },
        wheel: uiohook_rs::native::WheelData {
            clicks: 0,
            x: 0,
            y: 0,
            type_: 0,
            amount: 0,
            rotation: 0,
            direction: 0,
        },
    };
    match UiohookEvent::from_raw_event(&raw).unwrap() {
        UiohookEvent::Keyboard(ke) => {
            assert_eq!(ke.key_code, KeyCode::Enter);
            assert_eq!(ke.raw_code, 28);
            assert_eq!(ke.key_char, Some('\n'));
        }
        other => panic!("expected a keyboard event, got {:?}", other),
    }
}

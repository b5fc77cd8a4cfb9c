use uiohook_rs::native::KeyboardData;
use uiohook_rs::{KeyCode, KeyboardEvent, VC_A, VC_ESCAPE, VC_F1, VC_SHIFT_L, VC_UNDEFINED};

#[test]
fn test_key_code_conversion() {
    assert_eq!(KeyCode::try_from(VC_ESCAPE), Ok(KeyCode::Escape));
    assert_eq!(KeyCode::try_from(VC_F1), Ok(KeyCode::F1));
    assert_eq!(KeyCode::try_from(0xFFFFFFFF), Err(()));

    assert_eq!(u32::from(KeyCode::Escape), VC_ESCAPE);
    assert_eq!(u32::from(KeyCode::F1), VC_F1);
}

#[test]
fn test_keyboard_event_from_bindings() {
    let binding_event = KeyboardData {
        keycode: VC_A as u16,
        rawcode: 65,
        keychar: 'A' as u16,
    };

    let event = KeyboardEvent::from(&binding_event);
    assert_eq!(event.key_code, KeyCode::A);
    assert_eq!(event.raw_code, 65);
    assert_eq!(event.key_char, Some('A'));
}

#[test]
fn test_key_code_round_trips_through_its_value() {
    let keys = vec![
        KeyCode::Escape,
        KeyCode::A,
        KeyCode::Z,
        KeyCode::Num0,
        KeyCode::Space,
        KeyCode::ShiftL,
        KeyCode::KpDelete,
        KeyCode::SunCut,
        KeyCode::CharUndefined,
        KeyCode::Undefined,
    ];
    for key in keys {
        assert_eq!(KeyCode::try_from(u32::from(key)), Ok(key));
    }
    assert_eq!(u32::from(KeyCode::ShiftL), VC_SHIFT_L);
    assert_eq!(u32::from(KeyCode::Undefined), VC_UNDEFINED);
}

#[test]
fn test_unknown_key_code_reads_as_undefined() {
    let binding_event = KeyboardData {
        keycode: 0x7FFF,
        rawcode: 12,
        keychar: 0,
    };
    let event = KeyboardEvent::from(&binding_event);
    assert_eq!(event.key_code, KeyCode::Undefined);
    assert_eq!(event.raw_code, 12);
}

#[test]
fn test_surrogate_key_char_reads_as_none() {
    let binding_event = KeyboardData {
        keycode: VC_A as u16,
        rawcode: 65,
        keychar: 0xD800,
    };
    let event = KeyboardEvent::from(&binding_event);
    assert_eq!(event.key_char, None);
}

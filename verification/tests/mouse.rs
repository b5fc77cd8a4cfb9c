use uiohook_rs::native::MouseData;
use uiohook_rs::{MouseButton, MouseEvent, UiohookError, MOUSE_BUTTON1, MOUSE_BUTTON2};

#[test]
fn test_mouse_button_conversion() {
    assert_eq!(MouseButton::try_from(MOUSE_BUTTON1), Ok(MouseButton::Button1));
    assert_eq!(MouseButton::try_from(MOUSE_BUTTON2), Ok(MouseButton::Button2));
    assert_eq!(
        MouseButton::try_from(0xFFFF),
        Err(UiohookError::UnknownMouseButton(0xFFFF))
    );

    assert_eq!(u32::from(MouseButton::Button1), MOUSE_BUTTON1);
    assert_eq!(u32::from(MouseButton::Button2), MOUSE_BUTTON2);
}

#[test]
fn test_mouse_event_from_bindings() {
    let binding_event = MouseData {
        button: MOUSE_BUTTON1 as u16,
        clicks: 1,
        x: 100,
        y: 200,
    };

    let event = MouseEvent::from(&binding_event);
    assert_eq!(event.button, MouseButton::Button1);
    assert_eq!(event.clicks, 1);
    assert_eq!(event.x, 100);
    assert_eq!(event.y, 200);
}

#[test]
fn test_mouse_button_conversion_of_code_99() {
    assert_eq!(
        MouseButton::try_from(99),
        Err(UiohookError::UnknownMouseButton(99))
    );
}

#[test]
fn test_mouse_button_conversion_covers_the_known_set() {
    assert_eq!(MouseButton::try_from(0), Ok(MouseButton::NoButton));
    assert_eq!(MouseButton::try_from(1), Ok(MouseButton::Button1));
    assert_eq!(MouseButton::try_from(2), Ok(MouseButton::Button2));
    assert_eq!(MouseButton::try_from(3), Ok(MouseButton::Button3));
    assert_eq!(MouseButton::try_from(4), Ok(MouseButton::Button4));
    assert_eq!(MouseButton::try_from(5), Ok(MouseButton::Button5));
    assert_eq!(
        MouseButton::try_from(6),
        Err(UiohookError::UnknownMouseButton(6))
    );
}

#[test]
fn test_unknown_button_reads_as_no_button() {
    let binding_event = MouseData {
        button: 99,
        clicks: 2,
        x: -5,
        y: 7,
    };
    let event = MouseEvent::from(&binding_event);
    assert_eq!(event.button, MouseButton::NoButton);
    assert_eq!(event.clicks, 2);
    assert_eq!(event.x, -5);
    assert_eq!(event.y, 7);
}

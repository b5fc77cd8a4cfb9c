use uiohook_rs::native::WheelData;
use uiohook_rs::{WheelEvent, WHEEL_HORIZONTAL_DIRECTION, WHEEL_UNIT_SCROLL, WHEEL_VERTICAL_DIRECTION};

#[test]
fn test_wheel_event_from_bindings() {
    let raw_event = WheelData {
        clicks: 1,
        x: 100,
        y: 200,
        type_: WHEEL_UNIT_SCROLL,
        amount: 3,
        rotation: -120,
        direction: WHEEL_VERTICAL_DIRECTION,
    };

    let wheel_event = WheelEvent::from(&raw_event);

    assert_eq!(wheel_event.clicks, 1);
    assert_eq!(wheel_event.x, 100);
    assert_eq!(wheel_event.y, 200);
    assert_eq!(wheel_event.type_, WHEEL_UNIT_SCROLL);
    assert_eq!(wheel_event.amount, 3);
    assert_eq!(wheel_event.rotation, -120);
    assert_eq!(wheel_event.direction, WHEEL_VERTICAL_DIRECTION);
}

#[test]
fn test_wheel_event_new() {
    let wheel_event = WheelEvent::new(
        1,
        100,
        200,
        WHEEL_UNIT_SCROLL,
        3,
        -120,
        WHEEL_VERTICAL_DIRECTION,
    );

    assert_eq!(wheel_event.clicks, 1);
    assert_eq!(wheel_event.x, 100);
    assert_eq!(wheel_event.y, 200);
    assert_eq!(wheel_event.type_, WHEEL_UNIT_SCROLL);
    assert_eq!(wheel_event.amount, 3);
    assert_eq!(wheel_event.rotation, -120);
    assert_eq!(wheel_event.direction, WHEEL_VERTICAL_DIRECTION);
}

#[test]
fn test_is_vertical() {
    let vertical_event = WheelEvent::new(
        1,
        100,
        200,
        WHEEL_UNIT_SCROLL,
        3,
        -120,
        WHEEL_VERTICAL_DIRECTION,
    );
    let horizontal_event = WheelEvent::new(
        1,
        100,
        200,
        WHEEL_UNIT_SCROLL,
        3,
        -120,
        WHEEL_HORIZONTAL_DIRECTION,
    );

    assert!(vertical_event.is_vertical());
    assert!(!horizontal_event.is_vertical());
}

#[test]
fn test_is_horizontal() {
    let vertical_event = WheelEvent::new(
        1,
        100,
        200,
        WHEEL_UNIT_SCROLL,
        3,
        -120,
        WHEEL_VERTICAL_DIRECTION,
    );
    let horizontal_event = WheelEvent::new(
        1,
        100,
        200,
        WHEEL_UNIT_SCROLL,
        3,
        -120,
        WHEEL_HORIZONTAL_DIRECTION,
    );

    assert!(!vertical_event.is_horizontal());
    assert!(horizontal_event.is_horizontal());
}

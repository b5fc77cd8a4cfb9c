use std::sync::atomic::{AtomicUsize, Ordering};
use std::sync::Mutex;

use uiohook_rs::native::RawEvent;
use uiohook_rs::{
    dispatch_proc, key_tap, key_toggle, mouse_click, mouse_move, DispatchSlot, EventHandler,
    KeyCode, MouseButton, NativeHook, Uiohook, UiohookError, UiohookEvent, EVENT_KEY_PRESSED,
    EVENT_KEY_RELEASED, EVENT_MOUSE_MOVED, EVENT_MOUSE_PRESSED, EVENT_MOUSE_RELEASED,
    UIOHOOK_FAILURE, VC_A, VC_SHIFT_L,
};

/// A stand-in for the native engine that records every call and answers
/// with configurable status codes.
struct FakeNative {
    posted: Vec<RawEvent>,
    registrations: usize,
    run_status: i32,
    stop_status: i32,
}

impl FakeNative {
    fn new() -> Self {
        FakeNative {
            posted: Vec::new(),
            registrations: 0,
            run_status: 0,
            stop_status: 0,
        }
    }
}

impl NativeHook for FakeNative {
    fn set_dispatch_proc(&mut self) {
        self.registrations += 1;
    }

    fn run_loop(&mut self) -> i32 {
        self.run_status
    }

    fn stop_loop(&mut self) -> i32 {
        self.stop_status
    }

    fn post_event(&mut self, event: &RawEvent) {
        self.posted.push(*event);
    }
}

struct CountingHandler {
    count: AtomicUsize,
    seen: Mutex<Vec<RawEvent>>,
}

impl CountingHandler {
    fn new() -> Self {
        CountingHandler {
            count: AtomicUsize::new(0),
            seen: Mutex::new(Vec::new()),
        }
    }
}

impl EventHandler for CountingHandler {
    fn handle_event(&self, event: &UiohookEvent) {
        self.count.fetch_add(1, Ordering::SeqCst);
        self.seen.lock().unwrap().push(event.to_raw_event());
    }
}

struct QuietHandler;

impl EventHandler for QuietHandler {
    fn handle_event(&self, _event: &UiohookEvent) {}
}

#[test]
fn test_run_twice_then_stop_then_run_again() {
    let hook = Uiohook::new(QuietHandler);
    let mut slot = DispatchSlot::new();
    let mut native = FakeNative::new();

    assert_eq!(hook.run(&mut slot, &mut native), Ok(()));
    assert_eq!(
        hook.run(&mut slot, &mut native),
        Err(UiohookError::AlreadyRunning)
    );
    assert_eq!(hook.stop(&mut slot, &mut native), Ok(()));
    assert_eq!(hook.run(&mut slot, &mut native), Ok(()));
    assert_eq!(native.registrations, 1, "the trampoline registers once");
}

#[test]
fn test_stop_without_run_is_not_running() {
    let hook = Uiohook::new(QuietHandler);
    let mut slot = DispatchSlot::new();
    let mut native = FakeNative::new();

    assert_eq!(
        hook.stop(&mut slot, &mut native),
        Err(UiohookError::NotRunning)
    );
}

#[test]
fn test_run_failure_rolls_back_so_a_retry_works() {
    let hook = Uiohook::new(QuietHandler);
    let mut slot = DispatchSlot::new();
    let mut native = FakeNative::new();
    native.run_status = UIOHOOK_FAILURE as i32;

    assert_eq!(
        hook.run(&mut slot, &mut native),
        Err(UiohookError::Failure)
    );
    native.run_status = 0;
    assert_eq!(hook.run(&mut slot, &mut native), Ok(()));
}

#[test]
fn test_stop_failure_still_leaves_the_hook_idle() {
    let hook = Uiohook::new(QuietHandler);
    let mut slot = DispatchSlot::new();
    let mut native = FakeNative::new();

    assert_eq!(hook.run(&mut slot, &mut native), Ok(()));
    native.stop_status = UIOHOOK_FAILURE as i32;
    assert_eq!(
        hook.stop(&mut slot, &mut native),
        Err(UiohookError::Failure)
    );
    assert_eq!(
        hook.stop(&mut slot, &mut native),
        Err(UiohookError::NotRunning)
    );
    assert_eq!(hook.run(&mut slot, &mut native), Ok(()));
}

#[test]
fn test_two_controllers_share_the_one_hook() {
    let a = Uiohook::new(QuietHandler);
    let b = Uiohook::new(CountingHandler::new());
    let mut slot = DispatchSlot::new();
    let mut native = FakeNative::new();

    assert_eq!(a.run(&mut slot, &mut native), Ok(()));
    assert_eq!(
        b.run(&mut slot, &mut native),
        Err(UiohookError::AlreadyRunning)
    );
    assert_eq!(a.stop(&mut slot, &mut native), Ok(()));
    assert_eq!(b.run(&mut slot, &mut native), Ok(()));
}

#[test]
fn test_posted_events_arrive_in_submission_order() {
    let handler = CountingHandler::new();
    let hook = Uiohook::new(QuietHandler);
    let mut native = FakeNative::new();

    let mut sent: Vec<RawEvent> = Vec::new();
    for i in 0..16i16 {
        let event = UiohookEvent::Mouse(uiohook_rs::MouseEvent {
            event_type: uiohook_rs::MouseEventType::Moved,
            button: MouseButton::NoButton,
            clicks: 0,
            x: i,
            y: 2 * i,
        });
        sent.push(event.to_raw_event());
        assert_eq!(hook.post_event(&mut native, &event), Ok(()));
    }
    assert_eq!(native.posted, sent);

    // Loop the recorded records back through the dispatch trampoline.
    for raw in &native.posted {
        dispatch_proc(&handler, raw);
    }
    assert_eq!(handler.count.load(Ordering::SeqCst), 16);
    assert_eq!(*handler.seen.lock().unwrap(), sent);
}

#[test]
fn test_key_tap_with_shift_posts_four_records_in_order() {
    let hook = Uiohook::new(QuietHandler);
    let mut native = FakeNative::new();

    assert_eq!(
        key_tap(&hook, &mut native, KeyCode::A, &[KeyCode::ShiftL]),
        Ok(())
    );

    assert_eq!(native.posted.len(), 4);
    assert_eq!(native.posted[0].type_, EVENT_KEY_PRESSED);
    assert_eq!(native.posted[0].keyboard.keycode, VC_SHIFT_L as u16);
    assert_eq!(native.posted[1].type_, EVENT_KEY_PRESSED);
    assert_eq!(native.posted[1].keyboard.keycode, VC_A as u16);
    assert_eq!(native.posted[2].type_, EVENT_KEY_RELEASED);
    assert_eq!(native.posted[2].keyboard.keycode, VC_A as u16);
    assert_eq!(native.posted[3].type_, EVENT_KEY_RELEASED);
    assert_eq!(native.posted[3].keyboard.keycode, VC_SHIFT_L as u16);
}

#[test]
fn test_key_tap_nests_two_modifiers_properly() {
    let hook = Uiohook::new(QuietHandler);
    let mut native = FakeNative::new();

    assert_eq!(
        key_tap(
            &hook,
            &mut native,
            KeyCode::S,
            &[KeyCode::ControlL, KeyCode::AltL]
        ),
        Ok(())
    );

    let codes: Vec<(u32, u16)> = native
        .posted
        .iter()
        .map(|r| (r.type_, r.keyboard.keycode))
        .collect();
    assert_eq!(
        codes,
        vec![
            (EVENT_KEY_PRESSED, u32::from(KeyCode::ControlL) as u16),
            (EVENT_KEY_PRESSED, u32::from(KeyCode::AltL) as u16),
            (EVENT_KEY_PRESSED, u32::from(KeyCode::S) as u16),
            (EVENT_KEY_RELEASED, u32::from(KeyCode::S) as u16),
            (EVENT_KEY_RELEASED, u32::from(KeyCode::AltL) as u16),
            (EVENT_KEY_RELEASED, u32::from(KeyCode::ControlL) as u16),
        ]
    );
}

#[test]
fn test_key_toggle_posts_one_record_per_direction() {
    let hook = Uiohook::new(QuietHandler);
    let mut native = FakeNative::new();

    assert_eq!(key_toggle(&hook, &mut native, KeyCode::ShiftL, true), Ok(()));
    assert_eq!(
        key_toggle(&hook, &mut native, KeyCode::ShiftL, false),
        Ok(())
    );

    assert_eq!(native.posted.len(), 2);
    assert_eq!(native.posted[0].type_, EVENT_KEY_PRESSED);
    assert_eq!(native.posted[1].type_, EVENT_KEY_RELEASED);
    assert_eq!(native.posted[0].keyboard.keychar, 0);
}

#[test]
fn test_mouse_click_posts_press_then_release_in_place() {
    let hook = Uiohook::new(QuietHandler);
    let mut native = FakeNative::new();

    assert_eq!(
        mouse_click(&hook, &mut native, MouseButton::Button1, 100, 100),
        Ok(())
    );

    assert_eq!(native.posted.len(), 2);
    assert_eq!(native.posted[0].type_, EVENT_MOUSE_PRESSED);
    assert_eq!(native.posted[1].type_, EVENT_MOUSE_RELEASED);
    for raw in &native.posted {
        assert_eq!(raw.mouse.button, 1);
        assert_eq!(raw.mouse.clicks, 1);
        assert_eq!(raw.mouse.x, 100);
        assert_eq!(raw.mouse.y, 100);
    }
}

#[test]
fn test_mouse_move_posts_a_buttonless_moved_record() {
    let hook = Uiohook::new(QuietHandler);
    let mut native = FakeNative::new();

    assert_eq!(mouse_move(&hook, &mut native, 200, 200), Ok(()));

    assert_eq!(native.posted.len(), 1);
    assert_eq!(native.posted[0].type_, EVENT_MOUSE_MOVED);
    assert_eq!(native.posted[0].mouse.button, 0);
    assert_eq!(native.posted[0].mouse.clicks, 0);
    assert_eq!(native.posted[0].mouse.x, 200);
    assert_eq!(native.posted[0].mouse.y, 200);
}

#[test]
fn test_legacy_lifecycle_reports_not_initialized_first() {
    let mut slot = DispatchSlot::new();
    let mut native = FakeNative::new();

    let missing: Option<&Uiohook<QuietHandler>> = None;
    assert_eq!(
        uiohook_rs::legacy::run(missing, &mut slot, &mut native),
        Err(UiohookError::NotInitialized)
    );
    assert_eq!(
        uiohook_rs::legacy::stop(&mut slot, &mut native),
        Err(UiohookError::NotRunning)
    );

    let hook = Uiohook::new(QuietHandler);
    assert_eq!(
        uiohook_rs::legacy::run(Some(&hook), &mut slot, &mut native),
        Ok(())
    );
    assert_eq!(uiohook_rs::legacy::stop(&mut slot, &mut native), Ok(()));
}

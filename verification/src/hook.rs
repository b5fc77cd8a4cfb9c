//! The typed event model and the hook lifecycle.
//!
//! This module is the bridge between the native engine's flat record and
//! the application: it converts records to typed, owned events and back,
//! and it drives the run/stop/post lifecycle around the engine's single
//! process-wide callback registration.
//!
//! The engine itself stands behind the [`NativeHook`] capability.  The one
//! piece of process-wide state -- whether the trampoline is registered and
//! whether some controller is running -- is the explicit [`DispatchSlot`]
//! value, which every controller of a process must share; holding it in a
//! process global, together with the threads that pump the engine's
//! blocking loop, is the embedding program's part.

use vstd::prelude::*;

use crate::error::{is_protocol_error, lemma_code_mapping_never_protocol, UiohookError};
use crate::native::{
    KeyboardData, MouseData, RawEvent, WheelData, EVENT_HOOK_DISABLED, EVENT_HOOK_ENABLED,
    EVENT_KEY_PRESSED, EVENT_KEY_RELEASED, EVENT_KEY_TYPED, EVENT_MOUSE_CLICKED,
    EVENT_MOUSE_DRAGGED, EVENT_MOUSE_MOVED, EVENT_MOUSE_PRESSED, EVENT_MOUSE_RELEASED,
    EVENT_MOUSE_WHEEL, UIOHOOK_SUCCESS,
};
use self::keyboard::{
    key_code_of, key_code_value, lemma_key_code_roundtrip, lemma_key_code_value_bound,
    spec_char_from_code, KeyboardEvent, KeyboardEventType,
};
use self::mouse::{
    lemma_mouse_button_roundtrip, mouse_button_of, mouse_button_value, MouseEvent, MouseEventType,
};
use self::wheel::{spec_wheel_from_data, WheelEvent};

pub mod keyboard;
pub mod mouse;
pub mod wheel;

verus! {

/// The capability an application hands in to receive events.
///
/// The hook invokes the handler from whatever thread the native engine
/// dispatches on, so implementations must be callable concurrently from an
/// arbitrary thread and must not assume exclusive access to any global
/// state.
pub trait EventHandler: Send + Sync {
    /// Handle one typed event.
    fn handle_event(&self, event: &UiohookEvent);
}

/// The capability that stands for the native engine's entry points.
///
/// The library decides *when* each entry point is called and what its
/// status code means; what the engine then does is outside the library.
/// Embedding programs implement this over the real engine, driving its
/// blocking loop on a worker thread; tests implement it over a recording
/// fake, so the lifecycle and the injection helpers run against it
/// unchanged.
pub trait NativeHook {
    /// Register the process-wide dispatch trampoline with the engine.
    fn set_dispatch_proc(&mut self);

    /// Start delivering events, returning the engine's status code.
    fn run_loop(&mut self) -> i32;

    /// Ask the engine to leave its event loop, returning its status code.
    fn stop_loop(&mut self) -> i32;

    /// Hand one raw record to the engine for synthetic delivery.
    fn post_event(&mut self, event: &RawEvent);
}

/// The process-wide dispatch state: whether the one permissible trampoline
/// registration has happened, and whether some controller is running.
///
/// The native engine supports one callback and one hook per process, so
/// every controller in a process must share one value of this type.
#[derive(Debug, Clone, Copy, PartialEq, Eq, Structural)]
pub struct DispatchSlot {
    /// Whether the dispatch trampoline has been registered; registration
    /// happens at most once per process lifetime and is never undone.
    pub registered: bool,
    /// Whether some controller currently runs the hook.
    pub running: bool,
}

impl DispatchSlot {
    /// The state of a process that has never run a hook.
    pub open spec fn spec_initial() -> DispatchSlot {
        DispatchSlot { registered: false, running: false }
    }

    /// Creates the initial dispatch state: nothing registered, nothing
    /// running.
    pub fn new() -> (slot: DispatchSlot)
        ensures
            slot == DispatchSlot::spec_initial(),
    {
        DispatchSlot { registered: false, running: false }
    }
}

/// What one `run` call does to the dispatch state and reports back.
///
/// A call on a running slot is rejected with `AlreadyRunning` and changes
/// nothing, and `AlreadyRunning` is reported in no other case.  A call on
/// an idle slot leaves the trampoline registered; it reports `Ok` exactly
/// when the hook is running afterwards, and any error it reports besides
/// `AlreadyRunning` is a native-origin kind.
pub open spec fn run_transition(
    pre: DispatchSlot,
    post: DispatchSlot,
    r: Result<(), UiohookError>,
) -> bool {
    &&& (pre.running <==> r == Err::<(), UiohookError>(UiohookError::AlreadyRunning))
    &&& (pre.running ==> post == pre)
    &&& (!pre.running ==> post.registered)
    &&& (!pre.running ==> (r is Ok <==> post.running))
    &&& (r matches Err(e) ==> e == UiohookError::AlreadyRunning || (!is_protocol_error(e)
        && !(e is UnknownMouseButton)))
}

/// What one `stop` call does to the dispatch state and reports back.
///
/// A call on an idle slot is rejected with `NotRunning` and changes
/// nothing, and `NotRunning` is reported in no other case.  A call on a
/// running slot always leaves the hook idle, even when the engine reports
/// an error -- the error is surfaced, but the state still transitions --
/// and any error besides `NotRunning` is a native-origin kind.
pub open spec fn stop_transition(
    pre: DispatchSlot,
    post: DispatchSlot,
    r: Result<(), UiohookError>,
) -> bool {
    &&& (!pre.running <==> r == Err::<(), UiohookError>(UiohookError::NotRunning))
    &&& (!pre.running ==> post == pre)
    &&& (pre.running ==> !post.running && post.registered == pre.registered)
    &&& (r matches Err(e) ==> e == UiohookError::NotRunning || (!is_protocol_error(e) && !(
    e is UnknownMouseButton)))
}

/// The hook controller: owns a handler and drives the run/stop/post
/// lifecycle against the shared dispatch state and the native engine.
pub struct Uiohook<H: EventHandler> {
    event_handler: H,
}

impl<H: EventHandler> Uiohook<H> {
    /// The handler this controller routes events to.
    pub closed spec fn spec_handler(&self) -> &H {
        &self.event_handler
    }

    /// Creates an idle controller owning the given handler.  No native
    /// interaction happens here.
    pub fn new(event_handler: H) -> (hook: Self)
        ensures
            *hook.spec_handler() == event_handler,
    {
        Uiohook { event_handler }
    }

    /// Starts the hook.
    ///
    /// Requires the idle state: a call while any controller runs is
    /// rejected with `AlreadyRunning`.  On the first start of the process
    /// the dispatch trampoline is registered, once and for all.  The
    /// running flag is set before the fallible native call and rolled back
    /// if the engine reports a failure, so a retry stays possible.
    pub fn run<N: NativeHook>(&self, slot: &mut DispatchSlot, native: &mut N) -> (r: Result<
        (),
        UiohookError,
    >)
        ensures
            run_transition(*old(slot), *final(slot), r),
    {
        if slot.running {
            return Err(UiohookError::AlreadyRunning);
        }
        slot.running = true;
        if !slot.registered {
            native.set_dispatch_proc();
            slot.registered = true;
        }
        let status = native.run_loop();
        if status == UIOHOOK_SUCCESS as i32 {
            Ok(())
        } else {
            slot.running = false;
            proof {
                lemma_code_mapping_never_protocol(status as u32);
            }
            Err(UiohookError::from(status as u32))
        }
    }

    /// Stops the hook.
    ///
    /// Requires the running state: a call while no controller runs is
    /// rejected with `NotRunning`.  The state leaves the running flag
    /// cleared even when the engine reports a stop failure -- the native
    /// resource may be unrecoverable otherwise -- and that failure is
    /// surfaced to the caller.
    pub fn stop<N: NativeHook>(&self, slot: &mut DispatchSlot, native: &mut N) -> (r: Result<
        (),
        UiohookError,
    >)
        ensures
            stop_transition(*old(slot), *final(slot), r),
    {
        stop_hook(slot, native)
    }

    /// Posts a synthetic event.
    ///
    /// The typed event is converted to a raw record and handed to the
    /// engine's injection entry point.  Conversion is total and the
    /// injection entry point has no failure channel, so the call succeeds
    /// for every event, in any lifecycle state.
    pub fn post_event<N: NativeHook>(&self, native: &mut N, event: &UiohookEvent) -> (r: Result<
        (),
        UiohookError,
    >)
        ensures
            r is Ok,
    {
        let raw = event.to_raw_event();
        native.post_event(&raw);
        Ok(())
    }
}

/// A typed, owned event: safe to hold, clone, send across threads and
/// inspect after the native callback has returned.
#[derive(Debug, Clone)]
pub enum UiohookEvent {
    /// Keyboard event: key press, release, or typed character.
    Keyboard(KeyboardEvent),
    /// Mouse event: movement, button press, release, click, or drag.
    Mouse(MouseEvent),
    /// Mouse wheel event.
    Wheel(WheelEvent),
    /// The hook began capturing input.
    HookEnabled,
    /// The hook stopped capturing input.
    HookDisabled,
}

/// Whether a record discriminant selects the keyboard payload.
pub open spec fn is_keyboard_event_type(t: u32) -> bool {
    t == EVENT_KEY_PRESSED || t == EVENT_KEY_RELEASED || t == EVENT_KEY_TYPED
}

/// Whether a record discriminant selects the mouse payload.
pub open spec fn is_mouse_event_type(t: u32) -> bool {
    t == EVENT_MOUSE_CLICKED || t == EVENT_MOUSE_PRESSED || t == EVENT_MOUSE_RELEASED
        || t == EVENT_MOUSE_MOVED || t == EVENT_MOUSE_DRAGGED
}

/// The keyboard phase a record discriminant denotes.
pub open spec fn spec_keyboard_phase(t: u32) -> KeyboardEventType {
    if t == EVENT_KEY_PRESSED {
        KeyboardEventType::Pressed
    } else if t == EVENT_KEY_RELEASED {
        KeyboardEventType::Released
    } else {
        KeyboardEventType::Typed
    }
}

/// The record discriminant a keyboard phase is written as.
pub open spec fn spec_keyboard_phase_value(t: KeyboardEventType) -> u32 {
    match t {
        KeyboardEventType::Pressed => EVENT_KEY_PRESSED,
        KeyboardEventType::Released => EVENT_KEY_RELEASED,
        KeyboardEventType::Typed => EVENT_KEY_TYPED,
    }
}

/// The mouse phase a record discriminant denotes.
pub open spec fn spec_mouse_phase(t: u32) -> MouseEventType {
    if t == EVENT_MOUSE_CLICKED {
        MouseEventType::Clicked
    } else if t == EVENT_MOUSE_PRESSED {
        MouseEventType::Pressed
    } else if t == EVENT_MOUSE_RELEASED {
        MouseEventType::Released
    } else if t == EVENT_MOUSE_MOVED {
        MouseEventType::Moved
    } else {
        MouseEventType::Dragged
    }
}

/// The record discriminant a mouse phase is written as.
pub open spec fn spec_mouse_phase_value(t: MouseEventType) -> u32 {
    match t {
        MouseEventType::Moved => EVENT_MOUSE_MOVED,
        MouseEventType::Pressed => EVENT_MOUSE_PRESSED,
        MouseEventType::Released => EVENT_MOUSE_RELEASED,
        MouseEventType::Clicked => EVENT_MOUSE_CLICKED,
        MouseEventType::Dragged => EVENT_MOUSE_DRAGGED,
    }
}

/// The typed keyboard event a record denotes.  The character is kept for
/// typed events only: presses and releases produce no character.
pub open spec fn spec_keyboard_event_of(r: RawEvent) -> KeyboardEvent {
    KeyboardEvent {
        event_type: spec_keyboard_phase(r.type_),
        key_code: key_code_of(r.keyboard.keycode as u32),
        raw_code: r.keyboard.rawcode,
        key_char: if r.type_ == EVENT_KEY_TYPED {
            spec_char_from_code(r.keyboard.keychar as u32)
        } else {
            None
        },
    }
}

/// The typed mouse event a record denotes.
pub open spec fn spec_mouse_event_of(r: RawEvent) -> MouseEvent {
    MouseEvent {
        event_type: spec_mouse_phase(r.type_),
        button: mouse_button_of(r.mouse.button as u32),
        clicks: r.mouse.clicks,
        x: r.mouse.x,
        y: r.mouse.y,
    }
}

/// The typed event a raw record denotes: keyed on the discriminant, with
/// `Unknown(discriminant)` for records outside the known set, never a
/// crash.
pub open spec fn spec_from_raw(r: RawEvent) -> Result<UiohookEvent, UiohookError> {
    if r.type_ == EVENT_HOOK_ENABLED {
        Ok(UiohookEvent::HookEnabled)
    } else if r.type_ == EVENT_HOOK_DISABLED {
        Ok(UiohookEvent::HookDisabled)
    } else if is_keyboard_event_type(r.type_) {
        Ok(UiohookEvent::Keyboard(spec_keyboard_event_of(r)))
    } else if is_mouse_event_type(r.type_) {
        Ok(UiohookEvent::Mouse(spec_mouse_event_of(r)))
    } else if r.type_ == EVENT_MOUSE_WHEEL {
        Ok(UiohookEvent::Wheel(spec_wheel_from_data(r.wheel)))
    } else {
        Err(UiohookError::Unknown(r.type_))
    }
}

/// The sixteen-bit character code a typed event's character is written as;
/// zero when there is none.
pub open spec fn spec_keychar_value(c: Option<char>) -> u16 {
    match c {
        Some(ch) => if (ch as u32) <= 0xFFFF {
            (ch as u32) as u16
        } else {
            0
        },
        None => 0,
    }
}

/// The raw record a typed event is written as: the discriminant and the
/// payload the variant selects, with every other field zero-filled.
pub open spec fn spec_to_raw(e: UiohookEvent) -> RawEvent {
    let z = RawEvent::spec_zeroed();
    match e {
        UiohookEvent::HookEnabled => RawEvent { type_: EVENT_HOOK_ENABLED, ..z },
        UiohookEvent::HookDisabled => RawEvent { type_: EVENT_HOOK_DISABLED, ..z },
        UiohookEvent::Keyboard(ke) => RawEvent {
            type_: spec_keyboard_phase_value(ke.event_type),
            keyboard: KeyboardData {
                keycode: key_code_value(ke.key_code) as u16,
                rawcode: ke.raw_code,
                keychar: spec_keychar_value(ke.key_char),
            },
            ..z
        },
        UiohookEvent::Mouse(me) => RawEvent {
            type_: spec_mouse_phase_value(me.event_type),
            mouse: MouseData {
                button: mouse_button_value(me.button) as u16,
                clicks: me.clicks,
                x: me.x,
                y: me.y,
            },
            ..z
        },
        UiohookEvent::Wheel(we) => RawEvent {
            type_: EVENT_MOUSE_WHEEL,
            wheel: WheelData {
                clicks: we.clicks,
                x: we.x,
                y: we.y,
                type_: we.type_,
                amount: we.amount,
                rotation: we.rotation,
                direction: we.direction,
            },
            ..z
        },
    }
}

impl UiohookEvent {
    /// Builds the typed keyboard event of a record carrying a keyboard
    /// discriminant.
    pub fn create_keyboard_event(event: &RawEvent) -> (ke: KeyboardEvent)
        requires
            is_keyboard_event_type(event.type_),
        ensures
            ke == spec_keyboard_event_of(*event),
    {
        let mut ke = KeyboardEvent::from(&event.keyboard);
        if event.type_ == EVENT_KEY_PRESSED {
            ke.event_type = KeyboardEventType::Pressed;
            ke.key_char = None;
        } else if event.type_ == EVENT_KEY_RELEASED {
            ke.event_type = KeyboardEventType::Released;
            ke.key_char = None;
        } else {
            ke.event_type = KeyboardEventType::Typed;
        }
        ke
    }

    /// Builds the typed mouse event of a record carrying a mouse
    /// discriminant.
    pub fn create_mouse_event(event: &RawEvent) -> (me: MouseEvent)
        requires
            is_mouse_event_type(event.type_),
        ensures
            me == spec_mouse_event_of(*event),
    {
        let mut me = MouseEvent::from(&event.mouse);
        if event.type_ == EVENT_MOUSE_CLICKED {
            me.event_type = MouseEventType::Clicked;
        } else if event.type_ == EVENT_MOUSE_PRESSED {
            me.event_type = MouseEventType::Pressed;
        } else if event.type_ == EVENT_MOUSE_RELEASED {
            me.event_type = MouseEventType::Released;
        } else if event.type_ == EVENT_MOUSE_MOVED {
            me.event_type = MouseEventType::Moved;
        } else {
            me.event_type = MouseEventType::Dragged;
        }
        me
    }

    /// Builds the typed wheel event of a record carrying the wheel
    /// discriminant.
    pub fn create_wheel_event(event: &RawEvent) -> (we: WheelEvent)
        ensures
            we == spec_wheel_from_data(event.wheel),
    {
        WheelEvent::from(&event.wheel)
    }

    /// Converts a raw record into a typed event, copying every needed
    /// field out of the record.
    ///
    /// Total over all records: a discriminant outside the known set
    /// reports `Unknown(discriminant)` rather than failing fatally.
    pub fn from_raw_event(event: &RawEvent) -> (r: Result<UiohookEvent, UiohookError>)
        ensures
            r == spec_from_raw(*event),
    {
        if event.type_ == EVENT_HOOK_ENABLED {
            Ok(UiohookEvent::HookEnabled)
        } else if event.type_ == EVENT_HOOK_DISABLED {
            Ok(UiohookEvent::HookDisabled)
        } else if event.type_ == EVENT_KEY_PRESSED || event.type_ == EVENT_KEY_RELEASED
            || event.type_ == EVENT_KEY_TYPED {
            Ok(UiohookEvent::Keyboard(Self::create_keyboard_event(event)))
        } else if event.type_ == EVENT_MOUSE_CLICKED || event.type_ == EVENT_MOUSE_PRESSED
            || event.type_ == EVENT_MOUSE_RELEASED || event.type_ == EVENT_MOUSE_MOVED
            || event.type_ == EVENT_MOUSE_DRAGGED {
            Ok(UiohookEvent::Mouse(Self::create_mouse_event(event)))
        } else if event.type_ == EVENT_MOUSE_WHEEL {
            Ok(UiohookEvent::Wheel(Self::create_wheel_event(event)))
        } else {
            Err(UiohookError::Unknown(event.type_))
        }
    }

    /// Converts a typed event back into a raw record for injection,
    /// zero-filling every field the variant does not use.
    pub fn to_raw_event(&self) -> (r: RawEvent)
        ensures
            r == spec_to_raw(*self),
    {
        let mut raw = RawEvent::zeroed();
        match self {
            UiohookEvent::HookEnabled => {
                raw.type_ = EVENT_HOOK_ENABLED;
            },
            UiohookEvent::HookDisabled => {
                raw.type_ = EVENT_HOOK_DISABLED;
            },
            UiohookEvent::Keyboard(ke) => {
                raw.type_ = match ke.event_type {
                    KeyboardEventType::Pressed => EVENT_KEY_PRESSED,
                    KeyboardEventType::Released => EVENT_KEY_RELEASED,
                    KeyboardEventType::Typed => EVENT_KEY_TYPED,
                };
                raw.keyboard.keycode = u32::from(ke.key_code) as u16;
                raw.keyboard.rawcode = ke.raw_code;
                raw.keyboard.keychar = match ke.key_char {
                    Some(c) => {
                        let v = c as u32;
                        if v <= 0xFFFF {
                            v as u16
                        } else {
                            0
                        }
                    },
                    None => 0,
                };
            },
            UiohookEvent::Mouse(me) => {
                raw.type_ = match me.event_type {
                    MouseEventType::Moved => EVENT_MOUSE_MOVED,
                    MouseEventType::Pressed => EVENT_MOUSE_PRESSED,
                    MouseEventType::Released => EVENT_MOUSE_RELEASED,
                    MouseEventType::Clicked => EVENT_MOUSE_CLICKED,
                    MouseEventType::Dragged => EVENT_MOUSE_DRAGGED,
                };
                raw.mouse.button = u32::from(me.button) as u16;
                raw.mouse.clicks = me.clicks;
                raw.mouse.x = me.x;
                raw.mouse.y = me.y;
            },
            UiohookEvent::Wheel(we) => {
                raw.type_ = EVENT_MOUSE_WHEEL;
                raw.wheel.clicks = we.clicks;
                raw.wheel.x = we.x;
                raw.wheel.y = we.y;
                raw.wheel.type_ = we.type_;
                raw.wheel.amount = we.amount;
                raw.wheel.rotation = we.rotation;
                raw.wheel.direction = we.direction;
            },
        }
        raw
    }
}

/// Clears the running flag and asks the engine to leave its loop; the
/// flag clears even when the engine reports a failure.  This is the one
/// stop path, shared by every surface that stops the hook.
pub(crate) fn stop_hook<N: NativeHook>(slot: &mut DispatchSlot, native: &mut N) -> (r: Result<
    (),
    UiohookError,
>)
    ensures
        stop_transition(*old(slot), *final(slot), r),
{
    if !slot.running {
        return Err(UiohookError::NotRunning);
    }
    slot.running = false;
    let status = native.stop_loop();
    if status == UIOHOOK_SUCCESS as i32 {
        Ok(())
    } else {
        proof {
            lemma_code_mapping_never_protocol(status as u32);
        }
        Err(UiohookError::from(status as u32))
    }
}

/// Routes one raw record to a handler: the record is converted to a typed
/// event and handed over.  A record whose discriminant is outside the
/// known set is dropped silently -- between teardown and a new start that
/// is the expected state, not an error.
pub fn dispatch_proc<H: EventHandler>(handler: &H, event: &RawEvent) {
    match UiohookEvent::from_raw_event(event) {
        Ok(typed) => handler.handle_event(&typed),
        Err(_) => (),
    }
}

/// The events whose conversion to a raw record loses nothing: every
/// variant except a keyboard event whose character field steps outside
/// what the record's sixteen-bit character code can carry.  A press or
/// release carries no character, and a typed event's character must fit
/// the sixteen-bit code.
pub open spec fn roundtrippable(e: UiohookEvent) -> bool {
    match e {
        UiohookEvent::Keyboard(ke) => match ke.event_type {
            KeyboardEventType::Typed => ke.key_char matches Some(c) && c as u32 <= 0xFFFF,
            _ => ke.key_char is None,
        },
        _ => true,
    }
}

/// Round trip: converting a typed event to a raw record and back
/// reproduces the event exactly -- phase, codes and coordinates -- for
/// every event within the character caveat of `roundtrippable`.
pub proof fn lemma_event_roundtrip(e: UiohookEvent)
    requires
        roundtrippable(e),
    ensures
        spec_from_raw(spec_to_raw(e)) == Ok::<UiohookEvent, UiohookError>(e),
{
    match e {
        UiohookEvent::Keyboard(ke) => {
            lemma_key_code_value_bound(ke.key_code);
            lemma_key_code_roundtrip(ke.key_code);
            if ke.event_type == KeyboardEventType::Typed {
                let c = ke.key_char->Some_0;
                vstd::utf8::char_is_scalar(c);
                vstd::utf8::char_u32_cast(c, c as u32);
            }
        },
        UiohookEvent::Mouse(me) => {
            lemma_mouse_button_roundtrip(me.button);
        },
        _ => (),
    }
}

/// Only one hook per process: while a controller runs, any further `run`
/// call -- from this controller or another sharing the slot -- is rejected
/// with `AlreadyRunning` and changes nothing.
pub proof fn lemma_second_run_rejected(
    s0: DispatchSlot,
    s1: DispatchSlot,
    s2: DispatchSlot,
    r1: Result<(), UiohookError>,
    r2: Result<(), UiohookError>,
)
    requires
        run_transition(s0, s1, r1),
        r1 is Ok,
        run_transition(s1, s2, r2),
    ensures
        r2 == Err::<(), UiohookError>(UiohookError::AlreadyRunning),
        s2 == s1,
{
}

/// Stopping a hook that does not run is rejected with `NotRunning` and
/// changes nothing.
pub proof fn lemma_stop_idle_rejected(
    s0: DispatchSlot,
    s1: DispatchSlot,
    r: Result<(), UiohookError>,
)
    requires
        !s0.running,
        stop_transition(s0, s1, r),
    ensures
        r == Err::<(), UiohookError>(UiohookError::NotRunning),
        s1 == s0,
{
}

/// The lifecycle is re-entrant: after a successful `run` and a `stop`, a
/// further `run` is not rejected as already running, and it reports `Ok`
/// exactly when the hook runs again afterwards.
pub proof fn lemma_lifecycle_reentrant(
    s0: DispatchSlot,
    s1: DispatchSlot,
    s2: DispatchSlot,
    s3: DispatchSlot,
    r1: Result<(), UiohookError>,
    r2: Result<(), UiohookError>,
    r3: Result<(), UiohookError>,
)
    requires
        run_transition(s0, s1, r1),
        r1 is Ok,
        stop_transition(s1, s2, r2),
        run_transition(s2, s3, r3),
    ensures
        r3 != Err::<(), UiohookError>(UiohookError::AlreadyRunning),
        r3 is Ok <==> s3.running,
{
}

} // verus!

//! The earlier, flat event surface, kept for programs written against it.
//!
//! Events here carry plain numbers where the current surface carries
//! symbolic enumerations, keyboard events come with a display name, and
//! mouse and wheel observations share one structure.  The lifecycle
//! entry points mirror the old free functions: a process registers one
//! hook and then runs and stops it without holding the controller; the
//! extra `NotInitialized` report covers running before any hook was
//! registered.

use vstd::prelude::*;

use crate::error::UiohookError;
use crate::hook::keyboard::{
    KeyCode, KeyboardEvent as NewKeyboardEvent, KeyboardEventType as NewKeyboardEventType,
};
use crate::hook::mouse::{
    mouse_button_value, MouseEvent as NewMouseEvent, MouseEventType as NewMouseEventType,
};
use crate::hook::wheel::WheelEvent;
use crate::hook::{
    run_transition, stop_transition, DispatchSlot, EventHandler, NativeHook, Uiohook, UiohookEvent,
};

verus! {

/// The phase of a keyboard event, as the earlier surface named it.
#[derive(Debug, Clone, Copy, PartialEq, Eq, Structural)]
pub enum KeyboardEventType {
    Pressed,
    Released,
    Typed,
}

/// A keyboard event of the earlier surface: numeric key code, scan code,
/// optional character and display name.
#[derive(Debug, Clone)]
pub struct KeyboardEvent {
    pub event_type: KeyboardEventType,
    pub key_code: u16,
    pub key_raw: u16,
    pub key_char: Option<char>,
    pub key_name: Option<&'static str>,
}

/// The phase of a mouse event, as the earlier surface named it; wheel
/// observations share the structure under their own phase.
#[derive(Debug, Clone, Copy, PartialEq, Eq, Structural)]
pub enum MouseEventType {
    Moved,
    Pressed,
    Released,
    Clicked,
    Dragged,
    Wheel,
}

/// A mouse or wheel event of the earlier surface.
#[derive(Debug, Clone)]
pub struct MouseEvent {
    pub event_type: MouseEventType,
    pub clicks: u16,
    pub x: i16,
    pub y: i16,
    pub button: u16,
    pub amount: u16,
    pub rotation: i16,
    pub direction: u8,
}

/// The display name that each symbolic key carries.
pub open spec fn spec_key_name(key_code: KeyCode) -> &'static str {
    match key_code {
        KeyCode::Escape => "Escape",
        KeyCode::F1 => "F1",
        KeyCode::F2 => "F2",
        KeyCode::F3 => "F3",
        KeyCode::F4 => "F4",
        KeyCode::F5 => "F5",
        KeyCode::F6 => "F6",
        KeyCode::F7 => "F7",
        KeyCode::F8 => "F8",
        KeyCode::F9 => "F9",
        KeyCode::F10 => "F10",
        KeyCode::F11 => "F11",
        KeyCode::F12 => "F12",
        KeyCode::F13 => "F13",
        KeyCode::F14 => "F14",
        KeyCode::F15 => "F15",
        KeyCode::F16 => "F16",
        KeyCode::F17 => "F17",
        KeyCode::F18 => "F18",
        KeyCode::F19 => "F19",
        KeyCode::F20 => "F20",
        KeyCode::F21 => "F21",
        KeyCode::F22 => "F22",
        KeyCode::F23 => "F23",
        KeyCode::F24 => "F24",
        KeyCode::Backquote => "Backquote",
        KeyCode::Num1 => "1",
        KeyCode::Num2 => "2",
        KeyCode::Num3 => "3",
        KeyCode::Num4 => "4",
        KeyCode::Num5 => "5",
        KeyCode::Num6 => "6",
        KeyCode::Num7 => "7",
        KeyCode::Num8 => "8",
        KeyCode::Num9 => "9",
        KeyCode::Num0 => "0",
        KeyCode::Minus => "Minus",
        KeyCode::Equals => "Equals",
        KeyCode::Backspace => "Backspace",
        KeyCode::Tab => "Tab",
        KeyCode::CapsLock => "Caps Lock",
        KeyCode::A => "A",
        KeyCode::B => "B",
        KeyCode::C => "C",
        KeyCode::D => "D",
        KeyCode::E => "E",
        KeyCode::F => "F",
        KeyCode::G => "G",
        KeyCode::H => "H",
        KeyCode::I => "I",
        KeyCode::J => "J",
        KeyCode::K => "K",
        KeyCode::L => "L",
        KeyCode::M => "M",
        KeyCode::N => "N",
        KeyCode::O => "O",
        KeyCode::P => "P",
        KeyCode::Q => "Q",
        KeyCode::R => "R",
        KeyCode::S => "S",
        KeyCode::T => "T",
        KeyCode::U => "U",
        KeyCode::V => "V",
        KeyCode::W => "W",
        KeyCode::X => "X",
        KeyCode::Y => "Y",
        KeyCode::Z => "Z",
        KeyCode::OpenBracket => "Open Bracket",
        KeyCode::CloseBracket => "Close Bracket",
        KeyCode::Backslash => "Backslash",
        KeyCode::Semicolon => "Semicolon",
        KeyCode::Quote => "Quote",
        KeyCode::Enter => "Enter",
        KeyCode::Comma => "Comma",
        KeyCode::Period => "Period",
        KeyCode::Slash => "Slash",
        KeyCode::Space => "Space",
        KeyCode::PrintScreen => "Print Screen",
        KeyCode::ScrollLock => "Scroll Lock",
        KeyCode::Pause => "Pause",
        KeyCode::LesserGreater => "Less/Greater",
        KeyCode::Insert => "Insert",
        KeyCode::Delete => "Delete",
        KeyCode::Home => "Home",
        KeyCode::End => "End",
        KeyCode::PageUp => "Page Up",
        KeyCode::PageDown => "Page Down",
        KeyCode::Up => "Up",
        KeyCode::Left => "Left",
        KeyCode::Clear => "Clear",
        KeyCode::Right => "Right",
        KeyCode::Down => "Down",
        KeyCode::NumLock => "Num Lock",
        KeyCode::KpDivide => "Keypad Divide",
        KeyCode::KpMultiply => "Keypad Multiply",
        KeyCode::KpSubtract => "Keypad Subtract",
        KeyCode::KpEquals => "Keypad Equals",
        KeyCode::KpAdd => "Keypad Add",
        KeyCode::KpEnter => "Keypad Enter",
        KeyCode::KpSeparator => "Keypad Separator",
        KeyCode::Kp1 => "Keypad 1",
        KeyCode::Kp2 => "Keypad 2",
        KeyCode::Kp3 => "Keypad 3",
        KeyCode::Kp4 => "Keypad 4",
        KeyCode::Kp5 => "Keypad 5",
        KeyCode::Kp6 => "Keypad 6",
        KeyCode::Kp7 => "Keypad 7",
        KeyCode::Kp8 => "Keypad 8",
        KeyCode::Kp9 => "Keypad 9",
        KeyCode::Kp0 => "Keypad 0",
        KeyCode::KpEnd => "Keypad End",
        KeyCode::KpDown => "Keypad Down",
        KeyCode::KpPageDown => "Keypad Page Down",
        KeyCode::KpLeft => "Keypad Left",
        KeyCode::KpClear => "Keypad Clear",
        KeyCode::KpRight => "Keypad Right",
        KeyCode::KpHome => "Keypad Home",
        KeyCode::KpUp => "Keypad Up",
        KeyCode::KpPageUp => "Keypad Page Up",
        KeyCode::KpInsert => "Keypad Insert",
        KeyCode::KpDelete => "Keypad Delete",
        KeyCode::ShiftL => "Left Shift",
        KeyCode::ShiftR => "Right Shift",
        KeyCode::ControlL => "Left Control",
        KeyCode::ControlR => "Right Control",
        KeyCode::AltL => "Left Alt",
        KeyCode::AltR => "Right Alt",
        KeyCode::MetaL => "Left Meta",
        KeyCode::MetaR => "Right Meta",
        KeyCode::ContextMenu => "Context Menu",
        KeyCode::Power => "Power",
        KeyCode::Sleep => "Sleep",
        KeyCode::Wake => "Wake",
        KeyCode::MediaPlay => "Media Play",
        KeyCode::MediaStop => "Media Stop",
        KeyCode::MediaPrevious => "Media Previous",
        KeyCode::MediaNext => "Media Next",
        KeyCode::MediaSelect => "Media Select",
        KeyCode::MediaEject => "Media Eject",
        KeyCode::VolumeMute => "Volume Mute",
        KeyCode::VolumeUp => "Volume Up",
        KeyCode::VolumeDown => "Volume Down",
        KeyCode::AppMail => "App Mail",
        KeyCode::AppCalculator => "App Calculator",
        KeyCode::AppMusic => "App Music",
        KeyCode::AppPictures => "App Pictures",
        KeyCode::BrowserSearch => "Browser Search",
        KeyCode::BrowserHome => "Browser Home",
        KeyCode::BrowserBack => "Browser Back",
        KeyCode::BrowserForward => "Browser Forward",
        KeyCode::BrowserStop => "Browser Stop",
        KeyCode::BrowserRefresh => "Browser Refresh",
        KeyCode::BrowserFavorites => "Browser Favorites",
        KeyCode::Katakana => "Katakana",
        KeyCode::Underscore => "Underscore",
        KeyCode::Furigana => "Furigana",
        KeyCode::Kanji => "Kanji",
        KeyCode::Hiragana => "Hiragana",
        KeyCode::Yen => "Yen",
        KeyCode::KpComma => "Keypad Comma",
        KeyCode::SunHelp => "Sun Help",
        KeyCode::SunStop => "Sun Stop",
        KeyCode::SunProps => "Sun Props",
        KeyCode::SunFront => "Sun Front",
        KeyCode::SunOpen => "Sun Open",
        KeyCode::SunFind => "Sun Find",
        KeyCode::SunAgain => "Sun Again",
        KeyCode::SunUndo => "Sun Undo",
        KeyCode::SunCopy => "Sun Copy",
        KeyCode::SunInsert => "Sun Insert",
        KeyCode::SunCut => "Sun Cut",
        KeyCode::Undefined => "Undefined",
        KeyCode::CharUndefined => "Undefined",
    }
}

/// The display name of a symbolic key.
pub fn key_name(key_code: KeyCode) -> (name: &'static str)
    ensures
        name == spec_key_name(key_code),
{
    match key_code {
        KeyCode::Escape => "Escape",
        KeyCode::F1 => "F1",
        KeyCode::F2 => "F2",
        KeyCode::F3 => "F3",
        KeyCode::F4 => "F4",
        KeyCode::F5 => "F5",
        KeyCode::F6 => "F6",
        KeyCode::F7 => "F7",
        KeyCode::F8 => "F8",
        KeyCode::F9 => "F9",
        KeyCode::F10 => "F10",
        KeyCode::F11 => "F11",
        KeyCode::F12 => "F12",
        KeyCode::F13 => "F13",
        KeyCode::F14 => "F14",
        KeyCode::F15 => "F15",
        KeyCode::F16 => "F16",
        KeyCode::F17 => "F17",
        KeyCode::F18 => "F18",
        KeyCode::F19 => "F19",
        KeyCode::F20 => "F20",
        KeyCode::F21 => "F21",
        KeyCode::F22 => "F22",
        KeyCode::F23 => "F23",
        KeyCode::F24 => "F24",
        KeyCode::Backquote => "Backquote",
        KeyCode::Num1 => "1",
        KeyCode::Num2 => "2",
        KeyCode::Num3 => "3",
        KeyCode::Num4 => "4",
        KeyCode::Num5 => "5",
        KeyCode::Num6 => "6",
        KeyCode::Num7 => "7",
        KeyCode::Num8 => "8",
        KeyCode::Num9 => "9",
        KeyCode::Num0 => "0",
        KeyCode::Minus => "Minus",
        KeyCode::Equals => "Equals",
        KeyCode::Backspace => "Backspace",
        KeyCode::Tab => "Tab",
        KeyCode::CapsLock => "Caps Lock",
        KeyCode::A => "A",
        KeyCode::B => "B",
        KeyCode::C => "C",
        KeyCode::D => "D",
        KeyCode::E => "E",
        KeyCode::F => "F",
        KeyCode::G => "G",
        KeyCode::H => "H",
        KeyCode::I => "I",
        KeyCode::J => "J",
        KeyCode::K => "K",
        KeyCode::L => "L",
        KeyCode::M => "M",
        KeyCode::N => "N",
        KeyCode::O => "O",
        KeyCode::P => "P",
        KeyCode::Q => "Q",
        KeyCode::R => "R",
        KeyCode::S => "S",
        KeyCode::T => "T",
        KeyCode::U => "U",
        KeyCode::V => "V",
        KeyCode::W => "W",
        KeyCode::X => "X",
        KeyCode::Y => "Y",
        KeyCode::Z => "Z",
        KeyCode::OpenBracket => "Open Bracket",
        KeyCode::CloseBracket => "Close Bracket",
        KeyCode::Backslash => "Backslash",
        KeyCode::Semicolon => "Semicolon",
        KeyCode::Quote => "Quote",
        KeyCode::Enter => "Enter",
        KeyCode::Comma => "Comma",
        KeyCode::Period => "Period",
        KeyCode::Slash => "Slash",
        KeyCode::Space => "Space",
        KeyCode::PrintScreen => "Print Screen",
        KeyCode::ScrollLock => "Scroll Lock",
        KeyCode::Pause => "Pause",
        KeyCode::LesserGreater => "Less/Greater",
        KeyCode::Insert => "Insert",
        KeyCode::Delete => "Delete",
        KeyCode::Home => "Home",
        KeyCode::End => "End",
        KeyCode::PageUp => "Page Up",
        KeyCode::PageDown => "Page Down",
        KeyCode::Up => "Up",
        KeyCode::Left => "Left",
        KeyCode::Clear => "Clear",
        KeyCode::Right => "Right",
        KeyCode::Down => "Down",
        KeyCode::NumLock => "Num Lock",
        KeyCode::KpDivide => "Keypad Divide",
        KeyCode::KpMultiply => "Keypad Multiply",
        KeyCode::KpSubtract => "Keypad Subtract",
        KeyCode::KpEquals => "Keypad Equals",
        KeyCode::KpAdd => "Keypad Add",
        KeyCode::KpEnter => "Keypad Enter",
        KeyCode::KpSeparator => "Keypad Separator",
        KeyCode::Kp1 => "Keypad 1",
        KeyCode::Kp2 => "Keypad 2",
        KeyCode::Kp3 => "Keypad 3",
        KeyCode::Kp4 => "Keypad 4",
        KeyCode::Kp5 => "Keypad 5",
        KeyCode::Kp6 => "Keypad 6",
        KeyCode::Kp7 => "Keypad 7",
        KeyCode::Kp8 => "Keypad 8",
        KeyCode::Kp9 => "Keypad 9",
        KeyCode::Kp0 => "Keypad 0",
        KeyCode::KpEnd => "Keypad End",
        KeyCode::KpDown => "Keypad Down",
        KeyCode::KpPageDown => "Keypad Page Down",
        KeyCode::KpLeft => "Keypad Left",
        KeyCode::KpClear => "Keypad Clear",
        KeyCode::KpRight => "Keypad Right",
        KeyCode::KpHome => "Keypad Home",
        KeyCode::KpUp => "Keypad Up",
        KeyCode::KpPageUp => "Keypad Page Up",
        KeyCode::KpInsert => "Keypad Insert",
        KeyCode::KpDelete => "Keypad Delete",
        KeyCode::ShiftL => "Left Shift",
        KeyCode::ShiftR => "Right Shift",
        KeyCode::ControlL => "Left Control",
        KeyCode::ControlR => "Right Control",
        KeyCode::AltL => "Left Alt",
        KeyCode::AltR => "Right Alt",
        KeyCode::MetaL => "Left Meta",
        KeyCode::MetaR => "Right Meta",
        KeyCode::ContextMenu => "Context Menu",
        KeyCode::Power => "Power",
        KeyCode::Sleep => "Sleep",
        KeyCode::Wake => "Wake",
        KeyCode::MediaPlay => "Media Play",
        KeyCode::MediaStop => "Media Stop",
        KeyCode::MediaPrevious => "Media Previous",
        KeyCode::MediaNext => "Media Next",
        KeyCode::MediaSelect => "Media Select",
        KeyCode::MediaEject => "Media Eject",
        KeyCode::VolumeMute => "Volume Mute",
        KeyCode::VolumeUp => "Volume Up",
        KeyCode::VolumeDown => "Volume Down",
        KeyCode::AppMail => "App Mail",
        KeyCode::AppCalculator => "App Calculator",
        KeyCode::AppMusic => "App Music",
        KeyCode::AppPictures => "App Pictures",
        KeyCode::BrowserSearch => "Browser Search",
        KeyCode::BrowserHome => "Browser Home",
        KeyCode::BrowserBack => "Browser Back",
        KeyCode::BrowserForward => "Browser Forward",
        KeyCode::BrowserStop => "Browser Stop",
        KeyCode::BrowserRefresh => "Browser Refresh",
        KeyCode::BrowserFavorites => "Browser Favorites",
        KeyCode::Katakana => "Katakana",
        KeyCode::Underscore => "Underscore",
        KeyCode::Furigana => "Furigana",
        KeyCode::Kanji => "Kanji",
        KeyCode::Hiragana => "Hiragana",
        KeyCode::Yen => "Yen",
        KeyCode::KpComma => "Keypad Comma",
        KeyCode::SunHelp => "Sun Help",
        KeyCode::SunStop => "Sun Stop",
        KeyCode::SunProps => "Sun Props",
        KeyCode::SunFront => "Sun Front",
        KeyCode::SunOpen => "Sun Open",
        KeyCode::SunFind => "Sun Find",
        KeyCode::SunAgain => "Sun Again",
        KeyCode::SunUndo => "Sun Undo",
        KeyCode::SunCopy => "Sun Copy",
        KeyCode::SunInsert => "Sun Insert",
        KeyCode::SunCut => "Sun Cut",
        KeyCode::Undefined => "Undefined",
        KeyCode::CharUndefined => "Undefined",
    }
}

/// The earlier phase name of a keyboard phase.
pub open spec fn spec_legacy_keyboard_phase(t: NewKeyboardEventType) -> KeyboardEventType {
    match t {
        NewKeyboardEventType::Pressed => KeyboardEventType::Pressed,
        NewKeyboardEventType::Released => KeyboardEventType::Released,
        NewKeyboardEventType::Typed => KeyboardEventType::Typed,
    }
}

/// The earlier phase name of a mouse phase.
pub open spec fn spec_legacy_mouse_phase(t: NewMouseEventType) -> MouseEventType {
    match t {
        NewMouseEventType::Moved => MouseEventType::Moved,
        NewMouseEventType::Pressed => MouseEventType::Pressed,
        NewMouseEventType::Released => MouseEventType::Released,
        NewMouseEventType::Clicked => MouseEventType::Clicked,
        NewMouseEventType::Dragged => MouseEventType::Dragged,
    }
}

impl KeyboardEvent {
    /// Rewrites a keyboard event into the earlier shape, with the numeric
    /// key code and the key's display name filled in.
    pub fn from(event: &NewKeyboardEvent) -> (e: KeyboardEvent)
        ensures
            e.event_type == spec_legacy_keyboard_phase(event.event_type),
            e.key_code == event.key_code as u16,
            e.key_raw == event.raw_code,
            e.key_char == event.key_char,
            e.key_name == Some(spec_key_name(event.key_code)),
    {
        KeyboardEvent {
            event_type: match event.event_type {
                NewKeyboardEventType::Pressed => KeyboardEventType::Pressed,
                NewKeyboardEventType::Released => KeyboardEventType::Released,
                NewKeyboardEventType::Typed => KeyboardEventType::Typed,
            },
            key_code: event.key_code as u16,
            key_raw: event.raw_code,
            key_char: event.key_char,
            key_name: Some(key_name(event.key_code)),
        }
    }
}

/// The earlier shape of a mouse event: the same phase and geometry, the
/// numeric button, and zeroed wheel fields.
pub open spec fn spec_legacy_mouse(me: NewMouseEvent) -> MouseEvent {
    MouseEvent {
        event_type: spec_legacy_mouse_phase(me.event_type),
        clicks: me.clicks,
        x: me.x,
        y: me.y,
        button: mouse_button_value(me.button) as u16,
        amount: 0,
        rotation: 0,
        direction: 0,
    }
}

/// The earlier shape of a wheel event: the wheel phase and the wheel
/// fields, with no button.
pub open spec fn spec_legacy_wheel(we: WheelEvent) -> MouseEvent {
    MouseEvent {
        event_type: MouseEventType::Wheel,
        clicks: we.clicks,
        x: we.x,
        y: we.y,
        button: 0,
        amount: we.amount,
        rotation: we.rotation,
        direction: we.direction,
    }
}

impl<'a> core::convert::From<&'a NewMouseEvent> for MouseEvent {
    /// Rewrites a mouse event into the earlier shape.
    fn from(event: &'a NewMouseEvent) -> (e: Self) {
        MouseEvent {
            event_type: match event.event_type {
                NewMouseEventType::Moved => MouseEventType::Moved,
                NewMouseEventType::Pressed => MouseEventType::Pressed,
                NewMouseEventType::Released => MouseEventType::Released,
                NewMouseEventType::Clicked => MouseEventType::Clicked,
                NewMouseEventType::Dragged => MouseEventType::Dragged,
            },
            clicks: event.clicks,
            x: event.x,
            y: event.y,
            button: u32::from(event.button) as u16,
            amount: 0,
            rotation: 0,
            direction: 0,
        }
    }
}

impl<'a> vstd::std_specs::convert::FromSpecImpl<&'a NewMouseEvent> for MouseEvent {
    open spec fn obeys_from_spec() -> bool {
        true
    }

    open spec fn from_spec(event: &'a NewMouseEvent) -> MouseEvent {
        spec_legacy_mouse(*event)
    }
}

impl<'a> core::convert::From<&'a WheelEvent> for MouseEvent {
    /// Rewrites a wheel event into the earlier shape.
    fn from(event: &'a WheelEvent) -> (e: Self) {
        MouseEvent {
            event_type: MouseEventType::Wheel,
            clicks: event.clicks,
            x: event.x,
            y: event.y,
            button: 0,
            amount: event.amount,
            rotation: event.rotation,
            direction: event.direction,
        }
    }
}

impl<'a> vstd::std_specs::convert::FromSpecImpl<&'a WheelEvent> for MouseEvent {
    open spec fn obeys_from_spec() -> bool {
        true
    }

    open spec fn from_spec(event: &'a WheelEvent) -> MouseEvent {
        spec_legacy_wheel(*event)
    }
}

/// Projects the keyboard part of an event into the earlier shape:
/// `Some` exactly for keyboard events, `None` for every other kind.
pub fn handle_keyboard_event(event: &UiohookEvent) -> (r: Option<KeyboardEvent>)
    ensures
        r is Some <==> event is Keyboard,
        event matches UiohookEvent::Keyboard(ke) ==> r matches Some(e) && e.event_type
            == spec_legacy_keyboard_phase(ke.event_type) && e.key_code == ke.key_code as u16
            && e.key_raw == ke.raw_code && e.key_char == ke.key_char
            && e.key_name == Some(spec_key_name(ke.key_code)),
{
    match event {
        UiohookEvent::Keyboard(ke) => Some(KeyboardEvent::from(ke)),
        _ => None,
    }
}

/// Projects the mouse or wheel part of an event into the earlier shape:
/// `Some` exactly for mouse and wheel events, `None` for every other kind.
pub fn handle_mouse_event(event: &UiohookEvent) -> (r: Option<MouseEvent>)
    ensures
        r is Some <==> (event is Mouse || event is Wheel),
        event matches UiohookEvent::Mouse(me) ==> r == Some(spec_legacy_mouse(*me)),
        event matches UiohookEvent::Wheel(we) ==> r == Some(spec_legacy_wheel(*we)),
{
    match event {
        UiohookEvent::Mouse(me) => Some(MouseEvent::from(me)),
        UiohookEvent::Wheel(we) => Some(MouseEvent::from(we)),
        _ => None,
    }
}

/// Runs the hook that an embedding registered earlier, under the earlier
/// free-function surface: with no registered hook the call reports
/// `NotInitialized` and changes nothing; with one it behaves as
/// [`Uiohook::run`] does.
pub fn run<H: EventHandler, N: NativeHook>(
    hook: Option<&Uiohook<H>>,
    slot: &mut DispatchSlot,
    native: &mut N,
) -> (r: Result<(), UiohookError>)
    ensures
        hook is None ==> r == Err::<(), UiohookError>(UiohookError::NotInitialized)
            && *final(slot) == *old(slot),
        hook is Some ==> run_transition(*old(slot), *final(slot), r),
{
    match hook {
        Some(h) => h.run(slot, native),
        None => Err(UiohookError::NotInitialized),
    }
}

/// Stops the running hook, under the earlier free-function surface: the
/// call needs no controller, and it behaves as [`Uiohook::stop`] does.
pub fn stop<N: NativeHook>(slot: &mut DispatchSlot, native: &mut N) -> (r: Result<
    (),
    UiohookError,
>)
    ensures
        stop_transition(*old(slot), *final(slot), r),
{
    crate::hook::stop_hook(slot, native)
}

} // verus!

//! Typed keyboard events and the symbolic key-code table.
//!
//! A keyboard observation carries a phase (pressed, released or typed), a
//! symbolic key from a closed table, the platform scan code and, for typed
//! events only, the character produced.  The table maps every native
//! virtual key code to a symbolic key and back; codes outside the table map
//! to [`KeyCode::Undefined`] rather than failing, since an unrecognized key
//! is still a key.

use vstd::prelude::*;

use crate::error::UiohookError;
use crate::hook::{EventHandler, NativeHook, Uiohook, UiohookEvent};
use crate::native::KeyboardData;
use crate::native::{
    CHAR_UNDEFINED, VC_0, VC_1, VC_2, VC_3, VC_4, VC_5, VC_6, VC_7, VC_8, VC_9, VC_A, VC_ALT_L,
    VC_ALT_R, VC_APP_CALCULATOR, VC_APP_MAIL, VC_APP_MUSIC, VC_APP_PICTURES, VC_B,
    VC_BACKQUOTE, VC_BACKSPACE, VC_BACK_SLASH, VC_BROWSER_BACK, VC_BROWSER_FAVORITES,
    VC_BROWSER_FORWARD, VC_BROWSER_HOME, VC_BROWSER_REFRESH, VC_BROWSER_SEARCH,
    VC_BROWSER_STOP, VC_C, VC_CAPS_LOCK, VC_CLEAR, VC_CLOSE_BRACKET, VC_COMMA, VC_CONTEXT_MENU,
    VC_CONTROL_L, VC_CONTROL_R, VC_D, VC_DELETE, VC_DOWN, VC_E, VC_END, VC_ENTER, VC_EQUALS,
    VC_ESCAPE, VC_F, VC_F1, VC_F10, VC_F11, VC_F12, VC_F13, VC_F14, VC_F15, VC_F16, VC_F17,
    VC_F18, VC_F19, VC_F2, VC_F20, VC_F21, VC_F22, VC_F23, VC_F24, VC_F3, VC_F4, VC_F5, VC_F6,
    VC_F7, VC_F8, VC_F9, VC_FURIGANA, VC_G, VC_H, VC_HIRAGANA, VC_HOME, VC_I, VC_INSERT, VC_J,
    VC_K, VC_KANJI, VC_KATAKANA, VC_KP_0, VC_KP_1, VC_KP_2, VC_KP_3, VC_KP_4, VC_KP_5, VC_KP_6,
    VC_KP_7, VC_KP_8, VC_KP_9, VC_KP_ADD, VC_KP_CLEAR, VC_KP_COMMA, VC_KP_DELETE, VC_KP_DIVIDE,
    VC_KP_DOWN, VC_KP_END, VC_KP_ENTER, VC_KP_EQUALS, VC_KP_HOME, VC_KP_INSERT, VC_KP_LEFT,
    VC_KP_MULTIPLY, VC_KP_PAGE_DOWN, VC_KP_PAGE_UP, VC_KP_RIGHT, VC_KP_SEPARATOR,
    VC_KP_SUBTRACT, VC_KP_UP, VC_L, VC_LEFT, VC_LESSER_GREATER, VC_M, VC_MEDIA_EJECT,
    VC_MEDIA_NEXT, VC_MEDIA_PLAY, VC_MEDIA_PREVIOUS, VC_MEDIA_SELECT, VC_MEDIA_STOP, VC_META_L,
    VC_META_R, VC_MINUS, VC_N, VC_NUM_LOCK, VC_O, VC_OPEN_BRACKET, VC_P, VC_PAGE_DOWN,
    VC_PAGE_UP, VC_PAUSE, VC_PERIOD, VC_POWER, VC_PRINTSCREEN, VC_Q, VC_QUOTE, VC_R, VC_RIGHT,
    VC_S, VC_SCROLL_LOCK, VC_SEMICOLON, VC_SHIFT_L, VC_SHIFT_R, VC_SLASH, VC_SLEEP, VC_SPACE,
    VC_SUN_AGAIN, VC_SUN_COPY, VC_SUN_CUT, VC_SUN_FIND, VC_SUN_FRONT, VC_SUN_HELP,
    VC_SUN_INSERT, VC_SUN_OPEN, VC_SUN_PROPS, VC_SUN_STOP, VC_SUN_UNDO, VC_T, VC_TAB, VC_U,
    VC_UNDEFINED, VC_UNDERSCORE, VC_UP, VC_V, VC_VOLUME_DOWN, VC_VOLUME_MUTE, VC_VOLUME_UP,
    VC_W, VC_WAKE, VC_X, VC_Y, VC_YEN, VC_Z,
};

verus! {

/// The phase of a keyboard event.
#[derive(Debug, Clone, Copy, PartialEq, Eq, Structural)]
pub enum KeyboardEventType {
    /// A key went down.
    Pressed,
    /// A key came up.
    Released,
    /// A character was produced, usually following a press and release.
    Typed,
}

/// A typed, owned keyboard event.
#[derive(Debug, Clone, Copy)]
pub struct KeyboardEvent {
    /// The phase of the event.
    pub event_type: KeyboardEventType,
    /// The symbolic key.
    pub key_code: KeyCode,
    /// The raw platform scan code as received from the system.
    pub raw_code: u16,
    /// The character produced, present only for typed events.
    pub key_char: Option<char>,
}

/// The closed table of symbolic keys.
#[derive(Debug, Clone, Copy, PartialEq, Eq, Hash, Structural)]
pub enum KeyCode {
    // Function keys
    Escape, F1, F2, F3, F4, F5, F6, F7, F8, F9, F10, F11, F12, F13, F14, F15, F16, F17, F18,
    F19, F20, F21, F22, F23, F24,
    // Alphanumeric keys
    Backquote, Num1, Num2, Num3, Num4, Num5, Num6, Num7, Num8, Num9, Num0, Minus, Equals,
    Backspace, Tab, CapsLock, A, B, C, D, E, F, G, H, I, J, K, L, M, N, O, P, Q, R, S, T, U, V,
    W, X, Y, Z, OpenBracket, CloseBracket, Backslash, Semicolon, Quote, Enter, Comma, Period,
    Slash, Space,
    // Navigation keys
    PrintScreen, ScrollLock, Pause, LesserGreater, Insert, Delete, Home, End, PageUp, PageDown,
    Up, Left, Clear, Right, Down,
    // Numeric keypad
    NumLock, KpDivide, KpMultiply, KpSubtract, KpEquals, KpAdd, KpEnter, KpSeparator, Kp1, Kp2,
    Kp3, Kp4, Kp5, Kp6, Kp7, Kp8, Kp9, Kp0, KpEnd, KpDown, KpPageDown, KpLeft, KpClear,
    KpRight, KpHome, KpUp, KpPageUp, KpInsert, KpDelete,
    // Modifier keys
    ShiftL, ShiftR, ControlL, ControlR, AltL, AltR, MetaL, MetaR,
    // Additional keys
    ContextMenu, Power, Sleep, Wake,
    // Media keys
    MediaPlay, MediaStop, MediaPrevious, MediaNext, MediaSelect, MediaEject, VolumeMute,
    VolumeUp, VolumeDown,
    // Application keys
    AppMail, AppCalculator, AppMusic, AppPictures,
    // Browser keys
    BrowserSearch, BrowserHome, BrowserBack, BrowserForward, BrowserStop, BrowserRefresh,
    BrowserFavorites,
    // Japanese keys
    Katakana, Underscore, Furigana, Kanji, Hiragana, Yen, KpComma,
    // Sun keys
    SunHelp, SunStop, SunProps, SunFront, SunOpen, SunFind, SunAgain, SunUndo, SunCopy,
    SunInsert, SunCut,
    // Undefined keys
    Undefined, CharUndefined,
}

/// The native virtual key code that each symbolic key stands for.
pub open spec fn key_code_value(k: KeyCode) -> u32 {
    match k {
        KeyCode::Escape => VC_ESCAPE,
        KeyCode::F1 => VC_F1,
        KeyCode::F2 => VC_F2,
        KeyCode::F3 => VC_F3,
        KeyCode::F4 => VC_F4,
        KeyCode::F5 => VC_F5,
        KeyCode::F6 => VC_F6,
        KeyCode::F7 => VC_F7,
        KeyCode::F8 => VC_F8,
        KeyCode::F9 => VC_F9,
        KeyCode::F10 => VC_F10,
        KeyCode::F11 => VC_F11,
        KeyCode::F12 => VC_F12,
        KeyCode::F13 => VC_F13,
        KeyCode::F14 => VC_F14,
        KeyCode::F15 => VC_F15,
        KeyCode::F16 => VC_F16,
        KeyCode::F17 => VC_F17,
        KeyCode::F18 => VC_F18,
        KeyCode::F19 => VC_F19,
        KeyCode::F20 => VC_F20,
        KeyCode::F21 => VC_F21,
        KeyCode::F22 => VC_F22,
        KeyCode::F23 => VC_F23,
        KeyCode::F24 => VC_F24,
        KeyCode::Backquote => VC_BACKQUOTE,
        KeyCode::Num1 => VC_1,
        KeyCode::Num2 => VC_2,
        KeyCode::Num3 => VC_3,
        KeyCode::Num4 => VC_4,
        KeyCode::Num5 => VC_5,
        KeyCode::Num6 => VC_6,
        KeyCode::Num7 => VC_7,
        KeyCode::Num8 => VC_8,
        KeyCode::Num9 => VC_9,
        KeyCode::Num0 => VC_0,
        KeyCode::Minus => VC_MINUS,
        KeyCode::Equals => VC_EQUALS,
        KeyCode::Backspace => VC_BACKSPACE,
        KeyCode::Tab => VC_TAB,
        KeyCode::CapsLock => VC_CAPS_LOCK,
        KeyCode::A => VC_A,
        KeyCode::B => VC_B,
        KeyCode::C => VC_C,
        KeyCode::D => VC_D,
        KeyCode::E => VC_E,
        KeyCode::F => VC_F,
        KeyCode::G => VC_G,
        KeyCode::H => VC_H,
        KeyCode::I => VC_I,
        KeyCode::J => VC_J,
        KeyCode::K => VC_K,
        KeyCode::L => VC_L,
        KeyCode::M => VC_M,
        KeyCode::N => VC_N,
        KeyCode::O => VC_O,
        KeyCode::P => VC_P,
        KeyCode::Q => VC_Q,
        KeyCode::R => VC_R,
        KeyCode::S => VC_S,
        KeyCode::T => VC_T,
        KeyCode::U => VC_U,
        KeyCode::V => VC_V,
        KeyCode::W => VC_W,
        KeyCode::X => VC_X,
        KeyCode::Y => VC_Y,
        KeyCode::Z => VC_Z,
        KeyCode::OpenBracket => VC_OPEN_BRACKET,
        KeyCode::CloseBracket => VC_CLOSE_BRACKET,
        KeyCode::Backslash => VC_BACK_SLASH,
        KeyCode::Semicolon => VC_SEMICOLON,
        KeyCode::Quote => VC_QUOTE,
        KeyCode::Enter => VC_ENTER,
        KeyCode::Comma => VC_COMMA,
        KeyCode::Period => VC_PERIOD,
        KeyCode::Slash => VC_SLASH,
        KeyCode::Space => VC_SPACE,
        KeyCode::PrintScreen => VC_PRINTSCREEN,
        KeyCode::ScrollLock => VC_SCROLL_LOCK,
        KeyCode::Pause => VC_PAUSE,
        KeyCode::LesserGreater => VC_LESSER_GREATER,
        KeyCode::Insert => VC_INSERT,
        KeyCode::Delete => VC_DELETE,
        KeyCode::Home => VC_HOME,
        KeyCode::End => VC_END,
        KeyCode::PageUp => VC_PAGE_UP,
        KeyCode::PageDown => VC_PAGE_DOWN,
        KeyCode::Up => VC_UP,
        KeyCode::Left => VC_LEFT,
        KeyCode::Clear => VC_CLEAR,
        KeyCode::Right => VC_RIGHT,
        KeyCode::Down => VC_DOWN,
        KeyCode::NumLock => VC_NUM_LOCK,
        KeyCode::KpDivide => VC_KP_DIVIDE,
        KeyCode::KpMultiply => VC_KP_MULTIPLY,
        KeyCode::KpSubtract => VC_KP_SUBTRACT,
        KeyCode::KpEquals => VC_KP_EQUALS,
        KeyCode::KpAdd => VC_KP_ADD,
        KeyCode::KpEnter => VC_KP_ENTER,
        KeyCode::KpSeparator => VC_KP_SEPARATOR,
        KeyCode::Kp1 => VC_KP_1,
        KeyCode::Kp2 => VC_KP_2,
        KeyCode::Kp3 => VC_KP_3,
        KeyCode::Kp4 => VC_KP_4,
        KeyCode::Kp5 => VC_KP_5,
        KeyCode::Kp6 => VC_KP_6,
        KeyCode::Kp7 => VC_KP_7,
        KeyCode::Kp8 => VC_KP_8,
        KeyCode::Kp9 => VC_KP_9,
        KeyCode::Kp0 => VC_KP_0,
        KeyCode::KpEnd => VC_KP_END,
        KeyCode::KpDown => VC_KP_DOWN,
        KeyCode::KpPageDown => VC_KP_PAGE_DOWN,
        KeyCode::KpLeft => VC_KP_LEFT,
        KeyCode::KpClear => VC_KP_CLEAR,
        KeyCode::KpRight => VC_KP_RIGHT,
        KeyCode::KpHome => VC_KP_HOME,
        KeyCode::KpUp => VC_KP_UP,
        KeyCode::KpPageUp => VC_KP_PAGE_UP,
        KeyCode::KpInsert => VC_KP_INSERT,
        KeyCode::KpDelete => VC_KP_DELETE,
        KeyCode::ShiftL => VC_SHIFT_L,
        KeyCode::ShiftR => VC_SHIFT_R,
        KeyCode::ControlL => VC_CONTROL_L,
        KeyCode::ControlR => VC_CONTROL_R,
        KeyCode::AltL => VC_ALT_L,
        KeyCode::AltR => VC_ALT_R,
        KeyCode::MetaL => VC_META_L,
        KeyCode::MetaR => VC_META_R,
        KeyCode::ContextMenu => VC_CONTEXT_MENU,
        KeyCode::Power => VC_POWER,
        KeyCode::Sleep => VC_SLEEP,
        KeyCode::Wake => VC_WAKE,
        KeyCode::MediaPlay => VC_MEDIA_PLAY,
        KeyCode::MediaStop => VC_MEDIA_STOP,
        KeyCode::MediaPrevious => VC_MEDIA_PREVIOUS,
        KeyCode::MediaNext => VC_MEDIA_NEXT,
        KeyCode::MediaSelect => VC_MEDIA_SELECT,
        KeyCode::MediaEject => VC_MEDIA_EJECT,
        KeyCode::VolumeMute => VC_VOLUME_MUTE,
        KeyCode::VolumeUp => VC_VOLUME_UP,
        KeyCode::VolumeDown => VC_VOLUME_DOWN,
        KeyCode::AppMail => VC_APP_MAIL,
        KeyCode::AppCalculator => VC_APP_CALCULATOR,
        KeyCode::AppMusic => VC_APP_MUSIC,
        KeyCode::AppPictures => VC_APP_PICTURES,
        KeyCode::BrowserSearch => VC_BROWSER_SEARCH,
        KeyCode::BrowserHome => VC_BROWSER_HOME,
        KeyCode::BrowserBack => VC_BROWSER_BACK,
        KeyCode::BrowserForward => VC_BROWSER_FORWARD,
        KeyCode::BrowserStop => VC_BROWSER_STOP,
        KeyCode::BrowserRefresh => VC_BROWSER_REFRESH,
        KeyCode::BrowserFavorites => VC_BROWSER_FAVORITES,
        KeyCode::Katakana => VC_KATAKANA,
        KeyCode::Underscore => VC_UNDERSCORE,
        KeyCode::Furigana => VC_FURIGANA,
        KeyCode::Kanji => VC_KANJI,
        KeyCode::Hiragana => VC_HIRAGANA,
        KeyCode::Yen => VC_YEN,
        KeyCode::KpComma => VC_KP_COMMA,
        KeyCode::SunHelp => VC_SUN_HELP,
        KeyCode::SunStop => VC_SUN_STOP,
        KeyCode::SunProps => VC_SUN_PROPS,
        KeyCode::SunFront => VC_SUN_FRONT,
        KeyCode::SunOpen => VC_SUN_OPEN,
        KeyCode::SunFind => VC_SUN_FIND,
        KeyCode::SunAgain => VC_SUN_AGAIN,
        KeyCode::SunUndo => VC_SUN_UNDO,
        KeyCode::SunCopy => VC_SUN_COPY,
        KeyCode::SunInsert => VC_SUN_INSERT,
        KeyCode::SunCut => VC_SUN_CUT,
        KeyCode::Undefined => VC_UNDEFINED,
        KeyCode::CharUndefined => CHAR_UNDEFINED,
    }
}

impl core::convert::From<KeyCode> for u32 {
    /// The virtual key code of a symbolic key.
    #[verifier::rlimit(50)]
    fn from(key_code: KeyCode) -> (v: u32) {
        match key_code {
            KeyCode::Escape => VC_ESCAPE,
            KeyCode::F1 => VC_F1,
            KeyCode::F2 => VC_F2,
            KeyCode::F3 => VC_F3,
            KeyCode::F4 => VC_F4,
            KeyCode::F5 => VC_F5,
            KeyCode::F6 => VC_F6,
            KeyCode::F7 => VC_F7,
            KeyCode::F8 => VC_F8,
            KeyCode::F9 => VC_F9,
            KeyCode::F10 => VC_F10,
            KeyCode::F11 => VC_F11,
            KeyCode::F12 => VC_F12,
            KeyCode::F13 => VC_F13,
            KeyCode::F14 => VC_F14,
            KeyCode::F15 => VC_F15,
            KeyCode::F16 => VC_F16,
            KeyCode::F17 => VC_F17,
            KeyCode::F18 => VC_F18,
            KeyCode::F19 => VC_F19,
            KeyCode::F20 => VC_F20,
            KeyCode::F21 => VC_F21,
            KeyCode::F22 => VC_F22,
            KeyCode::F23 => VC_F23,
            KeyCode::F24 => VC_F24,
            KeyCode::Backquote => VC_BACKQUOTE,
            KeyCode::Num1 => VC_1,
            KeyCode::Num2 => VC_2,
            KeyCode::Num3 => VC_3,
            KeyCode::Num4 => VC_4,
            KeyCode::Num5 => VC_5,
            KeyCode::Num6 => VC_6,
            KeyCode::Num7 => VC_7,
            KeyCode::Num8 => VC_8,
            KeyCode::Num9 => VC_9,
            KeyCode::Num0 => VC_0,
            KeyCode::Minus => VC_MINUS,
            KeyCode::Equals => VC_EQUALS,
            KeyCode::Backspace => VC_BACKSPACE,
            KeyCode::Tab => VC_TAB,
            KeyCode::CapsLock => VC_CAPS_LOCK,
            KeyCode::A => VC_A,
            KeyCode::B => VC_B,
            KeyCode::C => VC_C,
            KeyCode::D => VC_D,
            KeyCode::E => VC_E,
            KeyCode::F => VC_F,
            KeyCode::G => VC_G,
            KeyCode::H => VC_H,
            KeyCode::I => VC_I,
            KeyCode::J => VC_J,
            KeyCode::K => VC_K,
            KeyCode::L => VC_L,
            KeyCode::M => VC_M,
            KeyCode::N => VC_N,
            KeyCode::O => VC_O,
            KeyCode::P => VC_P,
            KeyCode::Q => VC_Q,
            KeyCode::R => VC_R,
            KeyCode::S => VC_S,
            KeyCode::T => VC_T,
            KeyCode::U => VC_U,
            KeyCode::V => VC_V,
            KeyCode::W => VC_W,
            KeyCode::X => VC_X,
            KeyCode::Y => VC_Y,
            KeyCode::Z => VC_Z,
            KeyCode::OpenBracket => VC_OPEN_BRACKET,
            KeyCode::CloseBracket => VC_CLOSE_BRACKET,
            KeyCode::Backslash => VC_BACK_SLASH,
            KeyCode::Semicolon => VC_SEMICOLON,
            KeyCode::Quote => VC_QUOTE,
            KeyCode::Enter => VC_ENTER,
            KeyCode::Comma => VC_COMMA,
            KeyCode::Period => VC_PERIOD,
            KeyCode::Slash => VC_SLASH,
            KeyCode::Space => VC_SPACE,
            KeyCode::PrintScreen => VC_PRINTSCREEN,
            KeyCode::ScrollLock => VC_SCROLL_LOCK,
            KeyCode::Pause => VC_PAUSE,
            KeyCode::LesserGreater => VC_LESSER_GREATER,
            KeyCode::Insert => VC_INSERT,
            KeyCode::Delete => VC_DELETE,
            KeyCode::Home => VC_HOME,
            KeyCode::End => VC_END,
            KeyCode::PageUp => VC_PAGE_UP,
            KeyCode::PageDown => VC_PAGE_DOWN,
            KeyCode::Up => VC_UP,
            KeyCode::Left => VC_LEFT,
            KeyCode::Clear => VC_CLEAR,
            KeyCode::Right => VC_RIGHT,
            KeyCode::Down => VC_DOWN,
            KeyCode::NumLock => VC_NUM_LOCK,
            KeyCode::KpDivide => VC_KP_DIVIDE,
            KeyCode::KpMultiply => VC_KP_MULTIPLY,
            KeyCode::KpSubtract => VC_KP_SUBTRACT,
            KeyCode::KpEquals => VC_KP_EQUALS,
            KeyCode::KpAdd => VC_KP_ADD,
            KeyCode::KpEnter => VC_KP_ENTER,
            KeyCode::KpSeparator => VC_KP_SEPARATOR,
            KeyCode::Kp1 => VC_KP_1,
            KeyCode::Kp2 => VC_KP_2,
            KeyCode::Kp3 => VC_KP_3,
            KeyCode::Kp4 => VC_KP_4,
            KeyCode::Kp5 => VC_KP_5,
            KeyCode::Kp6 => VC_KP_6,
            KeyCode::Kp7 => VC_KP_7,
            KeyCode::Kp8 => VC_KP_8,
            KeyCode::Kp9 => VC_KP_9,
            KeyCode::Kp0 => VC_KP_0,
            KeyCode::KpEnd => VC_KP_END,
            KeyCode::KpDown => VC_KP_DOWN,
            KeyCode::KpPageDown => VC_KP_PAGE_DOWN,
            KeyCode::KpLeft => VC_KP_LEFT,
            KeyCode::KpClear => VC_KP_CLEAR,
            KeyCode::KpRight => VC_KP_RIGHT,
            KeyCode::KpHome => VC_KP_HOME,
            KeyCode::KpUp => VC_KP_UP,
            KeyCode::KpPageUp => VC_KP_PAGE_UP,
            KeyCode::KpInsert => VC_KP_INSERT,
            KeyCode::KpDelete => VC_KP_DELETE,
            KeyCode::ShiftL => VC_SHIFT_L,
            KeyCode::ShiftR => VC_SHIFT_R,
            KeyCode::ControlL => VC_CONTROL_L,
            KeyCode::ControlR => VC_CONTROL_R,
            KeyCode::AltL => VC_ALT_L,
            KeyCode::AltR => VC_ALT_R,
            KeyCode::MetaL => VC_META_L,
            KeyCode::MetaR => VC_META_R,
            KeyCode::ContextMenu => VC_CONTEXT_MENU,
            KeyCode::Power => VC_POWER,
            KeyCode::Sleep => VC_SLEEP,
            KeyCode::Wake => VC_WAKE,
            KeyCode::MediaPlay => VC_MEDIA_PLAY,
            KeyCode::MediaStop => VC_MEDIA_STOP,
            KeyCode::MediaPrevious => VC_MEDIA_PREVIOUS,
            KeyCode::MediaNext => VC_MEDIA_NEXT,
            KeyCode::MediaSelect => VC_MEDIA_SELECT,
            KeyCode::MediaEject => VC_MEDIA_EJECT,
            KeyCode::VolumeMute => VC_VOLUME_MUTE,
            KeyCode::VolumeUp => VC_VOLUME_UP,
            KeyCode::VolumeDown => VC_VOLUME_DOWN,
            KeyCode::AppMail => VC_APP_MAIL,
            KeyCode::AppCalculator => VC_APP_CALCULATOR,
            KeyCode::AppMusic => VC_APP_MUSIC,
            KeyCode::AppPictures => VC_APP_PICTURES,
            KeyCode::BrowserSearch => VC_BROWSER_SEARCH,
            KeyCode::BrowserHome => VC_BROWSER_HOME,
            KeyCode::BrowserBack => VC_BROWSER_BACK,
            KeyCode::BrowserForward => VC_BROWSER_FORWARD,
            KeyCode::BrowserStop => VC_BROWSER_STOP,
            KeyCode::BrowserRefresh => VC_BROWSER_REFRESH,
            KeyCode::BrowserFavorites => VC_BROWSER_FAVORITES,
            KeyCode::Katakana => VC_KATAKANA,
            KeyCode::Underscore => VC_UNDERSCORE,
            KeyCode::Furigana => VC_FURIGANA,
            KeyCode::Kanji => VC_KANJI,
            KeyCode::Hiragana => VC_HIRAGANA,
            KeyCode::Yen => VC_YEN,
            KeyCode::KpComma => VC_KP_COMMA,
            KeyCode::SunHelp => VC_SUN_HELP,
            KeyCode::SunStop => VC_SUN_STOP,
            KeyCode::SunProps => VC_SUN_PROPS,
            KeyCode::SunFront => VC_SUN_FRONT,
            KeyCode::SunOpen => VC_SUN_OPEN,
            KeyCode::SunFind => VC_SUN_FIND,
            KeyCode::SunAgain => VC_SUN_AGAIN,
            KeyCode::SunUndo => VC_SUN_UNDO,
            KeyCode::SunCopy => VC_SUN_COPY,
            KeyCode::SunInsert => VC_SUN_INSERT,
            KeyCode::SunCut => VC_SUN_CUT,
            KeyCode::Undefined => VC_UNDEFINED,
            KeyCode::CharUndefined => CHAR_UNDEFINED,
        }
    }
}

impl vstd::std_specs::convert::FromSpecImpl<KeyCode> for u32 {
    open spec fn obeys_from_spec() -> bool {
        true
    }

    open spec fn from_spec(key_code: KeyCode) -> u32 {
        key_code_value(key_code)
    }
}

impl KeyCode {
    /// Maps a virtual key code to its symbolic key.
    ///
    /// Returns `Ok` exactly for the codes that some symbolic key carries,
    /// and `Err(())` for every other code.
    pub fn try_from(value: u32) -> (r: Result<KeyCode, ()>)
        ensures
            r matches Ok(k) ==> key_code_value(k) == value,
            r is Err ==> forall|k: KeyCode| key_code_value(k) != value,
    {
        if value == VC_ESCAPE {
            Ok(KeyCode::Escape)
        } else if value == VC_F1 {
            Ok(KeyCode::F1)
        } else if value == VC_F2 {
            Ok(KeyCode::F2)
        } else if value == VC_F3 {
            Ok(KeyCode::F3)
        } else if value == VC_F4 {
            Ok(KeyCode::F4)
        } else if value == VC_F5 {
            Ok(KeyCode::F5)
        } else if value == VC_F6 {
            Ok(KeyCode::F6)
        } else if value == VC_F7 {
            Ok(KeyCode::F7)
        } else if value == VC_F8 {
            Ok(KeyCode::F8)
        } else if value == VC_F9 {
            Ok(KeyCode::F9)
        } else if value == VC_F10 {
            Ok(KeyCode::F10)
        } else if value == VC_F11 {
            Ok(KeyCode::F11)
        } else if value == VC_F12 {
            Ok(KeyCode::F12)
        } else if value == VC_F13 {
            Ok(KeyCode::F13)
        } else if value == VC_F14 {
            Ok(KeyCode::F14)
        } else if value == VC_F15 {
            Ok(KeyCode::F15)
        } else if value == VC_F16 {
            Ok(KeyCode::F16)
        } else if value == VC_F17 {
            Ok(KeyCode::F17)
        } else if value == VC_F18 {
            Ok(KeyCode::F18)
        } else if value == VC_F19 {
            Ok(KeyCode::F19)
        } else if value == VC_F20 {
            Ok(KeyCode::F20)
        } else if value == VC_F21 {
            Ok(KeyCode::F21)
        } else if value == VC_F22 {
            Ok(KeyCode::F22)
        } else if value == VC_F23 {
            Ok(KeyCode::F23)
        } else if value == VC_F24 {
            Ok(KeyCode::F24)
        } else if value == VC_BACKQUOTE {
            Ok(KeyCode::Backquote)
        } else if value == VC_1 {
            Ok(KeyCode::Num1)
        } else if value == VC_2 {
            Ok(KeyCode::Num2)
        } else if value == VC_3 {
            Ok(KeyCode::Num3)
        } else if value == VC_4 {
            Ok(KeyCode::Num4)
        } else if value == VC_5 {
            Ok(KeyCode::Num5)
        } else if value == VC_6 {
            Ok(KeyCode::Num6)
        } else if value == VC_7 {
            Ok(KeyCode::Num7)
        } else if value == VC_8 {
            Ok(KeyCode::Num8)
        } else if value == VC_9 {
            Ok(KeyCode::Num9)
        } else if value == VC_0 {
            Ok(KeyCode::Num0)
        } else if value == VC_MINUS {
            Ok(KeyCode::Minus)
        } else if value == VC_EQUALS {
            Ok(KeyCode::Equals)
        } else if value == VC_BACKSPACE {
            Ok(KeyCode::Backspace)
        } else if value == VC_TAB {
            Ok(KeyCode::Tab)
        } else if value == VC_CAPS_LOCK {
            Ok(KeyCode::CapsLock)
        } else if value == VC_A {
            Ok(KeyCode::A)
        } else if value == VC_B {
            Ok(KeyCode::B)
        } else if value == VC_C {
            Ok(KeyCode::C)
        } else if value == VC_D {
            Ok(KeyCode::D)
        } else if value == VC_E {
            Ok(KeyCode::E)
        } else if value == VC_F {
            Ok(KeyCode::F)
        } else if value == VC_G {
            Ok(KeyCode::G)
        } else if value == VC_H {
            Ok(KeyCode::H)
        } else if value == VC_I {
            Ok(KeyCode::I)
        } else if value == VC_J {
            Ok(KeyCode::J)
        } else if value == VC_K {
            Ok(KeyCode::K)
        } else if value == VC_L {
            Ok(KeyCode::L)
        } else if value == VC_M {
            Ok(KeyCode::M)
        } else if value == VC_N {
            Ok(KeyCode::N)
        } else if value == VC_O {
            Ok(KeyCode::O)
        } else if value == VC_P {
            Ok(KeyCode::P)
        } else if value == VC_Q {
            Ok(KeyCode::Q)
        } else if value == VC_R {
            Ok(KeyCode::R)
        } else if value == VC_S {
            Ok(KeyCode::S)
        } else if value == VC_T {
            Ok(KeyCode::T)
        } else if value == VC_U {
            Ok(KeyCode::U)
        } else if value == VC_V {
            Ok(KeyCode::V)
        } else if value == VC_W {
            Ok(KeyCode::W)
        } else if value == VC_X {
            Ok(KeyCode::X)
        } else if value == VC_Y {
            Ok(KeyCode::Y)
        } else if value == VC_Z {
            Ok(KeyCode::Z)
        } else if value == VC_OPEN_BRACKET {
            Ok(KeyCode::OpenBracket)
        } else if value == VC_CLOSE_BRACKET {
            Ok(KeyCode::CloseBracket)
        } else if value == VC_BACK_SLASH {
            Ok(KeyCode::Backslash)
        } else if value == VC_SEMICOLON {
            Ok(KeyCode::Semicolon)
        } else if value == VC_QUOTE {
            Ok(KeyCode::Quote)
        } else if value == VC_ENTER {
            Ok(KeyCode::Enter)
        } else if value == VC_COMMA {
            Ok(KeyCode::Comma)
        } else if value == VC_PERIOD {
            Ok(KeyCode::Period)
        } else if value == VC_SLASH {
            Ok(KeyCode::Slash)
        } else if value == VC_SPACE {
            Ok(KeyCode::Space)
        } else if value == VC_PRINTSCREEN {
            Ok(KeyCode::PrintScreen)
        } else if value == VC_SCROLL_LOCK {
            Ok(KeyCode::ScrollLock)
        } else if value == VC_PAUSE {
            Ok(KeyCode::Pause)
        } else if value == VC_LESSER_GREATER {
            Ok(KeyCode::LesserGreater)
        } else if value == VC_INSERT {
            Ok(KeyCode::Insert)
        } else if value == VC_DELETE {
            Ok(KeyCode::Delete)
        } else if value == VC_HOME {
            Ok(KeyCode::Home)
        } else if value == VC_END {
            Ok(KeyCode::End)
        } else if value == VC_PAGE_UP {
            Ok(KeyCode::PageUp)
        } else if value == VC_PAGE_DOWN {
            Ok(KeyCode::PageDown)
        } else if value == VC_UP {
            Ok(KeyCode::Up)
        } else if value == VC_LEFT {
            Ok(KeyCode::Left)
        } else if value == VC_CLEAR {
            Ok(KeyCode::Clear)
        } else if value == VC_RIGHT {
            Ok(KeyCode::Right)
        } else if value == VC_DOWN {
            Ok(KeyCode::Down)
        } else if value == VC_NUM_LOCK {
            Ok(KeyCode::NumLock)
        } else if value == VC_KP_DIVIDE {
            Ok(KeyCode::KpDivide)
        } else if value == VC_KP_MULTIPLY {
            Ok(KeyCode::KpMultiply)
        } else if value == VC_KP_SUBTRACT {
            Ok(KeyCode::KpSubtract)
        } else if value == VC_KP_EQUALS {
            Ok(KeyCode::KpEquals)
        } else if value == VC_KP_ADD {
            Ok(KeyCode::KpAdd)
        } else if value == VC_KP_ENTER {
            Ok(KeyCode::KpEnter)
        } else if value == VC_KP_SEPARATOR {
            Ok(KeyCode::KpSeparator)
        } else if value == VC_KP_1 {
            Ok(KeyCode::Kp1)
        } else if value == VC_KP_2 {
            Ok(KeyCode::Kp2)
        } else if value == VC_KP_3 {
            Ok(KeyCode::Kp3)
        } else if value == VC_KP_4 {
            Ok(KeyCode::Kp4)
        } else if value == VC_KP_5 {
            Ok(KeyCode::Kp5)
        } else if value == VC_KP_6 {
            Ok(KeyCode::Kp6)
        } else if value == VC_KP_7 {
            Ok(KeyCode::Kp7)
        } else if value == VC_KP_8 {
            Ok(KeyCode::Kp8)
        } else if value == VC_KP_9 {
            Ok(KeyCode::Kp9)
        } else if value == VC_KP_0 {
            Ok(KeyCode::Kp0)
        } else if value == VC_KP_END {
            Ok(KeyCode::KpEnd)
        } else if value == VC_KP_DOWN {
            Ok(KeyCode::KpDown)
        } else if value == VC_KP_PAGE_DOWN {
            Ok(KeyCode::KpPageDown)
        } else if value == VC_KP_LEFT {
            Ok(KeyCode::KpLeft)
        } else if value == VC_KP_CLEAR {
            Ok(KeyCode::KpClear)
        } else if value == VC_KP_RIGHT {
            Ok(KeyCode::KpRight)
        } else if value == VC_KP_HOME {
            Ok(KeyCode::KpHome)
        } else if value == VC_KP_UP {
            Ok(KeyCode::KpUp)
        } else if value == VC_KP_PAGE_UP {
            Ok(KeyCode::KpPageUp)
        } else if value == VC_KP_INSERT {
            Ok(KeyCode::KpInsert)
        } else if value == VC_KP_DELETE {
            Ok(KeyCode::KpDelete)
        } else if value == VC_SHIFT_L {
            Ok(KeyCode::ShiftL)
        } else if value == VC_SHIFT_R {
            Ok(KeyCode::ShiftR)
        } else if value == VC_CONTROL_L {
            Ok(KeyCode::ControlL)
        } else if value == VC_CONTROL_R {
            Ok(KeyCode::ControlR)
        } else if value == VC_ALT_L {
            Ok(KeyCode::AltL)
        } else if value == VC_ALT_R {
            Ok(KeyCode::AltR)
        } else if value == VC_META_L {
            Ok(KeyCode::MetaL)
        } else if value == VC_META_R {
            Ok(KeyCode::MetaR)
        } else if value == VC_CONTEXT_MENU {
            Ok(KeyCode::ContextMenu)
        } else if value == VC_POWER {
            Ok(KeyCode::Power)
        } else if value == VC_SLEEP {
            Ok(KeyCode::Sleep)
        } else if value == VC_WAKE {
            Ok(KeyCode::Wake)
        } else if value == VC_MEDIA_PLAY {
            Ok(KeyCode::MediaPlay)
        } else if value == VC_MEDIA_STOP {
            Ok(KeyCode::MediaStop)
        } else if value == VC_MEDIA_PREVIOUS {
            Ok(KeyCode::MediaPrevious)
        } else if value == VC_MEDIA_NEXT {
            Ok(KeyCode::MediaNext)
        } else if value == VC_MEDIA_SELECT {
            Ok(KeyCode::MediaSelect)
        } else if value == VC_MEDIA_EJECT {
            Ok(KeyCode::MediaEject)
        } else if value == VC_VOLUME_MUTE {
            Ok(KeyCode::VolumeMute)
        } else if value == VC_VOLUME_UP {
            Ok(KeyCode::VolumeUp)
        } else if value == VC_VOLUME_DOWN {
            Ok(KeyCode::VolumeDown)
        } else if value == VC_APP_MAIL {
            Ok(KeyCode::AppMail)
        } else if value == VC_APP_CALCULATOR {
            Ok(KeyCode::AppCalculator)
        } else if value == VC_APP_MUSIC {
            Ok(KeyCode::AppMusic)
        } else if value == VC_APP_PICTURES {
            Ok(KeyCode::AppPictures)
        } else if value == VC_BROWSER_SEARCH {
            Ok(KeyCode::BrowserSearch)
        } else if value == VC_BROWSER_HOME {
            Ok(KeyCode::BrowserHome)
        } else if value == VC_BROWSER_BACK {
            Ok(KeyCode::BrowserBack)
        } else if value == VC_BROWSER_FORWARD {
            Ok(KeyCode::BrowserForward)
        } else if value == VC_BROWSER_STOP {
            Ok(KeyCode::BrowserStop)
        } else if value == VC_BROWSER_REFRESH {
            Ok(KeyCode::BrowserRefresh)
        } else if value == VC_BROWSER_FAVORITES {
            Ok(KeyCode::BrowserFavorites)
        } else if value == VC_KATAKANA {
            Ok(KeyCode::Katakana)
        } else if value == VC_UNDERSCORE {
            Ok(KeyCode::Underscore)
        } else if value == VC_FURIGANA {
            Ok(KeyCode::Furigana)
        } else if value == VC_KANJI {
            Ok(KeyCode::Kanji)
        } else if value == VC_HIRAGANA {
            Ok(KeyCode::Hiragana)
        } else if value == VC_YEN {
            Ok(KeyCode::Yen)
        } else if value == VC_KP_COMMA {
            Ok(KeyCode::KpComma)
        } else if value == VC_SUN_HELP {
            Ok(KeyCode::SunHelp)
        } else if value == VC_SUN_STOP {
            Ok(KeyCode::SunStop)
        } else if value == VC_SUN_PROPS {
            Ok(KeyCode::SunProps)
        } else if value == VC_SUN_FRONT {
            Ok(KeyCode::SunFront)
        } else if value == VC_SUN_OPEN {
            Ok(KeyCode::SunOpen)
        } else if value == VC_SUN_FIND {
            Ok(KeyCode::SunFind)
        } else if value == VC_SUN_AGAIN {
            Ok(KeyCode::SunAgain)
        } else if value == VC_SUN_UNDO {
            Ok(KeyCode::SunUndo)
        } else if value == VC_SUN_COPY {
            Ok(KeyCode::SunCopy)
        } else if value == VC_SUN_INSERT {
            Ok(KeyCode::SunInsert)
        } else if value == VC_SUN_CUT {
            Ok(KeyCode::SunCut)
        } else if value == VC_UNDEFINED {
            Ok(KeyCode::Undefined)
        } else if value == CHAR_UNDEFINED {
            Ok(KeyCode::CharUndefined)
        } else {
            Err(())
        }
    }
}

/// The key-code mapping never yields a code above sixteen bits, so a code
/// always fits the native record's field.
pub proof fn lemma_key_code_value_bound(k: KeyCode)
    ensures
        key_code_value(k) <= 0xFFFF,
{
}

/// Distinct symbolic keys carry distinct virtual key codes.
pub proof fn lemma_key_code_value_injective(a: KeyCode, b: KeyCode)
    requires
        key_code_value(a) == key_code_value(b),
    ensures
        a == b,
{
}

/// The total mapping from a native virtual key code to a symbolic key:
/// the key that carries the code, or `Undefined` when none does.
pub open spec fn key_code_of(v: u32) -> KeyCode {
    if exists|k: KeyCode| key_code_value(k) == v {
        choose|k: KeyCode| key_code_value(k) == v
    } else {
        KeyCode::Undefined
    }
}

/// Mapping a key to its code and back returns the key itself.
pub proof fn lemma_key_code_roundtrip(k: KeyCode)
    ensures
        key_code_of(key_code_value(k)) == k,
{
    let v = key_code_value(k);
    assert(key_code_value(k) == v);
    let k2 = choose|k2: KeyCode| key_code_value(k2) == v;
    lemma_key_code_value_injective(k, k2);
}

/// Relies on `char::from_u32` of std: the result is the character with the
/// given scalar value, and `None` exactly for values that are no Unicode
/// scalar (surrogates and values above the Unicode range).
pub assume_specification [ char::from_u32 ] (v: u32) -> (r: Option<char>)
    ensures
        (0xD800 <= v < 0xE000 || v > 0x10FFFF) <==> r is None,
        !(0xD800 <= v < 0xE000 || v > 0x10FFFF) ==> r == Some(v as char),
;

/// The character a native character code denotes: none for surrogate code
/// points and values above the Unicode range, which are no Unicode scalars.
pub open spec fn spec_char_from_code(v: u32) -> Option<char> {
    if 0xD800 <= v < 0xE000 || v > 0x10FFFF {
        None
    } else {
        Some(v as char)
    }
}

/// The typed event that a native keyboard payload denotes, before the
/// caller fixes the phase from the record's discriminant.
pub open spec fn spec_keyboard_from_data(d: KeyboardData) -> KeyboardEvent {
    KeyboardEvent {
        event_type: KeyboardEventType::Pressed,
        key_code: key_code_of(d.keycode as u32),
        raw_code: d.rawcode,
        key_char: spec_char_from_code(d.keychar as u32),
    }
}

impl<'a> core::convert::From<&'a KeyboardData> for KeyboardEvent {
    /// Copies a native keyboard payload out into an owned event, mapping
    /// the key code through the symbolic table.  The phase defaults to
    /// `Pressed`; builders of full events overwrite it from the record's
    /// discriminant.
    fn from(d: &'a KeyboardData) -> (e: Self) {
        let key_code = match KeyCode::try_from(d.keycode as u32) {
            Ok(k) => {
                proof {
                    lemma_key_code_roundtrip(k);
                }
                k
            },
            Err(()) => KeyCode::Undefined,
        };
        let key_char = char::from_u32(d.keychar as u32);
        KeyboardEvent {
            event_type: KeyboardEventType::Pressed,
            key_code,
            raw_code: d.rawcode,
            key_char,
        }
    }
}

impl<'a> vstd::std_specs::convert::FromSpecImpl<&'a KeyboardData> for KeyboardEvent {
    open spec fn obeys_from_spec() -> bool {
        true
    }

    open spec fn from_spec(d: &'a KeyboardData) -> KeyboardEvent {
        spec_keyboard_from_data(*d)
    }
}

/// The synthetic keyboard event that injection writes for one key and
/// phase: the key with its own virtual code and no character, since a
/// character is not derivable from the key alone without a layout table.
pub open spec fn spec_synth_keyboard(event_type: KeyboardEventType, key: KeyCode) -> KeyboardEvent {
    KeyboardEvent {
        event_type,
        key_code: key,
        raw_code: key_code_value(key) as u16,
        key_char: None,
    }
}

/// Builds the synthetic keyboard event for one key and phase.
pub fn create_keyboard_event(event_type: KeyboardEventType, key: KeyCode) -> (e: KeyboardEvent)
    ensures
        e == spec_synth_keyboard(event_type, key),
{
    KeyboardEvent { event_type, key_code: key, raw_code: u32::from(key) as u16, key_char: None }
}

/// The events a key tap issues, in order: every modifier pressed in the
/// given order, then the key pressed and released, then every modifier
/// released in reverse order -- the last-pressed modifier is released
/// first, so the modifiers nest properly around the key.
pub open spec fn spec_tap_sequence(key: KeyCode, modifiers: Seq<KeyCode>) -> Seq<KeyboardEvent> {
    Seq::new(
        modifiers.len(),
        |i: int| spec_synth_keyboard(KeyboardEventType::Pressed, modifiers[i]),
    ) + seq![
        spec_synth_keyboard(KeyboardEventType::Pressed, key),
        spec_synth_keyboard(KeyboardEventType::Released, key),
    ] + Seq::new(
        modifiers.len(),
        |i: int| spec_synth_keyboard(
            KeyboardEventType::Released,
            modifiers[modifiers.len() - 1 - i],
        ),
    )
}

/// Builds the ordered event sequence of a key tap.
pub fn tap_sequence(key: KeyCode, modifiers: &[KeyCode]) -> (events: Vec<KeyboardEvent>)
    ensures
        events@ == spec_tap_sequence(key, modifiers@),
{
    let n = modifiers.len();
    let mut events: Vec<KeyboardEvent> = Vec::new();
    let mut i: usize = 0;
    while i < n
        invariant
            i <= n,
            n == modifiers@.len(),
            events@.len() == i,
            forall|k: int|
                0 <= k < i ==> events@[k] == spec_synth_keyboard(
                    KeyboardEventType::Pressed,
                    modifiers@[k],
                ),
        decreases n - i,
    {
        events.push(create_keyboard_event(KeyboardEventType::Pressed, modifiers[i]));
        i += 1;
    }
    events.push(create_keyboard_event(KeyboardEventType::Pressed, key));
    events.push(create_keyboard_event(KeyboardEventType::Released, key));
    let ghost middle = events@;
    let mut j: usize = n;
    while j > 0
        invariant
            j <= n,
            n == modifiers@.len(),
            middle.len() == n + 2,
            events@.len() == middle.len() + (n - j),
            events@.take(middle.len() as int) == middle,
            forall|k: int|
                0 <= k < n - j ==> #[trigger] events@[middle.len() + k] == spec_synth_keyboard(
                    KeyboardEventType::Released,
                    modifiers@[n - 1 - k],
                ),
        decreases j,
    {
        j -= 1;
        events.push(create_keyboard_event(KeyboardEventType::Released, modifiers[j]));
        proof {
            assert(events@.take(middle.len() as int) =~= middle);
        }
    }
    proof {
        let goal = spec_tap_sequence(key, modifiers@);
        let n_ = n as int;
        assert forall|k: int| 0 <= k < events@.len() implies events@[k] == goal[k] by {
            if k < n_ + 2 {
                assert(events@[k] == events@.take(n_ + 2)[k]);
            } else {
                assert(events@[n_ + 2 + (k - n_ - 2)] == spec_synth_keyboard(
                    KeyboardEventType::Released,
                    modifiers@[n_ - 1 - (k - n_ - 2)],
                ));
            }
        }
        assert(events@ =~= goal);
    }
    events
}

/// Simulates a key tap: the key pressed and released, nested inside the
/// given modifiers.
///
/// The events of [`spec_tap_sequence`] are posted in order, each through
/// [`Uiohook::post_event`]; posting cannot fail, so neither can the tap.
pub fn key_tap<H: EventHandler, N: NativeHook>(
    uiohook: &Uiohook<H>,
    native: &mut N,
    key: KeyCode,
    modifiers: &[KeyCode],
) -> (r: Result<(), UiohookError>)
    ensures
        r is Ok,
{
    let events = tap_sequence(key, modifiers);
    let mut i: usize = 0;
    while i < events.len()
        decreases events@.len() - i,
    {
        let result = uiohook.post_event(native, &UiohookEvent::Keyboard(events[i]));
        if let Err(e) = result {
            return Err(e);
        }
        i += 1;
    }
    Ok(())
}

/// Simulates a single key press or release: pressed when `down` holds,
/// released otherwise.
pub fn key_toggle<H: EventHandler, N: NativeHook>(
    uiohook: &Uiohook<H>,
    native: &mut N,
    key: KeyCode,
    down: bool,
) -> (r: Result<(), UiohookError>)
    ensures
        r is Ok,
{
    let event_type = if down {
        KeyboardEventType::Pressed
    } else {
        KeyboardEventType::Released
    };
    let event = create_keyboard_event(event_type, key);
    uiohook.post_event(native, &UiohookEvent::Keyboard(event))
}

} // verus!

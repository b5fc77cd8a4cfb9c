//! A safe, contract-checked interface over a native input-hooking engine.
//!
//! The library models the engine's flat event record as plain values,
//! converts it to and from a typed, owned event model, and drives a
//! race-free run/stop/post lifecycle around the engine's single
//! process-wide callback registration.  The engine itself stays behind the
//! [`hook::NativeHook`] capability, so the conversions, the lifecycle state
//! machine and the injection helpers are all ordinary verified code.

use vstd::prelude::*;

pub mod error;
pub mod hook;
pub mod legacy;
pub mod native;
pub mod utils;

pub use error::UiohookError;
pub use hook::keyboard::{key_tap, key_toggle, KeyCode, KeyboardEvent, KeyboardEventType};
pub use hook::mouse::{
    mouse_click, mouse_move, mouse_press, mouse_release, MouseButton, MouseEvent, MouseEventType,
};
pub use hook::wheel::WheelEvent;
pub use hook::{dispatch_proc, DispatchSlot, EventHandler, NativeHook, Uiohook, UiohookEvent};
pub use utils::{create_screen_info, query_result, ScreenData};
pub use native::{
    EVENT_HOOK_DISABLED, EVENT_HOOK_ENABLED, EVENT_KEY_PRESSED, EVENT_KEY_RELEASED,
    EVENT_KEY_TYPED, EVENT_MOUSE_CLICKED, EVENT_MOUSE_DRAGGED, EVENT_MOUSE_MOVED,
    EVENT_MOUSE_PRESSED, EVENT_MOUSE_RELEASED, EVENT_MOUSE_WHEEL,
    CHAR_UNDEFINED, MASK_ALT, MASK_ALT_L, MASK_ALT_R, MASK_CTRL, MASK_CTRL_L, MASK_CTRL_R,
    MASK_META, MASK_META_L, MASK_META_R, MASK_SHIFT, MASK_SHIFT_L, MASK_SHIFT_R, MOUSE_BUTTON1,
    MOUSE_BUTTON2, MOUSE_BUTTON3, MOUSE_BUTTON4, MOUSE_BUTTON5, MOUSE_NOBUTTON,
    UIOHOOK_ERROR_AXAPI_DISABLED, UIOHOOK_ERROR_CREATE_EVENT_PORT,
    UIOHOOK_ERROR_CREATE_OBSERVER, UIOHOOK_ERROR_CREATE_RUN_LOOP_SOURCE,
    UIOHOOK_ERROR_GET_MODULE_HANDLE, UIOHOOK_ERROR_GET_RUNLOOP, UIOHOOK_ERROR_OUT_OF_MEMORY,
    UIOHOOK_ERROR_SET_WINDOWS_HOOK_EX, UIOHOOK_ERROR_X_OPEN_DISPLAY,
    UIOHOOK_ERROR_X_RECORD_ALLOC_RANGE, UIOHOOK_ERROR_X_RECORD_CREATE_CONTEXT,
    UIOHOOK_ERROR_X_RECORD_ENABLE_CONTEXT, UIOHOOK_ERROR_X_RECORD_GET_CONTEXT,
    UIOHOOK_ERROR_X_RECORD_NOT_FOUND, UIOHOOK_FAILURE, UIOHOOK_SUCCESS, VC_0, VC_1, VC_2, VC_3,
    VC_4, VC_5, VC_6, VC_7, VC_8, VC_9, VC_A, VC_ALT_L, VC_ALT_R, VC_APP_CALCULATOR,
    VC_APP_MAIL, VC_APP_MUSIC, VC_APP_PICTURES, VC_B, VC_BACKQUOTE, VC_BACKSPACE,
    VC_BACK_SLASH, VC_BROWSER_BACK, VC_BROWSER_FAVORITES, VC_BROWSER_FORWARD, VC_BROWSER_HOME,
    VC_BROWSER_REFRESH, VC_BROWSER_SEARCH, VC_BROWSER_STOP, VC_C, VC_CAPS_LOCK, VC_CLEAR,
    VC_CLOSE_BRACKET, VC_COMMA, VC_CONTEXT_MENU, VC_CONTROL_L, VC_CONTROL_R, VC_D, VC_DELETE,
    VC_DOWN, VC_E, VC_END, VC_ENTER, VC_EQUALS, VC_ESCAPE, VC_F, VC_F1, VC_F10, VC_F11, VC_F12,
    VC_F13, VC_F14, VC_F15, VC_F16, VC_F17, VC_F18, VC_F19, VC_F2, VC_F20, VC_F21, VC_F22,
    VC_F23, VC_F24, VC_F3, VC_F4, VC_F5, VC_F6, VC_F7, VC_F8, VC_F9, VC_FURIGANA, VC_G, VC_H,
    VC_HIRAGANA, VC_HOME, VC_I, VC_INSERT, VC_J, VC_K, VC_KANJI, VC_KATAKANA, VC_KP_0, VC_KP_1,
    VC_KP_2, VC_KP_3, VC_KP_4, VC_KP_5, VC_KP_6, VC_KP_7, VC_KP_8, VC_KP_9, VC_KP_ADD,
    VC_KP_CLEAR, VC_KP_COMMA, VC_KP_DELETE, VC_KP_DIVIDE, VC_KP_DOWN, VC_KP_END, VC_KP_ENTER,
    VC_KP_EQUALS, VC_KP_HOME, VC_KP_INSERT, VC_KP_LEFT, VC_KP_MULTIPLY, VC_KP_PAGE_DOWN,
    VC_KP_PAGE_UP, VC_KP_RIGHT, VC_KP_SEPARATOR, VC_KP_SUBTRACT, VC_KP_UP, VC_L, VC_LEFT,
    VC_LESSER_GREATER, VC_M, VC_MEDIA_EJECT, VC_MEDIA_NEXT, VC_MEDIA_PLAY, VC_MEDIA_PREVIOUS,
    VC_MEDIA_SELECT, VC_MEDIA_STOP, VC_META_L, VC_META_R, VC_MINUS, VC_N, VC_NUM_LOCK, VC_O,
    VC_OPEN_BRACKET, VC_P, VC_PAGE_DOWN, VC_PAGE_UP, VC_PAUSE, VC_PERIOD, VC_POWER,
    VC_PRINTSCREEN, VC_Q, VC_QUOTE, VC_R, VC_RIGHT, VC_S, VC_SCROLL_LOCK, VC_SEMICOLON,
    VC_SHIFT_L, VC_SHIFT_R, VC_SLASH, VC_SLEEP, VC_SPACE, VC_SUN_AGAIN, VC_SUN_COPY,
    VC_SUN_CUT, VC_SUN_FIND, VC_SUN_FRONT, VC_SUN_HELP, VC_SUN_INSERT, VC_SUN_OPEN,
    VC_SUN_PROPS, VC_SUN_STOP, VC_SUN_UNDO, VC_T, VC_TAB, VC_U, VC_UNDEFINED, VC_UNDERSCORE,
    VC_UP, VC_V, VC_VOLUME_DOWN, VC_VOLUME_MUTE, VC_VOLUME_UP, VC_W, VC_WAKE, VC_X, VC_Y,
    VC_YEN, VC_Z, WHEEL_BLOCK_SCROLL, WHEEL_HORIZONTAL_DIRECTION, WHEEL_UNIT_SCROLL,
    WHEEL_VERTICAL_DIRECTION,
};

verus! {

/// Version of the crate.
pub const VERSION: &'static str = "0.1.0";

} // verus!

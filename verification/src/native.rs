//! Plain-value model of the native input-hook engine's ABI.
//!
//! The native engine hands every observation to the process through one flat,
//! reused-per-callback record and takes the same record back for synthetic
//! injection.  This module holds that record as owned plain values, together
//! with the numeric constants of the engine's ABI: status codes, event
//! discriminants, virtual key codes, mouse buttons, wheel parameters and
//! modifier masks.  Nothing here touches the engine itself; the record is a
//! value that the rest of the library converts, inspects and proves things
//! about.

use vstd::prelude::*;

verus! {

// Status codes reported by the native engine's entry points.
pub const UIOHOOK_SUCCESS: u32 = 0x00;
pub const UIOHOOK_FAILURE: u32 = 0x01;
pub const UIOHOOK_ERROR_OUT_OF_MEMORY: u32 = 0x02;
pub const UIOHOOK_ERROR_X_OPEN_DISPLAY: u32 = 0x20;
pub const UIOHOOK_ERROR_X_RECORD_NOT_FOUND: u32 = 0x21;
pub const UIOHOOK_ERROR_X_RECORD_ALLOC_RANGE: u32 = 0x22;
pub const UIOHOOK_ERROR_X_RECORD_CREATE_CONTEXT: u32 = 0x23;
pub const UIOHOOK_ERROR_X_RECORD_ENABLE_CONTEXT: u32 = 0x24;
pub const UIOHOOK_ERROR_X_RECORD_GET_CONTEXT: u32 = 0x25;
pub const UIOHOOK_ERROR_SET_WINDOWS_HOOK_EX: u32 = 0x30;
pub const UIOHOOK_ERROR_GET_MODULE_HANDLE: u32 = 0x31;
pub const UIOHOOK_ERROR_AXAPI_DISABLED: u32 = 0x40;
pub const UIOHOOK_ERROR_CREATE_EVENT_PORT: u32 = 0x41;
pub const UIOHOOK_ERROR_CREATE_RUN_LOOP_SOURCE: u32 = 0x42;
pub const UIOHOOK_ERROR_GET_RUNLOOP: u32 = 0x43;
pub const UIOHOOK_ERROR_CREATE_OBSERVER: u32 = 0x44;

// Event discriminants of the native record.
pub const EVENT_HOOK_ENABLED: u32 = 1;
pub const EVENT_HOOK_DISABLED: u32 = 2;
pub const EVENT_KEY_TYPED: u32 = 3;
pub const EVENT_KEY_PRESSED: u32 = 4;
pub const EVENT_KEY_RELEASED: u32 = 5;
pub const EVENT_MOUSE_CLICKED: u32 = 6;
pub const EVENT_MOUSE_PRESSED: u32 = 7;
pub const EVENT_MOUSE_RELEASED: u32 = 8;
pub const EVENT_MOUSE_MOVED: u32 = 9;
pub const EVENT_MOUSE_DRAGGED: u32 = 10;
pub const EVENT_MOUSE_WHEEL: u32 = 11;

// Virtual key codes.
pub const VC_ESCAPE: u32 = 0x0001;

pub const VC_F1: u32 = 0x003B;
pub const VC_F2: u32 = 0x003C;
pub const VC_F3: u32 = 0x003D;
pub const VC_F4: u32 = 0x003E;
pub const VC_F5: u32 = 0x003F;
pub const VC_F6: u32 = 0x0040;
pub const VC_F7: u32 = 0x0041;
pub const VC_F8: u32 = 0x0042;
pub const VC_F9: u32 = 0x0043;
pub const VC_F10: u32 = 0x0044;
pub const VC_F11: u32 = 0x0057;
pub const VC_F12: u32 = 0x0058;
pub const VC_F13: u32 = 0x005B;
pub const VC_F14: u32 = 0x005C;
pub const VC_F15: u32 = 0x005D;
pub const VC_F16: u32 = 0x0063;
pub const VC_F17: u32 = 0x0064;
pub const VC_F18: u32 = 0x0065;
pub const VC_F19: u32 = 0x0066;
pub const VC_F20: u32 = 0x0067;
pub const VC_F21: u32 = 0x0068;
pub const VC_F22: u32 = 0x0069;
pub const VC_F23: u32 = 0x006A;
pub const VC_F24: u32 = 0x006B;

pub const VC_BACKQUOTE: u32 = 0x0029;

pub const VC_1: u32 = 0x0002;
pub const VC_2: u32 = 0x0003;
pub const VC_3: u32 = 0x0004;
pub const VC_4: u32 = 0x0005;
pub const VC_5: u32 = 0x0006;
pub const VC_6: u32 = 0x0007;
pub const VC_7: u32 = 0x0008;
pub const VC_8: u32 = 0x0009;
pub const VC_9: u32 = 0x000A;
pub const VC_0: u32 = 0x000B;

pub const VC_MINUS: u32 = 0x000C;
pub const VC_EQUALS: u32 = 0x000D;
pub const VC_BACKSPACE: u32 = 0x000E;

pub const VC_TAB: u32 = 0x000F;
pub const VC_CAPS_LOCK: u32 = 0x003A;

pub const VC_A: u32 = 0x001E;
pub const VC_B: u32 = 0x0030;
pub const VC_C: u32 = 0x002E;
pub const VC_D: u32 = 0x0020;
pub const VC_E: u32 = 0x0012;
pub const VC_F: u32 = 0x0021;
pub const VC_G: u32 = 0x0022;
pub const VC_H: u32 = 0x0023;
pub const VC_I: u32 = 0x0017;
pub const VC_J: u32 = 0x0024;
pub const VC_K: u32 = 0x0025;
pub const VC_L: u32 = 0x0026;
pub const VC_M: u32 = 0x0032;
pub const VC_N: u32 = 0x0031;
pub const VC_O: u32 = 0x0018;
pub const VC_P: u32 = 0x0019;
pub const VC_Q: u32 = 0x0010;
pub const VC_R: u32 = 0x0013;
pub const VC_S: u32 = 0x001F;
pub const VC_T: u32 = 0x0014;
pub const VC_U: u32 = 0x0016;
pub const VC_V: u32 = 0x002F;
pub const VC_W: u32 = 0x0011;
pub const VC_X: u32 = 0x002D;
pub const VC_Y: u32 = 0x0015;
pub const VC_Z: u32 = 0x002C;

pub const VC_OPEN_BRACKET: u32 = 0x001A;
pub const VC_CLOSE_BRACKET: u32 = 0x001B;
pub const VC_BACK_SLASH: u32 = 0x002B;

pub const VC_SEMICOLON: u32 = 0x0027;
pub const VC_QUOTE: u32 = 0x0028;
pub const VC_ENTER: u32 = 0x001C;

pub const VC_COMMA: u32 = 0x0033;
pub const VC_PERIOD: u32 = 0x0034;
pub const VC_SLASH: u32 = 0x0035;

pub const VC_SPACE: u32 = 0x0039;

pub const VC_PRINTSCREEN: u32 = 0x0E37;
pub const VC_SCROLL_LOCK: u32 = 0x0046;
pub const VC_PAUSE: u32 = 0x0E45;

pub const VC_LESSER_GREATER: u32 = 0x0E46;

pub const VC_INSERT: u32 = 0x0E52;
pub const VC_DELETE: u32 = 0x0E53;
pub const VC_HOME: u32 = 0x0E47;
pub const VC_END: u32 = 0x0E4F;
pub const VC_PAGE_UP: u32 = 0x0E49;
pub const VC_PAGE_DOWN: u32 = 0x0E51;

pub const VC_UP: u32 = 0xE048;
pub const VC_LEFT: u32 = 0xE04B;
pub const VC_CLEAR: u32 = 0xE04C;
pub const VC_RIGHT: u32 = 0xE04D;
pub const VC_DOWN: u32 = 0xE050;

pub const VC_NUM_LOCK: u32 = 0x0045;
pub const VC_KP_DIVIDE: u32 = 0x0E35;
pub const VC_KP_MULTIPLY: u32 = 0x0037;
pub const VC_KP_SUBTRACT: u32 = 0x004A;
pub const VC_KP_EQUALS: u32 = 0x0E0D;
pub const VC_KP_ADD: u32 = 0x004E;
pub const VC_KP_ENTER: u32 = 0x0E1C;
pub const VC_KP_SEPARATOR: u32 = 0x0053;

pub const VC_KP_1: u32 = 0x004F;
pub const VC_KP_2: u32 = 0x0050;
pub const VC_KP_3: u32 = 0x0051;
pub const VC_KP_4: u32 = 0x004B;
pub const VC_KP_5: u32 = 0x004C;
pub const VC_KP_6: u32 = 0x004D;
pub const VC_KP_7: u32 = 0x0047;
pub const VC_KP_8: u32 = 0x0048;
pub const VC_KP_9: u32 = 0x0049;
pub const VC_KP_0: u32 = 0x0052;

pub const VC_KP_END: u32 = 0xEE4F;
pub const VC_KP_DOWN: u32 = 0xEE50;
pub const VC_KP_PAGE_DOWN: u32 = 0xEE51;
pub const VC_KP_LEFT: u32 = 0xEE4B;
pub const VC_KP_CLEAR: u32 = 0xEE4C;
pub const VC_KP_RIGHT: u32 = 0xEE4D;
pub const VC_KP_HOME: u32 = 0xEE47;
pub const VC_KP_UP: u32 = 0xEE48;
pub const VC_KP_PAGE_UP: u32 = 0xEE49;
pub const VC_KP_INSERT: u32 = 0xEE52;
pub const VC_KP_DELETE: u32 = 0xEE53;

pub const VC_SHIFT_L: u32 = 0x002A;
pub const VC_SHIFT_R: u32 = 0x0036;
pub const VC_CONTROL_L: u32 = 0x001D;
pub const VC_CONTROL_R: u32 = 0x0E1D;
pub const VC_ALT_L: u32 = 0x0038;
pub const VC_ALT_R: u32 = 0x0E38;
pub const VC_META_L: u32 = 0x0E5B;
pub const VC_META_R: u32 = 0x0E5C;
pub const VC_CONTEXT_MENU: u32 = 0x0E5D;

pub const VC_POWER: u32 = 0xE05E;
pub const VC_SLEEP: u32 = 0xE05F;
pub const VC_WAKE: u32 = 0xE063;

pub const VC_MEDIA_PLAY: u32 = 0xE022;
pub const VC_MEDIA_STOP: u32 = 0xE024;
pub const VC_MEDIA_PREVIOUS: u32 = 0xE010;
pub const VC_MEDIA_NEXT: u32 = 0xE019;
pub const VC_MEDIA_SELECT: u32 = 0xE06D;
pub const VC_MEDIA_EJECT: u32 = 0xE02C;

pub const VC_VOLUME_MUTE: u32 = 0xE020;
pub const VC_VOLUME_UP: u32 = 0xE030;
pub const VC_VOLUME_DOWN: u32 = 0xE02E;

pub const VC_APP_MAIL: u32 = 0xE06C;
pub const VC_APP_CALCULATOR: u32 = 0xE021;
pub const VC_APP_MUSIC: u32 = 0xE03C;
pub const VC_APP_PICTURES: u32 = 0xE064;

pub const VC_BROWSER_SEARCH: u32 = 0xE065;
pub const VC_BROWSER_HOME: u32 = 0xE032;
pub const VC_BROWSER_BACK: u32 = 0xE06A;
pub const VC_BROWSER_FORWARD: u32 = 0xE069;
pub const VC_BROWSER_STOP: u32 = 0xE068;
pub const VC_BROWSER_REFRESH: u32 = 0xE067;
pub const VC_BROWSER_FAVORITES: u32 = 0xE066;

pub const VC_KATAKANA: u32 = 0x0070;
pub const VC_UNDERSCORE: u32 = 0x0073;
pub const VC_FURIGANA: u32 = 0x0077;
pub const VC_KANJI: u32 = 0x0079;
pub const VC_HIRAGANA: u32 = 0x007B;
pub const VC_YEN: u32 = 0x007D;
pub const VC_KP_COMMA: u32 = 0x007E;

pub const VC_SUN_HELP: u32 = 0xFF75;
pub const VC_SUN_STOP: u32 = 0xFF78;
pub const VC_SUN_PROPS: u32 = 0xFF76;
pub const VC_SUN_FRONT: u32 = 0xFF77;
pub const VC_SUN_OPEN: u32 = 0xFF74;
pub const VC_SUN_FIND: u32 = 0xFF7E;
pub const VC_SUN_AGAIN: u32 = 0xFF79;
pub const VC_SUN_UNDO: u32 = 0xFF7A;
pub const VC_SUN_COPY: u32 = 0xFF7C;
pub const VC_SUN_INSERT: u32 = 0xFF7D;
pub const VC_SUN_CUT: u32 = 0xFF7B;

pub const VC_UNDEFINED: u32 = 0x0000;
pub const CHAR_UNDEFINED: u32 = 0xFFFF;

// Mouse buttons.
pub const MOUSE_NOBUTTON: u32 = 0;
pub const MOUSE_BUTTON1: u32 = 1;
pub const MOUSE_BUTTON2: u32 = 2;
pub const MOUSE_BUTTON3: u32 = 3;
pub const MOUSE_BUTTON4: u32 = 4;
pub const MOUSE_BUTTON5: u32 = 5;

// Wheel scroll kinds and directions, as they appear in the record's
// one-byte fields.
pub const WHEEL_UNIT_SCROLL: u8 = 1;
pub const WHEEL_BLOCK_SCROLL: u8 = 2;
pub const WHEEL_VERTICAL_DIRECTION: u8 = 3;
pub const WHEEL_HORIZONTAL_DIRECTION: u8 = 4;

// Modifier masks carried in the record's mask field.
pub const MASK_SHIFT_L: u16 = 0x0001;
pub const MASK_CTRL_L: u16 = 0x0002;
pub const MASK_META_L: u16 = 0x0004;
pub const MASK_ALT_L: u16 = 0x0008;
pub const MASK_SHIFT_R: u16 = 0x0010;
pub const MASK_CTRL_R: u16 = 0x0020;
pub const MASK_META_R: u16 = 0x0040;
pub const MASK_ALT_R: u16 = 0x0080;
pub const MASK_SHIFT: u16 = 0x0011;
pub const MASK_CTRL: u16 = 0x0022;
pub const MASK_META: u16 = 0x0044;
pub const MASK_ALT: u16 = 0x0088;

/// Keyboard payload of the native record.
#[derive(Debug, Clone, Copy, PartialEq, Eq, Structural)]
pub struct KeyboardData {
    /// Virtual key code (one of the `VC_` constants, truncated to 16 bits).
    pub keycode: u16,
    /// Platform scan code, passed through untouched.
    pub rawcode: u16,
    /// Character code for typed events; zero when none applies.
    pub keychar: u16,
}

/// Mouse payload of the native record.
#[derive(Debug, Clone, Copy, PartialEq, Eq, Structural)]
pub struct MouseData {
    /// Button number (one of the `MOUSE_` constants).
    pub button: u16,
    /// Consecutive click count.
    pub clicks: u16,
    /// Pointer x coordinate in pixels.
    pub x: i16,
    /// Pointer y coordinate in pixels.
    pub y: i16,
}

/// Wheel payload of the native record.
#[derive(Debug, Clone, Copy, PartialEq, Eq, Structural)]
pub struct WheelData {
    /// Consecutive click count.
    pub clicks: u16,
    /// Pointer x coordinate in pixels.
    pub x: i16,
    /// Pointer y coordinate in pixels.
    pub y: i16,
    /// Scroll kind: unit or block scrolling.
    pub type_: u8,
    /// Scroll amount per rotation unit.
    pub amount: u16,
    /// Signed rotation, negative and positive for the two turn directions.
    pub rotation: i16,
    /// Scroll direction: vertical or horizontal.
    pub direction: u8,
}

/// The native engine's flat event record, held as owned plain values.
///
/// The engine reuses its own record as soon as a callback returns, so every
/// field a caller may need later must be copied out into a value of this
/// type.  All three payloads are present; only the one selected by `type_`
/// is meaningful, and the others are zero-filled.
#[derive(Debug, Clone, Copy, PartialEq, Eq, Structural)]
pub struct RawEvent {
    /// Event discriminant (one of the `EVENT_` constants).
    pub type_: u32,
    /// Engine-supplied timestamp.
    pub time: u64,
    /// Modifier mask at the time of the event.
    pub mask: u16,
    /// Padding field of the native layout, kept so records compare whole.
    pub reserved: u16,
    /// Keyboard payload; meaningful only for key events.
    pub keyboard: KeyboardData,
    /// Mouse payload; meaningful only for mouse events.
    pub mouse: MouseData,
    /// Wheel payload; meaningful only for wheel events.
    pub wheel: WheelData,
}

impl RawEvent {
    /// A record with every field zeroed, the starting point for building a
    /// record to inject.
    pub fn zeroed() -> (r: RawEvent)
        ensures
            r == RawEvent::spec_zeroed(),
    {
        RawEvent {
            type_: 0,
            time: 0,
            mask: 0,
            reserved: 0,
            keyboard: KeyboardData { keycode: 0, rawcode: 0, keychar: 0 },
            mouse: MouseData { button: 0, clicks: 0, x: 0, y: 0 },
            wheel: WheelData {
                clicks: 0,
                x: 0,
                y: 0,
                type_: 0,
                amount: 0,
                rotation: 0,
                direction: 0,
            },
        }
    }

    /// The all-zero record.
    pub open spec fn spec_zeroed() -> RawEvent {
        RawEvent {
            type_: 0,
            time: 0,
            mask: 0,
            reserved: 0,
            keyboard: KeyboardData { keycode: 0, rawcode: 0, keychar: 0 },
            mouse: MouseData { button: 0, clicks: 0, x: 0, y: 0 },
            wheel: WheelData {
                clicks: 0,
                x: 0,
                y: 0,
                type_: 0,
                amount: 0,
                rotation: 0,
                direction: 0,
            },
        }
    }
}

/// One screen's geometry as the native engine reports it.
#[derive(Debug, Clone, Copy, PartialEq, Eq, Structural)]
pub struct RawScreenData {
    /// Screen number.
    pub number: u8,
    /// Origin x coordinate.
    pub x: i16,
    /// Origin y coordinate.
    pub y: i16,
    /// Width in pixels.
    pub width: u16,
    /// Height in pixels.
    pub height: u16,
}

} // verus!

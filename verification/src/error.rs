//! Error taxonomy of the library.
//!
//! Native-origin failures arrive as numeric status codes and are mapped,
//! totally, onto a closed set of error kinds; any code outside the known set
//! becomes `Unknown(code)`, never a crash.  Three further kinds --
//! `AlreadyRunning`, `NotRunning` and `NotInitialized` -- signal protocol
//! misuse of the hook lifecycle and are never produced by the code mapping,
//! and `UnknownMouseButton` signals a mouse-button number outside the known
//! set during data mapping.

use vstd::prelude::*;

use crate::native::{
    UIOHOOK_ERROR_CREATE_EVENT_PORT, UIOHOOK_ERROR_CREATE_OBSERVER,
    UIOHOOK_ERROR_CREATE_RUN_LOOP_SOURCE, UIOHOOK_ERROR_GET_MODULE_HANDLE,
    UIOHOOK_ERROR_GET_RUNLOOP, UIOHOOK_ERROR_OUT_OF_MEMORY, UIOHOOK_ERROR_SET_WINDOWS_HOOK_EX,
    UIOHOOK_ERROR_X_OPEN_DISPLAY, UIOHOOK_ERROR_X_RECORD_ALLOC_RANGE,
    UIOHOOK_ERROR_X_RECORD_CREATE_CONTEXT, UIOHOOK_ERROR_X_RECORD_ENABLE_CONTEXT,
    UIOHOOK_ERROR_X_RECORD_GET_CONTEXT, UIOHOOK_ERROR_X_RECORD_NOT_FOUND, UIOHOOK_FAILURE,
};

verus! {

/// Every error the library can report.
#[derive(Debug, Clone, Copy, PartialEq, Eq, Hash, Structural)]
pub enum UiohookError {
    /// The operation failed.
    Failure,
    /// Out of memory.
    OutOfMemory,
    /// X11 failed to open the display.
    XOpenDisplay,
    /// X11 failed to find the XRecord extension.
    XRecordNotFound,
    /// X11 failed to allocate an XRecord range.
    XRecordAllocRange,
    /// X11 failed to create an XRecord context.
    XRecordCreateContext,
    /// X11 failed to enable the XRecord context.
    XRecordEnableContext,
    /// X11 failed to get the XRecord context.
    XRecordGetContext,
    /// Windows failed to set the hook.
    SetWindowsHookEx,
    /// Windows failed to get the module handle.
    GetModuleHandle,
    /// macOS failed to create the event port.
    CreateEventPort,
    /// macOS failed to create the run loop source.
    CreateRunLoopSource,
    /// macOS failed to get the run loop.
    GetRunLoop,
    /// macOS failed to create the observer.
    CreateObserver,
    /// The hook is already running.
    AlreadyRunning,
    /// The hook is not running.
    NotRunning,
    /// The hook is not initialized.
    NotInitialized,
    /// The given mouse-button number is not one of the known buttons.
    UnknownMouseButton(u32),
    /// A native status code outside the known set.
    Unknown(u32),
}

/// The total mapping from a native status code to an error kind.
///
/// Codes outside the known set, the success code among them, map to
/// `Unknown(code)`.
pub open spec fn spec_error_from_code(code: u32) -> UiohookError {
    if code == UIOHOOK_FAILURE {
        UiohookError::Failure
    } else if code == UIOHOOK_ERROR_OUT_OF_MEMORY {
        UiohookError::OutOfMemory
    } else if code == UIOHOOK_ERROR_X_OPEN_DISPLAY {
        UiohookError::XOpenDisplay
    } else if code == UIOHOOK_ERROR_X_RECORD_NOT_FOUND {
        UiohookError::XRecordNotFound
    } else if code == UIOHOOK_ERROR_X_RECORD_ALLOC_RANGE {
        UiohookError::XRecordAllocRange
    } else if code == UIOHOOK_ERROR_X_RECORD_CREATE_CONTEXT {
        UiohookError::XRecordCreateContext
    } else if code == UIOHOOK_ERROR_X_RECORD_ENABLE_CONTEXT {
        UiohookError::XRecordEnableContext
    } else if code == UIOHOOK_ERROR_X_RECORD_GET_CONTEXT {
        UiohookError::XRecordGetContext
    } else if code == UIOHOOK_ERROR_SET_WINDOWS_HOOK_EX {
        UiohookError::SetWindowsHookEx
    } else if code == UIOHOOK_ERROR_GET_MODULE_HANDLE {
        UiohookError::GetModuleHandle
    } else if code == UIOHOOK_ERROR_CREATE_EVENT_PORT {
        UiohookError::CreateEventPort
    } else if code == UIOHOOK_ERROR_CREATE_RUN_LOOP_SOURCE {
        UiohookError::CreateRunLoopSource
    } else if code == UIOHOOK_ERROR_GET_RUNLOOP {
        UiohookError::GetRunLoop
    } else if code == UIOHOOK_ERROR_CREATE_OBSERVER {
        UiohookError::CreateObserver
    } else {
        UiohookError::Unknown(code)
    }
}

/// The error kinds that signal misuse of the hook lifecycle rather than a
/// native failure.
pub open spec fn is_protocol_error(e: UiohookError) -> bool {
    e == UiohookError::AlreadyRunning || e == UiohookError::NotRunning
        || e == UiohookError::NotInitialized
}

/// The code mapping only ever reports native-origin kinds: protocol-misuse
/// and data-mapping kinds cannot come out of it, whatever the code.
pub proof fn lemma_code_mapping_never_protocol(code: u32)
    ensures
        !is_protocol_error(spec_error_from_code(code)),
        !(spec_error_from_code(code) is UnknownMouseButton),
{
}

impl core::convert::From<u32> for UiohookError {
    /// Maps a native status code to its error kind, totally.
    fn from(code: u32) -> (r: Self) {
        if code == UIOHOOK_FAILURE {
            UiohookError::Failure
        } else if code == UIOHOOK_ERROR_OUT_OF_MEMORY {
            UiohookError::OutOfMemory
        } else if code == UIOHOOK_ERROR_X_OPEN_DISPLAY {
            UiohookError::XOpenDisplay
        } else if code == UIOHOOK_ERROR_X_RECORD_NOT_FOUND {
            UiohookError::XRecordNotFound
        } else if code == UIOHOOK_ERROR_X_RECORD_ALLOC_RANGE {
            UiohookError::XRecordAllocRange
        } else if code == UIOHOOK_ERROR_X_RECORD_CREATE_CONTEXT {
            UiohookError::XRecordCreateContext
        } else if code == UIOHOOK_ERROR_X_RECORD_ENABLE_CONTEXT {
            UiohookError::XRecordEnableContext
        } else if code == UIOHOOK_ERROR_X_RECORD_GET_CONTEXT {
            UiohookError::XRecordGetContext
        } else if code == UIOHOOK_ERROR_SET_WINDOWS_HOOK_EX {
            UiohookError::SetWindowsHookEx
        } else if code == UIOHOOK_ERROR_GET_MODULE_HANDLE {
            UiohookError::GetModuleHandle
        } else if code == UIOHOOK_ERROR_CREATE_EVENT_PORT {
            UiohookError::CreateEventPort
        } else if code == UIOHOOK_ERROR_CREATE_RUN_LOOP_SOURCE {
            UiohookError::CreateRunLoopSource
        } else if code == UIOHOOK_ERROR_GET_RUNLOOP {
            UiohookError::GetRunLoop
        } else if code == UIOHOOK_ERROR_CREATE_OBSERVER {
            UiohookError::CreateObserver
        } else {
            UiohookError::Unknown(code)
        }
    }
}

impl vstd::std_specs::convert::FromSpecImpl<u32> for UiohookError {
    open spec fn obeys_from_spec() -> bool {
        true
    }

    open spec fn from_spec(code: u32) -> UiohookError {
        spec_error_from_code(code)
    }
}

/// The character for one decimal digit.
pub open spec fn spec_digit(d: u32) -> char
    recommends
        d < 10,
{
    (('0' as u32) + d) as char
}

/// The decimal rendering of a number, most significant digit first.
pub open spec fn spec_decimal(n: u32) -> Seq<char>
    decreases n,
{
    if n < 10 {
        seq![spec_digit(n)]
    } else {
        spec_decimal(n / 10).push(spec_digit(n % 10))
    }
}

fn digit_str(d: u32) -> (s: &'static str)
    requires
        d < 10,
    ensures
        s@ == seq![spec_digit(d)],
{
    let s: &'static str = if d == 0 {
        "0"
    } else if d == 1 {
        "1"
    } else if d == 2 {
        "2"
    } else if d == 3 {
        "3"
    } else if d == 4 {
        "4"
    } else if d == 5 {
        "5"
    } else if d == 6 {
        "6"
    } else if d == 7 {
        "7"
    } else if d == 8 {
        "8"
    } else {
        "9"
    };
    proof {
        reveal_strlit("0");
        reveal_strlit("1");
        reveal_strlit("2");
        reveal_strlit("3");
        reveal_strlit("4");
        reveal_strlit("5");
        reveal_strlit("6");
        reveal_strlit("7");
        reveal_strlit("8");
        reveal_strlit("9");
        assert(s@ =~= seq![spec_digit(d)]);
    }
    s
}

fn decimal_string(n: u32) -> (s: String)
    ensures
        s@ == spec_decimal(n),
    decreases n,
{
    if n < 10 {
        String::from_str(digit_str(n))
    } else {
        let mut s = decimal_string(n / 10);
        s.append(digit_str(n % 10));
        proof {
            assert(s@ =~= spec_decimal(n));
        }
        s
    }
}

impl UiohookError {
    /// The human-readable description of each error kind.
    pub open spec fn spec_message(self) -> Seq<char> {
        match self {
            UiohookError::Failure => "Operation failed"@,
            UiohookError::OutOfMemory => "Out of memory"@,
            UiohookError::XOpenDisplay => "X11 failed to open display"@,
            UiohookError::XRecordNotFound => "X11 failed to find the XRecord extension"@,
            UiohookError::XRecordAllocRange => "X11 failed to allocate XRecord range"@,
            UiohookError::XRecordCreateContext => "X11 failed to create XRecord context"@,
            UiohookError::XRecordEnableContext => "X11 failed to enable XRecord context"@,
            UiohookError::XRecordGetContext => "X11 failed to get XRecord context"@,
            UiohookError::SetWindowsHookEx => "Windows failed to set hook"@,
            UiohookError::GetModuleHandle => "Windows failed to get module handle"@,
            UiohookError::CreateEventPort => "macOS failed to create event port"@,
            UiohookError::CreateRunLoopSource => "macOS failed to create run loop source"@,
            UiohookError::GetRunLoop => "macOS failed to get run loop"@,
            UiohookError::CreateObserver => "macOS failed to create observer"@,
            UiohookError::AlreadyRunning => "The hook is already running"@,
            UiohookError::NotRunning => "The hook is not running"@,
            UiohookError::NotInitialized => "The hook is not initialized"@,
            UiohookError::UnknownMouseButton(code) => "Unknown mouse button: "@ + spec_decimal(
                code,
            ),
            UiohookError::Unknown(code) => "Unknown error: "@ + spec_decimal(code),
        }
    }

    /// Renders the error as its human-readable description.
    pub fn message(&self) -> (m: String)
        ensures
            m@ == self.spec_message(),
    {
        match self {
            UiohookError::Failure => String::from_str("Operation failed"),
            UiohookError::OutOfMemory => String::from_str("Out of memory"),
            UiohookError::XOpenDisplay => String::from_str("X11 failed to open display"),
            UiohookError::XRecordNotFound => String::from_str(
                "X11 failed to find the XRecord extension",
            ),
            UiohookError::XRecordAllocRange => String::from_str(
                "X11 failed to allocate XRecord range",
            ),
            UiohookError::XRecordCreateContext => String::from_str(
                "X11 failed to create XRecord context",
            ),
            UiohookError::XRecordEnableContext => String::from_str(
                "X11 failed to enable XRecord context",
            ),
            UiohookError::XRecordGetContext => String::from_str(
                "X11 failed to get XRecord context",
            ),
            UiohookError::SetWindowsHookEx => String::from_str("Windows failed to set hook"),
            UiohookError::GetModuleHandle => String::from_str(
                "Windows failed to get module handle",
            ),
            UiohookError::CreateEventPort => String::from_str("macOS failed to create event port"),
            UiohookError::CreateRunLoopSource => String::from_str(
                "macOS failed to create run loop source",
            ),
            UiohookError::GetRunLoop => String::from_str("macOS failed to get run loop"),
            UiohookError::CreateObserver => String::from_str("macOS failed to create observer"),
            UiohookError::AlreadyRunning => String::from_str("The hook is already running"),
            UiohookError::NotRunning => String::from_str("The hook is not running"),
            UiohookError::NotInitialized => String::from_str("The hook is not initialized"),
            UiohookError::UnknownMouseButton(code) => {
                let mut m = String::from_str("Unknown mouse button: ");
                let d = decimal_string(*code);
                m.append(d.as_str());
                m
            },
            UiohookError::Unknown(code) => {
                let mut m = String::from_str("Unknown error: ");
                let d = decimal_string(*code);
                m.append(d.as_str());
                m
            },
        }
    }
}

} // verus!

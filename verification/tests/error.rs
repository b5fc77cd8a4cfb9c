use uiohook_rs::{
    UiohookError, UIOHOOK_ERROR_CREATE_EVENT_PORT, UIOHOOK_ERROR_CREATE_OBSERVER,
    UIOHOOK_ERROR_CREATE_RUN_LOOP_SOURCE, UIOHOOK_ERROR_GET_MODULE_HANDLE,
    UIOHOOK_ERROR_GET_RUNLOOP, UIOHOOK_ERROR_OUT_OF_MEMORY, UIOHOOK_ERROR_SET_WINDOWS_HOOK_EX,
    UIOHOOK_ERROR_X_OPEN_DISPLAY, UIOHOOK_ERROR_X_RECORD_ALLOC_RANGE,
    UIOHOOK_ERROR_X_RECORD_CREATE_CONTEXT, UIOHOOK_ERROR_X_RECORD_ENABLE_CONTEXT,
    UIOHOOK_ERROR_X_RECORD_GET_CONTEXT, UIOHOOK_ERROR_X_RECORD_NOT_FOUND, UIOHOOK_FAILURE,
};

#[test]
fn test_error_conversion() {
    assert!(matches!(UiohookError::from(UIOHOOK_FAILURE), UiohookError::Failure));
    assert!(matches!(
        UiohookError::from(UIOHOOK_ERROR_OUT_OF_MEMORY),
        UiohookError::OutOfMemory
    ));
    assert!(matches!(
        UiohookError::from(UIOHOOK_ERROR_X_OPEN_DISPLAY),
        UiohookError::XOpenDisplay
    ));
    assert!(matches!(
        UiohookError::from(UIOHOOK_ERROR_X_RECORD_NOT_FOUND),
        UiohookError::XRecordNotFound
    ));
    assert!(matches!(
        UiohookError::from(UIOHOOK_ERROR_X_RECORD_ALLOC_RANGE),
        UiohookError::XRecordAllocRange
    ));
    assert!(matches!(
        UiohookError::from(UIOHOOK_ERROR_X_RECORD_CREATE_CONTEXT),
        UiohookError::XRecordCreateContext
    ));
    assert!(matches!(
        UiohookError::from(UIOHOOK_ERROR_X_RECORD_ENABLE_CONTEXT),
        UiohookError::XRecordEnableContext
    ));
    assert!(matches!(
        UiohookError::from(UIOHOOK_ERROR_X_RECORD_GET_CONTEXT),
        UiohookError::XRecordGetContext
    ));
    assert!(matches!(
        UiohookError::from(UIOHOOK_ERROR_SET_WINDOWS_HOOK_EX),
        UiohookError::SetWindowsHookEx
    ));
    assert!(matches!(
        UiohookError::from(UIOHOOK_ERROR_GET_MODULE_HANDLE),
        UiohookError::GetModuleHandle
    ));
    assert!(matches!(
        UiohookError::from(UIOHOOK_ERROR_CREATE_EVENT_PORT),
        UiohookError::CreateEventPort
    ));
    assert!(matches!(
        UiohookError::from(UIOHOOK_ERROR_CREATE_RUN_LOOP_SOURCE),
        UiohookError::CreateRunLoopSource
    ));
    assert!(matches!(
        UiohookError::from(UIOHOOK_ERROR_GET_RUNLOOP),
        UiohookError::GetRunLoop
    ));
    assert!(matches!(
        UiohookError::from(UIOHOOK_ERROR_CREATE_OBSERVER),
        UiohookError::CreateObserver
    ));
    assert!(matches!(UiohookError::from(999), UiohookError::Unknown(999)));
}

#[test]
fn test_error_display() {
    assert_eq!(UiohookError::Failure.message(), "Operation failed");
    assert_eq!(UiohookError::OutOfMemory.message(), "Out of memory");
    assert_eq!(
        UiohookError::XOpenDisplay.message(),
        "X11 failed to open display"
    );
    assert_eq!(UiohookError::Unknown(999).message(), "Unknown error: 999");
}

#[test]
fn test_error_messages_cover_every_kind() {
    assert_eq!(
        UiohookError::XRecordNotFound.message(),
        "X11 failed to find the XRecord extension"
    );
    assert_eq!(
        UiohookError::XRecordAllocRange.message(),
        "X11 failed to allocate XRecord range"
    );
    assert_eq!(
        UiohookError::XRecordCreateContext.message(),
        "X11 failed to create XRecord context"
    );
    assert_eq!(
        UiohookError::XRecordEnableContext.message(),
        "X11 failed to enable XRecord context"
    );
    assert_eq!(
        UiohookError::XRecordGetContext.message(),
        "X11 failed to get XRecord context"
    );
    assert_eq!(
        UiohookError::SetWindowsHookEx.message(),
        "Windows failed to set hook"
    );
    assert_eq!(
        UiohookError::GetModuleHandle.message(),
        "Windows failed to get module handle"
    );
    assert_eq!(
        UiohookError::CreateEventPort.message(),
        "macOS failed to create event port"
    );
    assert_eq!(
        UiohookError::CreateRunLoopSource.message(),
        "macOS failed to create run loop source"
    );
    assert_eq!(
        UiohookError::GetRunLoop.message(),
        "macOS failed to get run loop"
    );
    assert_eq!(
        UiohookError::CreateObserver.message(),
        "macOS failed to create observer"
    );
    assert_eq!(
        UiohookError::AlreadyRunning.message(),
        "The hook is already running"
    );
    assert_eq!(UiohookError::NotRunning.message(), "The hook is not running");
    assert_eq!(
        UiohookError::NotInitialized.message(),
        "The hook is not initialized"
    );
    assert_eq!(
        UiohookError::UnknownMouseButton(99).message(),
        "Unknown mouse button: 99"
    );
    assert_eq!(UiohookError::Unknown(0).message(), "Unknown error: 0");
    assert_eq!(
        UiohookError::Unknown(4294967295).message(),
        "Unknown error: 4294967295"
    );
}

#[test]
fn test_error_conversion_is_total_and_never_protocol() {
    let samples: Vec<u32> = vec![0, 1, 2, 3, 0x1F, 0x26, 0x32, 0x40, 0x45, 1000, u32::MAX];
    for code in samples {
        let e = UiohookError::from(code);
        assert!(!matches!(
            e,
            UiohookError::AlreadyRunning
                | UiohookError::NotRunning
                | UiohookError::NotInitialized
                | UiohookError::UnknownMouseButton(_)
        ));
    }
    assert!(matches!(UiohookError::from(0), UiohookError::Unknown(0)));
    assert!(matches!(
        UiohookError::from(0x40),
        UiohookError::Unknown(0x40)
    ));
}

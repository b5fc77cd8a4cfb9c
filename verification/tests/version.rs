use uiohook_rs::VERSION;

#[test]
fn test_version() {
    assert!(!VERSION.is_empty());
}

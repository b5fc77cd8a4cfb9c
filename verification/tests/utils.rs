use uiohook_rs::native::RawScreenData;
use uiohook_rs::{create_screen_info, query_result, ScreenData, UiohookError};

#[test]
fn test_screen_data_conversion() {
    let raw_data = RawScreenData {
        number: 1,
        x: 0,
        y: 0,
        width: 1920,
        height: 1080,
    };
    let screen_data: ScreenData = raw_data.into();
    assert_eq!(screen_data.number, 1);
    assert_eq!(screen_data.x, 0);
    assert_eq!(screen_data.y, 0);
    assert_eq!(screen_data.width, 1920);
    assert_eq!(screen_data.height, 1080);
}

#[test]
fn test_screen_info_keeps_every_screen_in_order() {
    let raw = vec![
        RawScreenData {
            number: 0,
            x: 0,
            y: 0,
            width: 1920,
            height: 1080,
        },
        RawScreenData {
            number: 1,
            x: 1920,
            y: 0,
            width: 1280,
            height: 1024,
        },
    ];
    let screens = create_screen_info(Some(raw)).unwrap();
    assert_eq!(screens.len(), 2);
    assert_eq!(screens[0].number, 0);
    assert_eq!(screens[0].width, 1920);
    assert_eq!(screens[1].number, 1);
    assert_eq!(screens[1].x, 1920);
    assert_eq!(screens[1].height, 1024);
}

#[test]
fn test_missing_screen_listing_is_out_of_memory() {
    assert_eq!(
        create_screen_info(None),
        Err(UiohookError::OutOfMemory)
    );
    assert_eq!(create_screen_info(Some(Vec::new())), Ok(Vec::new()));
}

#[test]
fn test_query_result_splits_on_the_sign() {
    assert_eq!(query_result(0), Ok(0));
    assert_eq!(query_result(500), Ok(500));
    assert_eq!(
        query_result(-1),
        Err(UiohookError::Unknown(u32::MAX))
    );
}

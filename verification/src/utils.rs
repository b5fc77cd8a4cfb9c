//! Descriptive queries: screen geometry and input timing settings.
//!
//! These are one-shot readings that the native engine answers with a
//! signed number or an array of screen records.  The engine's calls live
//! with the embedding program; this module holds the data shapes and the
//! decisions applied to what comes back -- a negative reading is reported
//! as `Unknown`, and a missing screen array as `OutOfMemory`.

use vstd::prelude::*;

use crate::error::UiohookError;
use crate::native::RawScreenData;

verus! {

/// One screen's geometry.
#[derive(Debug, Clone, Copy, PartialEq, Eq, Structural)]
pub struct ScreenData {
    /// The screen number.
    pub number: u8,
    /// The x coordinate of the screen's origin.
    pub x: i16,
    /// The y coordinate of the screen's origin.
    pub y: i16,
    /// The width of the screen in pixels.
    pub width: u16,
    /// The height of the screen in pixels.
    pub height: u16,
}

/// The owned reading of one native screen record.
pub open spec fn spec_screen_from_raw(data: RawScreenData) -> ScreenData {
    ScreenData { number: data.number, x: data.x, y: data.y, width: data.width, height: data.height }
}

impl core::convert::From<RawScreenData> for ScreenData {
    /// Copies one native screen record out into an owned value.
    fn from(data: RawScreenData) -> (s: Self) {
        ScreenData {
            number: data.number,
            x: data.x,
            y: data.y,
            width: data.width,
            height: data.height,
        }
    }
}

impl vstd::std_specs::convert::FromSpecImpl<RawScreenData> for ScreenData {
    open spec fn obeys_from_spec() -> bool {
        true
    }

    open spec fn from_spec(data: RawScreenData) -> ScreenData {
        spec_screen_from_raw(data)
    }
}

/// Turns the engine's screen listing into owned screen data: one entry
/// per native record, in the same order, and `OutOfMemory` exactly when
/// the engine handed no listing back.
pub fn create_screen_info(raw: Option<Vec<RawScreenData>>) -> (r: Result<
    Vec<ScreenData>,
    UiohookError,
>)
    ensures
        raw is None <==> r == Err::<Vec<ScreenData>, UiohookError>(UiohookError::OutOfMemory),
        raw matches Some(v) ==> r matches Ok(screens) && screens@.len() == v@.len() && (forall|
            i: int,
        |
            0 <= i < v@.len() ==> screens@[i] == spec_screen_from_raw(v@[i])),
{
    match raw {
        None => Err(UiohookError::OutOfMemory),
        Some(v) => {
            let mut screens: Vec<ScreenData> = Vec::new();
            let mut i: usize = 0;
            while i < v.len()
                invariant
                    i <= v@.len(),
                    screens@.len() == i,
                    forall|k: int| 0 <= k < i ==> screens@[k] == spec_screen_from_raw(v@[k]),
                decreases v@.len() - i,
            {
                screens.push(ScreenData::from(v[i]));
                i += 1;
            }
            Ok(screens)
        },
    }
}

/// The decision every descriptive timing query applies to the engine's
/// reply: a non-negative reading is the answer, and a negative reading is
/// reported as `Unknown` of its truncated bits.
pub fn query_result(value: i64) -> (r: Result<i64, UiohookError>)
    ensures
        value >= 0 ==> r == Ok::<i64, UiohookError>(value),
        value < 0 ==> r == Err::<i64, UiohookError>(UiohookError::Unknown(value as u32)),
{
    if value >= 0 {
        Ok(value)
    } else {
        Err(UiohookError::Unknown(value as u32))
    }
}

} // verus!

//! Typed mouse-wheel events.
//!
//! A wheel observation carries pixel coordinates, the scroll kind (unit or
//! block), the scroll amount, a signed rotation whose sign gives the turn
//! direction, and whether the scroll ran vertically or horizontally.

use vstd::prelude::*;

use crate::native::WheelData;

pub use crate::native::{WHEEL_HORIZONTAL_DIRECTION, WHEEL_VERTICAL_DIRECTION};

verus! {

/// A typed, owned mouse-wheel event.
#[derive(Debug, Clone, Copy, PartialEq, Eq, Structural)]
pub struct WheelEvent {
    /// The number of consecutive clicks.
    pub clicks: u16,
    /// The pointer's x coordinate in pixels.
    pub x: i16,
    /// The pointer's y coordinate in pixels.
    pub y: i16,
    /// The scroll kind: unit or block scrolling.
    pub type_: u8,
    /// The scroll amount per rotation unit.
    pub amount: u16,
    /// The signed rotation; its sign gives the direction of the turn.
    pub rotation: i16,
    /// The scroll direction: vertical or horizontal.
    pub direction: u8,
}

/// The typed event that a native wheel payload denotes.
pub open spec fn spec_wheel_from_data(d: WheelData) -> WheelEvent {
    WheelEvent {
        clicks: d.clicks,
        x: d.x,
        y: d.y,
        type_: d.type_,
        amount: d.amount,
        rotation: d.rotation,
        direction: d.direction,
    }
}

impl<'a> core::convert::From<&'a WheelData> for WheelEvent {
    /// Copies a native wheel payload out into an owned event.
    fn from(d: &'a WheelData) -> (e: Self) {
        WheelEvent {
            clicks: d.clicks,
            x: d.x,
            y: d.y,
            type_: d.type_,
            amount: d.amount,
            rotation: d.rotation,
            direction: d.direction,
        }
    }
}

impl<'a> vstd::std_specs::convert::FromSpecImpl<&'a WheelData> for WheelEvent {
    open spec fn obeys_from_spec() -> bool {
        true
    }

    open spec fn from_spec(d: &'a WheelData) -> WheelEvent {
        spec_wheel_from_data(*d)
    }
}

impl WheelEvent {
    /// Builds a wheel event from its parts.
    pub fn new(clicks: u16, x: i16, y: i16, type_: u8, amount: u16, rotation: i16, direction: u8) -> (e: WheelEvent)
        ensures
            e == (WheelEvent { clicks, x, y, type_, amount, rotation, direction }),
    {
        WheelEvent { clicks, x, y, type_, amount, rotation, direction }
    }

    /// Whether the scroll ran vertically.
    pub fn is_vertical(&self) -> (r: bool)
        ensures
            r == (self.direction == WHEEL_VERTICAL_DIRECTION),
    {
        self.direction == WHEEL_VERTICAL_DIRECTION
    }

    /// Whether the scroll ran horizontally.
    pub fn is_horizontal(&self) -> (r: bool)
        ensures
            r == (self.direction == WHEEL_HORIZONTAL_DIRECTION),
    {
        self.direction == WHEEL_HORIZONTAL_DIRECTION
    }
}

} // verus!

//! Typed mouse events and the mouse-button table.
//!
//! A mouse observation carries a phase (moved, pressed, released, clicked
//! or dragged), a button, a click count and pixel coordinates.  The button
//! table is the one place where an unrecognized numeric value is treated as
//! an error rather than silently defaulted: a wrong button identity is not
//! safe to treat as "no button", so mapping an unknown code fails with
//! [`UiohookError::UnknownMouseButton`].

use vstd::prelude::*;

use crate::error::UiohookError;
use crate::hook::{EventHandler, NativeHook, Uiohook, UiohookEvent};
use crate::native::MouseData;
use crate::native::{
    MOUSE_BUTTON1, MOUSE_BUTTON2, MOUSE_BUTTON3, MOUSE_BUTTON4, MOUSE_BUTTON5, MOUSE_NOBUTTON,
};

verus! {

/// The phase of a mouse event.
#[derive(Debug, Clone, Copy, PartialEq, Eq, Structural)]
pub enum MouseEventType {
    /// The pointer moved with no button held.
    Moved,
    /// A button went down.
    Pressed,
    /// A button came up.
    Released,
    /// A button was pressed and released in place.
    Clicked,
    /// The pointer moved with a button held.
    Dragged,
}

/// A mouse button.
#[derive(Debug, Clone, Copy, PartialEq, Eq, Hash, Structural)]
pub enum MouseButton {
    /// No button.
    NoButton,
    /// Left mouse button.
    Button1,
    /// Right mouse button.
    Button2,
    /// Middle mouse button.
    Button3,
    /// First additional mouse button.
    Button4,
    /// Second additional mouse button.
    Button5,
}

/// The native button number that each button stands for.
pub open spec fn mouse_button_value(b: MouseButton) -> u32 {
    match b {
        MouseButton::NoButton => MOUSE_NOBUTTON,
        MouseButton::Button1 => MOUSE_BUTTON1,
        MouseButton::Button2 => MOUSE_BUTTON2,
        MouseButton::Button3 => MOUSE_BUTTON3,
        MouseButton::Button4 => MOUSE_BUTTON4,
        MouseButton::Button5 => MOUSE_BUTTON5,
    }
}

/// The mapping from a native button number to a button: the named button
/// for the known numbers, and `UnknownMouseButton` for every other number.
pub open spec fn spec_mouse_button_from(value: u32) -> Result<MouseButton, UiohookError> {
    if value == MOUSE_NOBUTTON {
        Ok(MouseButton::NoButton)
    } else if value == MOUSE_BUTTON1 {
        Ok(MouseButton::Button1)
    } else if value == MOUSE_BUTTON2 {
        Ok(MouseButton::Button2)
    } else if value == MOUSE_BUTTON3 {
        Ok(MouseButton::Button3)
    } else if value == MOUSE_BUTTON4 {
        Ok(MouseButton::Button4)
    } else if value == MOUSE_BUTTON5 {
        Ok(MouseButton::Button5)
    } else {
        Err(UiohookError::UnknownMouseButton(value))
    }
}

/// Mapping a button to its number and back returns the button itself.
pub proof fn lemma_mouse_button_roundtrip(b: MouseButton)
    ensures
        spec_mouse_button_from(mouse_button_value(b)) == Ok::<MouseButton, UiohookError>(b),
{
}

impl MouseButton {
    /// Maps a native button number to its button.
    ///
    /// Returns `Ok` exactly for the known button numbers, and
    /// `Err(UnknownMouseButton(value))` for every other number.
    pub fn try_from(value: u32) -> (r: Result<MouseButton, UiohookError>)
        ensures
            r == spec_mouse_button_from(value),
    {
        if value == MOUSE_NOBUTTON {
            Ok(MouseButton::NoButton)
        } else if value == MOUSE_BUTTON1 {
            Ok(MouseButton::Button1)
        } else if value == MOUSE_BUTTON2 {
            Ok(MouseButton::Button2)
        } else if value == MOUSE_BUTTON3 {
            Ok(MouseButton::Button3)
        } else if value == MOUSE_BUTTON4 {
            Ok(MouseButton::Button4)
        } else if value == MOUSE_BUTTON5 {
            Ok(MouseButton::Button5)
        } else {
            Err(UiohookError::UnknownMouseButton(value))
        }
    }
}

impl core::convert::From<MouseButton> for u32 {
    /// The native button number of a button.
    fn from(button: MouseButton) -> (v: u32) {
        match button {
            MouseButton::NoButton => MOUSE_NOBUTTON,
            MouseButton::Button1 => MOUSE_BUTTON1,
            MouseButton::Button2 => MOUSE_BUTTON2,
            MouseButton::Button3 => MOUSE_BUTTON3,
            MouseButton::Button4 => MOUSE_BUTTON4,
            MouseButton::Button5 => MOUSE_BUTTON5,
        }
    }
}

impl vstd::std_specs::convert::FromSpecImpl<MouseButton> for u32 {
    open spec fn obeys_from_spec() -> bool {
        true
    }

    open spec fn from_spec(button: MouseButton) -> u32 {
        mouse_button_value(button)
    }
}

/// A typed, owned mouse event.
#[derive(Debug, Clone, Copy)]
pub struct MouseEvent {
    /// The phase of the event.
    pub event_type: MouseEventType,
    /// The button involved in the event.
    pub button: MouseButton,
    /// The number of consecutive clicks.
    pub clicks: u16,
    /// The pointer's x coordinate in pixels.
    pub x: i16,
    /// The pointer's y coordinate in pixels.
    pub y: i16,
}

/// The button a native button number denotes when reading a record: the
/// named button, or `NoButton` for numbers outside the table.
pub open spec fn mouse_button_of(value: u32) -> MouseButton {
    match spec_mouse_button_from(value) {
        Ok(b) => b,
        Err(_) => MouseButton::NoButton,
    }
}

/// The typed event that a native mouse payload denotes, before the caller
/// fixes the phase from the record's discriminant.
pub open spec fn spec_mouse_from_data(d: MouseData) -> MouseEvent {
    MouseEvent {
        event_type: MouseEventType::Moved,
        button: mouse_button_of(d.button as u32),
        clicks: d.clicks,
        x: d.x,
        y: d.y,
    }
}

impl<'a> core::convert::From<&'a MouseData> for MouseEvent {
    /// Copies a native mouse payload out into an owned event.  The phase
    /// defaults to `Moved`; builders of full events overwrite it from the
    /// record's discriminant.
    fn from(d: &'a MouseData) -> (e: Self) {
        let button = match MouseButton::try_from(d.button as u32) {
            Ok(b) => b,
            Err(_) => MouseButton::NoButton,
        };
        MouseEvent { event_type: MouseEventType::Moved, button, clicks: d.clicks, x: d.x, y: d.y }
    }
}

impl<'a> vstd::std_specs::convert::FromSpecImpl<&'a MouseData> for MouseEvent {
    open spec fn obeys_from_spec() -> bool {
        true
    }

    open spec fn from_spec(d: &'a MouseData) -> MouseEvent {
        spec_mouse_from_data(*d)
    }
}

/// Builds a synthetic mouse event from its parts.
pub fn create_mouse_event(
    event_type: MouseEventType,
    button: MouseButton,
    clicks: u16,
    x: i16,
    y: i16,
) -> (e: MouseEvent)
    ensures
        e == (MouseEvent { event_type, button, clicks, x, y }),
{
    MouseEvent { event_type, button, clicks, x, y }
}

/// Simulates a press of the given button at the given coordinates.
/// Posting cannot fail, so neither can the simulation.
pub fn mouse_press<H: EventHandler, N: NativeHook>(
    uiohook: &Uiohook<H>,
    native: &mut N,
    button: MouseButton,
    x: i16,
    y: i16,
) -> (r: Result<(), UiohookError>)
    ensures
        r is Ok,
{
    let event = create_mouse_event(MouseEventType::Pressed, button, 1, x, y);
    uiohook.post_event(native, &UiohookEvent::Mouse(event))
}

/// Simulates a release of the given button at the given coordinates.
pub fn mouse_release<H: EventHandler, N: NativeHook>(
    uiohook: &Uiohook<H>,
    native: &mut N,
    button: MouseButton,
    x: i16,
    y: i16,
) -> (r: Result<(), UiohookError>)
    ensures
        r is Ok,
{
    let event = create_mouse_event(MouseEventType::Released, button, 1, x, y);
    uiohook.post_event(native, &UiohookEvent::Mouse(event))
}

/// Simulates a click: a press immediately followed by a release at the
/// same coordinates.
pub fn mouse_click<H: EventHandler, N: NativeHook>(
    uiohook: &Uiohook<H>,
    native: &mut N,
    button: MouseButton,
    x: i16,
    y: i16,
) -> (r: Result<(), UiohookError>)
    ensures
        r is Ok,
{
    let pressed = mouse_press(uiohook, native, button, x, y);
    if let Err(e) = pressed {
        return Err(e);
    }
    mouse_release(uiohook, native, button, x, y)
}

/// Simulates moving the pointer to the given coordinates: a zero-button,
/// zero-click moved event.
pub fn mouse_move<H: EventHandler, N: NativeHook>(
    uiohook: &Uiohook<H>,
    native: &mut N,
    x: i16,
    y: i16,
) -> (r: Result<(), UiohookError>)
    ensures
        r is Ok,
{
    let event = create_mouse_event(MouseEventType::Moved, MouseButton::NoButton, 0, x, y);
    uiohook.post_event(native, &UiohookEvent::Mouse(event))
}

} // verus!

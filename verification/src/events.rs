//! The input events the reducer consumes.
//!
//! The event loop drains these from the windowing system once per frame and
//! hands them over as plain values: coordinates in device pixels rounded to
//! integers, wheel deltas rounded to integer pixels or lines, the DPI factor
//! in hundredths.

use vstd::prelude::*;

verus! {

/// The keys the reducer reacts to; every other key is `Other`.
#[derive(Clone, Copy, PartialEq, Eq, Structural, Debug)]
pub enum VirtualKey {
    Escape,
    Q,
    D,
    Other,
}

/// Whether a key went down or up.
#[derive(Clone, Copy, PartialEq, Eq, Structural, Debug)]
pub enum ElementState {
    Pressed,
    Released,
}

/// The phase of a touch event.
#[derive(Clone, Copy, PartialEq, Eq, Structural, Debug)]
pub enum TouchPhase {
    Started,
    Moved,
    Ended,
    Cancelled,
}

/// A mouse wheel delta, as `(x, y)` components. A pixel delta is already in
/// pixels; a line delta counts lines, each worth `LINE_HEIGHT` pixels. The
/// horizontal component is carried but ignored: the list scrolls only
/// vertically.
#[derive(Clone, Copy, PartialEq, Eq, Structural, Debug)]
pub enum MouseScrollDelta {
    PixelDelta(i32, i32),
    LineDelta(i32, i32),
}

/// One input event, in the order the windowing system delivered it.
#[derive(Clone, Copy, PartialEq, Eq, Structural, Debug)]
pub enum InputEvent {
    /// The window was asked to close.
    Closed,
    /// A key changed state. `None` stands for a key without a recognised
    /// virtual key code.
    KeyboardInput(ElementState, Option<VirtualKey>),
    /// The window was moved; carries the DPI factor re-queried from the
    /// window, in hundredths.
    Moved(u32),
    /// The window was resized to the given size in device pixels.
    Resized(u32, u32),
    /// The cursor moved to the given position in device pixels.
    MouseMoved(i32, i32),
    /// The mouse wheel turned.
    MouseWheel(MouseScrollDelta),
    /// A touch event at the given position, in device pixels.
    Touch(TouchPhase, i32, i32),
    /// Any event kind the reducer ignores.
    Other,
}

/// Whether this event ends the event loop: a close request, or the Escape
/// or Q key in either state.
pub open spec fn is_terminator(e: InputEvent) -> bool {
    match e {
        InputEvent::Closed => true,
        InputEvent::KeyboardInput(_, Some(VirtualKey::Escape)) => true,
        InputEvent::KeyboardInput(_, Some(VirtualKey::Q)) => true,
        _ => false,
    }
}

/// Decides `is_terminator` on a concrete event.
pub fn event_is_terminator(e: &InputEvent) -> (r: bool)
    ensures
        r == is_terminator(*e),
{
    match e {
        InputEvent::Closed => true,
        InputEvent::KeyboardInput(_, Some(VirtualKey::Escape)) => true,
        InputEvent::KeyboardInput(_, Some(VirtualKey::Q)) => true,
        _ => false,
    }
}

} // verus!

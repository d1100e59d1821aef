//! Mapping from raw terminal events to the closed command set of the
//! render loop.
//!
//! The input source yields key, pointer and resize events; everything the
//! loop reacts to is expressed as a `Command`. Unrecognized events map to
//! nothing and are silently dropped; a resize also maps to nothing because
//! the layout is recomputed from the viewport on every frame anyway.

use vstd::prelude::*;

verus! {

/// A raw input event, already stripped to the fields the mapping reads.
#[derive(Clone, Copy, Debug, PartialEq, Eq, Structural)]
pub enum RawEvent {
    /// A printable key.
    KeyChar(char),
    /// Arrow keys.
    KeyUp,
    KeyDown,
    KeyLeft,
    KeyRight,
    /// Pointer button pressed at a screen position.
    MouseDown(u16, u16),
    /// Pointer moved while a button is held.
    MouseDrag(u16, u16),
    /// Pointer button released.
    MouseUp,
    /// Terminal resized to the given size.
    Resized(u16, u16),
    /// Anything else the input source can produce.
    Other,
}

/// The closed command set the render loop dispatches on.
#[derive(Clone, Copy, Debug, PartialEq, Eq, Structural)]
pub enum Command {
    Quit,
    PanUp(u16),
    PanDown(u16),
    PanLeft(u16),
    PanRight(u16),
    ZoomIn,
    ZoomOut,
    PointerDown(u16, u16),
    PointerDrag(u16, u16),
    PointerUp,
    Reset,
}

/// The event-to-command mapping: `q` quits, arrows pan by the configured
/// amount, `+`/`-` zoom, pointer events pass through, and everything else
/// (including resize) maps to nothing.
pub open spec fn spec_map_event(e: RawEvent, pan_amount: u16) -> Option<Command> {
    match e {
        RawEvent::KeyChar(c) => {
            if c == 'q' {
                Some(Command::Quit)
            } else if c == '+' {
                Some(Command::ZoomIn)
            } else if c == '-' {
                Some(Command::ZoomOut)
            } else {
                None
            }
        },
        RawEvent::KeyUp => Some(Command::PanUp(pan_amount)),
        RawEvent::KeyDown => Some(Command::PanDown(pan_amount)),
        RawEvent::KeyLeft => Some(Command::PanLeft(pan_amount)),
        RawEvent::KeyRight => Some(Command::PanRight(pan_amount)),
        RawEvent::MouseDown(x, y) => Some(Command::PointerDown(x, y)),
        RawEvent::MouseDrag(x, y) => Some(Command::PointerDrag(x, y)),
        RawEvent::MouseUp => Some(Command::PointerUp),
        RawEvent::Resized(_, _) => None,
        RawEvent::Other => None,
    }
}

/// Maps one raw event to its command, exactly as `spec_map_event` states.
pub fn map_event(e: RawEvent, pan_amount: u16) -> (c: Option<Command>)
    ensures
        c == spec_map_event(e, pan_amount),
{
    match e {
        RawEvent::KeyChar(ch) => {
            if ch == 'q' {
                Some(Command::Quit)
            } else if ch == '+' {
                Some(Command::ZoomIn)
            } else if ch == '-' {
                Some(Command::ZoomOut)
            } else {
                None
            }
        },
        RawEvent::KeyUp => Some(Command::PanUp(pan_amount)),
        RawEvent::KeyDown => Some(Command::PanDown(pan_amount)),
        RawEvent::KeyLeft => Some(Command::PanLeft(pan_amount)),
        RawEvent::KeyRight => Some(Command::PanRight(pan_amount)),
        RawEvent::MouseDown(x, y) => Some(Command::PointerDown(x, y)),
        RawEvent::MouseDrag(x, y) => Some(Command::PointerDrag(x, y)),
        RawEvent::MouseUp => Some(Command::PointerUp),
        RawEvent::Resized(_, _) => None,
        RawEvent::Other => None,
    }
}

} // verus!

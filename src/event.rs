use vstd::prelude::*;
use crate::bindings::PointerButton;
use crate::mode::Modifiers;

verus! {

/// How a wheel event measures its motion.
#[derive(Clone, Copy, Debug, PartialEq, Eq, Structural)]
pub enum WheelUnit {
    /// Pixels.
    Point,
    /// Lines, in hundredths of a line.
    Line,
    /// Pages.
    Page,
}

/// A toolkit input event. Positions are whole pixels in the toolkit's
/// coordinates.
#[derive(Debug)]
pub enum InputEvent {
    /// Typed text.
    Text(String),
    /// A key, by the toolkit's name for it, pressed or released.
    Key { key: String, pressed: bool, modifiers: Modifiers },
    Copy,
    Cut,
    Paste(String),
    /// Wheel motion; a positive `delta_y` moves the content down.
    MouseWheel { unit: WheelUnit, delta_y: i32 },
    PointerButton { button: PointerButton, pressed: bool, modifiers: Modifiers, x: i32, y: i32 },
    PointerMoved { x: i32, y: i32 },
    /// Any event that the terminal does not handle.
    Other,
}

} // verus!

//! The events of the window, and what the render loop is told to do about
//! them.

use vstd::prelude::*;

verus! {

/// An event of the window.
#[derive(Clone, Copy, Debug, PartialEq, Eq, Structural)]
pub enum InputEvent {
    /// The button went down at this pixel, counted from the top left.
    PointerDown { x: i32, y: i32 },
    /// The pointer moved to this pixel.
    PointerDrag { x: i32, y: i32 },
    /// The button went up.
    PointerUp,
    /// A reading of the button and the position, for a loop that polls
    /// them once a frame in place of the three events above.
    PointerSample { down: bool, x: i32, y: i32 },
    /// The window has this size now.
    Resized { width: u32, height: u32 },
    /// The user asked to close the window.
    CloseRequested,
    /// Anything else.
    Other,
}

/// What the loop is to do about an event of the window.
#[derive(Clone, Copy, Debug, PartialEq, Eq, Structural)]
pub enum InputAction {
    /// Resize the surface to this size, and pass the event on to the editor.
    ResizeSurface { width: u32, height: u32 },
    /// Pass the event on to the editor.
    Forward,
    /// Leave the loop.
    Exit,
    /// Nothing.
    Ignore,
}

} // verus!

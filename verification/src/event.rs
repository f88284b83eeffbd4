//! The windowing events the core reacts to, reduced to plain values.  The
//! windowing runtime translates its own event stream into these before
//! handing them to the library, and acts on the directives handed back.

use vstd::prelude::*;

verus! {

/// The logical keys the core distinguishes.  Every other key arrives as
/// `Other` and is ignored.
#[derive(Clone, Copy, Debug, PartialEq, Eq, Structural)]
pub enum KeyCode {
    W,
    A,
    S,
    D,
    Up,
    Down,
    Left,
    Right,
    Escape,
    Other,
}

/// An event of one window.
#[derive(Clone, Copy, Debug, PartialEq, Eq, Structural)]
pub enum WindowEvent {
    /// The user asked to close the window.
    CloseRequested,
    /// A key went down (`pressed`) or up (`!pressed`).
    KeyboardInput { key: KeyCode, pressed: bool },
    /// The window was resized to the given physical pixel size.
    Resized { width: u32, height: u32 },
    /// The scale factor changed, with the new physical pixel size.
    ScaleFactorChanged { width: u32, height: u32 },
    /// Any other window event; ignored.
    Other,
}

/// One event of the event loop.  Window identities are reduced to plain
/// numbers so that events for other windows can be told apart and ignored.
#[derive(Clone, Copy, Debug, PartialEq, Eq, Structural)]
pub enum Event {
    /// An event of the window with identity `window_id`.
    Window { window_id: u64, event: WindowEvent },
    /// The window with identity `window_id` should be redrawn.
    RedrawRequested { window_id: u64 },
    /// All pending events were dispatched.
    MainEventsCleared,
    /// Any other event; ignored.
    Other,
}

/// What the event loop must do after the core handled an event.
#[derive(Clone, Copy, Debug, PartialEq, Eq, Structural)]
pub enum EventDirective {
    /// End the event loop after this iteration.
    Exit,
    /// Reconfigure the drawing surface with the scene's current size.
    Reconfigure,
    /// Update the scene and draw a frame.
    Redraw,
    /// Ask the window for a redraw.
    RequestRedraw,
    /// Nothing to do.
    Continue,
}

} // verus!

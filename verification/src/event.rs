//! The uniform event stream handed to the consumer.

use vstd::prelude::*;

use crate::handle::WindowHandle;
use crate::window::Window;

verus! {

/// An event signifying a change in window state.
///
/// Every variant but `Closed` carries the window it concerns. A closed
/// window's object is already gone when the event is delivered, so `Closed`
/// carries only the identity captured when the window was first registered.
#[derive(Clone, Copy, Debug, PartialEq, Eq, Structural)]
pub enum WindowEvent {
    /// The window was first opened.
    Opened(Window),
    /// The window was closed.
    Closed(WindowHandle),
    /// The window was hidden.
    Hidden(Window),
    /// The window was shown.
    Shown(Window),
    /// The window was focused.
    Focused(Window),
    /// The window was moved.
    Moved(Window),
    /// The window was resized.
    Resized(Window),
    /// The window's title changed.
    Renamed(Window),
    /// The window was minimized.
    Minimized(Window),
    /// The window was restored from being minimized.
    Unminimized(Window),
}

} // verus!

//! A window as the engine sees it: a window object plus the application
//! object that owns it.

use vstd::prelude::*;

use crate::error::WindowError;
use crate::handle::{AppHandle, WindowHandle};

verus! {

/// Representation of a single window.
///
/// The pair exists only as long as its native objects do; attribute queries
/// against a destroyed window fail with an invalid-handle error in the
/// platform layer. The engine uses a window only for identity and lifecycle.
#[derive(Clone, Copy, Debug, Hash, PartialEq, Eq, Structural)]
pub struct Window {
    /// Identity of the window object itself.
    pub handle: WindowHandle,
    /// Identity of the application object the window belongs to.
    pub app_handle: AppHandle,
}

impl Window {
    /// Wrap a window object and its owning application object.
    ///
    /// Wrapping itself cannot fail; a handle that has gone stale shows up
    /// later, when an attribute is queried. The `Result` is the shape the
    /// callback path expects.
    pub fn new(handle: WindowHandle, app_handle: AppHandle) -> (r: Result<Window, WindowError>)
        ensures
            r matches Ok(w) && w == (Window { handle, app_handle }),
    {
        Ok(Window { handle, app_handle })
    }

    /// The identity of the window object.
    pub fn handle(&self) -> (r: WindowHandle)
        ensures
            r == self.handle,
    {
        self.handle
    }
}

} // verus!

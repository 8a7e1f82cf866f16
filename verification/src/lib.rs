//! Engine for observing and managing windows owned by other processes.
//!
//! The library is split along the boundary that the operating system imposes:
//! everything the native accessibility service decides (handle values, query
//! results, notification deliveries, error codes) enters the engine as plain
//! values, and every decision the engine makes (which processes to watch, what
//! to register, how to normalise a callback into an event, when to retry, when
//! to block) is made here, under contract. A thin platform layer drives the
//! native run loop and feeds this engine.

use vstd::prelude::*;

pub mod application;
pub mod apps;
pub mod coordinator;
pub mod error;
pub mod event;
pub mod handle;
pub mod ipc;
pub mod notify;
pub mod ops;
pub mod retry;
pub mod screen;
pub mod title;
pub mod watch;
pub mod window;

pub use application::Application;
pub use apps::{ActivationPolicy, AppWindows, FocusProbe, ProcessInfo};
pub use coordinator::{AppEvent, AppEventKind, Context, NextStep, Watcher, WatcherState};
pub use error::WindowError;
pub use event::WindowEvent;
pub use handle::{AppHandle, WindowHandle};
pub use ipc::{IpcError, RequestProp};
pub use notify::Notification;
pub use ops::{Constraint, ExecScope, Operation, Property, Scope};
pub use retry::{RetryDecision, RetryOutcome};
pub use screen::{PhysicalPosition, PhysicalSize, Screen};
pub use title::encode_title;
pub use window::Window;

verus! {

/// Whether permission is granted to access the window-management APIs.
///
/// The engine itself gates nothing: on platforms whose automation interface
/// needs no permission grant this is always true, and a platform layer that
/// does gate access performs its own check before driving the engine.
pub fn trusted() -> (r: bool)
    ensures
        r,
{
    true
}

/// Ask the operating system for permission to access the window-management
/// APIs. Platforms without a permission gate report success immediately; a
/// platform layer with a real prompt replaces this answer with the user's.
pub fn request_trust() -> (r: Result<bool, WindowError>)
    ensures
        r matches Ok(granted) && granted,
{
    Ok(true)
}

} // verus!

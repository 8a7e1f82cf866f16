//! One connected process: its application object, pid, and query timeout.

use vstd::prelude::*;

use crate::error::{WindowError, AX_ERROR_CANNOT_COMPLETE};
use crate::handle::{AppHandle, WindowHandle};
use crate::retry::TIMEOUT_STEPS;
use crate::watch::{self, Watcher, APP_NOTIFICATION_COUNT};

verus! {

/// The default accessibility messaging timeout, in milliseconds.
pub const DEFAULT_AX_TIMEOUT_MS: u64 = 1000;

/// A process connected through the accessibility service.
///
/// Created on discovery of the process; nothing is queried yet at creation,
/// because queries may fail immediately after launch. The platform layer
/// creates the native application object and sets its messaging timeout; the
/// engine keeps the identity, the pid and the timeout.
#[derive(Clone, Copy, Debug, PartialEq, Eq, Structural)]
pub struct Application {
    /// Identity of the native application object.
    pub handle: AppHandle,
    /// The process the object was created for.
    pub pid: i32,
    /// The messaging timeout the object was configured with, in milliseconds.
    pub timeout_ms: u64,
}

impl Application {
    /// Connect to a process with the default query timeout.
    pub fn new(pid: i32, handle: AppHandle) -> (r: Application)
        ensures
            r == (Application { handle, pid, timeout_ms: DEFAULT_AX_TIMEOUT_MS }),
    {
        Application::with_timeout(pid, handle, DEFAULT_AX_TIMEOUT_MS)
    }

    /// Connect to a process with an explicit query timeout.
    pub fn with_timeout(pid: i32, handle: AppHandle, timeout_ms: u64) -> (r: Application)
        ensures
            r == (Application { handle, pid, timeout_ms }),
    {
        Application { handle, pid, timeout_ms }
    }

    /// The configured query timeout, in milliseconds.
    pub fn timeout(&self) -> (r: u64)
        ensures
            r == self.timeout_ms,
    {
        self.timeout_ms
    }

    /// The process this application stands for.
    pub fn pid(&self) -> (r: i32)
        ensures
            r == self.pid,
    {
        self.pid
    }

    /// How long the readiness-retry protocol sleeps between probes: the
    /// timeout split evenly over its probe budget.
    pub fn retry_sleep_ms(&self) -> (r: u64)
        ensures
            r == self.timeout_ms / (TIMEOUT_STEPS as u64),
    {
        self.timeout_ms / (TIMEOUT_STEPS as u64)
    }

    /// Whether a readiness probe's result says the process is not queryable
    /// yet.
    ///
    /// Some processes answer every accessibility query with the
    /// distinguished "cannot complete" code until they finish initialising;
    /// the retry protocol keeps probing such a process instead of treating
    /// the code as an error.
    pub fn should_wait(probe_code: i32) -> (r: bool)
        ensures
            r == (probe_code == AX_ERROR_CANNOT_COMPLETE),
    {
        probe_code == AX_ERROR_CANNOT_COMPLETE
    }

    /// Judge a finished registration pass against this application; see
    /// [`Watcher::new`].
    pub fn watch(&self, windows: &Vec<WindowHandle>, codes: &Vec<i32>) -> (r: Result<
        Watcher,
        WindowError,
    >)
        requires
            codes@.len() == windows@.len() + APP_NOTIFICATION_COUNT,
        ensures
            watch::spec_first_rejected(codes@) is None ==> (r matches Ok(w) && w.resources()
                == watch::spec_registration_plan(self.handle, windows@) && w.watched_pid()
                == self.pid),
            watch::spec_first_rejected(codes@) matches Some(code) ==> r == Result::<
                Watcher,
                WindowError,
            >::Err(crate::error::spec_from_ax_error(code)),
    {
        Watcher::new(self, windows, codes)
    }
}

} // verus!

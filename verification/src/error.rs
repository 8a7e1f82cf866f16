//! Errors reported by the operating system, and the mapping from raw
//! accessibility error codes onto them.

use vstd::prelude::*;

verus! {

/// An error caused by the operating system.
#[derive(Clone, Copy, Debug, PartialEq, Eq, Structural)]
pub enum WindowError {
    /// The program does not have sufficient permission to access the
    /// underlying API.
    NotTrusted,
    /// An invalid argument was passed internally: a bug in this library.
    InvalidInternalArgument,
    /// The handle to the window is invalid; the window may no longer exist.
    InvalidHandle,
    /// The window or process does not support this operation.
    Unsupported,
    /// An opaque internal failure of the operating system.
    ArbitraryFailure,
    /// A raw platform error code with no closer match.
    OsError(i32),
}

/// Accessibility error codes as the native service reports them.
pub const AX_ERROR_SUCCESS: i32 = 0;

pub const AX_ERROR_FAILURE: i32 = -25200;

pub const AX_ERROR_ILLEGAL_ARGUMENT: i32 = -25201;

pub const AX_ERROR_INVALID_UI_ELEMENT: i32 = -25202;

pub const AX_ERROR_INVALID_UI_ELEMENT_OBSERVER: i32 = -25203;

pub const AX_ERROR_CANNOT_COMPLETE: i32 = -25204;

pub const AX_ERROR_ATTRIBUTE_UNSUPPORTED: i32 = -25205;

pub const AX_ERROR_ACTION_UNSUPPORTED: i32 = -25206;

pub const AX_ERROR_NOTIFICATION_UNSUPPORTED: i32 = -25207;

pub const AX_ERROR_NOT_IMPLEMENTED: i32 = -25208;

pub const AX_ERROR_NOTIFICATION_ALREADY_REGISTERED: i32 = -25209;

pub const AX_ERROR_NOTIFICATION_NOT_REGISTERED: i32 = -25210;

pub const AX_ERROR_API_DISABLED: i32 = -25211;

pub const AX_ERROR_NO_VALUE: i32 = -25212;

pub const AX_ERROR_PARAMETERIZED_ATTRIBUTE_UNSUPPORTED: i32 = -25213;

pub const AX_ERROR_NOT_ENOUGH_PRECISION: i32 = -25214;

/// The error that a raw accessibility code stands for.
pub open spec fn spec_from_ax_error(code: i32) -> WindowError {
    if code == AX_ERROR_API_DISABLED {
        WindowError::NotTrusted
    } else if code == AX_ERROR_ILLEGAL_ARGUMENT {
        WindowError::InvalidInternalArgument
    } else if code == AX_ERROR_INVALID_UI_ELEMENT_OBSERVER || code == AX_ERROR_INVALID_UI_ELEMENT {
        WindowError::InvalidHandle
    } else if code == AX_ERROR_NOT_IMPLEMENTED || code == AX_ERROR_NO_VALUE || code
        == AX_ERROR_ATTRIBUTE_UNSUPPORTED || code == AX_ERROR_PARAMETERIZED_ATTRIBUTE_UNSUPPORTED
        || code == AX_ERROR_ACTION_UNSUPPORTED || code == AX_ERROR_NOTIFICATION_UNSUPPORTED {
        WindowError::Unsupported
    } else {
        WindowError::ArbitraryFailure
    }
}

impl WindowError {
    /// Map a raw accessibility error code to the error it stands for.
    ///
    /// Registration states the engine books for itself ("already registered",
    /// "not registered") have no variant of their own: manual bookkeeping is
    /// supposed to rule them out, so they come back as arbitrary failures.
    pub fn from_ax_error(code: i32) -> (r: WindowError)
        ensures
            r == spec_from_ax_error(code),
    {
        if code == AX_ERROR_API_DISABLED {
            WindowError::NotTrusted
        } else if code == AX_ERROR_ILLEGAL_ARGUMENT {
            WindowError::InvalidInternalArgument
        } else if code == AX_ERROR_INVALID_UI_ELEMENT_OBSERVER || code
            == AX_ERROR_INVALID_UI_ELEMENT {
            WindowError::InvalidHandle
        } else if code == AX_ERROR_NOT_IMPLEMENTED || code == AX_ERROR_NO_VALUE || code
            == AX_ERROR_ATTRIBUTE_UNSUPPORTED || code
            == AX_ERROR_PARAMETERIZED_ATTRIBUTE_UNSUPPORTED || code == AX_ERROR_ACTION_UNSUPPORTED
            || code == AX_ERROR_NOTIFICATION_UNSUPPORTED {
            WindowError::Unsupported
        } else {
            WindowError::ArbitraryFailure
        }
    }

    /// Wrap a raw platform error code that has no closer match.
    pub fn from_os_code(code: i32) -> (r: WindowError)
        ensures
            r == WindowError::OsError(code),
    {
        WindowError::OsError(code)
    }

    /// A human-readable description of the error.
    pub fn message(&self) -> (r: &'static str)
        ensures
            r@ == spec_message(*self),
    {
        match self {
            WindowError::NotTrusted => "the program needs to request permission to the underlying API",
            WindowError::InvalidInternalArgument => "internal bug, input incorrect parameter, it's not you it's me!",
            WindowError::InvalidHandle => "cannot perform operation on invalid handle",
            WindowError::Unsupported => "the window does not support the windowing API",
            WindowError::ArbitraryFailure => "arbitrary failure returned by the operating system",
            WindowError::OsError(_) => "platform error code with no closer match",
        }
    }
}

/// The description of each error.
pub open spec fn spec_message(e: WindowError) -> Seq<char> {
    match e {
        WindowError::NotTrusted => "the program needs to request permission to the underlying API"@,
        WindowError::InvalidInternalArgument => "internal bug, input incorrect parameter, it's not you it's me!"@,
        WindowError::InvalidHandle => "cannot perform operation on invalid handle"@,
        WindowError::Unsupported => "the window does not support the windowing API"@,
        WindowError::ArbitraryFailure => "arbitrary failure returned by the operating system"@,
        WindowError::OsError(_) => "platform error code with no closer match"@,
    }
}

} // verus!

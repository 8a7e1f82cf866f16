//! The wire protocol between the test driver and a window-owning helper
//! process, and the namespaced form of title encoding it uses.
//!
//! The transport (a local socket carrying one JSON value per line) is the
//! driver's own; the vocabulary of requests and failures, and the title
//! scheme that keeps concurrent drivers out of each other's windows, are
//! defined here.

use vstd::prelude::*;
use vstd::string::StringExecFns;

use crate::title::{push_decimal, spec_decimal, spec_encode_title};

verus! {

/// A window property the driver can ask the helper process for.
#[derive(Clone, Copy, Debug, PartialEq, Eq, Structural)]
pub enum RequestProp {
    /// The window's title.
    Title,
    /// The window's size.
    Size,
    /// The window's position.
    Position,
    /// Whether the window is fullscreen.
    IsFullscreen,
    /// Whether the window is hidden.
    IsHidden,
    /// Whether the window is minimized.
    IsMinimized,
    /// Whether the window is at the front.
    IsAtFront,
    /// Whether the window is focused.
    IsFocused,
}

/// A failure of the driver-to-helper channel.
#[derive(Debug)]
pub enum IpcError {
    /// The helper never reported itself ready.
    InitFailure,
    /// The helper failed to execute a step.
    Execution(String),
    /// The helper answered with the wrong property.
    InvalidProp(String),
    /// The stream itself failed.
    StreamIo(String),
    /// A message could not be encoded or decoded.
    Serde(String),
}

impl IpcError {
    /// A human-readable description of the failure: the carried detail where
    /// there is one.
    pub fn message(&self) -> (r: String)
        ensures
            r@ == spec_ipc_message(self),
    {
        match self {
            IpcError::InitFailure => {
                let r = String::new().concat("failed to initialize stream");
                proof {
                    assert(r@ =~= "failed to initialize stream"@);
                }
                r
            },
            IpcError::Execution(s) => s.clone(),
            IpcError::InvalidProp(s) => s.clone(),
            IpcError::StreamIo(s) => s.clone(),
            IpcError::Serde(s) => s.clone(),
        }
    }
}

/// The description of each channel failure.
pub open spec fn spec_ipc_message(e: &IpcError) -> Seq<char> {
    match e {
        IpcError::InitFailure => "failed to initialize stream"@,
        IpcError::Execution(s) => s@,
        IpcError::InvalidProp(s) => s@,
        IpcError::StreamIo(s) => s@,
        IpcError::Serde(s) => s@,
    }
}

/// The namespaced encoded title: the namespace (if any), a dash, then the
/// plain encoded title.
pub open spec fn spec_encode_title_ns(
    namespace: Option<String>,
    id: u32,
    title: Seq<char>,
) -> Seq<char> {
    match namespace {
        Some(ns) => ns@ + seq!['-'] + spec_decimal(id as nat) + seq![':', ' '] + title,
        None => spec_encode_title(id, title),
    }
}

/// Combine a driver namespace and a window's numeric id with its actual
/// title.
///
/// The namespace keeps windows of concurrently running drivers apart, so
/// title comparison still identifies exactly the windows this driver spawned.
pub fn encode_title(namespace: &Option<String>, id: u32, title: &str) -> (r: String)
    ensures
        r@ == spec_encode_title_ns(*namespace, id, title@),
{
    match namespace {
        Some(ns) => {
            let mut s = ns.clone();
            s.append("-");
            proof {
                reveal_strlit("-");
                assert(s@ =~= ns@ + seq!['-']);
            }
            push_decimal(&mut s, id);
            s.append(": ");
            proof {
                reveal_strlit(": ");
                assert(s@ =~= ns@ + seq!['-'] + spec_decimal(id as nat) + seq![':', ' ']);
            }
            let r = s.concat(title);
            proof {
                assert(r@ =~= spec_encode_title_ns(*namespace, id, title@));
            }
            r
        },
        None => crate::title::encode_title(id, title),
    }
}

} // verus!

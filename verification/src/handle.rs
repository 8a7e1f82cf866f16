//! Identities of native accessibility objects.
//!
//! The native service hands out reference-counted opaque objects. Ownership
//! (retain on clone, release on drop) is the platform layer's duty; what the
//! engine needs from a handle is its identity, which is all these types carry.
//! Two handles are the same object exactly when their identities are equal;
//! nothing about the object's contents can be read from its handle.

use vstd::prelude::*;

verus! {

/// The identity of a native window object.
#[derive(Clone, Copy, Debug, Hash, PartialEq, Eq, Structural)]
pub struct WindowHandle {
    /// The native object's identity, as the platform layer numbers it.
    pub raw: u64,
}

/// The identity of a native application object.
#[derive(Clone, Copy, Debug, Hash, PartialEq, Eq, Structural)]
pub struct AppHandle {
    /// The native object's identity, as the platform layer numbers it.
    pub raw: u64,
}

} // verus!

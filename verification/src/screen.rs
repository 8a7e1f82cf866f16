//! A connected display, described in physical pixels.
//!
//! Physical pixels are used deliberately: in a multi-monitor window manager
//! they keep window positions stable across resolution changes. The platform
//! layer reads the display's properties once and hands them over; the engine
//! keeps the snapshot.

use vstd::prelude::*;

verus! {

/// A size in physical pixels.
#[derive(Clone, Copy, Debug, PartialEq, Eq, Structural)]
pub struct PhysicalSize {
    /// The width of the size.
    pub width: u64,
    /// The height of the size.
    pub height: u64,
}

/// A position in physical pixels, relative to the arrangement of displays.
#[derive(Clone, Copy, Debug, PartialEq, Eq, Structural)]
pub struct PhysicalPosition {
    /// The x position.
    pub x: u64,
    /// The y position.
    pub y: u64,
}

/// One connected display.
#[derive(Debug)]
pub struct Screen {
    handle: u32,
    name: String,
    size: PhysicalSize,
    position: PhysicalPosition,
}

impl Screen {
    /// The display's native identifier.
    pub closed spec fn spec_handle(&self) -> u32 {
        self.handle
    }

    /// The display's human-readable name.
    pub closed spec fn spec_name(&self) -> Seq<char> {
        self.name@
    }

    /// The display's size in physical pixels.
    pub closed spec fn spec_size(&self) -> PhysicalSize {
        self.size
    }

    /// The display's position in physical pixels.
    pub closed spec fn spec_position(&self) -> PhysicalPosition {
        self.position
    }

    /// Describe a display from the properties the platform layer read.
    pub fn new(handle: u32, name: String, size: PhysicalSize, position: PhysicalPosition) -> (r:
        Screen)
        ensures
            r.spec_handle() == handle,
            r.spec_name() == name@,
            r.spec_size() == size,
            r.spec_position() == position,
    {
        Screen { handle, name, size, position }
    }

    /// The display's native identifier.
    pub fn handle(&self) -> (r: u32)
        ensures
            r == self.spec_handle(),
    {
        self.handle
    }

    /// The display's human-readable name.
    pub fn name(&self) -> (r: String)
        ensures
            r@ == self.spec_name(),
    {
        self.name.clone()
    }

    /// The display's size in physical pixels.
    pub fn size(&self) -> (r: PhysicalSize)
        ensures
            r == self.spec_size(),
    {
        self.size
    }

    /// The display's position in physical pixels.
    pub fn position(&self) -> (r: PhysicalPosition)
        ensures
            r == self.spec_position(),
    {
        self.position
    }

    /// The display's position in physical pixels, under the name the
    /// platform layer reports it by.
    pub fn physical_position(&self) -> (r: PhysicalPosition)
        ensures
            r == self.spec_position(),
    {
        self.position
    }

    /// Whether this display is the main one, given the main display's
    /// identifier.
    pub fn is_primary(&self, main_display: u32) -> (r: bool)
        ensures
            r == (self.spec_handle() == main_display),
    {
        self.handle == main_display
    }
}

} // verus!

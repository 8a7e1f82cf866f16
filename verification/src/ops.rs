//! The operation vocabulary of the differential test driver: what can be
//! done to a window, where an operation can be performed, and which window
//! states an operation presupposes.

use vstd::prelude::*;

verus! {

/// Where an operation can originate.
#[derive(Clone, Copy, Debug, PartialEq, Eq, Structural)]
pub enum Scope {
    /// Only the process owning the window can perform it.
    Local,
    /// Only another process can perform it.
    Foreign,
    /// Either side can perform it.
    Global,
}

/// Whether a step is executed through this engine or through the external
/// window-owning process.
#[derive(Clone, Copy, Debug, PartialEq, Eq, Structural)]
pub enum ExecScope {
    /// The engine performs the step.
    Fowin,
    /// The external process performs the step.
    External,
}

/// An operation the driver can perform on a window.
#[derive(Clone, Copy, Debug, PartialEq, Eq, Structural)]
pub enum Operation {
    /// Change the window's size.
    Resize,
    /// Change the window's position.
    Move,
    /// Make the window fullscreen.
    Fullscreen,
    /// Take the window out of fullscreen.
    Unfullscreen,
    /// Show the window.
    Show,
    /// Hide the window.
    Hide,
    /// Bring the window to the front.
    BringToFront,
    /// Focus the window.
    Focus,
    /// Change the window's title.
    Rename,
}

/// The scope of each operation: only the owning process can rename its
/// window; everything else either side can do.
pub open spec fn spec_scope(op: Operation) -> Scope {
    match op {
        Operation::Rename => Scope::Local,
        _ => Scope::Global,
    }
}

impl Operation {
    /// Every operation, in the order the driver enumerates them.
    pub fn all() -> (r: Vec<Operation>)
        ensures
            r@ == seq![
                Operation::Resize,
                Operation::Move,
                Operation::Fullscreen,
                Operation::Unfullscreen,
                Operation::Show,
                Operation::Hide,
                Operation::BringToFront,
                Operation::Focus,
                Operation::Rename,
            ],
    {
        let r = vec![
            Operation::Resize,
            Operation::Move,
            Operation::Fullscreen,
            Operation::Unfullscreen,
            Operation::Show,
            Operation::Hide,
            Operation::BringToFront,
            Operation::Focus,
            Operation::Rename,
        ];
        r
    }

    /// The possible scopes of this operation; see [`spec_scope`].
    pub fn scope(&self) -> (r: Scope)
        ensures
            r == spec_scope(*self),
    {
        match self {
            Operation::Rename => Scope::Local,
            _ => Scope::Global,
        }
    }
}

/// A window state an operation can presuppose.
#[derive(Clone, Copy, Debug, PartialEq, Eq, Structural)]
pub enum Property {
    /// The window is (or is not) fullscreen.
    Fullscreened(bool),
    /// The window is (or is not) hidden.
    Hidden(bool),
}

/// Which window states must hold before an operation is generated.
#[derive(Debug)]
pub struct Constraint {
    /// The operation constrained.
    pub operation: Operation,
    /// The states the window must be in first.
    pub properties: Vec<Property>,
}

impl Constraint {
    /// Every constraint the generator respects: a window can only be resized
    /// or moved while it is neither fullscreen nor hidden.
    pub fn all() -> (r: Vec<Constraint>)
        ensures
            r@.len() == 2,
            r@[0].operation == Operation::Resize,
            r@[0].properties@ == seq![Property::Fullscreened(false), Property::Hidden(false)],
            r@[1].operation == Operation::Move,
            r@[1].properties@ == seq![Property::Fullscreened(false), Property::Hidden(false)],
    {
        let r = vec![
            Constraint {
                operation: Operation::Resize,
                properties: vec![Property::Fullscreened(false), Property::Hidden(false)],
            },
            Constraint {
                operation: Operation::Move,
                properties: vec![Property::Fullscreened(false), Property::Hidden(false)],
            },
        ];
        r
    }
}

} // verus!

//! The ways in which a request to the to-do list can fail.

use vstd::prelude::*;

verus! {

/// What was wrong with a line of input.
#[derive(Clone, Copy, Debug, PartialEq, Eq, Structural)]
pub enum InputFault {
    /// The line names no command.
    Command,
    /// The line is not a task identifier.
    Id,
    /// The line names none of the things that can be changed about a task.
    Choice,
    /// A title or a description was left blank.
    EmptyText,
}

/// Why a request changed nothing. Neither kind ends the session: the caller
/// reports it and goes on.
#[derive(Clone, Copy, Debug, PartialEq, Eq, Structural)]
pub enum TodoError {
    /// The identifier names no task: it is zero or larger than the count.
    NotFound,
    /// The input could not be understood.
    InvalidInput(InputFault),
}

} // verus!

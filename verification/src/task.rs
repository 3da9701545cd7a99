//! Small vocabularies for hosts that keep a list of tasks beside the
//! launcher: the state of one task, what can happen to it, and which tasks
//! a list shows.

use vstd::prelude::*;

verus! {

/// Whether a task is at rest or being edited.
#[derive(Clone, Copy, Debug, PartialEq, Eq)]
pub enum TaskState {
    Idle,
    Editing,
}

impl Default for TaskState {
    /// A task starts at rest.
    fn default() -> (state: Self)
        ensures
            state == TaskState::Idle,
    {
        TaskState::Idle
    }
}

/// What can happen to one task.
#[derive(Clone, Debug, PartialEq, Eq)]
pub enum TaskMessage {
    Completed(bool),
    Edit,
    DescriptionEdited(String),
    FinishEdition,
    Delete,
}

/// Which tasks a list shows.
#[derive(Clone, Copy, Debug, PartialEq, Eq)]
pub enum Filter {
    All,
    Active,
    Completed,
}

impl Default for Filter {
    /// A list starts by showing every task.
    fn default() -> (filter: Self)
        ensures
            filter == Filter::All,
    {
        Filter::All
    }
}

} // verus!

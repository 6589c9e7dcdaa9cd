use vstd::prelude::*;

verus! {

/// Whether a task still has to be done.
#[derive(Debug, Clone, Copy, Default, PartialEq, Eq, Structural)]
pub enum TaskState {
    #[default]
    Todo,
    Done,
}

impl TaskState {
    pub fn is_done(&self) -> (r: bool)
        ensures
            r == (*self == TaskState::Done),
    {
        *self == TaskState::Done
    }

    pub fn is_todo(&self) -> (r: bool)
        ensures
            r == (*self == TaskState::Todo),
    {
        *self == TaskState::Todo
    }
}

/// A task is done exactly when it is not still to do.
pub proof fn law_done_exactly_when_not_todo(state: TaskState)
    ensures
        (state == TaskState::Done) == !(state == TaskState::Todo),
{
}

} // verus!

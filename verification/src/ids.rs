use vstd::prelude::*;

verus! {

/// Identifies a project.
pub type ProjectId = u64;

/// Identifies a task.
pub type TaskId = u64;

/// Identifies a task tag.
pub type TaskTagId = u64;

} // verus!

//! The dialog in which a new task is written: name, description, tags, due
//! date and needed time.
//!
//! The description is edited in a text editor and the needed time is read
//! by a duration parser; both run in the application, which hands the
//! dialog the resulting texts and numbers, and a fresh id for the task.
use crate::date::SerializableDate;
use crate::ids::{ProjectId, TaskId, TaskTagId};
use crate::preferences::{OptionalPreference, Preferences};
use std::collections::HashSet;
use vstd::prelude::*;

verus! {

#[derive(Debug, Clone)]
pub enum Message {
    /// Creates the task under the given fresh id; `needed_time_minutes` is
    /// what the duration parser read from the needed time typed, if any.
    CreateTask { task_id: TaskId, needed_time_minutes: Option<usize> },
    ChangeTaskName(String),
    /// The description editor's content after an action.
    TaskDescriptionAction(String),
    /// The description after unindenting.
    UnindentDescription(String),
    ToggleTaskTag(TaskTagId),
    ChangeNeededTimeInput(String),
    EditNeededTime,
    StopEditingNeededTime,
    InvalidNeededTimeInput,
    EditDueDate,
    StopEditingDueDate,
    ChangeDueDate(SerializableDate),
    ClearDueDate,
}

/// What the application does after a message of the dialog.
#[derive(Debug)]
pub enum Action {
    NoAction,
    CreateTask {
        project_id: ProjectId,
        task_id: TaskId,
        task_name: String,
        task_description: String,
        task_tags: HashSet<TaskTagId>,
        due_date: Option<SerializableDate>,
        needed_time_minutes: Option<usize>,
        create_at_top: bool,
    },
}

/// The new task as written so far.
#[derive(Debug)]
pub struct Modal {
    pub project_id: ProjectId,
    pub task_name: String,
    pub task_description: String,
    pub task_tags: HashSet<TaskTagId>,
    pub due_date: Option<SerializableDate>,
    pub edit_due_date: bool,
    /// The needed time being typed, while it is.
    pub needed_time_minutes: Option<String>,
}

/// The dialog's state apart from its tags, which are compared by their
/// sets.
pub open spec fn same_except_tags(a: Modal, b: Modal) -> bool {
    &&& a.project_id == b.project_id
    &&& a.task_name == b.task_name
    &&& a.task_description == b.task_description
    &&& a.due_date == b.due_date
    &&& a.edit_due_date == b.edit_due_date
    &&& a.needed_time_minutes == b.needed_time_minutes
}

impl Modal {
    pub fn new(project_id: ProjectId) -> (r: Self)
        ensures
            r.project_id == project_id,
            r.task_name@.len() == 0,
            r.task_description@.len() == 0,
            r.task_tags@.is_empty(),
            r.due_date is None,
            !r.edit_due_date,
            r.needed_time_minutes is None,
    {
        Modal {
            project_id,
            task_name: String::new(),
            task_description: String::new(),
            task_tags: HashSet::new(),
            due_date: None,
            edit_due_date: false,
            needed_time_minutes: None,
        }
    }

    /// Handles a message. Creating a task hands on everything written, with
    /// the preference for where new tasks go, and keeps the dialog as it is.
    pub fn update(&mut self, message: Message, preferences: &Option<Preferences>) -> (r: Action)
        ensures
            match message {
                Message::CreateTask { task_id, needed_time_minutes } => {
                    &&& same_except_tags(*final(self), *old(self))
                    &&& final(self).task_tags@ == old(self).task_tags@
                    &&& r matches Action::CreateTask {
                        project_id: p,
                        task_id: t,
                        task_name: n,
                        task_description: d,
                        task_tags: g,
                        due_date: u,
                        needed_time_minutes: m,
                        create_at_top: c,
                    } && p == old(self).project_id && t == task_id && n == old(self).task_name && d
                        == old(self).task_description && g@ == old(self).task_tags@ && u == old(
                        self,
                    ).due_date && m == (if old(self).needed_time_minutes is Some {
                        needed_time_minutes
                    } else {
                        None
                    }) && c == match *preferences {
                        Some(p) => p.create_new_tasks_at_top,
                        None => true,
                    }
                },
                Message::ToggleTaskTag(tag) => {
                    &&& same_except_tags(*final(self), *old(self))
                    &&& final(self).task_tags@ == if old(self).task_tags@.contains(tag) {
                        old(self).task_tags@.remove(tag)
                    } else {
                        old(self).task_tags@.insert(tag)
                    }
                    &&& r is NoAction
                },
                Message::EditNeededTime => {
                    &&& final(self).task_tags@ == old(self).task_tags@
                    &&& final(self).needed_time_minutes matches Some(s) && s@.len() == 0
                    &&& same_except_tags(
                        *final(self),
                        Modal { needed_time_minutes: final(self).needed_time_minutes, ..*old(self) },
                    )
                    &&& r is NoAction
                },
                _ => {
                    &&& final(self).task_tags@ == old(self).task_tags@
                    &&& same_except_tags(
                        *final(self),
                        match message {
                            Message::ChangeTaskName(name) => Modal { task_name: name, ..*old(self) },
                            Message::TaskDescriptionAction(text) => Modal {
                                task_description: text,
                                ..*old(self)
                            },
                            Message::UnindentDescription(text) => Modal {
                                task_description: text,
                                ..*old(self)
                            },
                            Message::ChangeNeededTimeInput(input) => Modal {
                                needed_time_minutes: Some(input),
                                ..*old(self)
                            },
                            Message::StopEditingNeededTime => Modal {
                                needed_time_minutes: None,
                                ..*old(self)
                            },
                            Message::EditDueDate => Modal { edit_due_date: true, ..*old(self) },
                            Message::StopEditingDueDate => Modal { edit_due_date: false, ..*old(self) },
                            Message::ChangeDueDate(date) => Modal {
                                due_date: Some(date),
                                edit_due_date: false,
                                ..*old(self)
                            },
                            Message::ClearDueDate => Modal { due_date: None, ..*old(self) },
                            _ => *old(self),
                        },
                    )
                    &&& r is NoAction
                },
            },
    {
        match message {
            Message::CreateTask { task_id, needed_time_minutes } => {
                let needed = if self.needed_time_minutes.is_some() {
                    needed_time_minutes
                } else {
                    None
                };
                Action::CreateTask {
                    project_id: self.project_id,
                    task_id,
                    task_name: self.task_name.clone(),
                    task_description: self.task_description.clone(),
                    task_tags: clone_tags(&self.task_tags),
                    due_date: self.due_date,
                    needed_time_minutes: needed,
                    create_at_top: preferences.create_new_tasks_at_top(),
                }
            },
            Message::ChangeTaskName(new_task_name) => {
                self.task_name = new_task_name;
                Action::NoAction
            },
            Message::TaskDescriptionAction(text) => {
                self.task_description = text;
                Action::NoAction
            },
            Message::UnindentDescription(text) => {
                self.task_description = text;
                Action::NoAction
            },
            Message::ToggleTaskTag(task_tag_id) => {
                proof {
                    broadcast use vstd::std_specs::hash::group_hash_axioms;

                }
                if self.task_tags.contains(&task_tag_id) {
                    self.task_tags.remove(&task_tag_id);
                } else {
                    self.task_tags.insert(task_tag_id);
                }
                Action::NoAction
            },
            Message::ChangeNeededTimeInput(new_input) => {
                self.needed_time_minutes = Some(new_input);
                Action::NoAction
            },
            Message::EditNeededTime => {
                self.needed_time_minutes = Some(String::new());
                Action::NoAction
            },
            Message::StopEditingNeededTime => {
                self.needed_time_minutes = None;
                Action::NoAction
            },
            Message::InvalidNeededTimeInput => Action::NoAction,
            Message::EditDueDate => {
                self.edit_due_date = true;
                Action::NoAction
            },
            Message::StopEditingDueDate => {
                self.edit_due_date = false;
                Action::NoAction
            },
            Message::ChangeDueDate(new_due_date) => {
                self.due_date = Some(new_due_date);
                self.edit_due_date = false;
                Action::NoAction
            },
            Message::ClearDueDate => {
                self.due_date = None;
                Action::NoAction
            },
        }
    }
}

/// `HashSet::clone` (std): a set with the same values.
#[verifier::external_body]
fn clone_tags(tags: &HashSet<TaskTagId>) -> (r: HashSet<TaskTagId>)
    ensures
        r@ == tags@,
{
    tags.clone()
}

} // verus!

//! The dialog that shows one task and edits its description, due date and
//! needed time.
//!
//! The description is edited in a text editor and the needed time is read
//! by a duration parser; both run in the application, which hands the
//! dialog the resulting texts and numbers.
use crate::date::SerializableDate;
use crate::ids::{ProjectId, TaskId};
use crate::project::Task;
use vstd::prelude::*;

verus! {

#[derive(Debug, Clone)]
pub enum TaskModalMessage {
    EditDescription,
    ViewDescription,
    /// The editor performed an action; `text` is its content afterwards and
    /// `is_edit` tells whether the action changed it.
    EditDescriptionAction { text: String, is_edit: bool },
    /// The description was unindented; `text` is the result.
    UnindentDescription { text: String },
    EditDueDate,
    StopEditingDueDate,
    ChangeDueDate(SerializableDate),
    /// Starts editing the needed time; the task's needed time as the
    /// duration formatter writes it, if the task has one.
    EditNeededTime(Option<String>),
    StopEditingNeededTime,
    ClearTaskNeededTime,
    ChangeNeededTimeInput(String),
    /// Sets the needed time that the duration parser read from the input,
    /// in minutes, or none when it read nothing.
    ChangeNeededTime(Option<usize>),
    InvalidNeededTimeInput,
    DeleteTask,
}

/// What the application does after a message of the task dialog.
#[derive(Debug, PartialEq)]
pub enum TaskModalAction {
    NoAction,
    FocusTaskName,
    FocusNeededTimeInput,
    ChangeTaskDescription { project_id: ProjectId, task_id: TaskId, new_task_description: String },
    ChangeTaskDueDate { project_id: ProjectId, task_id: TaskId, new_due_date: Option<SerializableDate> },
    ChangeTaskNeededTime {
        project_id: ProjectId,
        task_id: TaskId,
        new_needed_time_minutes: Option<usize>,
    },
    DeleteTask { project_id: ProjectId, task_id: TaskId },
}

/// The task dialog: the description being edited, whether the due date is
/// being chosen, and the needed time being typed.
#[derive(Debug)]
pub struct TaskModal {
    pub project_id: ProjectId,
    pub task_id: TaskId,
    pub new_description: Option<String>,
    pub edit_due_date: bool,
    pub new_needed_time_minutes: Option<String>,
}

impl TaskModal {
    /// The dialog for a task, which focuses the task's name.
    pub fn new(project_id: ProjectId, task_id: TaskId) -> (r: (Self, TaskModalAction))
        ensures
            r.0 == (TaskModal {
                project_id,
                task_id,
                new_description: None,
                edit_due_date: false,
                new_needed_time_minutes: None,
            }),
            r.1 == TaskModalAction::FocusTaskName,
    {
        (
            TaskModal {
                project_id,
                task_id,
                new_description: None,
                edit_due_date: false,
                new_needed_time_minutes: None,
            },
            TaskModalAction::FocusTaskName,
        )
    }

    /// Handles a message; `task` is the dialog's task as the database holds
    /// it.
    pub fn update(&mut self, message: TaskModalMessage, task: Option<&Task>) -> (r: TaskModalAction)
        ensures
            final(self).project_id == old(self).project_id,
            final(self).task_id == old(self).task_id,
            match message {
                TaskModalMessage::EditDescription => {
                    &&& *final(self) == TaskModal {
                        new_description: match task {
                            Some(t) => Some(t.description),
                            None => None,
                        },
                        ..*old(self)
                    }
                    &&& r == TaskModalAction::NoAction
                },
                TaskModalMessage::ViewDescription => {
                    &&& *final(self) == TaskModal { new_description: None, ..*old(self) }
                    &&& r == TaskModalAction::NoAction
                },
                TaskModalMessage::EditDescriptionAction { text, is_edit } => match old(
                    self,
                ).new_description {
                    Some(_) => {
                        &&& *final(self) == TaskModal { new_description: Some(text), ..*old(self) }
                        &&& r == if is_edit {
                            TaskModalAction::ChangeTaskDescription {
                                project_id: old(self).project_id,
                                task_id: old(self).task_id,
                                new_task_description: text,
                            }
                        } else {
                            TaskModalAction::NoAction
                        }
                    },
                    None => *final(self) == *old(self) && r == TaskModalAction::NoAction,
                },
                TaskModalMessage::UnindentDescription { text } => match old(self).new_description {
                    Some(_) => {
                        &&& *final(self) == TaskModal { new_description: Some(text), ..*old(self) }
                        &&& r == TaskModalAction::ChangeTaskDescription {
                            project_id: old(self).project_id,
                            task_id: old(self).task_id,
                            new_task_description: text,
                        }
                    },
                    None => *final(self) == *old(self) && r == TaskModalAction::NoAction,
                },
                TaskModalMessage::EditDueDate => {
                    &&& *final(self) == TaskModal { edit_due_date: true, ..*old(self) }
                    &&& r == TaskModalAction::NoAction
                },
                TaskModalMessage::StopEditingDueDate => {
                    &&& *final(self) == TaskModal { edit_due_date: false, ..*old(self) }
                    &&& r == TaskModalAction::NoAction
                },
                TaskModalMessage::ChangeDueDate(date) => {
                    &&& *final(self) == TaskModal { edit_due_date: false, ..*old(self) }
                    &&& r == TaskModalAction::ChangeTaskDueDate {
                        project_id: old(self).project_id,
                        task_id: old(self).task_id,
                        new_due_date: Some(date),
                    }
                },
                TaskModalMessage::EditNeededTime(current) => {
                    &&& final(self).new_description == old(self).new_description
                    &&& final(self).edit_due_date == old(self).edit_due_date
                    &&& final(self).new_needed_time_minutes matches Some(text) && text@ == match current {
                        Some(c) => c@,
                        None => "30min"@,
                    }
                    &&& r == TaskModalAction::FocusNeededTimeInput
                },
                TaskModalMessage::StopEditingNeededTime => {
                    &&& *final(self) == TaskModal { new_needed_time_minutes: None, ..*old(self) }
                    &&& r == TaskModalAction::NoAction
                },
                TaskModalMessage::ChangeNeededTimeInput(input) => {
                    &&& *final(self) == TaskModal { new_needed_time_minutes: Some(input), ..*old(self) }
                    &&& r == TaskModalAction::NoAction
                },
                TaskModalMessage::ChangeNeededTime(minutes) => match old(self).new_needed_time_minutes {
                    Some(_) => {
                        &&& *final(self) == TaskModal { new_needed_time_minutes: None, ..*old(self) }
                        &&& r == TaskModalAction::ChangeTaskNeededTime {
                            project_id: old(self).project_id,
                            task_id: old(self).task_id,
                            new_needed_time_minutes: minutes,
                        }
                    },
                    None => *final(self) == *old(self) && r == TaskModalAction::NoAction,
                },
                TaskModalMessage::ClearTaskNeededTime => {
                    &&& *final(self) == TaskModal { new_needed_time_minutes: None, ..*old(self) }
                    &&& r == TaskModalAction::ChangeTaskNeededTime {
                        project_id: old(self).project_id,
                        task_id: old(self).task_id,
                        new_needed_time_minutes: None,
                    }
                },
                TaskModalMessage::InvalidNeededTimeInput => {
                    &&& *final(self) == *old(self)
                    &&& r == TaskModalAction::NoAction
                },
                TaskModalMessage::DeleteTask => {
                    &&& *final(self) == *old(self)
                    &&& r == TaskModalAction::DeleteTask {
                        project_id: old(self).project_id,
                        task_id: old(self).task_id,
                    }
                },
            },
    {
        match message {
            TaskModalMessage::EditDescription => {
                self.new_description = match task {
                    Some(t) => Some(t.description.clone()),
                    None => None,
                };
                TaskModalAction::NoAction
            },
            TaskModalMessage::ViewDescription => {
                self.new_description = None;
                TaskModalAction::NoAction
            },
            TaskModalMessage::EditDescriptionAction { text, is_edit } => {
                if self.new_description.is_some() {
                    let action = if is_edit {
                        TaskModalAction::ChangeTaskDescription {
                            project_id: self.project_id,
                            task_id: self.task_id,
                            new_task_description: text.clone(),
                        }
                    } else {
                        TaskModalAction::NoAction
                    };
                    self.new_description = Some(text);
                    action
                } else {
                    TaskModalAction::NoAction
                }
            },
            TaskModalMessage::UnindentDescription { text } => {
                if self.new_description.is_some() {
                    let action = TaskModalAction::ChangeTaskDescription {
                        project_id: self.project_id,
                        task_id: self.task_id,
                        new_task_description: text.clone(),
                    };
                    self.new_description = Some(text);
                    action
                } else {
                    TaskModalAction::NoAction
                }
            },
            TaskModalMessage::EditDueDate => {
                self.edit_due_date = true;
                TaskModalAction::NoAction
            },
            TaskModalMessage::StopEditingDueDate => {
                self.edit_due_date = false;
                TaskModalAction::NoAction
            },
            TaskModalMessage::ChangeDueDate(new_due_date) => {
                self.edit_due_date = false;
                TaskModalAction::ChangeTaskDueDate {
                    project_id: self.project_id,
                    task_id: self.task_id,
                    new_due_date: Some(new_due_date),
                }
            },
            TaskModalMessage::EditNeededTime(current) => {
                proof {
                    reveal_strlit("30min");
                }
                self.new_needed_time_minutes = Some(
                    match current {
                        Some(text) => text,
                        None => String::from_str("30min"),
                    },
                );
                TaskModalAction::FocusNeededTimeInput
            },
            TaskModalMessage::StopEditingNeededTime => {
                self.new_needed_time_minutes = None;
                TaskModalAction::NoAction
            },
            TaskModalMessage::ChangeNeededTimeInput(input) => {
                self.new_needed_time_minutes = Some(input);
                TaskModalAction::NoAction
            },
            TaskModalMessage::ChangeNeededTime(minutes) => {
                if self.new_needed_time_minutes.is_some() {
                    self.new_needed_time_minutes = None;
                    TaskModalAction::ChangeTaskNeededTime {
                        project_id: self.project_id,
                        task_id: self.task_id,
                        new_needed_time_minutes: minutes,
                    }
                } else {
                    TaskModalAction::NoAction
                }
            },
            TaskModalMessage::ClearTaskNeededTime => {
                self.new_needed_time_minutes = None;
                TaskModalAction::ChangeTaskNeededTime {
                    project_id: self.project_id,
                    task_id: self.task_id,
                    new_needed_time_minutes: None,
                }
            },
            TaskModalMessage::InvalidNeededTimeInput => TaskModalAction::NoAction,
            TaskModalMessage::DeleteTask => TaskModalAction::DeleteTask {
                project_id: self.project_id,
                task_id: self.task_id,
            },
        }
    }
}

} // verus!

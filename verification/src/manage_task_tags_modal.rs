//! The dialog in which the task tags of a project are created, renamed,
//! recolored and deleted.
use crate::ids::{ProjectId, TaskTagId};
use crate::ordered_hash_map::supported_key;
use crate::project::{Project, TaskTag};
use vstd::prelude::*;

verus! {

#[derive(Debug, Clone, PartialEq)]
pub enum Message {
    OpenCreateNewTaskTag,
    CloseCreateNewTaskTag,
    ChangeCreateNewTaskTagName(String),
    EditTaskTagColor(TaskTagId),
    EditTaskTagName(TaskTagId),
    ChangeEditTaskTagName(String),
    ChangeTaskTagName,
    /// A new color, as red, green and blue.
    ChangeTaskTagColor([u8; 3]),
    StopEditTaskTagColor,
    StopEditTaskTagName,
    /// Creates the tag being written under the given fresh id.
    CreateNewTaskTag(TaskTagId),
    DeleteTaskTag(TaskTagId),
}

/// What the application does after a message of the dialog.
#[derive(Debug)]
pub enum Action {
    NoAction,
    /// Focus the name field of the tag being created.
    FocusNewTaskTagName,
    ChangeTaskTagColor { project_id: ProjectId, task_tag_id: TaskTagId, new_color: [u8; 3] },
    ChangeTaskTagName { project_id: ProjectId, task_tag_id: TaskTagId, new_name: String },
    CreateTaskTag { project_id: ProjectId, task_tag_id: TaskTagId, task_tag: TaskTag },
    DeleteTaskTag { project_id: ProjectId, task_tag_id: TaskTagId },
}

/// The dialog's state: the name of a tag being created, the tag whose color
/// is being chosen, and the tag being renamed with its new name so far.
#[derive(Debug)]
pub struct Modal {
    pub project_id: ProjectId,
    pub create_new_task_tag: Option<String>,
    pub edit_task_tag_color_id: Option<TaskTagId>,
    pub edit_task_tag_name_id: Option<(TaskTagId, String)>,
}

/// The name of a tag of the project, empty when there is no such tag or no
/// project.
pub open spec fn tag_name_of(project: Option<&Project>, id: TaskTagId) -> Seq<char> {
    match project {
        Some(p) => if p.task_tags.entries().contains_key(id) {
            p.task_tags.entries()[id].name@
        } else {
            Seq::empty()
        },
        None => Seq::empty(),
    }
}

impl Modal {
    pub fn new(project_id: ProjectId) -> (r: Self)
        ensures
            r.project_id == project_id,
            r.create_new_task_tag is None,
            r.edit_task_tag_color_id is None,
            r.edit_task_tag_name_id is None,
    {
        Modal {
            project_id,
            create_new_task_tag: None,
            edit_task_tag_color_id: None,
            edit_task_tag_name_id: None,
        }
    }

    fn stop_editing_task_tag_color(&mut self)
        ensures
            *final(self) == (Modal { edit_task_tag_color_id: None, ..*old(self) }),
    {
        self.edit_task_tag_color_id = None;
    }

    fn stop_editing_task_tag_name(&mut self)
        ensures
            *final(self) == (Modal { edit_task_tag_name_id: None, ..*old(self) }),
    {
        self.edit_task_tag_name_id = None;
    }

    fn close_create_new_task_tag(&mut self)
        ensures
            *final(self) == (Modal { create_new_task_tag: None, ..*old(self) }),
    {
        self.create_new_task_tag = None;
    }

    /// Handles a message: opening and closing the creation of a tag, choosing
    /// the tag whose color or name is edited (only one of them at a time), and
    /// asking for the changes, which end the editing.
    pub fn update(&mut self, message: Message, project: Option<&Project>) -> (r: Action)
        ensures
            final(self).project_id == old(self).project_id,
            match message {
                Message::OpenCreateNewTaskTag => {
                    &&& final(self).create_new_task_tag matches Some(s) && s@.len() == 0
                    &&& final(self).edit_task_tag_name_id is None
                    &&& final(self).edit_task_tag_color_id is None
                    &&& r is FocusNewTaskTagName
                },
                Message::CloseCreateNewTaskTag => {
                    &&& *final(self) == Modal { create_new_task_tag: None, ..*old(self) }
                    &&& r is NoAction
                },
                Message::ChangeCreateNewTaskTagName(name) => {
                    &&& *final(self) == Modal { create_new_task_tag: Some(name), ..*old(self) }
                    &&& r is NoAction
                },
                Message::EditTaskTagColor(id) => {
                    &&& *final(self) == Modal {
                        edit_task_tag_color_id: Some(id),
                        edit_task_tag_name_id: None,
                        ..*old(self)
                    }
                    &&& r is NoAction
                },
                Message::EditTaskTagName(id) => {
                    &&& final(self).create_new_task_tag == old(self).create_new_task_tag
                    &&& final(self).edit_task_tag_color_id is None
                    &&& final(self).edit_task_tag_name_id matches Some((i, name)) && i == id
                        && name@ == tag_name_of(project, id)
                    &&& r is NoAction
                },
                Message::ChangeEditTaskTagName(name) => {
                    &&& final(self).create_new_task_tag == old(self).create_new_task_tag
                    &&& final(self).edit_task_tag_color_id == old(self).edit_task_tag_color_id
                    &&& final(self).edit_task_tag_name_id == match old(self).edit_task_tag_name_id {
                        Some((i, _)) => Some((i, name)),
                        None => None,
                    }
                    &&& r is NoAction
                },
                Message::ChangeTaskTagName => {
                    &&& *final(self) == Modal { edit_task_tag_name_id: None, ..*old(self) }
                    &&& match old(self).edit_task_tag_name_id {
                        Some((i, name)) => r == Action::ChangeTaskTagName {
                            project_id: old(self).project_id,
                            task_tag_id: i,
                            new_name: name,
                        },
                        None => r is NoAction,
                    }
                },
                Message::ChangeTaskTagColor(color) => {
                    &&& *final(self) == Modal { edit_task_tag_color_id: None, ..*old(self) }
                    &&& match old(self).edit_task_tag_color_id {
                        Some(i) => r == Action::ChangeTaskTagColor {
                            project_id: old(self).project_id,
                            task_tag_id: i,
                            new_color: color,
                        },
                        None => r is NoAction,
                    }
                },
                Message::StopEditTaskTagColor => {
                    &&& *final(self) == Modal { edit_task_tag_color_id: None, ..*old(self) }
                    &&& r is NoAction
                },
                Message::StopEditTaskTagName => {
                    &&& *final(self) == Modal { edit_task_tag_name_id: None, ..*old(self) }
                    &&& r is NoAction
                },
                Message::CreateNewTaskTag(id) => {
                    &&& *final(self) == Modal { create_new_task_tag: None, ..*old(self) }
                    &&& match old(self).create_new_task_tag {
                        Some(name) => r matches Action::CreateTaskTag { project_id, task_tag_id, task_tag }
                            && project_id == old(self).project_id && task_tag_id == id
                            && task_tag.name == name && task_tag.color == [255u8, 255u8, 255u8],
                        None => r is NoAction,
                    }
                },
                Message::DeleteTaskTag(id) => {
                    &&& *final(self) == *old(self)
                    &&& r == Action::DeleteTaskTag { project_id: old(self).project_id, task_tag_id: id }
                },
            },
        decreases (if message is EditTaskTagColor || message is EditTaskTagName { 1int } else { 0int }),
    {
        match message {
            Message::OpenCreateNewTaskTag => {
                self.create_new_task_tag = Some(String::new());
                self.edit_task_tag_name_id = None;
                self.edit_task_tag_color_id = None;
                Action::FocusNewTaskTagName
            },
            Message::CloseCreateNewTaskTag => {
                self.close_create_new_task_tag();
                Action::NoAction
            },
            Message::ChangeCreateNewTaskTagName(new_name) => {
                self.create_new_task_tag = Some(new_name);
                Action::NoAction
            },
            Message::EditTaskTagColor(task_tag_id) => {
                self.edit_task_tag_color_id = Some(task_tag_id);
                self.update(Message::StopEditTaskTagName, project)
            },
            Message::EditTaskTagName(task_tag_id) => {
                proof {
                    broadcast use vstd::std_specs::hash::group_hash_axioms;
                    broadcast use vstd::laws_eq::group_laws_eq;

                    assert(supported_key::<TaskTagId>());
                }
                let task_tag_name = match project {
                    Some(p) => match p.task_tags.get(&task_tag_id) {
                        Some(task_tag) => task_tag.name.clone(),
                        None => String::new(),
                    },
                    None => String::new(),
                };
                self.edit_task_tag_name_id = Some((task_tag_id, task_tag_name));
                self.update(Message::StopEditTaskTagColor, project)
            },
            Message::ChangeTaskTagColor(new_color) => {
                let action = match &self.edit_task_tag_color_id {
                    Some(edit_task_tag_id) => Action::ChangeTaskTagColor {
                        project_id: self.project_id,
                        task_tag_id: *edit_task_tag_id,
                        new_color,
                    },
                    None => Action::NoAction,
                };
                self.stop_editing_task_tag_color();
                action
            },
            Message::ChangeEditTaskTagName(new_name) => {
                match &self.edit_task_tag_name_id {
                    Some((id, _)) => {
                        self.edit_task_tag_name_id = Some((*id, new_name));
                    },
                    None => {},
                }
                Action::NoAction
            },
            Message::ChangeTaskTagName => {
                let action = match &self.edit_task_tag_name_id {
                    Some((edit_task_tag_id, new_name)) => Action::ChangeTaskTagName {
                        project_id: self.project_id,
                        task_tag_id: *edit_task_tag_id,
                        new_name: new_name.clone(),
                    },
                    None => Action::NoAction,
                };
                self.stop_editing_task_tag_name();
                action
            },
            Message::StopEditTaskTagColor => {
                self.stop_editing_task_tag_color();
                Action::NoAction
            },
            Message::StopEditTaskTagName => {
                self.edit_task_tag_name_id = None;
                Action::NoAction
            },
            Message::CreateNewTaskTag(task_tag_id) => {
                let action = match &self.create_new_task_tag {
                    Some(new_task_tag_name) => Action::CreateTaskTag {
                        project_id: self.project_id,
                        task_tag_id,
                        task_tag: TaskTag { name: new_task_tag_name.clone(), color: [255u8, 255u8, 255u8] },
                    },
                    None => Action::NoAction,
                };
                self.close_create_new_task_tag();
                action
            },
            Message::DeleteTaskTag(task_tag_id) => Action::DeleteTaskTag {
                project_id: self.project_id,
                task_tag_id,
            },
        }
    }
}

} // verus!

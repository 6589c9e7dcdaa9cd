use crate::modals::{
    CreateNewProjectModal, CreateNewProjectModalMessage, CreateNewTaskModal,
    CreateNewTaskModalMessage,
};
use vstd::prelude::*;

verus! {

/// The page that lists the projects.
#[derive(Debug, Clone)]
pub struct ProjectListPage {}

impl ProjectListPage {
    pub fn new() -> (r: Self) {
        Self {  }
    }
}

/// The page with the settings.
#[derive(Debug, Clone)]
pub struct SettingsPage {}

impl SettingsPage {
    pub fn new() -> (r: Self) {
        Self {  }
    }
}

/// The first page, from which a new project is created.
#[derive(Debug, Clone)]
pub struct StartPage {
    pub create_new_project_modal: CreateNewProjectModal,
}

impl StartPage {
    pub fn new() -> (r: Self)
        ensures
            !r.create_new_project_modal.is_opened(),
            r.create_new_project_modal.name_view() == Seq::<char>::empty(),
    {
        Self { create_new_project_modal: CreateNewProjectModal::new() }
    }

    pub fn update_create_new_project_modal(&mut self, message: CreateNewProjectModalMessage)
        ensures
            match message {
                CreateNewProjectModalMessage::Open => final(self).create_new_project_modal.is_opened()
                    && final(self).create_new_project_modal.name_view() == Seq::<char>::empty(),
                CreateNewProjectModalMessage::Close => !final(self).create_new_project_modal.is_opened()
                    && final(self).create_new_project_modal.name_view() == Seq::<char>::empty(),
                CreateNewProjectModalMessage::ChangeProjectName(name) => final(self).create_new_project_modal.is_opened()
                    == old(self).create_new_project_modal.is_opened()
                    && final(self).create_new_project_modal.name_view() == name@,
            },
    {
        self.create_new_project_modal.update(message);
    }
}

/// The page shown: the start page or the page of a project.
#[derive(Debug, Clone)]
pub enum Page {
    StartPage { create_new_project_modal: CreateNewProjectModal },
    ProjectPage { project_name: String, create_new_task_modal: CreateNewTaskModal },
}

impl Page {
    /// Passes the message to the new project dialog of the start page; other
    /// pages stay as they are.
    pub fn update_create_new_project_modal_message(&mut self, message: CreateNewProjectModalMessage)
        ensures
            (*old(self)) is ProjectPage ==> *final(self) == *old(self),
            (*old(self)) is StartPage ==> (*final(self)) is StartPage && match message {
                CreateNewProjectModalMessage::Open => (*final(self))->create_new_project_modal.is_opened()
                    && (*final(self))->create_new_project_modal.name_view() == Seq::<char>::empty(),
                CreateNewProjectModalMessage::Close => !(*final(self))->create_new_project_modal.is_opened()
                    && (*final(self))->create_new_project_modal.name_view() == Seq::<char>::empty(),
                CreateNewProjectModalMessage::ChangeProjectName(name) => (*final(self))->create_new_project_modal.is_opened()
                    == (*old(self))->create_new_project_modal.is_opened()
                    && (*final(self))->create_new_project_modal.name_view() == name@,
            },
    {
        if let Page::StartPage { create_new_project_modal } = self {
            create_new_project_modal.update(message);
        }
    }

    /// Passes the message to the new task dialog of a project page; other
    /// pages stay as they are.
    pub fn update_create_new_task_modal_message(&mut self, message: CreateNewTaskModalMessage)
        ensures
            (*old(self)) is StartPage ==> *final(self) == *old(self),
            (*old(self)) is ProjectPage ==> (*final(self)) is ProjectPage
                && (*final(self))->project_name == (*old(self))->project_name && match message {
                CreateNewTaskModalMessage::Open => (*final(self))->create_new_task_modal.is_opened()
                    && (*final(self))->create_new_task_modal.name_view() == Seq::<char>::empty(),
                CreateNewTaskModalMessage::Close => !(*final(self))->create_new_task_modal.is_opened()
                    && (*final(self))->create_new_task_modal.name_view() == Seq::<char>::empty(),
                CreateNewTaskModalMessage::ChangeTaskName(name) => (*final(self))->create_new_task_modal.is_opened()
                    == (*old(self))->create_new_task_modal.is_opened()
                    && (*final(self))->create_new_task_modal.name_view() == name@,
            },
    {
        if let Page::ProjectPage { create_new_task_modal, .. } = self {
            create_new_task_modal.update(message);
        }
    }
}

} // verus!

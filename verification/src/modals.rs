use vstd::prelude::*;

verus! {

#[derive(Debug, Clone, PartialEq, Eq)]
pub enum CreateNewProjectModalMessage {
    Open,
    Close,
    ChangeProjectName(String),
}

/// The dialog in which a new project is named.
#[derive(Debug, Clone)]
pub struct CreateNewProjectModal {
    opened: bool,
    pub project_name: String,
}

impl CreateNewProjectModal {
    pub closed spec fn is_opened(&self) -> bool {
        self.opened
    }

    /// The name typed so far.
    pub closed spec fn name_view(&self) -> Seq<char> {
        self.project_name@
    }

    pub fn new() -> (r: Self)
        ensures
            !r.is_opened(),
            r.name_view() == Seq::<char>::empty(),
    {
        Self { opened: false, project_name: String::new() }
    }

    /// Opening and closing the dialog clear the name; a changed name replaces it.
    pub fn update(&mut self, message: CreateNewProjectModalMessage)
        ensures
            match message {
                CreateNewProjectModalMessage::Open => final(self).is_opened()
                    && final(self).name_view() == Seq::<char>::empty(),
                CreateNewProjectModalMessage::Close => !final(self).is_opened()
                    && final(self).name_view() == Seq::<char>::empty(),
                CreateNewProjectModalMessage::ChangeProjectName(name) => final(self).is_opened()
                    == old(self).is_opened() && final(self).name_view() == name@,
            },
    {
        match message {
            CreateNewProjectModalMessage::Open => self.open(),
            CreateNewProjectModalMessage::Close => self.close(),
            CreateNewProjectModalMessage::ChangeProjectName(new_name) => self.project_name = new_name,
        }
    }

    pub fn open(&mut self)
        ensures
            final(self).is_opened(),
            final(self).name_view() == Seq::<char>::empty(),
    {
        self.opened = true;
        self.project_name = String::new();
    }

    pub fn close(&mut self)
        ensures
            !final(self).is_opened(),
            final(self).name_view() == Seq::<char>::empty(),
    {
        self.opened = false;
        self.project_name = String::new();
    }
}

#[derive(Debug, Clone, PartialEq, Eq)]
pub enum CreateNewTaskModalMessage {
    Open,
    Close,
    ChangeTaskName(String),
}

/// The dialog in which a new task is named.
#[derive(Debug, Clone)]
pub struct CreateNewTaskModal {
    opened: bool,
    pub task_name: String,
}

impl CreateNewTaskModal {
    pub closed spec fn is_opened(&self) -> bool {
        self.opened
    }

    /// The name typed so far.
    pub closed spec fn name_view(&self) -> Seq<char> {
        self.task_name@
    }

    pub fn new() -> (r: Self)
        ensures
            !r.is_opened(),
            r.name_view() == Seq::<char>::empty(),
    {
        Self { opened: false, task_name: String::new() }
    }

    /// Opening and closing the dialog clear the name; a changed name replaces it.
    pub fn update(&mut self, message: CreateNewTaskModalMessage)
        ensures
            match message {
                CreateNewTaskModalMessage::Open => final(self).is_opened()
                    && final(self).name_view() == Seq::<char>::empty(),
                CreateNewTaskModalMessage::Close => !final(self).is_opened()
                    && final(self).name_view() == Seq::<char>::empty(),
                CreateNewTaskModalMessage::ChangeTaskName(name) => final(self).is_opened()
                    == old(self).is_opened() && final(self).name_view() == name@,
            },
    {
        match message {
            CreateNewTaskModalMessage::Open => {
                self.opened = true;
                self.task_name = String::new();
            },
            CreateNewTaskModalMessage::Close => {
                self.opened = false;
                self.task_name = String::new();
            },
            CreateNewTaskModalMessage::ChangeTaskName(new_name) => self.task_name = new_name,
        }
    }
}

impl Default for CreateNewTaskModal {
    fn default() -> (r: Self)
        ensures
            !r.is_opened(),
            r.name_view() == Seq::<char>::empty(),
    {
        Self::new()
    }
}

#[derive(Debug, Clone, PartialEq, Eq)]
pub enum ErrorMsgModalMessage {
    Open(String),
    Close,
}

/// The dialog that shows an error message.
#[derive(Debug, Clone, PartialEq, Eq)]
pub enum ErrorMsgModal {
    Open { error_msg: String },
    Closed,
}

impl ErrorMsgModal {
    pub fn update(&mut self, message: ErrorMsgModalMessage)
        ensures
            match message {
                ErrorMsgModalMessage::Open(msg) => *final(self) == ErrorMsgModal::Open {
                    error_msg: msg,
                },
                ErrorMsgModalMessage::Close => *final(self) == ErrorMsgModal::Closed,
            },
    {
        match message {
            ErrorMsgModalMessage::Open(error_msg) => *self = ErrorMsgModal::Open { error_msg },
            ErrorMsgModalMessage::Close => *self = ErrorMsgModal::Closed,
        }
    }
}

#[derive(Debug, Clone, Copy, PartialEq, Eq)]
pub enum WaitClosingModalMessage {
    Open { waiting_reason: &'static str },
    Close,
    ForceCloseAnyways,
}

/// The dialog shown while the application waits for work to finish before
/// it closes.
#[derive(Debug, Clone, Copy, PartialEq, Eq)]
pub enum WaitClosingModal {
    Opened { waiting_reason: &'static str },
    Closed,
}

/// What the application does after a message to the waiting dialog.
#[derive(Debug, Clone, Copy, PartialEq, Eq, Structural)]
pub enum WaitClosingAction {
    KeepOpen,
    CloseWindow,
}

impl WaitClosingModal {
    pub fn update(&mut self, message: WaitClosingModalMessage) -> (r: WaitClosingAction)
        ensures
            match message {
                WaitClosingModalMessage::Open { waiting_reason } => *final(self)
                    == WaitClosingModal::Opened { waiting_reason } && r == WaitClosingAction::KeepOpen,
                WaitClosingModalMessage::Close => *final(self) == WaitClosingModal::Closed && r
                    == WaitClosingAction::KeepOpen,
                WaitClosingModalMessage::ForceCloseAnyways => *final(self) == *old(self) && r
                    == WaitClosingAction::CloseWindow,
            },
    {
        match message {
            WaitClosingModalMessage::Open { waiting_reason } => {
                *self = WaitClosingModal::Opened { waiting_reason };
                WaitClosingAction::KeepOpen
            },
            WaitClosingModalMessage::Close => {
                *self = WaitClosingModal::Closed;
                WaitClosingAction::KeepOpen
            },
            WaitClosingModalMessage::ForceCloseAnyways => WaitClosingAction::CloseWindow,
        }
    }
}

} // verus!

//! The small window shown when the application is started a second time.
use vstd::prelude::*;

verus! {

#[derive(Debug, Clone, Copy, PartialEq, Eq)]
pub enum Message {
    OkPressed,
}

/// What the window does after a message.
#[derive(Debug, Clone, Copy, PartialEq, Eq, Structural)]
pub enum Action {
    /// Close the latest window.
    CloseWindow,
}

/// The two themes of the application.
#[derive(Debug, Clone, Copy, PartialEq, Eq, Structural)]
pub enum ProjectTrackerTheme {
    Dark,
    Light,
}

/// The window, which follows whether the system's theme is dark.
#[derive(Debug, Clone, Copy, PartialEq, Eq)]
pub struct AlreadyOpenedApp {
    pub system_theme_dark: bool,
}

impl AlreadyOpenedApp {
    pub fn new(system_theme_dark: bool) -> (r: Self)
        ensures
            r.system_theme_dark == system_theme_dark,
    {
        AlreadyOpenedApp { system_theme_dark }
    }

    /// Pressing Ok closes the window.
    pub fn update(&mut self, message: Message) -> (r: Action)
        ensures
            *final(self) == *old(self),
            r == Action::CloseWindow,
    {
        match message {
            Message::OkPressed => Action::CloseWindow,
        }
    }

    pub fn theme(&self) -> (r: ProjectTrackerTheme)
        ensures
            r == (if self.system_theme_dark { ProjectTrackerTheme::Dark } else { ProjectTrackerTheme::Light }),
    {
        if self.system_theme_dark {
            ProjectTrackerTheme::Dark
        } else {
            ProjectTrackerTheme::Light
        }
    }
}

} // verus!

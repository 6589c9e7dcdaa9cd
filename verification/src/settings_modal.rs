use crate::date::DateFormatting;
use crate::integrations::{CodeEditor, ServerConfig, SynchronizationSetting};
use crate::preferences::{same_settings, set_by, PreferenceAction, PreferenceMessage, Preferences};
use vstd::prelude::*;

verus! {

/// The icons that the settings dialog shows, named as in the Bootstrap icon font.
#[derive(Debug, Clone, Copy, PartialEq, Eq, Structural)]
pub enum Bootstrap {
    GearFill,
    DatabaseFillGear,
    Command,
    CodeSlash,
    BarChartFill,
    InfoSquare,
    SortDown,
    SortNumericDown,
}

#[derive(Debug, Clone, Copy, Default, PartialEq, Eq, Structural)]
pub enum SettingTab {
    #[default]
    General,
    Database,
    Shortcuts,
    CodeEditor,
    AdminInfos,
    About,
}

impl SettingTab {
    pub const ALL: [SettingTab; 6] = [
        SettingTab::General,
        SettingTab::Database,
        SettingTab::Shortcuts,
        SettingTab::CodeEditor,
        SettingTab::AdminInfos,
        SettingTab::About,
    ];

    pub fn icon(&self) -> (r: Bootstrap)
        ensures
            r == (match self {
                SettingTab::General => Bootstrap::GearFill,
                SettingTab::Database => Bootstrap::DatabaseFillGear,
                SettingTab::Shortcuts => Bootstrap::Command,
                SettingTab::CodeEditor => Bootstrap::CodeSlash,
                SettingTab::AdminInfos => Bootstrap::BarChartFill,
                SettingTab::About => Bootstrap::InfoSquare,
            }),
    {
        match self {
            SettingTab::General => Bootstrap::GearFill,
            SettingTab::Database => Bootstrap::DatabaseFillGear,
            SettingTab::Shortcuts => Bootstrap::Command,
            SettingTab::CodeEditor => Bootstrap::CodeSlash,
            SettingTab::AdminInfos => Bootstrap::BarChartFill,
            SettingTab::About => Bootstrap::InfoSquare,
        }
    }

    pub fn label(&self) -> (r: &'static str)
        ensures
            r@ == (match self {
                SettingTab::General => "General"@,
                SettingTab::Database => "Database"@,
                SettingTab::Shortcuts => "Shortcuts"@,
                SettingTab::CodeEditor => "Code Editor"@,
                SettingTab::AdminInfos => "Admin Infos"@,
                SettingTab::About => "About"@,
            }),
    {
        match self {
            SettingTab::General => "General",
            SettingTab::Database => "Database",
            SettingTab::Shortcuts => "Shortcuts",
            SettingTab::CodeEditor => "Code Editor",
            SettingTab::AdminInfos => "Admin Infos",
            SettingTab::About => "About",
        }
    }
}

#[derive(Debug, Clone)]
pub enum SettingsModalMessage {
    Open,
    Close,
    OpenTab(SettingTab),
    ShowPassword,
    HidePassword,
    ToggleCodeEditorDropdownExpanded,
    CollapseCodeEditorDropdown,
    SetCodeEditor(Option<CodeEditor>),
    SetDateFormatting(DateFormatting),
    BrowseSynchronizationFilepath,
    BrowseSynchronizationFilepathCanceled,
    ImportGoogleTasksFileDialog,
    ImportGoogleTasksFileDialogCanceled,
    EnableSynchronization,
    DisableSynchronization,
    SetServerHostname(String),
    SetServerPort(usize),
    SetServerPassword(String),
    InvalidPortInput,
}

/// The settings dialog: closed, or open on a tab.
#[derive(Debug, Clone, Copy, Default, PartialEq, Eq, Structural)]
pub enum SettingsModal {
    Opened { selected_tab: SettingTab, show_password: bool, code_editor_dropdown_expanded: bool },
    #[default]
    Closed,
}

/// The synchronization setting after changing the server's configuration,
/// when a server is configured.
pub open spec fn server_changed(
    preferences: Option<Preferences>,
    change: spec_fn(ServerConfig) -> ServerConfig,
) -> PreferenceAction {
    match preferences {
        Some(p) => match p.synchronization {
            Some(SynchronizationSetting::Server(config)) => PreferenceAction::PreferenceMessage(
                PreferenceMessage::SetSynchronization(Some(SynchronizationSetting::Server(change(config)))),
            ),
            _ => PreferenceAction::NoAction,
        },
        None => PreferenceAction::NoAction,
    }
}

/// The dialog after a message that only concerns its own state.
pub open spec fn dialog_after(modal: SettingsModal, message: SettingsModalMessage) -> SettingsModal {
    match (modal, message) {
        (_, SettingsModalMessage::Open) => SettingsModal::Opened {
            selected_tab: SettingTab::General,
            show_password: false,
            code_editor_dropdown_expanded: false,
        },
        (_, SettingsModalMessage::Close) => SettingsModal::Closed,
        (SettingsModal::Opened { .. }, SettingsModalMessage::OpenTab(tab)) => SettingsModal::Opened {
            selected_tab: tab,
            show_password: false,
            code_editor_dropdown_expanded: false,
        },
        (
            SettingsModal::Opened { selected_tab, code_editor_dropdown_expanded, .. },
            SettingsModalMessage::ShowPassword,
        ) => SettingsModal::Opened { selected_tab, show_password: true, code_editor_dropdown_expanded },
        (
            SettingsModal::Opened { selected_tab, code_editor_dropdown_expanded, .. },
            SettingsModalMessage::HidePassword,
        ) => SettingsModal::Opened { selected_tab, show_password: false, code_editor_dropdown_expanded },
        (
            SettingsModal::Opened { selected_tab, show_password, code_editor_dropdown_expanded },
            SettingsModalMessage::ToggleCodeEditorDropdownExpanded,
        ) => SettingsModal::Opened {
            selected_tab,
            show_password,
            code_editor_dropdown_expanded: !code_editor_dropdown_expanded,
        },
        (
            SettingsModal::Opened { selected_tab, show_password, .. },
            SettingsModalMessage::CollapseCodeEditorDropdown,
        ) => SettingsModal::Opened { selected_tab, show_password, code_editor_dropdown_expanded: false },
        (
            SettingsModal::Opened { selected_tab, show_password, .. },
            SettingsModalMessage::SetCodeEditor(_),
        ) => SettingsModal::Opened { selected_tab, show_password, code_editor_dropdown_expanded: false },
        _ => modal,
    }
}

impl SettingsModal {
    pub fn is_open(&self) -> (r: bool)
        ensures
            r == (*self is Opened),
    {
        match self {
            SettingsModal::Opened { .. } => true,
            SettingsModal::Closed => false,
        }
    }

    /// Applies a message to the dialog (and, for the code editor and the
    /// date formatting, to the preferences) and tells what the application
    /// does next.
    pub fn update(&mut self, message: SettingsModalMessage, preferences: &mut Option<Preferences>) -> (r:
        PreferenceAction)
        ensures
            *final(self) == dialog_after(*old(self), message),
            match message {
                SettingsModalMessage::SetCodeEditor(code_editor) => r is NoAction && match *old(preferences) {
                    Some(p) => *final(preferences) == Some(Preferences { code_editor, ..p }),
                    None => *final(preferences) is None,
                },
                SettingsModalMessage::SetDateFormatting(f) => match *old(preferences) {
                    Some(p) => *final(preferences) matches Some(q) && same_settings(q, set_by(p, PreferenceMessage::SetDateFormatting(f)))
                        && q.last_saved_time == p.last_saved_time && r is NoAction,
                    None => *final(preferences) is None && r is NoAction,
                },
                _ => *final(preferences) == *old(preferences) && match message {
                    SettingsModalMessage::OpenTab(tab) => if tab == SettingTab::AdminInfos {
                        r is RequestAdminInfos
                    } else {
                        r is NoAction
                    },
                    SettingsModalMessage::BrowseSynchronizationFilepath => r is BrowseSynchronizationFilepath,
                    SettingsModalMessage::ImportGoogleTasksFileDialog => r is ImportGoogleTasksDialog,
                    SettingsModalMessage::EnableSynchronization => r == PreferenceAction::PreferenceMessage(
                        PreferenceMessage::SetSynchronization(Some(SynchronizationSetting::Filepath(None))),
                    ),
                    SettingsModalMessage::DisableSynchronization => r == PreferenceAction::PreferenceMessage(
                        PreferenceMessage::SetSynchronization(None),
                    ),
                    SettingsModalMessage::SetServerHostname(hostname) => r == server_changed(
                        *old(preferences),
                        |c: ServerConfig| ServerConfig { hostname, ..c },
                    ),
                    SettingsModalMessage::SetServerPort(port) => r == server_changed(
                        *old(preferences),
                        |c: ServerConfig| ServerConfig { port, ..c },
                    ),
                    SettingsModalMessage::SetServerPassword(password) => r == server_changed(
                        *old(preferences),
                        |c: ServerConfig| ServerConfig { password, ..c },
                    ),
                    _ => r is NoAction,
                },
            },
    {
        match message {
            SettingsModalMessage::Open => {
                *self = SettingsModal::Opened {
                    selected_tab: SettingTab::General,
                    show_password: false,
                    code_editor_dropdown_expanded: false,
                };
                PreferenceAction::NoAction
            },
            SettingsModalMessage::Close => {
                *self = SettingsModal::Closed;
                PreferenceAction::NoAction
            },
            SettingsModalMessage::OpenTab(tab) => {
                if let SettingsModal::Opened { .. } = self {
                    *self = SettingsModal::Opened {
                        selected_tab: tab,
                        show_password: false,
                        code_editor_dropdown_expanded: false,
                    };
                }
                match tab {
                    SettingTab::AdminInfos => PreferenceAction::RequestAdminInfos,
                    _ => PreferenceAction::NoAction,
                }
            },
            SettingsModalMessage::ShowPassword => {
                if let SettingsModal::Opened { selected_tab, code_editor_dropdown_expanded, .. } = *self {
                    *self = SettingsModal::Opened { selected_tab, show_password: true, code_editor_dropdown_expanded };
                }
                PreferenceAction::NoAction
            },
            SettingsModalMessage::HidePassword => {
                if let SettingsModal::Opened { selected_tab, code_editor_dropdown_expanded, .. } = *self {
                    *self = SettingsModal::Opened { selected_tab, show_password: false, code_editor_dropdown_expanded };
                }
                PreferenceAction::NoAction
            },
            SettingsModalMessage::ToggleCodeEditorDropdownExpanded => {
                if let SettingsModal::Opened { selected_tab, show_password, code_editor_dropdown_expanded } = *self {
                    *self = SettingsModal::Opened {
                        selected_tab,
                        show_password,
                        code_editor_dropdown_expanded: !code_editor_dropdown_expanded,
                    };
                }
                PreferenceAction::NoAction
            },
            SettingsModalMessage::CollapseCodeEditorDropdown => {
                self.collapse_code_editor_dropdown();
                PreferenceAction::NoAction
            },
            SettingsModalMessage::SetCodeEditor(code_editor) => {
                if let Some(p) = preferences {
                    p.set_code_editor(code_editor);
                }
                self.collapse_code_editor_dropdown();
                PreferenceAction::NoAction
            },
            SettingsModalMessage::BrowseSynchronizationFilepath => PreferenceAction::BrowseSynchronizationFilepath,
            SettingsModalMessage::BrowseSynchronizationFilepathCanceled => PreferenceAction::NoAction,
            SettingsModalMessage::ImportGoogleTasksFileDialog => PreferenceAction::ImportGoogleTasksDialog,
            SettingsModalMessage::ImportGoogleTasksFileDialogCanceled => PreferenceAction::NoAction,
            SettingsModalMessage::SetDateFormatting(date_formatting) => {
                match preferences {
                    Some(p) => p.update(PreferenceMessage::SetDateFormatting(date_formatting)),
                    None => PreferenceAction::NoAction,
                }
            },
            SettingsModalMessage::EnableSynchronization => PreferenceAction::PreferenceMessage(
                PreferenceMessage::SetSynchronization(Some(SynchronizationSetting::Filepath(None))),
            ),
            SettingsModalMessage::DisableSynchronization => PreferenceAction::PreferenceMessage(
                PreferenceMessage::SetSynchronization(None),
            ),
            SettingsModalMessage::SetServerHostname(new_hostname) => {
                match preferences {
                    Some(p) => match &p.synchronization {
                        Some(SynchronizationSetting::Server(config)) => PreferenceAction::PreferenceMessage(
                            PreferenceMessage::SetSynchronization(Some(SynchronizationSetting::Server(ServerConfig {
                                hostname: new_hostname,
                                port: config.port,
                                password: config.password.clone(),
                            }))),
                        ),
                        _ => PreferenceAction::NoAction,
                    },
                    None => PreferenceAction::NoAction,
                }
            },
            SettingsModalMessage::SetServerPort(new_port) => {
                match preferences {
                    Some(p) => match &p.synchronization {
                        Some(SynchronizationSetting::Server(config)) => PreferenceAction::PreferenceMessage(
                            PreferenceMessage::SetSynchronization(Some(SynchronizationSetting::Server(ServerConfig {
                                hostname: config.hostname.clone(),
                                port: new_port,
                                password: config.password.clone(),
                            }))),
                        ),
                        _ => PreferenceAction::NoAction,
                    },
                    None => PreferenceAction::NoAction,
                }
            },
            SettingsModalMessage::SetServerPassword(new_password) => {
                match preferences {
                    Some(p) => match &p.synchronization {
                        Some(SynchronizationSetting::Server(config)) => PreferenceAction::PreferenceMessage(
                            PreferenceMessage::SetSynchronization(Some(SynchronizationSetting::Server(ServerConfig {
                                hostname: config.hostname.clone(),
                                port: config.port,
                                password: new_password,
                            }))),
                        ),
                        _ => PreferenceAction::NoAction,
                    },
                    None => PreferenceAction::NoAction,
                }
            },
            SettingsModalMessage::InvalidPortInput => PreferenceAction::NoAction,
        }
    }

    fn collapse_code_editor_dropdown(&mut self)
        ensures
            *final(self) == dialog_after(*old(self), SettingsModalMessage::CollapseCodeEditorDropdown),
    {
        if let SettingsModal::Opened { selected_tab, show_password, .. } = *self {
            *self = SettingsModal::Opened { selected_tab, show_password, code_editor_dropdown_expanded: false };
        }
    }
}

} // verus!

verus! {

/// The value of a string of decimal digits.
pub open spec fn digits_value(s: Seq<char>) -> int
    decreases s.len(),
{
    if s.len() == 0 {
        0
    } else {
        digits_value(s.drop_last()) * 10 + (s.last() as int - '0' as int)
    }
}

/// Every character is an ASCII decimal digit.
pub open spec fn all_digits(s: Seq<char>) -> bool {
    forall|i: int| 0 <= i < s.len() ==> '0' <= #[trigger] s[i] <= '9'
}

/// The number a text reads as an unsigned integer: an optional `+`, then
/// at least one decimal digit and nothing else, with a value that fits
/// in `usize`.
pub open spec fn usize_text_value(text: Seq<char>) -> Option<int> {
    let digits = if text.len() > 0 && text[0] == '+' {
        text.skip(1)
    } else {
        text
    };
    if digits.len() > 0 && all_digits(digits) && digits_value(digits) <= usize::MAX {
        Some(digits_value(digits))
    } else {
        None
    }
}

/// `str::parse::<usize>` (std `usize::from_str`): as its documentation
/// says, an optional `+` followed by decimal digits only, whose value fits
/// in `usize`, reads as that value; any other text is an error.
#[verifier::external_body]
fn parse_usize(text: &str) -> (r: Option<usize>)
    ensures
        match usize_text_value(text@) {
            Some(v) => r == Some(v as usize),
            None => r is None,
        },
{
    match text.parse::<usize>() {
        Ok(value) => Some(value),
        Err(_) => None,
    }
}

/// The port that a text typed into the port field sets: the number it
/// reads as, 8080 for an empty field, none for any other text.
pub open spec fn port_of_input(input: Seq<char>) -> Option<usize> {
    match usize_text_value(input) {
        Some(v) => Some(v as usize),
        None => if input.len() == 0 {
            Some(8080)
        } else {
            None
        },
    }
}

/// The message of a text typed into the server port field: the port it
/// sets, or that the text is no port.
pub fn server_port_input_message(input: &str) -> (r: SettingsModalMessage)
    ensures
        match port_of_input(input@) {
            Some(port) => r == SettingsModalMessage::SetServerPort(port),
            None => r is InvalidPortInput,
        },
{
    match parse_usize(input) {
        Some(port) => SettingsModalMessage::SetServerPort(port),
        None => if input.unicode_len() == 0 {
            SettingsModalMessage::SetServerPort(8080)
        } else {
            SettingsModalMessage::InvalidPortInput
        },
    }
}

} // verus!

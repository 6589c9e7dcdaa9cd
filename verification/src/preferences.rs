use crate::calendar::{anchor, CalendarView};
use crate::date::{valid_date, DateFormatting, FirstWeekday};
use crate::ids::{ProjectId, TaskId};
use crate::integrations::{CodeEditor, SynchronizationSetting};
use crate::clock::{instant_is_later, instant_now};
use std::time::Instant;
use vstd::prelude::*;

verus! {

pub fn default_show_sidebar() -> (r: bool)
    ensures
        r,
{
    true
}

pub fn default_create_new_tasks_at_top() -> (r: bool)
    ensures
        r,
{
    true
}

pub fn default_sort_unspecified_tasks_at_bottom() -> (r: bool)
    ensures
        r,
{
    true
}

pub fn default_play_timer_notification_sound() -> (r: bool)
    ensures
        r,
{
    true
}

/// Whether timer notifications play their sound: the preference where there
/// are preferences, else its default.
pub open spec fn plays_timer_sound(preferences: Option<Preferences>) -> bool {
    match preferences {
        Some(p) => p.play_timer_notification_sound,
        None => true,
    }
}

/// The sidebar takes three tenths of the width by default: the bits of the
/// 32-bit float 0.3.
pub const DEFAULT_SIDEBAR_RATIO_BITS: u32 = 0x3e99999a;

/// Whether the application follows the system's theme or uses its own.
#[derive(Debug, Clone, Copy, Default, PartialEq, Eq, Structural)]
pub enum ThemeMode {
    #[default]
    System,
    Dark,
    Light,
}

/// What the stopwatch was doing when the preferences were saved.
#[derive(Debug, Clone, Copy, PartialEq, Eq, Structural)]
pub enum StopwatchProgress {
    Task { project_id: ProjectId, task_id: TaskId, paused: bool, finished_notification_sent: bool },
    TrackTime { elapsed_time_seconds: u64, paused: bool },
    Break {
        elapsed_time_seconds: u64,
        paused: bool,
        break_duration_minutes: usize,
        break_over_notification_sent: bool,
    },
}

/// The page shown in the content area.
#[derive(Debug, Clone, Copy, Default, PartialEq, Eq, Structural)]
pub enum SerializedContentPage {
    #[default]
    Overview,
    Stopwatch,
    Project(ProjectId),
}

/// How the overview shows the tasks: as a list or as a calendar.
#[derive(Debug, Clone, Copy, PartialEq, Eq, Structural)]
pub enum SerializedOverviewPage {
    List,
    Calendar { view: CalendarView },
}

impl SerializedOverviewPage {
    pub const DEFAULT: SerializedOverviewPage = SerializedOverviewPage::List;

    /// The calendar view, or the current week for the list.
    pub fn get_calendar_view(&self) -> (r: CalendarView)
        ensures
            match self {
                SerializedOverviewPage::Calendar { view } => r == *view,
                SerializedOverviewPage::List => r is Week && valid_date(anchor(r)),
            },
    {
        match self {
            SerializedOverviewPage::Calendar { view } => *view,
            _ => CalendarView::current_week(),
        }
    }
}

impl Default for SerializedOverviewPage {
    fn default() -> (r: Self)
        ensures
            r == SerializedOverviewPage::List,
    {
        SerializedOverviewPage::List
    }
}

/// The user's preferences.
#[derive(Debug, Clone)]
pub struct Preferences {
    pub theme_mode: ThemeMode,
    pub date_formatting: DateFormatting,
    pub first_day_of_week: FirstWeekday,
    pub create_new_tasks_at_top: bool,
    pub sort_unspecified_tasks_at_bottom: bool,
    pub play_timer_notification_sound: bool,
    pub show_sidebar: bool,
    /// The share of the width the sidebar takes, as the bits of a 32-bit float.
    pub sidebar_ratio_bits: u32,
    pub selected_content_page: SerializedContentPage,
    pub serialized_overview_page: SerializedOverviewPage,
    pub stopwatch_progress: Option<StopwatchProgress>,
    pub code_editor: Option<CodeEditor>,
    pub synchronization: Option<SynchronizationSetting>,
    pub last_changed_time: Instant,
    pub last_saved_time: Instant,
}

/// `a` and `b` hold the same settings; their change and save times may differ.
pub open spec fn same_settings(a: Preferences, b: Preferences) -> bool {
    &&& a.theme_mode == b.theme_mode
    &&& a.date_formatting == b.date_formatting
    &&& a.first_day_of_week == b.first_day_of_week
    &&& a.create_new_tasks_at_top == b.create_new_tasks_at_top
    &&& a.sort_unspecified_tasks_at_bottom == b.sort_unspecified_tasks_at_bottom
    &&& a.play_timer_notification_sound == b.play_timer_notification_sound
    &&& a.show_sidebar == b.show_sidebar
    &&& a.sidebar_ratio_bits == b.sidebar_ratio_bits
    &&& a.selected_content_page == b.selected_content_page
    &&& a.serialized_overview_page == b.serialized_overview_page
    &&& a.stopwatch_progress == b.stopwatch_progress
    &&& a.code_editor == b.code_editor
    &&& a.synchronization == b.synchronization
}

/// `p` holds the default settings.
pub open spec fn default_settings(p: Preferences) -> bool {
    &&& p.theme_mode == ThemeMode::System
    &&& p.date_formatting == DateFormatting::DayMonthYear
    &&& p.first_day_of_week == FirstWeekday::Monday
    &&& p.create_new_tasks_at_top
    &&& p.sort_unspecified_tasks_at_bottom
    &&& p.play_timer_notification_sound
    &&& p.show_sidebar
    &&& p.sidebar_ratio_bits == DEFAULT_SIDEBAR_RATIO_BITS
    &&& p.selected_content_page == SerializedContentPage::Overview
    &&& p.serialized_overview_page == SerializedOverviewPage::List
    &&& p.stopwatch_progress is None
    &&& p.code_editor is None
    &&& p.synchronization is None
}

impl Default for Preferences {
    fn default() -> (r: Self)
        ensures
            default_settings(r),
    {
        Preferences {
            theme_mode: ThemeMode::System,
            date_formatting: DateFormatting::DayMonthYear,
            first_day_of_week: FirstWeekday::Monday,
            create_new_tasks_at_top: default_create_new_tasks_at_top(),
            sort_unspecified_tasks_at_bottom: default_sort_unspecified_tasks_at_bottom(),
            show_sidebar: default_show_sidebar(),
            sidebar_ratio_bits: DEFAULT_SIDEBAR_RATIO_BITS,
            play_timer_notification_sound: default_play_timer_notification_sound(),
            selected_content_page: SerializedContentPage::Overview,
            serialized_overview_page: SerializedOverviewPage::List,
            stopwatch_progress: None,
            code_editor: None,
            synchronization: None,
            last_changed_time: instant_now(),
            last_saved_time: instant_now(),
        }
    }
}

#[derive(Debug, Clone)]
pub enum PreferenceMessage {
    Save(String),
    /// Saving that began at the given instant has finished.
    Saved(Instant),
    Reset,
    Export,
    Exported,
    Import,
    ImportFailed,
    SetThemeMode(ThemeMode),
    ToggleShowSidebar,
    SetContentPage(SerializedContentPage),
    SetDateFormatting(DateFormatting),
    SetFirstWeekday(FirstWeekday),
    SetOverviewPage(SerializedOverviewPage),
    SetCreateNewTaskAtTop(bool),
    SetSortUnspecifiedTasksAtBottom(bool),
    SetPlayTimerNotificationSound(bool),
    SetSynchronization(Option<SynchronizationSetting>),
}

/// What the application does after a preference message.
#[derive(Debug, Clone)]
pub enum PreferenceAction {
    NoAction,
    /// Write the preferences to the file.
    SaveTo(String),
    /// Let the user choose a file and write the preferences to it.
    ExportDialog,
    /// Let the user choose a file and load preferences from it.
    ImportDialog,
    PreferenceMessage(PreferenceMessage),
    RefreshCachedTaskList,
    RequestAdminInfos,
    /// Let the user choose the file that the database is synchronized with.
    BrowseSynchronizationFilepath,
    /// Let the user choose a Google Tasks export to import.
    ImportGoogleTasksDialog,
}

impl Preferences {
    pub const FILE_NAME: &'static str = "preferences.toml";

    pub fn synchronization(&self) -> (r: &Option<SynchronizationSetting>)
        ensures
            *r == self.synchronization,
    {
        &self.synchronization
    }

    pub fn set_synchronization(&mut self, synchronization: Option<SynchronizationSetting>)
        ensures
            same_settings(
                *final(self),
                Preferences { synchronization, ..*old(self) },
            ),
            final(self).last_saved_time == old(self).last_saved_time,
    {
        self.synchronization = synchronization;
        self.modified();
    }

    pub fn theme_mode(&self) -> (r: &ThemeMode)
        ensures
            *r == self.theme_mode,
    {
        &self.theme_mode
    }

    pub fn selected_content_page(&self) -> (r: &SerializedContentPage)
        ensures
            *r == self.selected_content_page,
    {
        &self.selected_content_page
    }

    pub fn set_selected_content_page(&mut self, content_page: SerializedContentPage)
        ensures
            same_settings(
                *final(self),
                Preferences { selected_content_page: content_page, ..*old(self) },
            ),
            final(self).last_saved_time == old(self).last_saved_time,
    {
        self.selected_content_page = content_page;
        self.modified();
    }

    pub fn serialized_overview_page(&self) -> (r: &SerializedOverviewPage)
        ensures
            *r == self.serialized_overview_page,
    {
        &self.serialized_overview_page
    }

    pub fn set_serialized_overview_page(&mut self, serialized_overview_page: SerializedOverviewPage)
        ensures
            same_settings(
                *final(self),
                Preferences { serialized_overview_page, ..*old(self) },
            ),
            final(self).last_saved_time == old(self).last_saved_time,
    {
        self.serialized_overview_page = serialized_overview_page;
        self.modified();
    }

    pub fn stopwatch_progress(&self) -> (r: &Option<StopwatchProgress>)
        ensures
            *r == self.stopwatch_progress,
    {
        &self.stopwatch_progress
    }

    pub fn set_stopwatch_progress(&mut self, progress: Option<StopwatchProgress>)
        ensures
            same_settings(*final(self), Preferences { stopwatch_progress: progress, ..*old(self) }),
            final(self).last_saved_time == old(self).last_saved_time,
    {
        self.stopwatch_progress = progress;
        self.modified();
    }

    pub fn show_sidebar(&self) -> (r: bool)
        ensures
            r == self.show_sidebar,
    {
        self.show_sidebar
    }

    pub fn sidebar_ratio_bits(&self) -> (r: u32)
        ensures
            r == self.sidebar_ratio_bits,
    {
        self.sidebar_ratio_bits
    }

    pub fn set_sidebar_ratio_bits(&mut self, ratio_bits: u32)
        ensures
            same_settings(*final(self), Preferences { sidebar_ratio_bits: ratio_bits, ..*old(self) }),
            final(self).last_saved_time == old(self).last_saved_time,
    {
        self.sidebar_ratio_bits = ratio_bits;
        self.modified();
    }

    pub fn date_formatting(&self) -> (r: DateFormatting)
        ensures
            r == self.date_formatting,
    {
        self.date_formatting
    }

    pub fn first_day_of_week(&self) -> (r: FirstWeekday)
        ensures
            r == self.first_day_of_week,
    {
        self.first_day_of_week
    }

    pub fn create_new_tasks_at_top(&self) -> (r: bool)
        ensures
            r == self.create_new_tasks_at_top,
    {
        self.create_new_tasks_at_top
    }

    pub fn sort_unspecified_tasks_at_bottom(&self) -> (r: bool)
        ensures
            r == self.sort_unspecified_tasks_at_bottom,
    {
        self.sort_unspecified_tasks_at_bottom
    }

    pub fn code_editor(&self) -> (r: &Option<CodeEditor>)
        ensures
            *r == self.code_editor,
    {
        &self.code_editor
    }

    /// Sets the code editor; this does not count as a change to save.
    pub fn set_code_editor(&mut self, code_editor: Option<CodeEditor>)
        ensures
            *final(self) == (Preferences { code_editor, ..*old(self) }),
    {
        self.code_editor = code_editor;
    }

    fn modified(&mut self)
        ensures
            same_settings(*final(self), *old(self)),
            final(self).last_saved_time == old(self).last_saved_time,
    {
        self.last_changed_time = instant_now();
    }

    /// Whether the preferences changed after they were last saved: whether
    /// the time of the last change is later than the time of the last save.
    /// The answer compares two instants of the clock; where they are the
    /// same instant, there are no unsaved changes.
    pub fn has_unsaved_changes(&self) -> (r: bool)
        ensures
            self.last_changed_time == self.last_saved_time ==> !r,
    {
        instant_is_later(&self.last_changed_time, &self.last_saved_time)
    }

    /// Applies a message and tells what the application does next.
    pub fn update(&mut self, message: PreferenceMessage) -> (r: PreferenceAction)
        ensures
            match message {
                PreferenceMessage::Save(filepath) => *final(self) == *old(self) && r
                    == PreferenceAction::SaveTo(filepath),
                PreferenceMessage::Saved(begin_time) => *final(self) == (Preferences {
                    last_saved_time: begin_time,
                    ..*old(self)
                }) && r is NoAction,
                PreferenceMessage::Reset => default_settings(*final(self)) && r is NoAction,
                PreferenceMessage::Export => *final(self) == *old(self) && r is ExportDialog,
                PreferenceMessage::Import => *final(self) == *old(self) && r is ImportDialog,
                PreferenceMessage::Exported | PreferenceMessage::ImportFailed => *final(self)
                    == *old(self) && r is NoAction,
                _ => {
                    &&& final(self).last_saved_time == old(self).last_saved_time
                    &&& same_settings(*final(self), set_by(*old(self), message))
                    &&& if message is SetSortUnspecifiedTasksAtBottom {
                        r is RefreshCachedTaskList
                    } else {
                        r is NoAction
                    }
                },
            },
    {
        match message {
            PreferenceMessage::Save(filepath) => PreferenceAction::SaveTo(filepath),
            PreferenceMessage::Saved(begin_time) => {
                self.last_saved_time = begin_time;
                PreferenceAction::NoAction
            },
            PreferenceMessage::Reset => {
                *self = Preferences::default();
                self.modified();
                PreferenceAction::NoAction
            },
            PreferenceMessage::Export => PreferenceAction::ExportDialog,
            PreferenceMessage::Exported => PreferenceAction::NoAction,
            PreferenceMessage::Import => PreferenceAction::ImportDialog,
            PreferenceMessage::ImportFailed => PreferenceAction::NoAction,
            PreferenceMessage::SetThemeMode(theme_mode) => {
                self.theme_mode = theme_mode;
                self.modified();
                PreferenceAction::NoAction
            },
            PreferenceMessage::ToggleShowSidebar => {
                self.show_sidebar = !self.show_sidebar;
                self.modified();
                PreferenceAction::NoAction
            },
            PreferenceMessage::SetContentPage(content_page) => {
                self.set_selected_content_page(content_page);
                PreferenceAction::NoAction
            },
            PreferenceMessage::SetDateFormatting(date_formatting) => {
                self.date_formatting = date_formatting;
                self.modified();
                PreferenceAction::NoAction
            },
            PreferenceMessage::SetFirstWeekday(first_weekday) => {
                self.first_day_of_week = first_weekday;
                self.modified();
                PreferenceAction::NoAction
            },
            PreferenceMessage::SetOverviewPage(serialized_overview_page) => {
                self.set_serialized_overview_page(serialized_overview_page);
                PreferenceAction::NoAction
            },
            PreferenceMessage::SetCreateNewTaskAtTop(create_at_top) => {
                self.create_new_tasks_at_top = create_at_top;
                self.modified();
                PreferenceAction::NoAction
            },
            PreferenceMessage::SetSortUnspecifiedTasksAtBottom(at_bottom) => {
                self.sort_unspecified_tasks_at_bottom = at_bottom;
                self.modified();
                PreferenceAction::RefreshCachedTaskList
            },
            PreferenceMessage::SetPlayTimerNotificationSound(play_sound) => {
                self.play_timer_notification_sound = play_sound;
                self.modified();
                PreferenceAction::NoAction
            },
            PreferenceMessage::SetSynchronization(synchronization) => {
                self.synchronization = synchronization;
                self.modified();
                PreferenceAction::NoAction
            },
        }
    }

    /// The custom preferences file if there is one, else the default one.
    pub fn get_filepath(custom_filepath: Option<String>, default_filepath: Option<String>) -> (r: Option<String>)
        ensures
            r == (match custom_filepath {
                Some(p) => Some(p),
                None => default_filepath,
            }),
    {
        match custom_filepath {
            Some(p) => Some(p),
            None => default_filepath,
        }
    }
}

/// The settings after a message that sets one of them.
pub open spec fn set_by(p: Preferences, message: PreferenceMessage) -> Preferences {
    match message {
        PreferenceMessage::SetThemeMode(t) => Preferences { theme_mode: t, ..p },
        PreferenceMessage::ToggleShowSidebar => Preferences { show_sidebar: !p.show_sidebar, ..p },
        PreferenceMessage::SetContentPage(c) => Preferences { selected_content_page: c, ..p },
        PreferenceMessage::SetDateFormatting(f) => Preferences { date_formatting: f, ..p },
        PreferenceMessage::SetFirstWeekday(w) => Preferences { first_day_of_week: w, ..p },
        PreferenceMessage::SetOverviewPage(o) => Preferences { serialized_overview_page: o, ..p },
        PreferenceMessage::SetCreateNewTaskAtTop(b) => Preferences { create_new_tasks_at_top: b, ..p },
        PreferenceMessage::SetSortUnspecifiedTasksAtBottom(b) => Preferences {
            sort_unspecified_tasks_at_bottom: b,
            ..p
        },
        PreferenceMessage::SetPlayTimerNotificationSound(b) => Preferences {
            play_timer_notification_sound: b,
            ..p
        },
        PreferenceMessage::SetSynchronization(s) => Preferences { synchronization: s, ..p },
        _ => p,
    }
}

/// The preferences' settings when they may not be loaded yet: the defaults
/// stand in for missing preferences.
pub trait OptionalPreference {
    fn show_sidebar(&self) -> bool;

    fn date_formatting(&self) -> DateFormatting;

    fn first_day_of_week(&self) -> FirstWeekday;

    fn create_new_tasks_at_top(&self) -> bool;

    fn serialized_overview_page(&self) -> SerializedOverviewPage;

    fn sort_unspecified_tasks_at_bottom(&self) -> bool;

    fn synchronization(&self) -> Option<&SynchronizationSetting>;

    fn play_timer_notification_sound(&self) -> bool;

    fn code_editor(&self) -> Option<&CodeEditor>;
}

impl OptionalPreference for Option<Preferences> {
    fn show_sidebar(&self) -> (r: bool)
        ensures
            r == (match self {
                Some(p) => p.show_sidebar,
                None => true,
            }),
    {
        match self {
            Some(preferences) => preferences.show_sidebar,
            None => default_show_sidebar(),
        }
    }

    fn date_formatting(&self) -> (r: DateFormatting)
        ensures
            r == (match self {
                Some(p) => p.date_formatting,
                None => DateFormatting::DayMonthYear,
            }),
    {
        match self {
            Some(preferences) => preferences.date_formatting,
            None => DateFormatting::DayMonthYear,
        }
    }

    fn first_day_of_week(&self) -> (r: FirstWeekday)
        ensures
            r == (match self {
                Some(p) => p.first_day_of_week,
                None => FirstWeekday::Monday,
            }),
    {
        match self {
            Some(preferences) => preferences.first_day_of_week,
            None => FirstWeekday::Monday,
        }
    }

    fn create_new_tasks_at_top(&self) -> (r: bool)
        ensures
            r == (match self {
                Some(p) => p.create_new_tasks_at_top,
                None => true,
            }),
    {
        match self {
            Some(preferences) => preferences.create_new_tasks_at_top,
            None => default_create_new_tasks_at_top(),
        }
    }

    fn sort_unspecified_tasks_at_bottom(&self) -> (r: bool)
        ensures
            r == (match self {
                Some(p) => p.sort_unspecified_tasks_at_bottom,
                None => true,
            }),
    {
        match self {
            Some(preferences) => preferences.sort_unspecified_tasks_at_bottom,
            None => default_sort_unspecified_tasks_at_bottom(),
        }
    }

    fn synchronization(&self) -> (r: Option<&SynchronizationSetting>)
        ensures
            r == (match self {
                Some(p) => match &p.synchronization {
                    Some(s) => Some(s),
                    None => None,
                },
                None => None::<&SynchronizationSetting>,
            }),
    {
        match self {
            Some(preferences) => preferences.synchronization.as_ref(),
            None => None,
        }
    }

    fn serialized_overview_page(&self) -> (r: SerializedOverviewPage)
        ensures
            r == (match self {
                Some(p) => p.serialized_overview_page,
                None => SerializedOverviewPage::List,
            }),
    {
        match self {
            Some(preferences) => preferences.serialized_overview_page,
            None => SerializedOverviewPage::List,
        }
    }

    fn play_timer_notification_sound(&self) -> (r: bool)
        ensures
            r == plays_timer_sound(*self),
    {
        match self {
            Some(preferences) => preferences.play_timer_notification_sound,
            None => default_play_timer_notification_sound(),
        }
    }

    fn code_editor(&self) -> (r: Option<&CodeEditor>)
        ensures
            r == (match self {
                Some(p) => match &p.code_editor {
                    Some(c) => Some(c),
                    None => None,
                },
                None => None::<&CodeEditor>,
            }),
    {
        match self {
            Some(preferences) => preferences.code_editor.as_ref(),
            None => None,
        }
    }
}

} // verus!

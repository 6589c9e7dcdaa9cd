//! Verified core of the project tracker: the data structures, parsers and
//! state machines behind the user interface.

mod task_state;

pub use task_state::TaskState;

pub mod ordered_hash_map;
pub use ordered_hash_map::OrderedHashMap;

mod text;

pub mod clock;

pub mod stopwatch;
pub use stopwatch::format_stopwatch_duration;

pub mod source_code_todo;

pub mod date;
pub use date::{DateFormatting, FirstWeekday, SerializableDate, Weekday};

pub mod calendar;
pub mod date_widget;
pub mod task_widget;
pub mod task_list;
pub mod stable_order;
pub use calendar::CalendarView;

pub mod modals;
pub use modals::{
    CreateNewProjectModal, CreateNewProjectModalMessage, CreateNewTaskModal,
    CreateNewTaskModalMessage, ErrorMsgModal, ErrorMsgModalMessage, WaitClosingModal,
    WaitClosingModalMessage,
};

pub mod integrations;
pub use integrations::{CodeEditor, ServerConfig, ServerConnectionStatus, SynchronizationSetting};

pub mod ids;
pub use ids::{ProjectId, TaskId, TaskTagId};

pub mod preferences;
pub use preferences::{
    OptionalPreference, PreferenceAction, PreferenceMessage, Preferences, SerializedContentPage,
    SerializedOverviewPage, StopwatchProgress, ThemeMode,
};

pub mod settings_modal;
pub use settings_modal::{SettingTab, SettingsModal, SettingsModalMessage};

pub mod pages;
pub use pages::{ProjectListPage, SettingsPage, StartPage};
pub mod markdown;

pub mod project;
pub use project::{Project, SortMode, Task, TaskType};

pub mod project_page;
pub use project_page::CachedTaskList;

pub mod google_tasks;

pub mod manage_task_tags_modal;

pub mod task_modal;

pub mod create_task_modal;

pub mod database;

pub mod overview_page;

pub mod content_page;

pub mod sidebar_page;

pub mod server_connection;

pub mod already_opened_app;

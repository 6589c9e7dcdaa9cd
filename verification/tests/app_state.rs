use project_tracker::integrations::CodeEditor;
use project_tracker::modals::{
    CreateNewTaskModalMessage, ErrorMsgModal, ErrorMsgModalMessage, WaitClosingAction,
    WaitClosingModal, WaitClosingModalMessage,
};
use project_tracker::preferences::{
    OptionalPreference, PreferenceAction, PreferenceMessage, Preferences, StopwatchProgress,
};
use project_tracker::settings_modal::{SettingTab, SettingsModal, SettingsModalMessage};
use project_tracker::stopwatch::{format_stopwatch_duration, Message, Page, StopwatchAction, StopwatchTaskInfo};
use project_tracker::{CreateNewTaskModal, DateFormatting, FirstWeekday};

#[test]
fn stopwatch_durations() {
    assert_eq!(format_stopwatch_duration(0), "00:00");
    assert_eq!(format_stopwatch_duration(65), "01:05");
    assert_eq!(format_stopwatch_duration(3725), "1:02:05");
    assert_eq!(format_stopwatch_duration(-5), "-00:05");
    assert_eq!(format_stopwatch_duration(-36000), "-10:00:00");
}

#[test]
fn stopwatch_task_time_and_progress() {
    let mut page = Page::default();
    let mut preferences = Some(Preferences::default());
    match page.update(Message::StopTask { project_id: 1, task_id: 2 }, None, &mut preferences, true) {
        StopwatchAction::Actions(actions) => {
            assert!(matches!(actions[0], StopwatchAction::OpenStopwatch));
            assert!(matches!(actions[1], StopwatchAction::StartTaskTimeSpend { project_id: 1, task_id: 2 }));
        }
        other => panic!("unexpected {:?}", other),
    }
    assert!(page.is_task_being_stopped(1, 2));
    assert!(!page.is_task_being_stopped(1, 3));
    assert_eq!(
        preferences.as_ref().unwrap().stopwatch_progress,
        Some(StopwatchProgress::Task { project_id: 1, task_id: 2, paused: false, finished_notification_sent: false })
    );
    assert!(matches!(
        page.update(Message::Toggle, None, &mut preferences, true),
        StopwatchAction::StopTaskTimeSpend { project_id: 1, task_id: 2 }
    ));
    assert!(!page.is_task_being_stopped(1, 2));
    assert!(matches!(
        page.update(Message::Toggle, None, &mut preferences, false),
        StopwatchAction::NoAction
    ));
    assert!(matches!(
        page.update(Message::Resume, None, &mut preferences, true),
        StopwatchAction::StartTaskTimeSpend { project_id: 1, task_id: 2 }
    ));

    let info = StopwatchTaskInfo {
        name: "write".to_string(),
        done: false,
        needed_time_minutes: Some(1),
        spend_seconds: 61,
    };
    match page.update(Message::Update, Some(info.clone()), &mut preferences, true) {
        StopwatchAction::Notify { summary, body } => {
            assert_eq!(summary, "1 min. timer finished!");
            assert_eq!(body, "write");
        }
        other => panic!("unexpected {:?}", other),
    }
    assert!(matches!(
        page.update(Message::Update, Some(info), &mut preferences, true),
        StopwatchAction::NoAction
    ));
    match page.update(Message::CompleteTask, None, &mut preferences, true) {
        StopwatchAction::Actions(actions) => {
            assert!(matches!(actions[0], StopwatchAction::SetTaskDone { project_id: 1, task_id: 2 }));
            assert!(matches!(actions[1], StopwatchAction::StopTaskTimeSpend { project_id: 1, task_id: 2 }));
        }
        other => panic!("unexpected {:?}", other),
    }
    assert!(matches!(page, Page::Idle));
    assert_eq!(preferences.as_ref().unwrap().stopwatch_progress, None);
}

#[test]
fn stopwatch_ends_when_the_task_is_done_or_gone() {
    let mut preferences: Option<Preferences> = None;
    let mut page = Page::default();
    page.update(Message::StopTask { project_id: 1, task_id: 2 }, None, &mut preferences, true);
    page.update(Message::Update, None, &mut preferences, true);
    assert!(matches!(page, Page::Idle));
    page.update(Message::StopTask { project_id: 1, task_id: 2 }, None, &mut preferences, true);
    let done = StopwatchTaskInfo { name: String::new(), done: true, needed_time_minutes: None, spend_seconds: 0 };
    page.update(Message::Update, Some(done), &mut preferences, true);
    assert!(matches!(page, Page::Idle));
}

#[test]
fn stopwatch_breaks_and_tracking() {
    let mut preferences = Some(Preferences::default());
    let mut page = Page::default();
    page.update(Message::TakeBreak(5), None, &mut preferences, true);
    assert!(matches!(page, Page::TakingBreak { break_duration_minutes: 5, paused: false, .. }));
    page.update(Message::Pause, None, &mut preferences, true);
    assert!(matches!(page, Page::TakingBreak { paused: true, .. }));
    assert!(matches!(page.update(Message::Update, None, &mut preferences, true), StopwatchAction::NoAction));
    assert!(matches!(
        page.update(Message::SaveTaskTimeSpendBeforeClosing, None, &mut preferences, true),
        StopwatchAction::NoAction
    ));
    page.update(Message::Stop, None, &mut preferences, true);
    assert!(matches!(page, Page::Idle));
    page.update(Message::Toggle, None, &mut preferences, true);
    assert!(matches!(page, Page::TrackTime { paused: false, .. }));
    assert_eq!(
        preferences.as_ref().unwrap().stopwatch_progress,
        Some(StopwatchProgress::TrackTime { elapsed_time_seconds: 0, paused: false })
    );
}

#[test]
fn stopwatch_starts_again_from_stored_progress() {
    let progress = StopwatchProgress::Break {
        elapsed_time_seconds: 90,
        paused: true,
        break_duration_minutes: 15,
        break_over_notification_sent: false,
    };
    let (page, action) = Page::startup_again(progress);
    assert!(matches!(action, StopwatchAction::NoAction));
    let mut preferences = Some(Preferences::default());
    page.set_stopwatch_progress(&mut preferences);
    assert_eq!(preferences.unwrap().stopwatch_progress, Some(progress));
    let (_page, action) = Page::startup_again(StopwatchProgress::Task {
        project_id: 3,
        task_id: 4,
        paused: false,
        finished_notification_sent: true,
    });
    assert!(matches!(action, StopwatchAction::StartTaskTimeSpend { project_id: 3, task_id: 4 }));
}

#[test]
fn preference_messages() {
    let mut preferences = Preferences::default();
    assert!(matches!(
        preferences.update(PreferenceMessage::SetSortUnspecifiedTasksAtBottom(false)),
        PreferenceAction::RefreshCachedTaskList
    ));
    assert!(!preferences.sort_unspecified_tasks_at_bottom);
    preferences.update(PreferenceMessage::ToggleShowSidebar);
    assert!(!preferences.show_sidebar);
    preferences.update(PreferenceMessage::SetFirstWeekday(FirstWeekday::Sunday));
    assert_eq!(preferences.first_day_of_week, FirstWeekday::Sunday);
    match preferences.update(PreferenceMessage::Save("p.toml".to_string())) {
        PreferenceAction::SaveTo(path) => assert_eq!(path, "p.toml"),
        other => panic!("unexpected {:?}", other),
    }
    assert!(matches!(preferences.update(PreferenceMessage::Export), PreferenceAction::ExportDialog));
    preferences.update(PreferenceMessage::Reset);
    assert!(preferences.show_sidebar);
    assert_eq!(preferences.first_day_of_week, FirstWeekday::Monday);
    assert_eq!(
        Preferences::get_filepath(None, Some("default".to_string())),
        Some("default".to_string())
    );
    assert_eq!(
        Preferences::get_filepath(Some("mine".to_string()), Some("default".to_string())),
        Some("mine".to_string())
    );
}

#[test]
fn optional_preferences_fall_back_to_defaults() {
    let none: Option<Preferences> = None;
    assert!(none.show_sidebar());
    assert!(none.play_timer_notification_sound());
    assert!(none.sort_unspecified_tasks_at_bottom());
    assert_eq!(none.date_formatting(), DateFormatting::DayMonthYear);
    let mut p = Preferences::default();
    p.play_timer_notification_sound = false;
    assert!(!Some(p).play_timer_notification_sound());
}

#[test]
fn settings_dialog() {
    let mut modal = SettingsModal::default();
    let mut preferences = Some(Preferences::default());
    assert!(!modal.is_open());
    modal.update(SettingsModalMessage::Open, &mut preferences);
    assert!(modal.is_open());
    modal.update(SettingsModalMessage::OpenTab(SettingTab::CodeEditor), &mut preferences);
    assert!(matches!(modal, SettingsModal::Opened { selected_tab: SettingTab::CodeEditor, .. }));
    modal.update(SettingsModalMessage::SetCodeEditor(Some(CodeEditor::Zed)), &mut preferences);
    assert_eq!(preferences.as_ref().unwrap().code_editor, Some(CodeEditor::Zed));
    modal.update(SettingsModalMessage::SetDateFormatting(DateFormatting::MonthDayYear), &mut preferences);
    assert_eq!(preferences.as_ref().unwrap().date_formatting, DateFormatting::MonthDayYear);
    modal.update(SettingsModalMessage::Close, &mut preferences);
    assert!(!modal.is_open());
    assert_eq!(SettingTab::ALL.len(), 6);
}

#[test]
fn code_editor_command_lines() {
    let (program, args) = CodeEditor::VSCode.generate_command_line("a.rs:1:2", Some("/bin/code".to_string()), None, None);
    assert_eq!(program, "/bin/code");
    assert_eq!(args, vec!["--goto".to_string(), "a.rs:1:2".to_string()]);
    let (program, args) = CodeEditor::VSCode.generate_command_line("a.rs:1:2", None, None, None);
    assert_eq!(program, "flatpak");
    assert_eq!(args, vec!["run", "com.visualstudio.code", "--goto", "a.rs:1:2"]);
    let (program, args) = CodeEditor::Zed.generate_command_line("f", None, None, Some("/home/u/.local/bin/zed".to_string()));
    assert_eq!(program, "/home/u/.local/bin/zed");
    assert_eq!(args, vec!["f"]);
    let custom = CodeEditor::Custom { name: "vim".to_string(), command: "nvim  -R".to_string() };
    let (program, args) = custom.generate_command_line("f", None, None, None);
    assert_eq!(program, "nvim");
    assert_eq!(args, vec!["", "-R", "f"]);
    assert_eq!(custom.label(), "Custom");
    assert_eq!(custom.name(), "vim");
    assert_eq!(CodeEditor::Zed.label(), "Zed");
}

#[test]
fn small_dialogs() {
    let mut error = ErrorMsgModal::Closed;
    error.update(ErrorMsgModalMessage::Open("bad".to_string()));
    assert_eq!(error, ErrorMsgModal::Open { error_msg: "bad".to_string() });
    error.update(ErrorMsgModalMessage::Close);
    assert_eq!(error, ErrorMsgModal::Closed);

    let mut waiting = WaitClosingModal::Closed;
    assert_eq!(waiting.update(WaitClosingModalMessage::Open { waiting_reason: "saving" }), WaitClosingAction::KeepOpen);
    assert_eq!(waiting, WaitClosingModal::Opened { waiting_reason: "saving" });
    assert_eq!(waiting.update(WaitClosingModalMessage::ForceCloseAnyways), WaitClosingAction::CloseWindow);

    let mut create = CreateNewTaskModal::new();
    create.update(CreateNewTaskModalMessage::Open);
    create.update(CreateNewTaskModalMessage::ChangeTaskName("t".to_string()));
    assert_eq!(create.task_name, "t");
    let _ = create;
}

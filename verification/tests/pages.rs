use project_tracker::already_opened_app::{Action as AlreadyAction, AlreadyOpenedApp, Message as AlreadyMessage, ProjectTrackerTheme};
use project_tracker::content_page::{Action as ContentAction, Message as ContentMessage, Page as ContentPage};
use project_tracker::create_task_modal::{Action as CreateAction, Message as CreateMessage, Modal as CreateModal};
use project_tracker::database::Database;
use project_tracker::date::SerializableDate;
use project_tracker::integrations::{code_editor_label, CodeEditor, ServerConfig};
use project_tracker::markdown::TaskDescriptionMarkdownStorage;
use project_tracker::ordered_hash_map::OrderedHashMap;
use project_tracker::overview_page::{Message as OverviewMessage, Page as OverviewPage};
use project_tracker::preferences::{Preferences, SerializedContentPage, SerializedOverviewPage};
use project_tracker::project_page::{Action as ProjectAction, Message as ProjectMessage, Page as ProjectPage};
use project_tracker::server_connection::{
    IncomingMessage, ListenOutcome, OutputEvent, RequestOutcome, WsAction, WsConnection, WsEvent,
    WsServerConnectionState,
};
use project_tracker::sidebar_page::{Action as SidebarAction, Message as SidebarMessage, Page as SidebarPage, ProjectDropzone, TaskDropzone};
use project_tracker::stopwatch;
use project_tracker::task_modal::{TaskModal, TaskModalAction, TaskModalMessage};
use project_tracker::{CalendarView, FirstWeekday, Project, SortMode, Task};
use std::collections::HashSet;
use std::time::{Duration, SystemTime};

fn date(year: i32, month: u32, day: u32) -> SerializableDate {
    SerializableDate { year, month, day }
}

fn task(name: &str, due: Option<SerializableDate>) -> Task {
    Task { name: name.to_string(), description: format!("about {name}"), needed_time_minutes: None, due_date: due, tags: HashSet::new() }
}

fn database() -> Database {
    let mut a = Project::new("A".to_string(), [1, 1, 1], OrderedHashMap::new(), SortMode::Manual);
    a.todo_tasks.insert(1, task("a1", Some(date(2025, 2, 3))));
    a.todo_tasks.insert(2, task("a2", None));
    a.done_tasks.insert(3, task("a3", Some(date(2025, 2, 3))));
    a.source_code_todos.insert(4, task("a4", Some(date(2025, 2, 3))));
    let mut b = Project::new("B".to_string(), [2, 2, 2], OrderedHashMap::new(), SortMode::Manual);
    b.todo_tasks.insert(5, task("b5", Some(date(2025, 2, 3))));
    b.todo_tasks.insert(6, task("b6", Some(date(2025, 2, 4))));
    b.source_code_directory = Some("/src/b".to_string());
    let mut projects = OrderedHashMap::new();
    projects.insert(10, a);
    projects.insert(20, b);
    Database { projects, last_changed_time: SystemTime::UNIX_EPOCH }
}

#[test]
fn overview_collects_due_tasks_by_date_and_project() {
    let db = database();
    let page = OverviewPage::new(Some(&db));
    assert_eq!(
        page.tasks,
        vec![
            (date(2025, 2, 3), 10, 1),
            (date(2025, 2, 3), 10, 4),
            (date(2025, 2, 3), 20, 5),
            (date(2025, 2, 4), 20, 6)
        ]
    );
    assert_eq!(page.tasks_on(date(2025, 2, 3)), vec![(10, vec![1, 4]), (20, vec![5])]);
    assert_eq!(page.tasks_on(date(2025, 2, 4)), vec![(20, vec![6])]);
    assert!(page.tasks_on(date(2025, 2, 5)).is_empty());
    assert!(OverviewPage::new(None).tasks.is_empty());
}

#[test]
fn overview_moves_the_calendar() {
    let db = database();
    let mut page = OverviewPage::new(Some(&db));
    let mut preferences = Some(Preferences::default());
    preferences.as_mut().unwrap().serialized_overview_page =
        SerializedOverviewPage::Calendar { view: CalendarView::Week { week_day: date(2025, 1, 31) } };
    page.update(OverviewMessage::GoForward, Some(&db), &mut preferences);
    assert_eq!(
        preferences.as_ref().unwrap().serialized_overview_page,
        SerializedOverviewPage::Calendar { view: CalendarView::Week { week_day: date(2025, 2, 3) } }
    );
    page.update(OverviewMessage::GoBackward, Some(&db), &mut preferences);
    page.update(OverviewMessage::GoBackward, Some(&db), &mut preferences);
    assert_eq!(
        preferences.as_ref().unwrap().serialized_overview_page,
        SerializedOverviewPage::Calendar { view: CalendarView::Week { week_day: date(2025, 1, 20) } }
    );
    page.update(OverviewMessage::GoToToday, Some(&db), &mut preferences);
    assert!(matches!(
        preferences.as_ref().unwrap().serialized_overview_page,
        SerializedOverviewPage::Calendar { view: CalendarView::Week { .. } }
    ));
    let mut list = Some(Preferences::default());
    page.update(OverviewMessage::GoForward, Some(&db), &mut list);
    assert_eq!(list.as_ref().unwrap().serialized_overview_page, SerializedOverviewPage::List);
    let mut db2 = database();
    db2.projects.remove(&20);
    db2.last_changed_time = SystemTime::now() + Duration::from_secs(3600);
    page.update(OverviewMessage::RefreshCachedTaskList, Some(&db2), &mut preferences);
    assert_eq!(page.tasks, vec![(date(2025, 2, 3), 10, 1), (date(2025, 2, 3), 10, 4)]);
}

#[test]
fn project_page_filters_and_searches() {
    let db = database();
    let preferences = Some(Preferences::default());
    let project = db.get_project(&20).unwrap();
    let mut page = ProjectPage::new(20, project, &preferences);
    assert_eq!(page.cached_task_list.todo, vec![5, 6]);
    assert!(!page.filtering_tasks());
    assert!(matches!(page.update(ProjectMessage::OpenSearchTasks, Some(&db), &preferences), ProjectAction::FocusSearchInput));
    assert!(!page.filtering_tasks());
    page.update(ProjectMessage::ChangeSearchTasksFilter("b6".to_string()), Some(&db), &preferences);
    assert!(page.filtering_tasks());
    assert_eq!(page.cached_task_list.todo, vec![6]);
    page.update(ProjectMessage::CloseSearchTasks, Some(&db), &preferences);
    assert_eq!(page.cached_task_list.todo, vec![5, 6]);
    page.update(ProjectMessage::ToggleFilterTaskTag(9), Some(&db), &preferences);
    assert!(page.cached_task_list.todo.is_empty());
    page.update(ProjectMessage::UnsetFilterTaskTag(9), Some(&db), &preferences);
    assert_eq!(page.cached_task_list.todo, vec![5, 6]);
    match page.update(ProjectMessage::ReimportSourceCodeTodos, Some(&db), &preferences) {
        ProjectAction::ImportSourceCodeTodosFrom(dir) => assert_eq!(dir, "/src/b"),
        other => panic!("unexpected {:?}", other),
    }
    assert!(page.importing_source_code_todos);
    match page.update(ProjectMessage::ConfirmDeleteProject, Some(&db), &preferences) {
        ProjectAction::ConfirmDeleteProject { project_id, project_name } => {
            assert_eq!((project_id, project_name.as_str()), (20, "B"));
        }
        other => panic!("unexpected {:?}", other),
    }
    match page.update(ProjectMessage::ConfirmDeleteProject, None, &preferences) {
        ProjectAction::ConfirmDeleteProject { project_name, .. } => assert_eq!(project_name, "<invalid project id>"),
        other => panic!("unexpected {:?}", other),
    }
    assert!(matches!(
        page.update(ProjectMessage::SetSortMode(SortMode::DueDate), Some(&db), &preferences),
        ProjectAction::ChangeProjectSortMode { project_id: 20, new_sort_mode: SortMode::DueDate }
    ));
    page.update(ProjectMessage::ShowColorPicker, Some(&db), &preferences);
    assert!(page.show_color_picker);
    assert!(matches!(
        page.update(ProjectMessage::ChangeProjectColor([1, 2, 3]), Some(&db), &preferences),
        ProjectAction::ChangeProjectColor { project_id: 20, new_color: [1, 2, 3] }
    ));
    assert!(!page.show_color_picker);
}

#[test]
fn content_page_opens_pages_and_remembers_them() {
    let db = database();
    let mut preferences = Some(Preferences::default());
    let mut content = ContentPage::new(Some(&db));
    assert!(content.is_overview_page_opened());
    content.update(ContentMessage::OpenProjectPage(10), Some(&db), &mut preferences, None);
    assert!(content.is_project_page_opened());
    assert_eq!(content.project_page.as_ref().unwrap().project_id, 10);
    assert_eq!(preferences.as_ref().unwrap().selected_content_page, SerializedContentPage::Project(10));
    content.update(ContentMessage::OpenProjectPage(99), Some(&db), &mut preferences, None);
    assert!(content.is_stopwatch_page_opened());
    assert_eq!(preferences.as_ref().unwrap().selected_content_page, SerializedContentPage::Stopwatch);
    content.update(ContentMessage::OpenOverview, Some(&db), &mut preferences, None);
    assert!(content.is_overview_page_opened());
    match content.update(
        ContentMessage::StopwatchPage(stopwatch::Message::StopTask { project_id: 10, task_id: 1 }),
        Some(&db),
        &mut preferences,
        None,
    ) {
        ContentAction::Actions(actions) => {
            assert_eq!(actions.len(), 2);
            assert!(matches!(actions[0], ContentAction::CloseTaskModal));
        }
        other => panic!("unexpected {:?}", other),
    }
    let mut restored = ContentPage::new(Some(&db));
    preferences.as_mut().unwrap().selected_content_page = SerializedContentPage::Project(20);
    restored.restore_from_serialized(Some(&db), &mut preferences);
    assert_eq!(restored.project_page.as_ref().unwrap().project_id, 20);
    assert!(matches!(restored.stopwatch_page, stopwatch::Page::StopTaskTime { project_id: 10, task_id: 1, .. }));
}

#[test]
fn sidebar_drags_and_drops() {
    let mut sidebar = SidebarPage::new();
    assert_eq!(sidebar.update(SidebarMessage::OpenCreateNewProject, true), SidebarAction::FocusNewProjectName);
    sidebar.update(SidebarMessage::ChangeCreateNewProjectName("New".to_string()), true);
    assert_eq!(
        sidebar.update(SidebarMessage::CreateNewProject(7), true),
        SidebarAction::Actions(vec![
            SidebarAction::CreateProject { project_id: 7, name: "New".to_string(), color: [245, 245, 245] },
            SidebarAction::SelectProject(7)
        ])
    );
    assert_eq!(sidebar.update(SidebarMessage::CreateNewProject(8), false), SidebarAction::NoAction);
    assert_eq!(sidebar.update(SidebarMessage::DropTask { project_id: 1, task_id: 2 }, false), SidebarAction::NoAction);
    sidebar.update(SidebarMessage::TaskDropzoneHovered(Some(TaskDropzone::Stopwatch)), false);
    assert_eq!(
        sidebar.update(SidebarMessage::DropTask { project_id: 1, task_id: 2 }, false),
        SidebarAction::StopTask { project_id: 1, task_id: 2 }
    );
    sidebar.update(SidebarMessage::ClickProject(3), false);
    sidebar.update(SidebarMessage::DragProject { project_id: 3, within_minimal_distance: true }, false);
    sidebar.update(SidebarMessage::DragProject { project_id: 3, within_minimal_distance: true }, false);
    assert_eq!(sidebar.update(SidebarMessage::LeftClickReleased, false), SidebarAction::SelectProject(3));
    sidebar.update(SidebarMessage::ClickProject(3), false);
    sidebar.update(SidebarMessage::DragProject { project_id: 3, within_minimal_distance: true }, false);
    sidebar.update(SidebarMessage::DragProject { project_id: 3, within_minimal_distance: false }, false);
    sidebar.update(SidebarMessage::ProjectDropzoneHovered(Some(ProjectDropzone::EndOfList)), false);
    assert_eq!(sidebar.update(SidebarMessage::DropProject, false), SidebarAction::MoveProjectToEnd(3));
    assert_eq!(sidebar.update(SidebarMessage::LeftClickReleased, false), SidebarAction::NoAction);
    assert_eq!(sidebar, SidebarPage::new());
}

#[test]
fn task_dialog() {
    let (mut modal, action) = TaskModal::new(1, 2);
    assert_eq!(action, TaskModalAction::FocusTaskName);
    let t = task("x", None);
    assert_eq!(
        modal.update(TaskModalMessage::EditDescriptionAction { text: "y".to_string(), is_edit: true }, Some(&t)),
        TaskModalAction::NoAction
    );
    modal.update(TaskModalMessage::EditDescription, Some(&t));
    assert_eq!(modal.new_description, Some("about x".to_string()));
    assert_eq!(
        modal.update(TaskModalMessage::EditDescriptionAction { text: "new".to_string(), is_edit: true }, Some(&t)),
        TaskModalAction::ChangeTaskDescription { project_id: 1, task_id: 2, new_task_description: "new".to_string() }
    );
    assert_eq!(modal.update(TaskModalMessage::EditNeededTime(None), Some(&t)), TaskModalAction::FocusNeededTimeInput);
    assert_eq!(modal.new_needed_time_minutes, Some("30min".to_string()));
    assert_eq!(
        modal.update(TaskModalMessage::ChangeNeededTime(Some(45)), Some(&t)),
        TaskModalAction::ChangeTaskNeededTime { project_id: 1, task_id: 2, new_needed_time_minutes: Some(45) }
    );
    assert_eq!(modal.update(TaskModalMessage::ChangeNeededTime(Some(45)), Some(&t)), TaskModalAction::NoAction);
    assert_eq!(
        modal.update(TaskModalMessage::ChangeDueDate(date(2025, 5, 1)), Some(&t)),
        TaskModalAction::ChangeTaskDueDate { project_id: 1, task_id: 2, new_due_date: Some(date(2025, 5, 1)) }
    );
    assert_eq!(modal.update(TaskModalMessage::DeleteTask, None), TaskModalAction::DeleteTask { project_id: 1, task_id: 2 });
}

#[test]
fn create_task_dialog() {
    let mut modal = CreateModal::new(3);
    modal.update(CreateMessage::ChangeTaskName("write".to_string()), &None);
    modal.update(CreateMessage::ToggleTaskTag(4), &None);
    modal.update(CreateMessage::ToggleTaskTag(5), &None);
    modal.update(CreateMessage::ToggleTaskTag(4), &None);
    modal.update(CreateMessage::ChangeDueDate(date(2025, 6, 1)), &None);
    match modal.update(CreateMessage::CreateTask { task_id: 9, needed_time_minutes: Some(20) }, &None) {
        CreateAction::CreateTask { project_id, task_id, task_name, task_tags, due_date, needed_time_minutes, create_at_top, .. } => {
            assert_eq!((project_id, task_id, task_name.as_str()), (3, 9, "write"));
            assert_eq!(task_tags, [5].into_iter().collect());
            assert_eq!(due_date, Some(date(2025, 6, 1)));
            assert_eq!(needed_time_minutes, None);
            assert!(create_at_top);
        }
        other => panic!("unexpected {:?}", other),
    }
    modal.update(CreateMessage::EditNeededTime, &None);
    modal.update(CreateMessage::ChangeNeededTimeInput("20m".to_string()), &None);
    let mut preferences = Preferences::default();
    preferences.create_new_tasks_at_top = false;
    match modal.update(CreateMessage::CreateTask { task_id: 9, needed_time_minutes: Some(20) }, &Some(preferences)) {
        CreateAction::CreateTask { needed_time_minutes, create_at_top, .. } => {
            assert_eq!(needed_time_minutes, Some(20));
            assert!(!create_at_top);
        }
        other => panic!("unexpected {:?}", other),
    }
}

#[test]
fn server_connection_protocol() {
    let config = ServerConfig { hostname: "localhost".to_string(), port: 8080, password: "pw".to_string() };
    let mut state = WsServerConnectionState::new();
    assert_eq!(state.update(WsEvent::Begin), WsAction::SendMessageSender);
    assert_eq!(state.update(WsEvent::SenderSent(true)), WsAction::ReceiveMessage);
    assert_eq!(state.update(WsEvent::MessageReceived(Some(IncomingMessage::Connect(config.clone())))), WsAction::Continue);
    assert_eq!(state.connection, WsConnection::Connecting(config.clone()));
    assert_eq!(state.update(WsEvent::Begin), WsAction::TryReceiveMessage);
    assert_eq!(state.update(WsEvent::NewerMessage(None)), WsAction::Connect { address: "ws://localhost:8080".to_string() });
    assert_eq!(state.update(WsEvent::ConnectResult(Err("refused".to_string()))), WsAction::Emit(OutputEvent::Error("refused".to_string())));
    assert_eq!(state.update(WsEvent::Emitted(true)), WsAction::Emit(OutputEvent::Disconnected));
    assert_eq!(state.update(WsEvent::Emitted(true)), WsAction::Sleep);
    assert_eq!(state.update(WsEvent::Slept), WsAction::Continue);
    assert_eq!(state.update(WsEvent::Begin), WsAction::TryReceiveMessage);
    assert_eq!(state.update(WsEvent::NewerMessage(None)), WsAction::Connect { address: "ws://localhost:8080".to_string() });
    assert_eq!(state.update(WsEvent::ConnectResult(Ok(()))), WsAction::Emit(OutputEvent::Connected));
    assert_eq!(state.update(WsEvent::Emitted(true)), WsAction::Continue);
    assert_eq!(state.connection, WsConnection::Connected(config.clone()));
    assert_eq!(state.update(WsEvent::Begin), WsAction::Listen);
    assert_eq!(state.update(WsEvent::Listened(ListenOutcome::Channel(IncomingMessage::Request))), WsAction::SendRequest { password: "pw".to_string() });
    assert_eq!(state.update(WsEvent::RequestSent(RequestOutcome::Sent)), WsAction::Continue);
    assert_eq!(state.update(WsEvent::Begin), WsAction::Listen);
    assert_eq!(state.update(WsEvent::Listened(ListenOutcome::Response(Ok(())))), WsAction::Emit(OutputEvent::Response { password: "pw".to_string() }));
    assert_eq!(state.update(WsEvent::Emitted(true)), WsAction::Continue);
    assert_eq!(state.update(WsEvent::Begin), WsAction::Listen);
    assert_eq!(state.update(WsEvent::Listened(ListenOutcome::Close)), WsAction::Emit(OutputEvent::Disconnected));
    assert_eq!(state.update(WsEvent::Emitted(false)), WsAction::Quit);
    assert_eq!(state.connection, WsConnection::Disconnected);
    assert_eq!(state.update(WsEvent::Slept), WsAction::Continue);
}

#[test]
fn description_blocks_are_kept_until_the_description_changes() {
    let mut storage = TaskDescriptionMarkdownStorage::new();
    assert_eq!(storage.get_from_str(1, "# A").len(), 1);
    assert_eq!(storage.get_from_str(1, "# A").len(), 1);
    assert_eq!(storage.get_from_str(1, "one\n\ntwo").len(), 2);
    let db = database();
    assert_eq!(storage.get(10, 1, Some(&db)).map(|items| items.len()), Some(1));
    assert!(storage.get(10, 99, Some(&db)).is_none());
    assert!(storage.get(10, 1, None).is_none());
}

#[test]
fn small_items() {
    assert_eq!(code_editor_label(None), "None");
    assert_eq!(code_editor_label(Some(CodeEditor::VSCode)), "VS Code");
    let mut app = AlreadyOpenedApp::new(true);
    assert_eq!(app.theme(), ProjectTrackerTheme::Dark);
    assert_eq!(app.update(AlreadyMessage::OkPressed), AlreadyAction::CloseWindow);
    assert_eq!(AlreadyOpenedApp::new(false).theme(), ProjectTrackerTheme::Light);
    let _ = FirstWeekday::Monday;
}

#[test]
fn content_page_hands_overview_messages_on() {
    let db = database();
    let mut preferences = Some(Preferences::default());
    preferences.as_mut().unwrap().serialized_overview_page =
        SerializedOverviewPage::Calendar { view: CalendarView::ThreeDays { first_date: date(2025, 1, 31) } };
    let mut content = ContentPage::new(Some(&db));
    content.update(ContentMessage::OverviewPage(OverviewMessage::GoForward), Some(&db), &mut preferences, None);
    assert_eq!(
        preferences.as_ref().unwrap().serialized_overview_page,
        SerializedOverviewPage::Calendar { view: CalendarView::ThreeDays { first_date: date(2025, 2, 1) } }
    );
    content.update(ContentMessage::OpenStopwatch, Some(&db), &mut preferences, None);
    let before = preferences.as_ref().unwrap().serialized_overview_page;
    content.update(ContentMessage::OverviewPage(OverviewMessage::GoForward), Some(&db), &mut preferences, None);
    assert_eq!(preferences.as_ref().unwrap().serialized_overview_page, before);
}

#[test]
fn project_page_lists_again_on_a_search() {
    let db = database();
    let preferences = Some(Preferences::default());
    let mut page = ProjectPage::new(10, db.get_project(&10).unwrap(), &preferences);
    assert_eq!(page.cached_task_list.todo, vec![1, 2]);
    page.update(ProjectMessage::ChangeSearchTasksFilter("a2".to_string()), Some(&db), &preferences);
    assert_eq!(page.cached_task_list.todo, vec![2]);
    page.update(ProjectMessage::CloseSearchTasks, Some(&db), &preferences);
    assert_eq!(page.cached_task_list.todo, vec![1, 2]);
}

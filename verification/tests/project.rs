use project_tracker::date::SerializableDate;
use project_tracker::google_tasks::{
    google_tasks_projects, GoogleTasksFormat, GoogleTasksList, GoogleTasksTask,
};
use project_tracker::manage_task_tags_modal::{Action, Message, Modal};
use project_tracker::ordered_hash_map::OrderedHashMap;
use project_tracker::project::TaskTag;
use project_tracker::{CachedTaskList, Project, SortMode, Task};
use std::collections::HashSet;

fn task(name: &str, due: Option<(i32, u32, u32)>, needed: Option<usize>, tags: &[u64]) -> Task {
    Task {
        name: name.to_string(),
        description: String::new(),
        needed_time_minutes: needed,
        due_date: due.map(|(year, month, day)| SerializableDate { year, month, day }),
        tags: tags.iter().copied().collect(),
    }
}

fn sample_project(sort_mode: SortMode) -> Project {
    let mut project = Project::new("p".to_string(), [1, 2, 3], OrderedHashMap::new(), sort_mode);
    project.todo_tasks.insert(1, task("write report", Some((2025, 3, 1)), Some(30), &[7]));
    project.todo_tasks.insert(2, task("buy milk", None, Some(5), &[]));
    project.todo_tasks.insert(3, task("call bob", Some((2024, 12, 31)), None, &[7, 8]));
    project.done_tasks.insert(4, task("old task", None, None, &[8]));
    project
}

#[test]
fn manual_sort_keeps_the_order() {
    let project = sample_project(SortMode::Manual);
    let mut ids = vec![3, 1, 2];
    SortMode::Manual.sort(&project, &mut ids, true);
    assert_eq!(ids, vec![3, 1, 2]);
}

#[test]
fn due_date_sort_puts_tasks_without_date_last_or_first() {
    let project = sample_project(SortMode::DueDate);
    let mut ids = vec![1, 2, 3];
    SortMode::DueDate.sort(&project, &mut ids, true);
    assert_eq!(ids, vec![3, 1, 2]);
    let mut ids = vec![1, 2, 3];
    SortMode::DueDate.sort(&project, &mut ids, false);
    assert_eq!(ids, vec![2, 3, 1]);
}

#[test]
fn needed_time_sort() {
    let project = sample_project(SortMode::NeededTime);
    let mut ids = vec![1, 2, 3];
    SortMode::NeededTime.sort(&project, &mut ids, true);
    assert_eq!(ids, vec![2, 1, 3]);
    let mut ids = vec![1, 2, 3];
    SortMode::NeededTime.sort(&project, &mut ids, false);
    assert_eq!(ids, vec![3, 2, 1]);
}

#[test]
fn sort_mode_names_and_icons() {
    assert_eq!(SortMode::ALL, [SortMode::Manual, SortMode::DueDate, SortMode::NeededTime]);
    assert_eq!(SortMode::DueDate.as_str(), "Due Date");
    assert_eq!(SortMode::NeededTime.as_str(), "Needed Time");
    assert_eq!(SortMode::default(), SortMode::Manual);
}

#[test]
fn task_lists_without_search_are_filtered_and_sorted() {
    let project = sample_project(SortMode::DueDate);
    let list = CachedTaskList::generate(&project, &HashSet::new(), &None, true);
    assert_eq!(list.todo, vec![3, 1, 2]);
    assert_eq!(list.done, vec![4]);
    assert!(list.source_code_todo.is_empty());

    let filter: HashSet<u64> = [7].into_iter().collect();
    let list = CachedTaskList::generate(&project, &filter, &Some(String::new()), true);
    assert_eq!(list.todo, vec![3, 1]);
    assert!(list.done.is_empty());

    let filter: HashSet<u64> = [7, 8].into_iter().collect();
    let list = CachedTaskList::generate(&project, &filter, &None, true);
    assert_eq!(list.todo, vec![3]);
}

#[test]
fn task_lists_with_search_hold_only_matches() {
    let project = sample_project(SortMode::Manual);
    let list = CachedTaskList::generate(&project, &HashSet::new(), &Some("milk".to_string()), true);
    assert_eq!(list.todo, vec![2]);
    assert!(list.done.is_empty());
    let list = CachedTaskList::generate(&project, &HashSet::new(), &Some("zzz".to_string()), true);
    assert!(list.todo.is_empty());
}

#[test]
fn task_tag_filter() {
    let t = task("a", None, None, &[1, 2]);
    assert!(t.matches_filter(&HashSet::new()));
    assert!(t.matches_filter(&[2].into_iter().collect()));
    assert!(!t.matches_filter(&[3].into_iter().collect()));
}

fn google_task(title: &str, notes: Option<&str>, due: Option<&str>, status: Option<&str>) -> GoogleTasksTask {
    GoogleTasksTask {
        kind: "tasks#task".to_string(),
        id: title.to_string(),
        title: title.to_string(),
        notes: notes.map(|s| s.to_string()),
        due: due.map(|s| s.to_string()),
        status: status.map(|s| s.to_string()),
    }
}

#[test]
fn google_tasks_become_projects() {
    let format = GoogleTasksFormat {
        kind: "tasks#taskLists".to_string(),
        items: vec![
            GoogleTasksList {
                kind: "tasks#taskList".to_string(),
                id: "l1".to_string(),
                title: "Home".to_string(),
                updated: None,
                items: vec![
                    google_task("a", Some("note"), Some("2025-01-15T00:00:00.000Z"), Some("needsAction")),
                    google_task("b", None, Some("not a date"), Some("completed")),
                    google_task("c", None, None, None),
                ],
            },
            GoogleTasksList {
                kind: "tasks#taskList".to_string(),
                id: "l2".to_string(),
                title: "Work".to_string(),
                updated: None,
                items: vec![google_task("d", None, None, Some("completed"))],
            },
        ],
    };
    let projects = google_tasks_projects(&format, 100);
    assert_eq!(projects.len(), 2);
    assert_eq!(projects[0].name, "Home");
    assert_eq!(projects[0].color, [255, 255, 255]);
    assert_eq!(projects[0].sort_mode, SortMode::Manual);
    assert_eq!(projects[0].todo_tasks.order, vec![100, 102]);
    assert_eq!(projects[0].done_tasks.order, vec![101]);
    let a = projects[0].todo_tasks.get(&100).unwrap();
    assert_eq!(a.name, "a");
    assert_eq!(a.description, "note");
    assert!(a.due_date.is_some());
    let b = projects[0].done_tasks.get(&101).unwrap();
    assert_eq!(b.due_date, None);
    assert_eq!(b.description, "");
    assert_eq!(projects[1].name, "Work");
    assert_eq!(projects[1].done_tasks.order, vec![103]);
    assert!(projects[1].todo_tasks.order.is_empty());
}

#[test]
fn google_task_ids_wrap_around() {
    let format = GoogleTasksFormat {
        kind: String::new(),
        items: vec![GoogleTasksList {
            kind: String::new(),
            id: String::new(),
            title: "x".to_string(),
            updated: None,
            items: vec![google_task("a", None, None, None), google_task("b", None, None, None)],
        }],
    };
    let projects = google_tasks_projects(&format, u64::MAX);
    assert_eq!(projects[0].todo_tasks.order, vec![u64::MAX, 0]);
}

fn project_with_tag() -> Project {
    let mut tags = OrderedHashMap::new();
    tags.insert(5, TaskTag { name: "urgent".to_string(), color: [1, 1, 1] });
    Project::new("p".to_string(), [0, 0, 0], tags, SortMode::Manual)
}

#[test]
fn task_tag_dialog_edits_one_tag_at_a_time() {
    let project = project_with_tag();
    let mut modal = Modal::new(9);
    assert!(matches!(modal.update(Message::EditTaskTagColor(5), Some(&project)), Action::NoAction));
    assert_eq!(modal.edit_task_tag_color_id, Some(5));
    assert!(matches!(modal.update(Message::EditTaskTagName(5), Some(&project)), Action::NoAction));
    assert_eq!(modal.edit_task_tag_color_id, None);
    assert_eq!(modal.edit_task_tag_name_id, Some((5, "urgent".to_string())));
    modal.update(Message::ChangeEditTaskTagName("later".to_string()), Some(&project));
    match modal.update(Message::ChangeTaskTagName, Some(&project)) {
        Action::ChangeTaskTagName { project_id, task_tag_id, new_name } => {
            assert_eq!((project_id, task_tag_id, new_name.as_str()), (9, 5, "later"));
        }
        other => panic!("unexpected {:?}", other),
    }
    assert_eq!(modal.edit_task_tag_name_id, None);
    assert!(matches!(modal.update(Message::ChangeTaskTagColor([1, 2, 3]), None), Action::NoAction));
}

#[test]
fn task_tag_dialog_creates_white_tags() {
    let mut modal = Modal::new(1);
    assert!(matches!(modal.update(Message::CreateNewTaskTag(3), None), Action::NoAction));
    assert!(matches!(modal.update(Message::OpenCreateNewTaskTag, None), Action::FocusNewTaskTagName));
    modal.update(Message::ChangeCreateNewTaskTagName("new".to_string()), None);
    match modal.update(Message::CreateNewTaskTag(3), None) {
        Action::CreateTaskTag { project_id, task_tag_id, task_tag } => {
            assert_eq!((project_id, task_tag_id), (1, 3));
            assert_eq!(task_tag.name, "new");
            assert_eq!(task_tag.color, [255, 255, 255]);
        }
        other => panic!("unexpected {:?}", other),
    }
    assert_eq!(modal.create_new_task_tag, None);
    assert!(matches!(
        modal.update(Message::DeleteTaskTag(3), None),
        Action::DeleteTaskTag { project_id: 1, task_tag_id: 3 }
    ));
    let project = project_with_tag();
    modal.update(Message::EditTaskTagName(42), Some(&project));
    assert_eq!(modal.edit_task_tag_name_id, Some((42, String::new())));
}

#[test]
fn google_due_dates_at_the_ends_of_the_rfc3339_years() {
    let format = GoogleTasksFormat {
        kind: String::new(),
        items: vec![GoogleTasksList {
            kind: String::new(),
            id: String::new(),
            title: "edges".to_string(),
            updated: None,
            items: vec![
                google_task("first", None, Some("0000-01-01T00:00:00+23:59"), None),
                google_task("last", None, Some("9999-12-31T23:59:60.5-23:59"), None),
            ],
        }],
    };
    let projects = google_tasks_projects(&format, 0);
    assert!(projects[0].todo_tasks.get(&0).unwrap().due_date.is_some());
    assert!(projects[0].todo_tasks.get(&1).unwrap().due_date.is_some());
}

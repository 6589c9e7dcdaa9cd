use project_tracker::database::Database;
use project_tracker::markdown::TaskDescriptionMarkdownStorage;
use project_tracker::ordered_hash_map::OrderedHashMap;
use project_tracker::sidebar_page::{
    project_dropzone_options, project_dropzones_for_tasks_options, task_dropzone_options, ProjectDropzone,
    TaskDropzone,
};
use project_tracker::{Project, SortMode, Task};
use std::collections::HashSet;
use std::time::SystemTime;

fn task(name: &str) -> Task {
    Task {
        name: name.to_string(),
        description: String::new(),
        needed_time_minutes: None,
        due_date: None,
        tags: HashSet::new(),
    }
}

fn database(sort_mode: SortMode) -> Database {
    let mut a = Project::new("A".to_string(), [0, 0, 0], OrderedHashMap::new(), sort_mode);
    for id in 1..=4 {
        a.todo_tasks.insert(id, task("t"));
    }
    let b = Project::new("B".to_string(), [0, 0, 0], OrderedHashMap::new(), sort_mode);
    let c = Project::new("C".to_string(), [0, 0, 0], OrderedHashMap::new(), sort_mode);
    let mut projects = OrderedHashMap::new();
    projects.insert(10, a);
    projects.insert(20, b);
    projects.insert(30, c);
    Database { projects, last_changed_time: SystemTime::UNIX_EPOCH }
}

#[test]
fn task_drop_zones_skip_the_dragged_task_and_the_next() {
    let db = database(SortMode::Manual);
    assert_eq!(
        task_dropzone_options(Some(&db), 10, 2),
        Some(vec![TaskDropzone::Task(1), TaskDropzone::Task(4), TaskDropzone::EndOfTodoTaskList])
    );
    assert_eq!(
        task_dropzone_options(Some(&db), 10, 4),
        Some(vec![TaskDropzone::Task(1), TaskDropzone::Task(2), TaskDropzone::Task(3)])
    );
    assert_eq!(task_dropzone_options(Some(&db), 20, 1), Some(vec![]));
    assert_eq!(task_dropzone_options(Some(&db), 99, 1), Some(vec![]));
    assert_eq!(task_dropzone_options(None, 10, 1), None);
    let sorted = database(SortMode::DueDate);
    assert_eq!(task_dropzone_options(Some(&sorted), 10, 2), Some(vec![]));
}

#[test]
fn project_drop_zones_for_tasks_are_the_other_projects_and_the_stopwatch() {
    let db = database(SortMode::Manual);
    assert_eq!(
        project_dropzones_for_tasks_options(Some(&db), 20),
        Some(vec![TaskDropzone::Project(10), TaskDropzone::Project(30), TaskDropzone::Stopwatch])
    );
    assert_eq!(project_dropzones_for_tasks_options(None, 20), None);
}

#[test]
fn project_drop_zones_skip_the_dragged_project_and_the_next() {
    let db = database(SortMode::Manual);
    assert_eq!(
        project_dropzone_options(Some(&db), 10),
        Some(vec![ProjectDropzone::Project(30), ProjectDropzone::EndOfList])
    );
    assert_eq!(
        project_dropzone_options(Some(&db), 30),
        Some(vec![ProjectDropzone::Project(10), ProjectDropzone::Project(20)])
    );
}

#[test]
fn description_cache_parses_again_when_the_text_changes() {
    let mut storage = TaskDescriptionMarkdownStorage::new();
    assert_eq!(storage.get_from_str(1, "first").len(), 1);
    assert_eq!(storage.get_from_str(1, "first").len(), 1);
    assert_eq!(storage.get_from_str(1, "# a\n\nb").len(), 2);
    assert_eq!(storage.get_from_str(2, "").len(), 0);
}

#[test]
fn values_are_one_per_key() {
    let mut map: OrderedHashMap<u64, &str> = OrderedHashMap::new();
    map.insert(1, "same");
    map.insert(2, "same");
    map.insert(3, "other");
    let mut values: Vec<&str> = map.values().copied().collect();
    values.sort();
    assert_eq!(values, vec!["other", "same", "same"]);
}

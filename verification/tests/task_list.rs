use project_tracker::sidebar_page::TaskDropzone;
use project_tracker::task_list::{task_list, TaskRow};
use project_tracker::{CachedTaskList, OrderedHashMap, Project, SortMode, Task, TaskType};
use std::collections::HashSet;
use std::time::SystemTime;

fn task(name: &str) -> Task {
    Task {
        name: name.to_string(),
        description: String::new(),
        needed_time_minutes: None,
        due_date: None,
        tags: HashSet::new(),
    }
}

fn project() -> Project {
    let mut project = Project::new("p".to_string(), [0, 0, 0], OrderedHashMap::new(), SortMode::Manual);
    project.todo_tasks.insert(1, task("one"));
    project.todo_tasks.insert(2, task("two"));
    project.done_tasks.insert(3, task("three"));
    project.source_code_todos.insert(4, task("four"));
    project
}

fn cached(todo: Vec<u64>, done: Vec<u64>, source_code_todo: Vec<u64>) -> CachedTaskList {
    CachedTaskList { todo, done, source_code_todo, cache_time: SystemTime::now() }
}

fn row(task_id: u64, task_type: TaskType, dragging: bool, highlight: bool) -> TaskRow {
    TaskRow { task_id, task_type, dragging, highlight }
}

#[test]
fn task_list_rows_follow_the_cached_order() {
    let project = project();
    let list = cached(vec![2, 9, 1], vec![3], vec![4]);
    let content = task_list(&project, &list, Some(1), Some(TaskDropzone::Task(2)), false, false);
    assert_eq!(content.todo, vec![row(2, TaskType::Todo, false, true), row(1, TaskType::Todo, true, false)]);
    assert!(content.done.is_empty());
    assert!(content.source_code_todos.is_empty());
    assert_eq!(content.done_tasks_button, Some(1));
    assert_eq!(content.source_code_todos_button, Some(1));
    assert!(!content.delete_all_done_tasks_button);
    assert!(!content.highlight_bottom_dropzone);
}

#[test]
fn task_list_shows_done_tasks_and_source_code_todos_on_request() {
    let project = project();
    let list = cached(vec![1], vec![3], vec![4]);
    let content = task_list(&project, &list, None, Some(TaskDropzone::EndOfTodoTaskList), true, true);
    assert_eq!(content.done, vec![row(3, TaskType::Done, false, false)]);
    assert_eq!(content.source_code_todos, vec![row(4, TaskType::SourceCodeTodo, false, false)]);
    assert!(content.delete_all_done_tasks_button);
    assert!(content.highlight_bottom_dropzone);
    let empty = task_list(&project, &cached(vec![], vec![], vec![]), None, None, true, true);
    assert_eq!(empty.done_tasks_button, None);
    assert_eq!(empty.source_code_todos_button, None);
    assert!(!empty.delete_all_done_tasks_button);
}

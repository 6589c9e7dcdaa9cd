use project_tracker::date::SerializableDate;
use project_tracker::project::TaskTag;
use project_tracker::task_widget::{task_tag_list, task_widget};
use project_tracker::{OrderedHashMap, Project, SortMode, Task, TaskType};
use std::collections::HashSet;

fn project_with_tags(sort_mode: SortMode) -> Project {
    let mut tags = OrderedHashMap::new();
    tags.insert(7, TaskTag { name: "seven".to_string(), color: [7, 7, 7] });
    tags.insert(3, TaskTag { name: "three".to_string(), color: [3, 3, 3] });
    tags.insert(5, TaskTag { name: "five".to_string(), color: [5, 5, 5] });
    Project::new("tags".to_string(), [0, 0, 0], tags, sort_mode)
}

fn task(description: &str, tags: &[u64], due_date: Option<SerializableDate>) -> Task {
    Task {
        name: "task".to_string(),
        description: description.to_string(),
        needed_time_minutes: None,
        due_date,
        tags: tags.iter().copied().collect(),
    }
}

#[test]
fn enabled_tags_come_first_in_project_order() {
    let project = project_with_tags(SortMode::Manual);
    let enabled: HashSet<u64> = [5, 7].into_iter().collect();
    assert_eq!(task_tag_list(&project, &enabled), vec![(7, true), (5, true), (3, false)]);
    assert_eq!(task_tag_list(&project, &HashSet::new()), vec![(7, false), (3, false), (5, false)]);
}

#[test]
fn task_row_shows_its_tags_in_project_order() {
    let project = project_with_tags(SortMode::Manual);
    let content = task_widget(&task("", &[5, 3], None), TaskType::Todo, &project, false, false, true, true);
    assert_eq!(content.tags, vec![3, 5]);
    assert!(!content.done);
    assert!(content.show_drag_grip);
    assert!(!content.show_open_in_code_editor);
    assert!(!content.show_description_icon);
    assert!(content.due_label.is_none());
}

#[test]
fn task_row_grip_and_editor_button() {
    let manual = project_with_tags(SortMode::Manual);
    let by_date = project_with_tags(SortMode::DueDate);
    let todo = task("main.rs:1:1", &[], None);
    let row = task_widget(&todo, TaskType::SourceCodeTodo, &manual, true, false, true, false);
    assert!(row.show_drag_grip);
    assert!(row.show_open_in_code_editor);
    let row = task_widget(&todo, TaskType::SourceCodeTodo, &manual, true, true, true, false);
    assert!(!row.show_drag_grip);
    assert!(!row.show_open_in_code_editor);
    let row = task_widget(&todo, TaskType::SourceCodeTodo, &by_date, true, false, true, false);
    assert!(!row.show_drag_grip);
    let row = task_widget(&todo, TaskType::Done, &manual, false, false, false, false);
    assert!(row.done);
    assert!(!row.show_drag_grip);
}

#[test]
fn task_row_description_icon_and_due_date() {
    let project = project_with_tags(SortMode::Manual);
    assert!(!task_widget(&task("\n", &[], None), TaskType::Todo, &project, false, false, true, true).show_description_icon);
    assert!(task_widget(&task("notes", &[], None), TaskType::Todo, &project, false, false, true, true).show_description_icon);
    let due = Some(SerializableDate { year: 2001, month: 2, day: 3 });
    let row = task_widget(&task("", &[], due), TaskType::Todo, &project, false, false, true, true);
    let label = row.due_label.expect("a due date is shown");
    assert!(label.text.starts_with("due "));
    assert!(label.needs_action);
    let row = task_widget(&task("", &[], due), TaskType::Done, &project, false, false, true, true);
    assert!(!row.due_label.expect("a due date is shown").needs_action);
    assert!(task_widget(&task("", &[], due), TaskType::Todo, &project, false, false, true, false).due_label.is_none());
}

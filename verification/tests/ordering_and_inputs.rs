use project_tracker::calendar::CalendarView;
use project_tracker::clock::ElapsedTime;
use project_tracker::date::SerializableDate;
use project_tracker::ordered_hash_map::OrderedHashMap;
use project_tracker::settings_modal::server_port_input_message;
use project_tracker::stopwatch::advance_by;
use project_tracker::{CachedTaskList, Project, SettingsModalMessage, SortMode, Task};
use std::collections::HashSet;

fn date(year: i32, month: u32, day: u32) -> SerializableDate {
    SerializableDate { year, month, day }
}

fn task(name: &str, due: Option<SerializableDate>, needed: Option<usize>) -> Task {
    Task {
        name: name.to_string(),
        description: String::new(),
        needed_time_minutes: needed,
        due_date: due,
        tags: HashSet::new(),
    }
}

#[test]
fn three_days_start_the_day_before() {
    assert_eq!(
        CalendarView::three_days_from(date(2025, 1, 1)),
        CalendarView::ThreeDays { first_date: date(2024, 12, 31) }
    );
    assert_eq!(
        CalendarView::three_days_from(date(2024, 3, 1)),
        CalendarView::ThreeDays { first_date: date(2024, 2, 29) }
    );
    assert_eq!(
        CalendarView::three_days_from(date(-262143, 1, 1)),
        CalendarView::ThreeDays { first_date: date(-262143, 1, 1) }
    );
}

#[test]
fn elapsed_time_grows_by_the_measured_span() {
    let elapsed = ElapsedTime { secs: 10, nanos: 900_000_000 };
    let since = ElapsedTime { secs: 2, nanos: 200_000_000 };
    assert_eq!(advance_by(elapsed, since), ElapsedTime { secs: 13, nanos: 100_000_000 });
    let full = ElapsedTime { secs: u64::MAX, nanos: 999_999_999 };
    assert_eq!(advance_by(full, ElapsedTime { secs: 0, nanos: 1 }), full);
}

#[test]
fn values_come_in_key_order() {
    let mut map: OrderedHashMap<u64, &str> = OrderedHashMap::new();
    map.insert(3, "c");
    map.insert(1, "a");
    map.insert(2, "b");
    map.move_to_bottom(&3);
    assert_eq!(map.values_in_order(), vec![&"a", &"b", &"c"]);
    map.move_up(&3);
    assert_eq!(map.get(&3), Some(&"c"));
    assert_eq!(map.values_in_order(), vec![&"a", &"c", &"b"]);
}

#[test]
fn sorting_keeps_ties_in_their_order() {
    let mut project = Project::new("p".to_string(), [0, 0, 0], OrderedHashMap::new(), SortMode::DueDate);
    project.todo_tasks.insert(5, task("e", Some(date(2025, 1, 2)), None));
    project.todo_tasks.insert(4, task("d", None, None));
    project.todo_tasks.insert(3, task("c", Some(date(2025, 1, 2)), None));
    project.todo_tasks.insert(2, task("b", Some(date(2025, 1, 1)), None));
    project.todo_tasks.insert(1, task("a", None, None));
    let mut ids = vec![5, 4, 3, 2, 1];
    SortMode::DueDate.sort(&project, &mut ids, true);
    assert_eq!(ids, vec![2, 5, 3, 4, 1]);
    let none = CachedTaskList::generate(&project, &HashSet::new(), &None, true);
    let empty = CachedTaskList::generate(&project, &HashSet::new(), &Some(String::new()), true);
    assert_eq!(none.todo, vec![2, 5, 3, 4, 1]);
    assert_eq!(none.todo, empty.todo);
    assert_eq!(none.done, empty.done);
    assert_eq!(none.source_code_todo, empty.source_code_todo);
}

#[test]
fn search_ranking_keeps_ties_in_their_order() {
    let mut project = Project::new("p".to_string(), [0, 0, 0], OrderedHashMap::new(), SortMode::Manual);
    project.todo_tasks.insert(1, task("milk", None, None));
    project.todo_tasks.insert(2, task("milk", None, None));
    project.todo_tasks.insert(3, task("milk", None, None));
    let list = CachedTaskList::generate(&project, &HashSet::new(), &Some("milk".to_string()), true);
    assert_eq!(list.todo, vec![1, 2, 3]);
}

#[test]
fn server_port_field() {
    assert!(matches!(server_port_input_message(""), SettingsModalMessage::SetServerPort(8080)));
    assert!(matches!(server_port_input_message("443"), SettingsModalMessage::SetServerPort(443)));
    assert!(matches!(server_port_input_message("+7"), SettingsModalMessage::SetServerPort(7)));
    assert!(matches!(server_port_input_message("8o8o"), SettingsModalMessage::InvalidPortInput));
    assert!(matches!(server_port_input_message("-1"), SettingsModalMessage::InvalidPortInput));
    assert!(matches!(server_port_input_message(" 80"), SettingsModalMessage::InvalidPortInput));
    assert!(matches!(
        server_port_input_message("99999999999999999999999"),
        SettingsModalMessage::InvalidPortInput
    ));
}

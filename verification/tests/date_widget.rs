use project_tracker::date::SerializableDate;
use project_tracker::date_widget::{days_left_label, days_left_widget};

fn ymd(year: i32, month: u32, day: u32) -> SerializableDate {
    SerializableDate { year, month, day }
}

#[test]
fn days_left_labels_around_today() {
    let today = ymd(2024, 2, 28);
    let label = days_left_label(ymd(2024, 2, 28), today, false);
    assert_eq!(label.text, "due today");
    assert!(label.needs_action);
    let label = days_left_label(ymd(2024, 2, 29), today, false);
    assert_eq!(label.text, "due tomorrow");
    assert!(!label.needs_action);
    let label = days_left_label(ymd(2024, 2, 27), today, false);
    assert_eq!(label.text, "due yesterday");
    assert!(label.needs_action);
}

#[test]
fn days_left_labels_far_away() {
    let today = ymd(2024, 12, 30);
    let label = days_left_label(ymd(2025, 1, 12), today, false);
    assert_eq!(label.text, "due in 13 days");
    assert!(!label.needs_action);
    let label = days_left_label(ymd(2024, 11, 30), today, false);
    assert_eq!(label.text, "due 30 days ago");
    assert!(label.needs_action);
}

#[test]
fn done_tasks_need_no_action() {
    let today = ymd(2023, 5, 10);
    assert!(!days_left_label(ymd(2023, 5, 10), today, true).needs_action);
    assert!(!days_left_label(ymd(2023, 1, 1), today, true).needs_action);
}

#[test]
fn days_left_widget_labels_a_due_date() {
    let label = days_left_widget(ymd(2000, 1, 1), false);
    assert!(label.text.starts_with("due "));
    assert!(label.needs_action);
}

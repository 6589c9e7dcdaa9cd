use project_tracker::calendar::view_range_label;
use project_tracker::date::{DateFormatting, FirstWeekday, SerializableDate, Weekday};
use project_tracker::CalendarView;

fn ymd(year: i32, month: u32, day: u32) -> SerializableDate {
    SerializableDate { year, month, day }
}

#[test]
fn test_week_days() {
    let today_date = ymd(2025, 1, 31);
    let first_week_day = FirstWeekday::Monday;

    assert_eq!(
        CalendarView::Week { week_day: today_date }.days(first_week_day),
        [
            (Weekday::Mon, ymd(2025, 1, 27)),
            (Weekday::Tue, ymd(2025, 1, 28)),
            (Weekday::Wed, ymd(2025, 1, 29)),
            (Weekday::Thu, ymd(2025, 1, 30)),
            (Weekday::Fri, ymd(2025, 1, 31)),
            (Weekday::Sat, ymd(2025, 2, 1)),
            (Weekday::Sun, ymd(2025, 2, 2))
        ]
    );
}

#[test]
fn test_three_days() {
    let today_date = ymd(2025, 1, 30);
    let first_week_day = FirstWeekday::Monday;

    assert_eq!(
        CalendarView::ThreeDays { first_date: today_date }.days(first_week_day),
        [
            (Weekday::Thu, ymd(2025, 1, 30)),
            (Weekday::Fri, ymd(2025, 1, 31)),
            (Weekday::Sat, ymd(2025, 2, 1)),
        ]
    );
}

#[test]
fn week_starting_on_sunday() {
    let days = CalendarView::Week { week_day: ymd(2025, 1, 1) }.days(FirstWeekday::Sunday);
    assert_eq!(days.len(), 7);
    assert_eq!(days[0], (Weekday::Sun, ymd(2024, 12, 29)));
    assert_eq!(days[6], (Weekday::Sat, ymd(2025, 1, 4)));
}

#[test]
fn week_forward_then_backward_is_the_same_week() {
    let view = CalendarView::Week { week_day: ymd(2024, 2, 28) };
    let forward = view.go_forward(FirstWeekday::Monday);
    assert_eq!(forward, CalendarView::Week { week_day: ymd(2024, 3, 4) });
    let back = forward.go_backward(FirstWeekday::Monday);
    assert_eq!(
        back.days(FirstWeekday::Monday),
        view.days(FirstWeekday::Monday)
    );
}

#[test]
fn three_days_move_by_one_day() {
    let view = CalendarView::ThreeDays { first_date: ymd(2024, 12, 31) };
    assert_eq!(
        view.go_forward(FirstWeekday::Monday),
        CalendarView::ThreeDays { first_date: ymd(2025, 1, 1) }
    );
    assert_eq!(
        view.go_backward(FirstWeekday::Monday),
        CalendarView::ThreeDays { first_date: ymd(2024, 12, 30) }
    );
}

#[test]
fn range_labels() {
    let days = CalendarView::Week { week_day: ymd(2025, 1, 31) }.days(FirstWeekday::Monday);
    assert_eq!(view_range_label(&days), "January - Febuary 2025");
    let days = CalendarView::Week { week_day: ymd(2025, 1, 1) }.days(FirstWeekday::Monday);
    assert_eq!(view_range_label(&days), "December 2024 - January 2025");
    let days = CalendarView::ThreeDays { first_date: ymd(2025, 3, 10) }.days(FirstWeekday::Monday);
    assert_eq!(view_range_label(&days), "March 2025");
    assert_eq!(view_range_label(&[]), "<empty week days>");
}

#[test]
fn date_formatting() {
    let date = ymd(2025, 3, 7);
    assert_eq!(DateFormatting::DayMonthYear.format(&date), "7.3.2025");
    assert_eq!(DateFormatting::MonthDayYear.format(&date), "3.7.2025");
    assert_eq!(DateFormatting::DayMonthYear.as_str(), "DD.MM.YYYY");
    assert_eq!(DateFormatting::MonthDayYear.as_str(), "MM.DD.YYYY");
}

#[test]
fn weekdays_of_dates() {
    assert_eq!(project_tracker::date::weekday(ymd(2025, 1, 30)), Weekday::Thu);
    assert_eq!(project_tracker::date::weekday(ymd(2000, 1, 1)), Weekday::Sat);
    assert_eq!(FirstWeekday::Sunday.as_week_day(), Weekday::Sun);
    assert_eq!(Weekday::from_index(4), Weekday::Fri);
    assert_eq!(Weekday::Sun.num_days_from_monday(), 6);
}

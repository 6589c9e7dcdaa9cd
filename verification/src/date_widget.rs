//! What the due-date label of a task says: how many days are left, and
//! whether it is drawn as needing action.
use crate::date::{day_number, today, valid_date, SerializableDate};
use crate::text::{decimal, push_decimal};
use chrono::NaiveDate;
use vstd::prelude::*;

verus! {

/// The label of a due date `days_left` days from today.
pub open spec fn days_left_text(days_left: int) -> Seq<char> {
    if days_left == 0 {
        "due today"@
    } else if days_left == 1 {
        "due tomorrow"@
    } else if days_left == -1 {
        "due yesterday"@
    } else if days_left > 0 {
        "due in "@ + decimal(days_left as nat) + " days"@
    } else {
        "due "@ + decimal((-days_left) as nat) + " days ago"@
    }
}

/// The text of a due-date label, and whether it is drawn as needing
/// action (a task to do that is due today or overdue).
#[derive(Debug, Clone, PartialEq, Eq)]
pub struct DaysLeftLabel {
    pub text: String,
    pub needs_action: bool,
}

/// `label` is the label of a task's due date `date`, seen on day `today`.
pub open spec fn is_days_left_label(
    label: DaysLeftLabel,
    date: SerializableDate,
    today: SerializableDate,
    is_task_done: bool,
) -> bool {
    &&& label.text@ == days_left_text(day_number(date) - day_number(today))
    &&& label.needs_action == (!is_task_done && day_number(date) <= day_number(today))
}

/// `NaiveDate::signed_duration_since` (chrono) in whole days (`num_days`):
/// the number of days from `since` to `date`.
#[verifier::external_body]
fn chrono_days_since(date: SerializableDate, since: SerializableDate) -> (r: i64)
    requires
        valid_date(date),
        valid_date(since),
    ensures
        r == day_number(date) - day_number(since),
{
    match (
        NaiveDate::from_ymd_opt(date.year, date.month, date.day),
        NaiveDate::from_ymd_opt(since.year, since.month, since.day),
    ) {
        (Some(d), Some(s)) => d.signed_duration_since(s).num_days(),
        _ => 0,
    }
}

/// The label of a task's due date `date`, seen on day `today`.
pub fn days_left_label(date: SerializableDate, today: SerializableDate, is_task_done: bool) -> (r:
    DaysLeftLabel)
    requires
        valid_date(date),
        valid_date(today),
    ensures
        is_days_left_label(r, date, today, is_task_done),
{
    let days_left = chrono_days_since(date, today);
    let text = if days_left == 0 {
        String::from_str("due today")
    } else if days_left == 1 {
        String::from_str("due tomorrow")
    } else if days_left == -1 {
        String::from_str("due yesterday")
    } else if days_left > 0 {
        let mut text = String::from_str("due in ");
        push_decimal(&mut text, days_left as u64);
        text.append(" days");
        text
    } else {
        let magnitude: u64 = if days_left == i64::MIN {
            9223372036854775808u64
        } else {
            (-days_left) as u64
        };
        let mut text = String::from_str("due ");
        push_decimal(&mut text, magnitude);
        text.append(" days ago");
        text
    };
    DaysLeftLabel { text, needs_action: !is_task_done && days_left <= 0 }
}

/// The label of a task's due date `date`, seen today. It is the label of
/// some existing date taken as today; which one the clock decides.
pub fn days_left_widget(date: SerializableDate, is_task_done: bool) -> (r: DaysLeftLabel)
    requires
        valid_date(date),
    ensures
        exists|t: SerializableDate| valid_date(t) && #[trigger] is_days_left_label(r, date, t, is_task_done),
{
    let now = today();
    let r = days_left_label(date, now, is_task_done);
    assert(valid_date(now) && is_days_left_label(r, date, now, is_task_done));
    r
}

} // verus!

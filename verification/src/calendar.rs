use crate::date::{
    chrono_weekday_index, days_before_year, min_year,
    chrono_add_signed_days, chrono_checked_add_days, chrono_checked_sub_days, chrono_pred_opt,
    chrono_succ_opt, chrono_week_first_day, day_number, days_into_week, max_day_number,
    min_day_number, today, valid_date, weekday, weekday_index_of, FirstWeekday, SerializableDate,
    Weekday,
};
use crate::text::{decimal, push_decimal};
use vstd::prelude::*;

verus! {

/// What the calendar of the overview shows: three days starting at
/// `first_date`, or the week that holds `week_day`.
#[derive(Debug, Clone, Copy, PartialEq, Eq, Structural)]
pub enum CalendarView {
    ThreeDays { first_date: SerializableDate },
    Week { week_day: SerializableDate },
}

/// The date that a calendar view is anchored at.
pub open spec fn anchor(view: CalendarView) -> SerializableDate {
    match view {
        CalendarView::ThreeDays { first_date } => first_date,
        CalendarView::Week { week_day } => week_day,
    }
}

/// The number of days from Monday to the first day of the week.
pub open spec fn first_index(first: FirstWeekday) -> int {
    match first {
        FirstWeekday::Monday => 0,
        FirstWeekday::Sunday => 6,
    }
}

/// The day number of the first day of the week that holds day `n`.
pub open spec fn week_start_of(n: int, first: FirstWeekday) -> int {
    n - days_into_week(weekday_index_of(n), first_index(first))
}

/// The day a three day view starts at after going forward or backward.
pub open spec fn three_days_forward(n: int) -> int {
    if n < max_day_number() {
        n + 1
    } else {
        n
    }
}

pub open spec fn three_days_backward(n: int) -> int {
    if n > min_day_number() {
        n - 1
    } else {
        n
    }
}

/// The day a week view is anchored at after going forward or backward: the
/// first day of the next or previous week, or the same day at the ends of
/// the supported dates.
pub open spec fn week_forward(n: int, first: FirstWeekday) -> int {
    if week_start_of(n, first) + 7 <= max_day_number() {
        week_start_of(n, first) + 7
    } else {
        n
    }
}

pub open spec fn week_backward(n: int, first: FirstWeekday) -> int {
    if week_start_of(n, first) - 7 >= min_day_number() {
        week_start_of(n, first) - 7
    } else {
        n
    }
}

/// `r` is `view` moved forward: the next week, or the three days from the
/// next day (the same view at the latest supported dates).
pub open spec fn moved_forward(view: CalendarView, first: FirstWeekday, r: CalendarView) -> bool {
    &&& r is Week <==> view is Week
    &&& valid_date(anchor(r))
    &&& day_number(anchor(r)) == match view {
        CalendarView::Week { week_day } => week_forward(day_number(week_day), first),
        CalendarView::ThreeDays { first_date } => three_days_forward(day_number(first_date)),
    }
}

/// `r` is `view` moved backward: the previous week, or the three days from
/// the day before (the same view at the earliest supported dates).
pub open spec fn moved_backward(view: CalendarView, first: FirstWeekday, r: CalendarView) -> bool {
    &&& r is Week <==> view is Week
    &&& valid_date(anchor(r))
    &&& day_number(anchor(r)) == match view {
        CalendarView::Week { week_day } => week_backward(day_number(week_day), first),
        CalendarView::ThreeDays { first_date } => three_days_backward(day_number(first_date)),
    }
}

/// How many days a view moves at a step: a week or a day.
pub open spec fn step_of(view: CalendarView) -> int {
    match view {
        CalendarView::Week { .. } => 7,
        CalendarView::ThreeDays { .. } => 1,
    }
}

/// `view` shows three days from the day before `today`, or from `today`
/// when that is the earliest supported date.
pub open spec fn starts_three_days_from(view: CalendarView, today: SerializableDate) -> bool {
    &&& view matches CalendarView::ThreeDays { first_date }
    &&& valid_date(first_date)
    &&& day_number(first_date) == three_days_backward(day_number(today))
    &&& day_number(today) == min_day_number() ==> first_date == today
}

/// The first day a view shows and how many days it shows.
pub open spec fn shown_days(view: CalendarView, first: FirstWeekday) -> (int, int) {
    match view {
        CalendarView::ThreeDays { first_date } => (day_number(first_date), 3),
        CalendarView::Week { week_day } => (week_start_of(day_number(week_day), first), 7),
    }
}

/// The days a view shows lie within the supported dates.
pub open spec fn view_in_range(view: CalendarView, first: FirstWeekday) -> bool {
    &&& valid_date(anchor(view))
    &&& min_day_number() <= shown_days(view, first).0
    &&& shown_days(view, first).0 + shown_days(view, first).1 - 1 <= max_day_number()
}

fn first_weekday_index(first: FirstWeekday) -> (r: u8)
    ensures
        r == first_index(first),
{
    first.as_week_day().num_days_from_monday()
}

pub(crate) proof fn lemma_days_before_year_grows(a: int, b: int)
    requires
        a <= b,
    ensures
        days_before_year(a) <= days_before_year(b),
{
    let p = a - 1;
    let q = b - 1;
    vstd::arithmetic::div_mod::lemma_div_is_ordered(p, q, 4);
    vstd::arithmetic::div_mod::lemma_div_is_ordered(p, q, 400);
    assert(q / 100 - p / 100 <= q - p) by {
        vstd::arithmetic::div_mod::lemma_fundamental_div_mod(p, 100);
        vstd::arithmetic::div_mod::lemma_fundamental_div_mod(q, 100);
        vstd::arithmetic::div_mod::lemma_mod_bound(p, 100);
        vstd::arithmetic::div_mod::lemma_mod_bound(q, 100);
        assert(100 * (q / 100 - p / 100) <= q - p + 99);
        assert(q / 100 - p / 100 <= q - p) by (nonlinear_arith)
            requires
                100 * (q / 100 - p / 100) <= q - p + 99,
                p <= q,
        ;
    }
}

/// A view can go forward or backward: its date exists and is not in the
/// first six days of the earliest supported year.
pub open spec fn view_movable(view: CalendarView) -> bool {
    &&& valid_date(anchor(view))
    &&& (anchor(view).year > min_year() || anchor(view).month > 1 || anchor(view).day >= 7)
}

/// Whether the view can go forward or backward.
pub(crate) fn view_can_move(view: CalendarView, first_week_day: FirstWeekday) -> (r: bool)
    ensures
        r == view_movable(view),
        r ==> (view is Week ==> min_day_number() <= week_start_of(day_number(anchor(view)), first_week_day)),
{
    let date = match view {
        CalendarView::ThreeDays { first_date } => first_date,
        CalendarView::Week { week_day } => week_day,
    };
    match chrono_weekday_index(date) {
        None => false,
        Some(_) => {
            let r = date.year > -262143 || date.month > 1 || date.day >= 7;
            proof {
                if r {
                    let n = day_number(date);
                    if date.year > -262143 {
                        lemma_days_before_year_grows(min_year() + 1, date.year as int);
                        assert(days_before_year(min_year() + 1) >= days_before_year(min_year()) + 365);
                    }
                    assert(n >= min_day_number() + 6);
                    assert(0 <= days_into_week(weekday_index_of(n), first_index(first_week_day)) <= 6);
                }
            }
            r
        }
    }
}

impl CalendarView {
    /// The week of today.
    pub fn current_week() -> (r: Self)
        ensures
            r is Week,
            valid_date(anchor(r)),
    {
        CalendarView::Week { week_day: today() }
    }

    /// Three days, starting yesterday (or today at the earliest date).
    pub fn current_three_days() -> (r: Self)
        ensures
            exists|today: SerializableDate| valid_date(today) && #[trigger] starts_three_days_from(r, today),
    {
        let today = today();
        let r = Self::three_days_from(today);
        assert(valid_date(today) && starts_three_days_from(r, today));
        r
    }

    /// Three days around `today`: starting the day before, or today itself
    /// when it is the earliest supported date.
    pub fn three_days_from(today: SerializableDate) -> (r: Self)
        requires
            valid_date(today),
        ensures
            starts_three_days_from(r, today),
    {
        let first_date = match chrono_pred_opt(today) {
            Some(d) => d,
            None => today,
        };
        CalendarView::ThreeDays { first_date }
    }

    pub fn label(&self) -> (r: &'static str)
        ensures
            r@ == (match self {
                CalendarView::Week { .. } => "Week"@,
                CalendarView::ThreeDays { .. } => "3 Days"@,
            }),
    {
        match self {
            CalendarView::Week { .. } => "Week",
            CalendarView::ThreeDays { .. } => "3 Days",
        }
    }

    /// The next week, or the three days starting one day later.
    pub fn go_forward(self, first_week_day: FirstWeekday) -> (r: Self)
        requires
            valid_date(anchor(self)),
            self is Week ==> min_day_number() <= week_start_of(day_number(anchor(self)), first_week_day),
        ensures
            moved_forward(self, first_week_day, r),
    {
        match self {
            CalendarView::Week { week_day } => {
                let start = first_weekday_index(first_week_day);
                let week_start = match chrono_week_first_day(week_day, start) {
                    Some(d) => d,
                    None => week_day,
                };
                let next = match chrono_checked_add_days(week_start, 7) {
                    Some(d) => d,
                    None => week_day,
                };
                CalendarView::Week { week_day: next }
            },
            CalendarView::ThreeDays { first_date } => {
                let next = match chrono_succ_opt(first_date) {
                    Some(d) => d,
                    None => first_date,
                };
                CalendarView::ThreeDays { first_date: next }
            },
        }
    }

    /// The previous week, or the three days starting one day earlier.
    pub fn go_backward(self, first_week_day: FirstWeekday) -> (r: Self)
        requires
            valid_date(anchor(self)),
            self is Week ==> min_day_number() <= week_start_of(day_number(anchor(self)), first_week_day),
        ensures
            moved_backward(self, first_week_day, r),
    {
        match self {
            CalendarView::Week { week_day } => {
                let start = first_weekday_index(first_week_day);
                let week_start = match chrono_week_first_day(week_day, start) {
                    Some(d) => d,
                    None => week_day,
                };
                let previous = match chrono_checked_sub_days(week_start, 7) {
                    Some(d) => d,
                    None => week_day,
                };
                CalendarView::Week { week_day: previous }
            },
            CalendarView::ThreeDays { first_date } => {
                let previous = match chrono_pred_opt(first_date) {
                    Some(d) => d,
                    None => first_date,
                };
                CalendarView::ThreeDays { first_date: previous }
            },
        }
    }

    /// The days the view shows, each with its weekday: the three days from
    /// the first date, or the seven days of the week.
    pub fn days(&self, first_week_day: FirstWeekday) -> (r: Vec<(Weekday, SerializableDate)>)
        requires
            view_in_range(*self, first_week_day),
        ensures
            r@.len() == shown_days(*self, first_week_day).1,
            forall|i: int|
                0 <= i < r@.len() ==> {
                    &&& valid_date((#[trigger] r@[i]).1)
                    &&& day_number(r@[i].1) == shown_days(*self, first_week_day).0 + i
                    &&& r@[i].0.index() == weekday_index_of(day_number(r@[i].1))
                },
    {
        let (first_date, num_days): (SerializableDate, i64) = match self {
            CalendarView::Week { week_day } => {
                let start = first_weekday_index(first_week_day);
                let week_start = match chrono_week_first_day(*week_day, start) {
                    Some(d) => d,
                    None => *week_day,
                };
                (week_start, 7)
            },
            CalendarView::ThreeDays { first_date } => (*first_date, 3),
        };
        let mut days: Vec<(Weekday, SerializableDate)> = Vec::new();
        let mut i: i64 = 0;
        while i < num_days
            invariant
                0 <= i <= num_days,
                num_days == shown_days(*self, first_week_day).1,
                valid_date(first_date),
                day_number(first_date) == shown_days(*self, first_week_day).0,
                day_number(first_date) + num_days - 1 <= max_day_number(),
                min_day_number() <= day_number(first_date),
                days@.len() == i,
                forall|j: int|
                    0 <= j < i ==> {
                        &&& valid_date((#[trigger] days@[j]).1)
                        &&& day_number(days@[j].1) == day_number(first_date) + j
                        &&& days@[j].0.index() == weekday_index_of(day_number(days@[j].1))
                    },
            decreases num_days - i,
        {
            let date = match chrono_add_signed_days(first_date, i) {
                Some(d) => d,
                None => first_date,
            };
            days.push((weekday(date), date));
            i = i + 1;
        }
        days
    }
}


/// The English name of a month, counted from zero; a note for any other
/// number.
pub open spec fn month_name(month0: int) -> Seq<char> {
    if month0 == 0 {
        "January"@
    } else if month0 == 1 {
        "Febuary"@
    } else if month0 == 2 {
        "March"@
    } else if month0 == 3 {
        "April"@
    } else if month0 == 4 {
        "May"@
    } else if month0 == 5 {
        "June"@
    } else if month0 == 6 {
        "July"@
    } else if month0 == 7 {
        "August"@
    } else if month0 == 8 {
        "September"@
    } else if month0 == 9 {
        "October"@
    } else if month0 == 10 {
        "November"@
    } else if month0 == 11 {
        "December"@
    } else {
        "<invalid month0 index: "@ + decimal(month0 as nat) + ">"@
    }
}

/// The year of the common era: years before year 1 count backwards from 1.
pub open spec fn year_of_era(year: int) -> int {
    if year < 1 {
        1 - year
    } else {
        year
    }
}

/// The label above the calendar: the month and year of the first day, and,
/// when the last day falls in another month, that month and year too (the
/// first year only when it differs).
pub open spec fn range_label(days: Seq<(Weekday, SerializableDate)>) -> Seq<char> {
    if days.len() == 0 {
        "<empty week days>"@
    } else {
        let first = days[0].1;
        let last = days.last().1;
        let first_year = decimal(year_of_era(first.year as int) as nat);
        if first.month != last.month {
            let last_year = year_of_era(last.year as int);
            month_name(first.month - 1) + (if year_of_era(first.year as int) == last_year {
                Seq::<char>::empty()
            } else {
                " "@ + first_year
            }) + " - "@ + month_name(last.month - 1) + " "@ + decimal(last_year as nat)
        } else {
            month_name(first.month - 1) + " "@ + first_year
        }
    }
}

fn month_name_str(month0: u32) -> (r: String)
    ensures
        r@ == month_name(month0 as int),
{
    proof {
        reveal_strlit("January");
        reveal_strlit("Febuary");
        reveal_strlit("March");
        reveal_strlit("April");
        reveal_strlit("May");
        reveal_strlit("June");
        reveal_strlit("July");
        reveal_strlit("August");
        reveal_strlit("September");
        reveal_strlit("October");
        reveal_strlit("November");
        reveal_strlit("December");
        reveal_strlit("<invalid month0 index: ");
        reveal_strlit(">");
    }
    let name = match month0 {
        0 => "January",
        1 => "Febuary",
        2 => "March",
        3 => "April",
        4 => "May",
        5 => "June",
        6 => "July",
        7 => "August",
        8 => "September",
        9 => "October",
        10 => "November",
        11 => "December",
        _ => "",
    };
    let mut r = String::new();
    if month0 < 12 {
        r.append(name);
    } else {
        r.append("<invalid month0 index: ");
        push_decimal(&mut r, month0 as u64);
        r.append(">");
    }
    r
}

fn year_of_era_exec(year: i32) -> (r: u64)
    ensures
        r == year_of_era(year as int),
{
    if year < 1 {
        (1 - (year as i64)) as u64
    } else {
        year as u64
    }
}

/// The label above the calendar for the days it shows.
pub fn view_range_label(week_days: &[(Weekday, SerializableDate)]) -> (r: String)
    requires
        forall|i: int| 0 <= i < week_days@.len() ==> valid_date((#[trigger] week_days@[i]).1),
    ensures
        r@ == range_label(week_days@),
{
    proof {
        reveal_strlit("<empty week days>");
        reveal_strlit(" ");
        reveal_strlit(" - ");
    }
    let n = week_days.len();
    if n == 0 {
        return "<empty week days>".to_string();
    }
    let first = week_days[0].1;
    let last = week_days[n - 1].1;
    let first_year = year_of_era_exec(first.year);
    let mut r = month_name_str(first.month - 1);
    if first.month != last.month {
        let last_year = year_of_era_exec(last.year);
        if first_year != last_year {
            r.append(" ");
            push_decimal(&mut r, first_year);
        }
        r.append(" - ");
        let last_name = month_name_str(last.month - 1);
        r.append(last_name.as_str());
        r.append(" ");
        push_decimal(&mut r, last_year);
    } else {
        r.append(" ");
        push_decimal(&mut r, first_year);
    }
    proof {
        assert(r@ =~= range_label(week_days@));
    }
    r
}


/// The first day of every week has the chosen first weekday.
pub proof fn law_week_starts_on_first_weekday(n: int, first: FirstWeekday)
    ensures
        weekday_index_of(week_start_of(n, first)) == first_index(first),
{
}

/// Going forward and then backward in the three day view comes back to the
/// same first day, away from the last supported date.
pub proof fn law_three_days_forward_then_backward(n: int)
    requires
        min_day_number() <= n < max_day_number(),
    ensures
        three_days_backward(three_days_forward(n)) == n,
{
}

/// Going backward and then forward in the three day view comes back to the
/// same first day, away from the earliest supported date.
pub proof fn law_three_days_backward_then_forward(n: int)
    requires
        min_day_number() < n <= max_day_number(),
    ensures
        three_days_forward(three_days_backward(n)) == n,
{
}

/// Going a week forward and then a week backward shows the same week again.
pub proof fn law_week_forward_then_backward(n: int, first: FirstWeekday)
    requires
        min_day_number() <= week_start_of(n, first),
        week_start_of(n, first) + 7 <= max_day_number(),
    ensures
        week_start_of(week_backward(week_forward(n, first), first), first) == week_start_of(n, first),
{
    let m = week_start_of(n, first) + 7;
    law_week_starts_on_first_weekday(n, first);
    assert(weekday_index_of(m) == first_index(first));
    assert(week_start_of(m, first) == m);
    law_week_starts_on_first_weekday(m - 7, first);
    assert(weekday_index_of(m - 7) == first_index(first));
    assert(week_start_of(m - 7, first) == m - 7);
}

/// Going a week backward and then a week forward shows the same week again.
pub proof fn law_week_backward_then_forward(n: int, first: FirstWeekday)
    requires
        min_day_number() <= week_start_of(n, first) - 7,
        week_start_of(n, first) + 6 <= max_day_number(),
    ensures
        week_start_of(week_forward(week_backward(n, first), first), first) == week_start_of(n, first),
{
    let m = week_start_of(n, first) - 7;
    law_week_starts_on_first_weekday(n, first);
    assert(weekday_index_of(m) == first_index(first));
    assert(week_start_of(m, first) == m);
    assert(weekday_index_of(m + 7) == first_index(first));
    assert(week_start_of(m + 7, first) == m + 7);
}


/// Moving a view forward shifts every day it shows by a week or by a day,
/// as long as the shifted days are supported dates.
pub proof fn law_forward_shifts_the_days(view: CalendarView, first: FirstWeekday, r: CalendarView)
    requires
        view_in_range(view, first),
        shown_days(view, first).0 + shown_days(view, first).1 - 1 + step_of(view) <= max_day_number(),
        moved_forward(view, first, r),
    ensures
        r is Week <==> view is Week,
        shown_days(r, first) == (shown_days(view, first).0 + step_of(view), shown_days(view, first).1),
{
    if let CalendarView::Week { week_day } = view {
        lemma_week_start_moves(day_number(week_day), first, 7);
        assert(day_number(anchor(r)) == week_start_of(day_number(week_day), first) + 7);
    }
}

/// The week start of a day a whole number of weeks after a week start is
/// that day.
proof fn lemma_week_start_moves(n: int, first: FirstWeekday, d: int)
    requires
        d == 7 || d == -7,
    ensures
        week_start_of(week_start_of(n, first) + d, first) == week_start_of(n, first) + d,
{
    let m = week_start_of(n, first) + d;
    law_week_starts_on_first_weekday(n, first);
    assert(weekday_index_of(m) == first_index(first));
}

/// Moving a view backward shifts every day it shows back by a week or by a
/// day, as long as the shifted days are supported dates.
pub proof fn law_backward_shifts_the_days(view: CalendarView, first: FirstWeekday, r: CalendarView)
    requires
        view_in_range(view, first),
        min_day_number() <= shown_days(view, first).0 - step_of(view),
        moved_backward(view, first, r),
    ensures
        r is Week <==> view is Week,
        shown_days(r, first) == (shown_days(view, first).0 - step_of(view), shown_days(view, first).1),
{
    if let CalendarView::Week { week_day } = view {
        lemma_week_start_moves(day_number(week_day), first, -7);
        assert(day_number(anchor(r)) == week_start_of(day_number(week_day), first) - 7);
    }
}

/// Moving a view forward and then backward shows the same days again, and
/// so does moving it backward and then forward, as long as the days passed
/// through are supported dates.
pub proof fn law_forward_and_back_show_the_same_days(
    view: CalendarView,
    first: FirstWeekday,
    forward: CalendarView,
    forward_back: CalendarView,
    backward: CalendarView,
    backward_forward: CalendarView,
)
    requires
        view_in_range(view, first),
        min_day_number() <= shown_days(view, first).0 - step_of(view),
        shown_days(view, first).0 + shown_days(view, first).1 - 1 + step_of(view) <= max_day_number(),
        moved_forward(view, first, forward),
        moved_backward(forward, first, forward_back),
        moved_backward(view, first, backward),
        moved_forward(backward, first, backward_forward),
    ensures
        forward_back is Week <==> view is Week,
        shown_days(forward_back, first) == shown_days(view, first),
        backward_forward is Week <==> view is Week,
        shown_days(backward_forward, first) == shown_days(view, first),
{
    law_forward_shifts_the_days(view, first, forward);
    law_backward_shifts_the_days(forward, first, forward_back);
    law_backward_shifts_the_days(view, first, backward);
    law_forward_shifts_the_days(backward, first, backward_forward);
}

} // verus!

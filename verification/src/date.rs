use crate::text::{push_decimal, push_signed_decimal, decimal, signed_decimal};
use chrono::{Datelike, Days, Local, NaiveDate, Timelike};
use vstd::prelude::*;

verus! {

/// A calendar date of the proleptic Gregorian calendar.
#[derive(Debug, Clone, Copy, PartialEq, Eq, Hash, Structural)]
pub struct SerializableDate {
    pub year: i32,
    pub month: u32,
    pub day: u32,
}

/// The earliest and latest years that dates can have.
pub open spec fn min_year() -> int {
    -262143
}

pub open spec fn max_year() -> int {
    262142
}

pub open spec fn is_leap_year(year: int) -> bool {
    year % 4 == 0 && (year % 100 != 0 || year % 400 == 0)
}

pub open spec fn days_in_month(year: int, month: int) -> int {
    if month == 2 {
        if is_leap_year(year) {
            29
        } else {
            28
        }
    } else if month == 4 || month == 6 || month == 9 || month == 11 {
        30
    } else {
        31
    }
}

/// A date that exists and lies within the supported years.
pub open spec fn valid_date(date: SerializableDate) -> bool {
    &&& min_year() <= date.year <= max_year()
    &&& 1 <= date.month <= 12
    &&& 1 <= date.day <= days_in_month(date.year as int, date.month as int)
}

/// The number of days from January 1 of year 1 to January 1 of `year`.
pub open spec fn days_before_year(year: int) -> int {
    let p = year - 1;
    365 * p + p / 4 - p / 100 + p / 400
}

/// The number of days of `year` before the first day of `month`.
pub open spec fn days_before_month(year: int, month: int) -> int {
    let base: int = if month == 1 {
        0
    } else if month == 2 {
        31
    } else if month == 3 {
        59
    } else if month == 4 {
        90
    } else if month == 5 {
        120
    } else if month == 6 {
        151
    } else if month == 7 {
        181
    } else if month == 8 {
        212
    } else if month == 9 {
        243
    } else if month == 10 {
        273
    } else if month == 11 {
        304
    } else {
        334
    };
    base + if month > 2 && is_leap_year(year) {
        1int
    } else {
        0int
    }
}

/// The day number of a date: January 1 of year 1 is day 1, and each
/// following day counts one more.
pub open spec fn day_number(date: SerializableDate) -> int {
    days_before_year(date.year as int) + days_before_month(date.year as int, date.month as int)
        + date.day
}

/// The day number of the earliest and of the latest supported date.
pub open spec fn min_day_number() -> int {
    day_number(SerializableDate { year: min_year() as i32, month: 1, day: 1 })
}

pub open spec fn max_day_number() -> int {
    day_number(SerializableDate { year: max_year() as i32, month: 12, day: 31 })
}

/// A day of the week.
#[derive(Debug, Clone, Copy, PartialEq, Eq, Hash, Structural)]
pub enum Weekday {
    Mon,
    Tue,
    Wed,
    Thu,
    Fri,
    Sat,
    Sun,
}

impl Weekday {
    /// The number of days since Monday.
    pub open spec fn index(self) -> int {
        match self {
            Weekday::Mon => 0,
            Weekday::Tue => 1,
            Weekday::Wed => 2,
            Weekday::Thu => 3,
            Weekday::Fri => 4,
            Weekday::Sat => 5,
            Weekday::Sun => 6,
        }
    }
}

/// The day of the week of a day number: day 1 was a Monday.
pub open spec fn weekday_index_of(day: int) -> int {
    (day + 6) % 7
}

/// The weekday on which weeks start.
#[derive(Debug, Clone, Copy, Default, PartialEq, Eq, Structural)]
pub enum FirstWeekday {
    #[default]
    Monday,
    Sunday,
}

impl FirstWeekday {
    pub fn as_week_day(&self) -> (r: Weekday)
        ensures
            r == (match self {
                FirstWeekday::Monday => Weekday::Mon,
                FirstWeekday::Sunday => Weekday::Sun,
            }),
    {
        match self {
            FirstWeekday::Monday => Weekday::Mon,
            FirstWeekday::Sunday => Weekday::Sun,
        }
    }
}

/// How dates are written.
#[derive(Debug, Clone, Copy, Default, PartialEq, Eq, Structural)]
pub enum DateFormatting {
    #[default]
    DayMonthYear,
    MonthDayYear,
}

/// A date written as `day.month.year` or `month.day.year`.
pub open spec fn formatted_date(formatting: DateFormatting, date: SerializableDate) -> Seq<char> {
    let day = decimal(date.day as nat);
    let month = decimal(date.month as nat);
    let year = signed_decimal(date.year as int);
    match formatting {
        DateFormatting::DayMonthYear => day + seq!['.'] + month + seq!['.'] + year,
        DateFormatting::MonthDayYear => month + seq!['.'] + day + seq!['.'] + year,
    }
}

impl DateFormatting {
    /// The pattern of the formatting, as shown to the user.
    pub fn as_str(&self) -> (r: &'static str)
        ensures
            r@ == (match self {
                DateFormatting::DayMonthYear => "DD.MM.YYYY"@,
                DateFormatting::MonthDayYear => "MM.DD.YYYY"@,
            }),
    {
        match self {
            DateFormatting::DayMonthYear => "DD.MM.YYYY",
            DateFormatting::MonthDayYear => "MM.DD.YYYY",
        }
    }

    /// Writes a date in this formatting.
    pub fn format(&self, date: &SerializableDate) -> (r: String)
        ensures
            r@ == formatted_date(*self, *date),
    {
        let mut r = String::new();
        match self {
            DateFormatting::DayMonthYear => {
                push_decimal(&mut r, date.day as u64);
                r.append(".");
                push_decimal(&mut r, date.month as u64);
            },
            DateFormatting::MonthDayYear => {
                push_decimal(&mut r, date.month as u64);
                r.append(".");
                push_decimal(&mut r, date.day as u64);
            },
        }
        r.append(".");
        push_signed_decimal(&mut r, date.year as i64);
        proof {
            reveal_strlit(".");
            assert(r@ =~= formatted_date(*self, *date));
        }
        r
    }
}


impl Weekday {
    /// The weekday that is `index` days after Monday.
    pub fn from_index(index: u32) -> (r: Weekday)
        requires
            index < 7,
        ensures
            r.index() == index,
    {
        match index {
            0 => Weekday::Mon,
            1 => Weekday::Tue,
            2 => Weekday::Wed,
            3 => Weekday::Thu,
            4 => Weekday::Fri,
            5 => Weekday::Sat,
            _ => Weekday::Sun,
        }
    }

    /// The number of days since Monday.
    pub fn num_days_from_monday(&self) -> (r: u8)
        ensures
            r == self.index(),
    {
        match self {
            Weekday::Mon => 0,
            Weekday::Tue => 1,
            Weekday::Wed => 2,
            Weekday::Thu => 3,
            Weekday::Fri => 4,
            Weekday::Sat => 5,
            Weekday::Sun => 6,
        }
    }
}

/// The number of days from the first day of a week starting on weekday
/// `start` to a day with weekday index `weekday`.
pub open spec fn days_into_week(weekday: int, start: int) -> int {
    (weekday - start + 7) % 7
}

/// `Datelike::weekday` (chrono) of the date, as its number of days since
/// Monday; `None` when the date does not exist (`NaiveDate::from_ymd_opt`).
#[verifier::external_body]
pub(crate) fn chrono_weekday_index(date: SerializableDate) -> (r: Option<u32>)
    ensures
        match r {
            Some(k) => valid_date(date) && k == weekday_index_of(day_number(date)),
            None => !valid_date(date),
        },
{
    match NaiveDate::from_ymd_opt(date.year, date.month, date.day) {
        Some(d) => Some(d.weekday().num_days_from_monday()),
        None => None,
    }
}

/// `NaiveWeek::first_day` (chrono) of the week of the date that starts on
/// the weekday `start` days after Monday: the latest day on or before the
/// date with that weekday. `None` when the date does not exist.
#[verifier::external_body]
pub(crate) fn chrono_week_first_day(date: SerializableDate, start: u8) -> (r: Option<SerializableDate>)
    requires
        start < 7,
        valid_date(date) ==> day_number(date) - days_into_week(
            weekday_index_of(day_number(date)),
            start as int,
        ) >= min_day_number(),
    ensures
        match r {
            Some(d) => valid_date(date) && valid_date(d) && day_number(d) == day_number(date)
                - days_into_week(weekday_index_of(day_number(date)), start as int),
            None => !valid_date(date),
        },
{
    match (NaiveDate::from_ymd_opt(date.year, date.month, date.day), chrono::Weekday::try_from(start)) {
        (Some(d), Ok(w)) => {
            let f = d.week(w).first_day();
            Some(SerializableDate { year: f.year(), month: f.month(), day: f.day() })
        },
        _ => None,
    }
}

/// `NaiveDate::checked_add_days` (chrono): the date `days` days later, or
/// `None` when that is past the latest supported date or the date does not
/// exist.
#[verifier::external_body]
pub(crate) fn chrono_checked_add_days(date: SerializableDate, days: u64) -> (r: Option<SerializableDate>)
    ensures
        match r {
            Some(d) => valid_date(date) && valid_date(d) && day_number(d) == day_number(date) + days,
            None => !valid_date(date) || day_number(date) + days > max_day_number(),
        },
{
    match NaiveDate::from_ymd_opt(date.year, date.month, date.day) {
        Some(d) => match d.checked_add_days(Days::new(days)) {
            Some(f) => Some(SerializableDate { year: f.year(), month: f.month(), day: f.day() }),
            None => None,
        },
        None => None,
    }
}

/// `NaiveDate::checked_sub_days` (chrono): the date `days` days earlier, or
/// `None` when that is before the earliest supported date or the date does
/// not exist.
#[verifier::external_body]
pub(crate) fn chrono_checked_sub_days(date: SerializableDate, days: u64) -> (r: Option<SerializableDate>)
    ensures
        match r {
            Some(d) => valid_date(date) && valid_date(d) && day_number(d) == day_number(date) - days,
            None => !valid_date(date) || day_number(date) - days < min_day_number(),
        },
{
    match NaiveDate::from_ymd_opt(date.year, date.month, date.day) {
        Some(d) => match d.checked_sub_days(Days::new(days)) {
            Some(f) => Some(SerializableDate { year: f.year(), month: f.month(), day: f.day() }),
            None => None,
        },
        None => None,
    }
}

/// `NaiveDate::succ_opt` (chrono): the next day, or `None` for the latest
/// supported date or a date that does not exist.
#[verifier::external_body]
pub(crate) fn chrono_succ_opt(date: SerializableDate) -> (r: Option<SerializableDate>)
    ensures
        match r {
            Some(d) => valid_date(date) && valid_date(d) && day_number(d) == day_number(date) + 1,
            None => !valid_date(date) || day_number(date) == max_day_number(),
        },
{
    match NaiveDate::from_ymd_opt(date.year, date.month, date.day) {
        Some(d) => match d.succ_opt() {
            Some(f) => Some(SerializableDate { year: f.year(), month: f.month(), day: f.day() }),
            None => None,
        },
        None => None,
    }
}

/// `NaiveDate::pred_opt` (chrono): the previous day, or `None` for the
/// earliest supported date or a date that does not exist.
#[verifier::external_body]
pub(crate) fn chrono_pred_opt(date: SerializableDate) -> (r: Option<SerializableDate>)
    ensures
        match r {
            Some(d) => valid_date(date) && valid_date(d) && day_number(d) == day_number(date) - 1,
            None => !valid_date(date) || day_number(date) == min_day_number(),
        },
{
    match NaiveDate::from_ymd_opt(date.year, date.month, date.day) {
        Some(d) => match d.pred_opt() {
            Some(f) => Some(SerializableDate { year: f.year(), month: f.month(), day: f.day() }),
            None => None,
        },
        None => None,
    }
}

/// `NaiveDate + TimeDelta::days(days)` (chrono): the date `days` days later.
/// `None` when the date does not exist; the addition panics past the
/// supported dates, which the precondition rules out.
#[verifier::external_body]
pub(crate) fn chrono_add_signed_days(date: SerializableDate, days: i64) -> (r: Option<SerializableDate>)
    requires
        valid_date(date) ==> min_day_number() <= day_number(date) + days <= max_day_number(),
    ensures
        match r {
            Some(d) => valid_date(date) && valid_date(d) && day_number(d) == day_number(date) + days,
            None => !valid_date(date),
        },
{
    match NaiveDate::from_ymd_opt(date.year, date.month, date.day) {
        Some(d) => {
            let f = d + chrono::Duration::days(days);
            Some(SerializableDate { year: f.year(), month: f.month(), day: f.day() })
        },
        None => None,
    }
}

/// `Local::now` (chrono): the current local date and time; only that the
/// date exists and the time is a time of day is known of it.
#[verifier::external_body]
fn chrono_local_now() -> (r: (SerializableDate, u32, u32))
    ensures
        valid_date(r.0),
        r.1 < 24,
        r.2 < 60,
{
    let now = Local::now();
    (SerializableDate { year: now.year(), month: now.month(), day: now.day() }, now.hour(), now.minute())
}

/// Today's local date.
pub fn today() -> (r: SerializableDate)
    ensures
        valid_date(r),
{
    chrono_local_now().0
}

/// The weekday of an existing date.
pub fn weekday(date: SerializableDate) -> (r: Weekday)
    requires
        valid_date(date),
    ensures
        r.index() == weekday_index_of(day_number(date)),
{
    match chrono_weekday_index(date) {
        Some(k) => Weekday::from_index(k),
        None => Weekday::Mon,
    }
}

/// The date and time as used in file names: `day_month_year - hour_minute`
/// or `month_day_year - hour_minute`.
pub open spec fn date_time_text(
    formatting: DateFormatting,
    date: SerializableDate,
    hour: nat,
    minute: nat,
) -> Seq<char> {
    let day = decimal(date.day as nat);
    let month = decimal(date.month as nat);
    let year = signed_decimal(date.year as int);
    let time = seq![' ', '-', ' '] + decimal(hour) + seq!['_'] + decimal(minute);
    match formatting {
        DateFormatting::DayMonthYear => day + seq!['_'] + month + seq!['_'] + year + time,
        DateFormatting::MonthDayYear => month + seq!['_'] + day + seq!['_'] + year + time,
    }
}

/// Writes a date and a time of day as used in file names.
pub fn format_date_time(formatting: DateFormatting, date: SerializableDate, hour: u32, minute: u32) -> (r: String)
    ensures
        r@ == date_time_text(formatting, date, hour as nat, minute as nat),
{
    let mut r = String::new();
    match formatting {
        DateFormatting::DayMonthYear => {
            push_decimal(&mut r, date.day as u64);
            r.append("_");
            push_decimal(&mut r, date.month as u64);
        },
        DateFormatting::MonthDayYear => {
            push_decimal(&mut r, date.month as u64);
            r.append("_");
            push_decimal(&mut r, date.day as u64);
        },
    }
    r.append("_");
    push_signed_decimal(&mut r, date.year as i64);
    r.append(" - ");
    push_decimal(&mut r, hour as u64);
    r.append("_");
    push_decimal(&mut r, minute as u64);
    proof {
        reveal_strlit("_");
        reveal_strlit(" - ");
        assert(r@ =~= date_time_text(formatting, date, hour as nat, minute as nat));
    }
    r
}

/// The current local date and time, written as used in file names.
pub fn formatted_date_time(date_formatting: DateFormatting) -> (r: String)
    ensures
        exists|date: SerializableDate, hour: nat, minute: nat|
            valid_date(date) && hour < 24 && minute < 60 && r@ == date_time_text(
                date_formatting,
                date,
                hour,
                minute,
            ),
{
    let (date, hour, minute) = chrono_local_now();
    format_date_time(date_formatting, date, hour, minute)
}

} // verus!

verus! {

/// `a` comes before `b` by year, then month, then day.
pub open spec fn date_before(a: SerializableDate, b: SerializableDate) -> bool {
    ||| a.year < b.year
    ||| a.year == b.year && a.month < b.month
    ||| a.year == b.year && a.month == b.month && a.day < b.day
}

proof fn lemma_div_step(y: int, d: int)
    requires
        d > 0,
    ensures
        y / d - (y - 1) / d == (if y % d == 0 { 1int } else { 0int }),
{
    vstd::arithmetic::div_mod::lemma_fundamental_div_mod(y, d);
    vstd::arithmetic::div_mod::lemma_fundamental_div_mod(y - 1, d);
    vstd::arithmetic::div_mod::lemma_mod_bound(y, d);
    vstd::arithmetic::div_mod::lemma_mod_bound(y - 1, d);
    let qa = y / d;
    let qb = (y - 1) / d;
    let ra = y % d;
    let rb = (y - 1) % d;
    assert(d * (qa - qb) == 1 + rb - ra) by (nonlinear_arith)
        requires
            y == d * qa + ra,
            y - 1 == d * qb + rb,
    ;
    assert(qa - qb == 0 || qa - qb == 1) by (nonlinear_arith)
        requires
            d * (qa - qb) == 1 + rb - ra,
            0 <= ra < d,
            0 <= rb < d,
            d > 0,
    ;
    if qa - qb == 1 {
        assert(ra == 0) by (nonlinear_arith)
            requires
                d * (qa - qb) == 1 + rb - ra,
                qa - qb == 1,
                0 <= ra < d,
                0 <= rb < d,
        ;
    } else {
        assert(ra == rb + 1);
    }
}

/// A year has 366 days when it is a leap year, else 365.
proof fn lemma_year_length(y: int)
    ensures
        days_before_year(y + 1) - days_before_year(y) == (if is_leap_year(y) { 366int } else { 365int }),
{
    lemma_div_step(y, 4);
    lemma_div_step(y, 100);
    lemma_div_step(y, 400);
    assert(y % 100 == 0 ==> y % 4 == 0) by {
        vstd::arithmetic::div_mod::lemma_fundamental_div_mod(y, 100);
        if y % 100 == 0 {
            let k = y / 100;
            assert(y == 4 * (25 * k)) by (nonlinear_arith)
                requires
                    y == 100 * k + y % 100,
                    y % 100 == 0,
            ;
            vstd::arithmetic::div_mod::lemma_mod_multiples_basic(25 * k, 4);
        }
    }
    assert(y % 400 == 0 ==> y % 100 == 0) by {
        vstd::arithmetic::div_mod::lemma_fundamental_div_mod(y, 400);
        if y % 400 == 0 {
            let k = y / 400;
            assert(y == 100 * (4 * k)) by (nonlinear_arith)
                requires
                    y == 400 * k + y % 400,
                    y % 400 == 0,
            ;
            vstd::arithmetic::div_mod::lemma_mod_multiples_basic(4 * k, 100);
        }
    }
}

/// The days of a month end where the next month begins, and the last month
/// ends with the year.
proof fn lemma_month_end(y: int, m: int)
    requires
        1 <= m <= 12,
    ensures
        m < 12 ==> days_before_month(y, m) + days_in_month(y, m) == days_before_month(y, m + 1),
        m == 12 ==> days_before_month(y, m) + days_in_month(y, m) == (if is_leap_year(y) { 366int } else { 365int }),
{
}

proof fn lemma_month_order(y: int, m1: int, m2: int)
    requires
        1 <= m1 < m2 <= 12,
    ensures
        days_before_month(y, m1) + days_in_month(y, m1) <= days_before_month(y, m2),
    decreases m2 - m1,
{
    lemma_month_end(y, m1);
    if m1 + 1 < m2 {
        lemma_month_order(y, m1 + 1, m2);
        lemma_month_end(y, m1 + 1);
    }
}

/// An existing date that comes earlier by year, month and day has a
/// smaller day number.
pub proof fn lemma_earlier_date_has_smaller_day_number(a: SerializableDate, b: SerializableDate)
    requires
        valid_date(a),
        valid_date(b),
        date_before(a, b),
    ensures
        day_number(a) < day_number(b),
{
    let ya = a.year as int;
    let yb = b.year as int;
    if ya < yb {
        lemma_month_end(ya, a.month as int);
        if a.month < 12 {
            lemma_month_order(ya, a.month as int, 12);
            lemma_month_end(ya, 12);
        }
        lemma_year_length(ya);
        crate::calendar::lemma_days_before_year_grows(ya + 1, yb);
        assert(days_before_month(yb, b.month as int) >= 0);
    } else if a.month < b.month {
        lemma_month_order(ya, a.month as int, b.month as int);
    }
}

/// Existing dates are ordered by their day numbers as they are by year,
/// month and day.
pub proof fn law_day_numbers_follow_the_calendar(a: SerializableDate, b: SerializableDate)
    requires
        valid_date(a),
        valid_date(b),
    ensures
        date_before(a, b) <==> day_number(a) < day_number(b),
        a == b <==> day_number(a) == day_number(b),
{
    if date_before(a, b) {
        lemma_earlier_date_has_smaller_day_number(a, b);
    } else if date_before(b, a) {
        lemma_earlier_date_has_smaller_day_number(b, a);
    } else {
        assert(a == b);
    }
}

} // verus!

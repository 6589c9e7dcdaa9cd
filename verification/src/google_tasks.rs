//! Projects from a Google Tasks takeout: each task list becomes a project,
//! each task a task to do or a done task.
use crate::date::{day_number, valid_date, SerializableDate};
use crate::ids::TaskId;
use crate::ordered_hash_map::OrderedHashMap;
use crate::project::{lemma_task_ids_are_supported_keys, Project, SortMode, Task};
use chrono::{DateTime, Datelike, Local, TimeZone};
use std::collections::HashSet;
use vstd::prelude::*;

verus! {

/// A Google Tasks takeout file: its task lists.
#[derive(Debug, Clone)]
pub struct GoogleTasksFormat {
    pub kind: String,
    pub items: Vec<GoogleTasksList>,
}

#[derive(Debug, Clone)]
pub struct GoogleTasksList {
    pub kind: String,
    pub id: String,
    pub title: String,
    pub updated: Option<String>,
    pub items: Vec<GoogleTasksTask>,
}

#[derive(Debug, Clone)]
pub struct GoogleTasksTask {
    pub kind: String,
    pub id: String,
    pub title: String,
    pub notes: Option<String>,
    pub due: Option<String>,
    pub status: Option<String>,
}

/// The instant, in whole seconds and nanoseconds since the Unix epoch, that
/// an RFC 3339 date and time gives, or `None` when the text is none.
pub uninterp spec fn rfc3339_instant(text: Seq<char>) -> Option<(i64, u32)>;

/// The earliest and latest instants, in seconds since the Unix epoch, that
/// an RFC 3339 text can give: its year has four digits and its offset is
/// less than a day.
pub open spec fn rfc3339_min_secs() -> int {
    -62_167_305_600
}

pub open spec fn rfc3339_max_secs() -> int {
    253_402_387_199
}

/// An instant that an RFC 3339 text can give: within the four-digit years
/// (give or take the offset), and with a leap second only at the end of a
/// minute.
pub open spec fn rfc3339_range(secs: i64, nanos: u32) -> bool {
    &&& rfc3339_min_secs() <= secs <= rfc3339_max_secs()
    &&& nanos < 2_000_000_000
    &&& nanos >= 1_000_000_000 ==> secs % 60 == 59
}

/// `DateTime::parse_from_rfc3339` (chrono), read as the UTC instant it
/// stands for (`timestamp`, `timestamp_subsec_nanos`). The result is named;
/// of an instant that comes out it is stated that it lies in the range the
/// parser accepts: years of four digits, an offset of less than a day, and
/// a leap second (nanoseconds of a second or more) only at second 59.
#[verifier::external_body]
fn parse_rfc3339(text: &str) -> (r: Option<(i64, u32)>)
    ensures
        r == rfc3339_instant(text@),
        r matches Some((secs, nanos)) ==> rfc3339_range(secs, nanos),
{
    match DateTime::parse_from_rfc3339(text) {
        Ok(parsed) => Some((parsed.timestamp(), parsed.timestamp_subsec_nanos())),
        Err(_) => None,
    }
}

/// The day number of the UTC date of an instant given in seconds since the
/// Unix epoch (1970-01-01 is day 719163).
pub open spec fn utc_day_number(secs: int) -> int {
    secs / 86400 + 719163
}

/// `DateTime::from_timestamp` and `Local.from_utc_datetime` (chrono): the
/// date, in the machine's time zone, of a UTC instant. For an instant of
/// the RFC 3339 range a date always comes out. The local time is the UTC
/// time shifted by the zone's offset, which chrono keeps under a day
/// (`FixedOffset::east_opt`), so the date is the instant's UTC date or a
/// neighbour of it; which one rests on the time zone and is not stated.
#[verifier::external_body]
fn local_date_of_instant(secs: i64, nanos: u32) -> (r: Option<SerializableDate>)
    requires
        rfc3339_range(secs, nanos),
    ensures
        r is Some,
        valid_date(r->0),
        utc_day_number(secs as int) - 1 <= day_number(r->0) <= utc_day_number(secs as int) + 1,
{
    DateTime::from_timestamp(secs, nanos).map(|utc| {
        let local = Local.from_utc_datetime(&utc.naive_utc());
        SerializableDate { year: local.year(), month: local.month(), day: local.day() }
    })
}

/// `date` is within a day of the UTC date of the instant that the due text
/// reads as.
pub open spec fn near_due_instant(date: SerializableDate, due: Option<String>) -> bool {
    due matches Some(text) && rfc3339_instant(text@) matches Some((secs, nanos)) && utc_day_number(
        secs as int,
    ) - 1 <= day_number(date) <= utc_day_number(secs as int) + 1
}

/// Tasks whose status is missing or `needsAction` are still to do.
pub open spec fn status_is_todo(status: Option<String>) -> bool {
    match status {
        Some(s) => s@ == "needsAction"@,
        None => true,
    }
}

/// The task made of a Google task: its title, its notes as description,
/// no needed time and no tags; a due date, an existing one, exactly when
/// its due text is there and reads as an RFC 3339 date and time.
pub open spec fn imported_task(task: Task, google: GoogleTasksTask) -> bool {
    &&& task.name@ == google.title@
    &&& task.description@ == (match google.notes {
        Some(n) => n@,
        None => Seq::empty(),
    })
    &&& task.needed_time_minutes is None
    &&& task.tags@ == Set::<u64>::empty()
    &&& task.due_date matches Some(d) ==> valid_date(d) && near_due_instant(d, google.due)
    &&& (task.due_date is Some <==> (google.due matches Some(due) && rfc3339_instant(due@) is Some))
}

/// The id of the task that comes `k` tasks after the first id.
pub open spec fn task_id_at(first_task_id: TaskId, k: int) -> TaskId {
    ((first_task_id + k) % 0x1_0000_0000_0000_0000) as u64
}

/// The ids of the tasks of a list that are (`todo`) or are not still to do,
/// in order, the list's first task getting `first`.
pub open spec fn ids_with_status(tasks: Seq<GoogleTasksTask>, first: TaskId, offset: int, todo: bool) -> Seq<
    TaskId,
>
    decreases tasks.len(),
{
    if tasks.len() == 0 {
        Seq::empty()
    } else {
        let rest = ids_with_status(tasks.drop_last(), first, offset, todo);
        if status_is_todo(tasks.last().status) == todo {
            rest.push(task_id_at(first, offset + tasks.len() - 1))
        } else {
            rest
        }
    }
}

/// The number of tasks in the lists before the given one.
pub open spec fn tasks_before(lists: Seq<GoogleTasksList>, l: int) -> int
    decreases l,
{
    if l <= 0 {
        0
    } else {
        tasks_before(lists, l - 1) + lists[l - 1].items@.len()
    }
}

/// The project made of a Google task list whose first task gets the id
/// `first_task_id` plus `offset`, the others the ids that follow in turn.
pub open spec fn imported_project(
    project: Project,
    list: GoogleTasksList,
    first_task_id: TaskId,
    offset: int,
) -> bool {
    let tasks = list.items@;
    &&& project.name@ == list.title@
    &&& project.color == [255u8, 255u8, 255u8]
    &&& project.sort_mode == SortMode::Manual
    &&& project.task_tags.entries().is_empty()
    &&& project.task_tags.key_order().len() == 0
    &&& project.todo_tasks.key_order() == ids_with_status(tasks, first_task_id, offset, true)
    &&& project.done_tasks.key_order() == ids_with_status(tasks, first_task_id, offset, false)
    &&& project.source_code_todos.entries().is_empty()
    &&& project.source_code_todos.key_order().len() == 0
    &&& forall|k: int|
        0 <= k < tasks.len() ==> {
            let id = #[trigger] task_id_at(first_task_id, offset + k);
            if status_is_todo(tasks[k].status) {
                project.todo_tasks.entries().contains_key(id) && imported_task(
                    project.todo_tasks.entries()[id],
                    tasks[k],
                )
            } else {
                project.done_tasks.entries().contains_key(id) && imported_task(
                    project.done_tasks.entries()[id],
                    tasks[k],
                )
            }
        }
    &&& forall|id: TaskId| #[trigger]
        project.todo_tasks.entries().contains_key(id) ==> project.todo_tasks.key_order().contains(id)
    &&& forall|id: TaskId| #[trigger]
        project.done_tasks.entries().contains_key(id) ==> project.done_tasks.key_order().contains(id)
}

/// The due date of a Google task: its due text read as an RFC 3339 date and
/// time, and the date of that instant in the local time zone. There is one
/// exactly when the text is there and reads as such.
fn due_date_of(due: &Option<String>) -> (r: Option<SerializableDate>)
    ensures
        r matches Some(d) ==> valid_date(d),
        r matches Some(d) ==> near_due_instant(d, *due),
        r is Some <==> (*due matches Some(text) && rfc3339_instant(text@) is Some),
{
    match due {
        Some(text) => match parse_rfc3339(text.as_str()) {
            Some((secs, nanos)) => local_date_of_instant(secs, nanos),
            None => None,
        },
        None => None,
    }
}

fn is_todo(status: &Option<String>) -> (r: bool)
    ensures
        r == status_is_todo(*status),
{
    proof {
        reveal_strlit("needsAction");
    }
    match status {
        Some(s) => *s == String::from_str("needsAction"),
        None => true,
    }
}

/// The task made of a Google task with the given due date.
fn task_of_google_task(google: &GoogleTasksTask) -> (r: Task)
    ensures
        imported_task(r, *google),
{
    let description = match &google.notes {
        Some(notes) => notes.clone(),
        None => String::new(),
    };
    let tags: HashSet<u64> = HashSet::new();
    Task {
        name: google.title.clone(),
        description,
        needed_time_minutes: None,
        due_date: due_date_of(&google.due),
        tags,
    }
}

/// The project made of one Google task list.
fn project_of_list(list: &GoogleTasksList, first_task_id: TaskId, offset: u128) -> (r: Project)
    requires
        offset + list.items@.len() <= u64::MAX + 1,
    ensures
        imported_project(r, *list, first_task_id, offset as int),
{
    proof {
        lemma_task_ids_are_supported_keys();
    }
    let mut project = Project::new(
        list.title.clone(),
        [255u8, 255u8, 255u8],
        OrderedHashMap::new(),
        SortMode::Manual,
    );
    let tasks = &list.items;
    let mut k: usize = 0;
    while k < tasks.len()
        invariant
            k <= tasks@.len(),
            tasks == &list.items,
            offset + tasks@.len() <= u64::MAX + 1,
            project.name@ == list.title@,
            project.color == [255u8, 255u8, 255u8],
            project.sort_mode == SortMode::Manual,
            project.task_tags.entries().is_empty(),
            project.task_tags.key_order().len() == 0,
            project.source_code_todos.entries().is_empty(),
            project.source_code_todos.key_order().len() == 0,
            project.todo_tasks.key_order() == ids_with_status(
                tasks@.take(k as int),
                first_task_id,
                offset as int,
                true,
            ),
            project.done_tasks.key_order() == ids_with_status(
                tasks@.take(k as int),
                first_task_id,
                offset as int,
                false,
            ),
            forall|j: int|
                0 <= j < k ==> {
                    let id = #[trigger] task_id_at(first_task_id, offset + j);
                    if status_is_todo(tasks@[j].status) {
                        project.todo_tasks.entries().contains_key(id) && imported_task(
                            project.todo_tasks.entries()[id],
                            tasks@[j],
                        )
                    } else {
                        project.done_tasks.entries().contains_key(id) && imported_task(
                            project.done_tasks.entries()[id],
                            tasks@[j],
                        )
                    }
                },
            forall|id: TaskId| #[trigger]
                project.todo_tasks.entries().contains_key(id) ==> project.todo_tasks.key_order().contains(id),
            forall|id: TaskId| #[trigger]
                project.done_tasks.entries().contains_key(id) ==> project.done_tasks.key_order().contains(id),
        decreases tasks@.len() - k,
    {
        let google = &tasks[k];
        let task = task_of_google_task(google);
        let id: u64 = ((first_task_id as u128 + offset + k as u128) % 0x1_0000_0000_0000_0000u128) as u64;
        assert(tasks@.take(k + 1).drop_last() =~= tasks@.take(k as int));
        let ghost before_todo = project.todo_tasks.entries();
        let ghost before_done = project.done_tasks.entries();
        let ghost before_todo_order = project.todo_tasks.key_order();
        let ghost before_done_order = project.done_tasks.key_order();
        if is_todo(&google.status) {
            project.todo_tasks.insert(id, task);
        } else {
            project.done_tasks.insert(id, task);
        }
        proof {
            assert forall|j: int| 0 <= j < k implies #[trigger] task_id_at(first_task_id, offset + j) != id by {
                assert(0 <= offset + j < offset + k < 0x1_0000_0000_0000_0000 + 0);
            }
            let todo_order = project.todo_tasks.key_order();
            assert forall|x: TaskId| #[trigger] project.todo_tasks.entries().contains_key(x) implies todo_order.contains(x) by {
                if x == id && todo_order.len() > 0 && todo_order.last() == id {
                    assert(todo_order[todo_order.len() - 1] == x);
                } else {
                    assert(before_todo.contains_key(x));
                    assert(before_todo_order.contains(x));
                    let i = choose|i: int| 0 <= i < before_todo_order.len() && before_todo_order[i] == x;
                    assert(todo_order[i] == x);
                }
            }
            let done_order = project.done_tasks.key_order();
            assert forall|x: TaskId| #[trigger] project.done_tasks.entries().contains_key(x) implies done_order.contains(x) by {
                if x == id && done_order.len() > 0 && done_order.last() == id {
                    assert(done_order[done_order.len() - 1] == x);
                } else {
                    assert(before_done.contains_key(x));
                    assert(before_done_order.contains(x));
                    let i = choose|i: int| 0 <= i < before_done_order.len() && before_done_order[i] == x;
                    assert(done_order[i] == x);
                }
            }
        }
        k = k + 1;
    }
    assert(tasks@.take(tasks@.len() as int) =~= tasks@);
    project
}

/// The projects of a Google Tasks takeout: one per task list, named after
/// it, white and sorted manually; its tasks with a missing or
/// `needsAction` status go to the tasks to do, the others to the done
/// tasks. The tasks get the ids `first_task_id`, `first_task_id + 1`, …
/// (wrapping) in the order of the file.
pub fn google_tasks_projects(format: &GoogleTasksFormat, first_task_id: TaskId) -> (r: Vec<Project>)
    requires
        tasks_before(format.items@, format.items@.len() as int) <= u64::MAX + 1,
    ensures
        r@.len() == format.items@.len(),
        forall|l: int|
            0 <= l < r@.len() ==> imported_project(
                #[trigger] r@[l],
                format.items@[l],
                first_task_id,
                tasks_before(format.items@, l),
            ),
{
    let lists = &format.items;
    let mut projects: Vec<Project> = Vec::new();
    let mut offset: u128 = 0;
    let mut l: usize = 0;
    while l < lists.len()
        invariant
            l <= lists@.len(),
            lists == &format.items,
            tasks_before(lists@, lists@.len() as int) <= u64::MAX + 1,
            offset == tasks_before(lists@, l as int),
            projects@.len() == l,
            forall|m: int|
                0 <= m < l ==> imported_project(
                    #[trigger] projects@[m],
                    lists@[m],
                    first_task_id,
                    tasks_before(lists@, m),
                ),
        decreases lists@.len() - l,
    {
        proof {
            lemma_tasks_before_grows(lists@, l as int + 1, lists@.len() as int);
        }
        let project = project_of_list(&lists[l], first_task_id, offset);
        projects.push(project);
        offset = offset + lists[l].items.len() as u128;
        l = l + 1;
    }
    projects
}

proof fn lemma_tasks_before_grows(lists: Seq<GoogleTasksList>, a: int, b: int)
    requires
        0 <= a <= b <= lists.len(),
    ensures
        tasks_before(lists, a) <= tasks_before(lists, b),
    decreases b - a,
{
    if a < b {
        lemma_tasks_before_grows(lists, a, b - 1);
    }
}

} // verus!

verus! {

/// The tasks of one import get pairwise different ids.
pub proof fn law_imported_task_ids_differ(first_task_id: TaskId, a: int, b: int)
    requires
        0 <= a < b <= u64::MAX,
    ensures
        task_id_at(first_task_id, a) != task_id_at(first_task_id, b),
{
}


/// The due date of an imported task is the date of the instant its due text
/// stands for, as seen in the machine's time zone: it is the instant's UTC
/// date or the day before or after, whatever day it is today.
pub proof fn law_due_dates_follow_the_due_text(task: Task, google: GoogleTasksTask, secs: i64, nanos: u32)
    requires
        imported_task(task, google),
        google.due matches Some(text) && rfc3339_instant(text@) == Some((secs, nanos)),
    ensures
        task.due_date is Some,
        utc_day_number(secs as int) - 1 <= day_number(task.due_date->0) <= utc_day_number(secs as int) + 1,
{
}

} // verus!

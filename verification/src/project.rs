//! Projects and their tasks, as far as the task lists read them, and the
//! orders in which tasks can be listed.
use crate::date::{date_before, day_number, law_day_numbers_follow_the_calendar, valid_date, SerializableDate};
use crate::ids::{TaskId, TaskTagId};
use crate::ordered_hash_map::{supported_key, OrderedHashMap};
use crate::settings_modal::Bootstrap;
use crate::stable_order::{
    antisymmetric, keeps_ties, lemma_swap_keeps_key_classes, ordered_by,
};
use std::collections::HashSet;
use vstd::prelude::*;

verus! {

/// How the tasks of a project are listed.
#[derive(Debug, Clone, Copy, PartialEq, Eq, Structural)]
pub enum SortMode {
    Manual,
    DueDate,
    NeededTime,
}

impl Default for SortMode {
    fn default() -> (r: Self)
        ensures
            r == SortMode::Manual,
    {
        SortMode::Manual
    }
}

/// Where a task stands.
#[derive(Debug, Clone, Copy, PartialEq, Eq, Structural)]
pub enum TaskType {
    Todo,
    Done,
    SourceCodeTodo,
}

/// A task, as far as the task lists read it.
#[derive(Debug)]
pub struct Task {
    pub name: String,
    pub description: String,
    pub needed_time_minutes: Option<usize>,
    pub due_date: Option<SerializableDate>,
    pub tags: HashSet<TaskTagId>,
}

/// `HashSet::is_subset` (std): whether every value of `a` is in `b`.
#[verifier::external_body]
fn hash_set_is_subset(a: &HashSet<TaskTagId>, b: &HashSet<TaskTagId>) -> (r: bool)
    ensures
        r == a@.subset_of(b@),
{
    a.is_subset(b)
}

impl Task {
    /// The task has every tag of the filter.
    pub fn matches_filter(&self, filter: &HashSet<TaskTagId>) -> (r: bool)
        ensures
            r == filter@.subset_of(self.tags@),
    {
        hash_set_is_subset(filter, &self.tags)
    }
}

/// A tag that tasks of a project can carry.
#[derive(Debug, Clone)]
pub struct TaskTag {
    pub name: String,
    pub color: [u8; 3],
}

/// A project: its name and color, its task tags, its tasks by where they
/// stand, each kind in its own order, and how its tasks are listed.
#[derive(Debug)]
pub struct Project {
    pub name: String,
    pub color: [u8; 3],
    pub task_tags: OrderedHashMap<TaskTagId, TaskTag>,
    pub todo_tasks: OrderedHashMap<TaskId, Task>,
    pub done_tasks: OrderedHashMap<TaskId, Task>,
    pub source_code_todos: OrderedHashMap<TaskId, Task>,
    /// The folder whose source code to-dos were imported last.
    pub source_code_directory: Option<String>,
    pub sort_mode: SortMode,
}

/// The task with the given id: a task to do, a done task or a to-do of the
/// source code, looked up in that order.
pub open spec fn task_of(project: Project, id: TaskId) -> Option<Task> {
    if project.todo_tasks.entries().contains_key(id) {
        Some(project.todo_tasks.entries()[id])
    } else if project.done_tasks.entries().contains_key(id) {
        Some(project.done_tasks.entries()[id])
    } else if project.source_code_todos.entries().contains_key(id) {
        Some(project.source_code_todos.entries()[id])
    } else {
        None
    }
}

pub proof fn lemma_task_ids_are_supported_keys()
    ensures
        supported_key::<TaskId>(),
{
    broadcast use vstd::std_specs::hash::group_hash_axioms;
    broadcast use vstd::laws_eq::group_laws_eq;
}

impl Project {
    /// A project with the given task tags and without tasks.
    pub fn new(
        name: String,
        color: [u8; 3],
        task_tags: OrderedHashMap<TaskTagId, TaskTag>,
        sort_mode: SortMode,
    ) -> (r: Self)
        ensures
            r.name == name,
            r.color == color,
            r.task_tags == task_tags,
            r.sort_mode == sort_mode,
            r.todo_tasks.entries().is_empty(),
            r.todo_tasks.key_order().len() == 0,
            r.done_tasks.entries().is_empty(),
            r.done_tasks.key_order().len() == 0,
            r.source_code_todos.entries().is_empty(),
            r.source_code_todos.key_order().len() == 0,
            r.source_code_directory is None,
    {
        Project {
            name,
            color,
            task_tags,
            todo_tasks: OrderedHashMap::new(),
            done_tasks: OrderedHashMap::new(),
            source_code_todos: OrderedHashMap::new(),
            source_code_directory: None,
            sort_mode,
        }
    }

    /// The task with the given id, wherever it stands.
    pub fn get_task(&self, id: &TaskId) -> (r: Option<&Task>)
        ensures
            match r {
                Some(t) => task_of(*self, *id) == Some(*t),
                None => task_of(*self, *id) is None,
            },
    {
        proof {
            lemma_task_ids_are_supported_keys();
        }
        match self.todo_tasks.get(id) {
            Some(t) => Some(t),
            None => match self.done_tasks.get(id) {
                Some(t) => Some(t),
                None => self.source_code_todos.get(id),
            },
        }
    }
}

/// What a task is sorted by: a rank that puts tasks with and without the
/// value first or last, then the value itself.
#[derive(Debug, Clone, Copy, PartialEq, Eq, Structural)]
pub struct SortKey {
    pub rank: u8,
    pub first: i64,
    pub second: u64,
    pub third: u64,
}

/// Keys in lexicographic order.
pub open spec fn key_le(a: SortKey, b: SortKey) -> bool {
    ||| a.rank < b.rank
    ||| a.rank == b.rank && a.first < b.first
    ||| a.rank == b.rank && a.first == b.first && a.second < b.second
    ||| a.rank == b.rank && a.first == b.first && a.second == b.second && a.third <= b.third
}

/// The key of a task for a sort mode. Tasks with a value come before those
/// without one when `unspecified_at_bottom` holds, after them otherwise;
/// dates are ordered by year, month and day. A task that the project does
/// not hold counts as one without a value.
pub open spec fn sort_key_of(
    project: Project,
    mode: SortMode,
    unspecified_at_bottom: bool,
    id: TaskId,
) -> SortKey {
    let specified: u8 = if unspecified_at_bottom { 0 } else { 1 };
    let unspecified: u8 = if unspecified_at_bottom { 1 } else { 0 };
    let none = SortKey { rank: unspecified, first: 0, second: 0, third: 0 };
    match task_of(project, id) {
        Some(task) => match mode {
            SortMode::DueDate => match task.due_date {
                Some(d) => SortKey {
                    rank: specified,
                    first: d.year as i64,
                    second: d.month as u64,
                    third: d.day as u64,
                },
                None => none,
            },
            SortMode::NeededTime => match task.needed_time_minutes {
                Some(m) => SortKey { rank: specified, first: 0, second: m as u64, third: 0 },
                None => none,
            },
            SortMode::Manual => none,
        },
        None => none,
    }
}

/// The ids are in ascending order of their keys.
pub open spec fn sorted_by_key(
    ids: Seq<TaskId>,
    project: Project,
    mode: SortMode,
    unspecified_at_bottom: bool,
) -> bool {
    forall|i: int, j: int|
        0 <= i < j < ids.len() ==> key_le(
            #[trigger] sort_key_of(project, mode, unspecified_at_bottom, ids[i]),
            #[trigger] sort_key_of(project, mode, unspecified_at_bottom, ids[j]),
        )
}

/// The key of each task id for a sort mode.
pub open spec fn task_sort_key(project: Project, mode: SortMode, unspecified_at_bottom: bool) -> spec_fn(
    TaskId,
) -> SortKey {
    |id: TaskId| sort_key_of(project, mode, unspecified_at_bottom, id)
}

/// The lexicographic order of keys.
pub open spec fn sort_key_order() -> spec_fn(SortKey, SortKey) -> bool {
    |a: SortKey, b: SortKey| key_le(a, b)
}

/// Keys that are each at most the other are the same key.
pub proof fn lemma_sort_key_order_antisymmetric()
    ensures
        antisymmetric(sort_key_order()),
{
}

/// Ids in ascending order of their keys are ordered by the key order.
pub proof fn lemma_sorted_is_ordered(ids: Seq<TaskId>, project: Project, mode: SortMode, unspecified_at_bottom: bool)
    requires
        sorted_by_key(ids, project, mode, unspecified_at_bottom),
    ensures
        ordered_by(ids, task_sort_key(project, mode, unspecified_at_bottom), sort_key_order()),
{
    let key = task_sort_key(project, mode, unspecified_at_bottom);
    assert forall|i: int, j: int| 0 <= i < j < ids.len() implies (sort_key_order())(
        #[trigger] key(ids[i]),
        #[trigger] key(ids[j]),
    ) by {
        assert(key_le(sort_key_of(project, mode, unspecified_at_bottom, ids[i]), sort_key_of(project, mode, unspecified_at_bottom, ids[j])));
    }
}

fn sort_key(project: &Project, mode: SortMode, unspecified_at_bottom: bool, id: &TaskId) -> (r:
    SortKey)
    ensures
        r == sort_key_of(*project, mode, unspecified_at_bottom, *id),
{
    let specified: u8 = if unspecified_at_bottom { 0 } else { 1 };
    let unspecified: u8 = if unspecified_at_bottom { 1 } else { 0 };
    let none = SortKey { rank: unspecified, first: 0, second: 0, third: 0 };
    match project.get_task(id) {
        Some(task) => match mode {
            SortMode::DueDate => match task.due_date {
                Some(d) => SortKey {
                    rank: specified,
                    first: d.year as i64,
                    second: d.month as u64,
                    third: d.day as u64,
                },
                None => none,
            },
            SortMode::NeededTime => match task.needed_time_minutes {
                Some(m) => SortKey { rank: specified, first: 0, second: m as u64, third: 0 },
                None => none,
            },
            SortMode::Manual => none,
        },
        None => none,
    }
}

fn key_less_or_equal(a: &SortKey, b: &SortKey) -> (r: bool)
    ensures
        r == key_le(*a, *b),
{
    a.rank < b.rank || (a.rank == b.rank && (a.first < b.first || (a.first == b.first && (a.second
        < b.second || (a.second == b.second && a.third <= b.third)))))
}

impl SortMode {
    pub const ALL: [SortMode; 3] = [SortMode::Manual, SortMode::DueDate, SortMode::NeededTime];

    pub fn as_str(&self) -> (r: &'static str)
        ensures
            r@ == (match self {
                SortMode::Manual => "Manual"@,
                SortMode::DueDate => "Due Date"@,
                SortMode::NeededTime => "Needed Time"@,
            }),
    {
        match self {
            SortMode::Manual => "Manual",
            SortMode::DueDate => "Due Date",
            SortMode::NeededTime => "Needed Time",
        }
    }

    pub fn icon(&self) -> (r: Bootstrap)
        ensures
            r == (match self {
                SortMode::Manual => Bootstrap::SortDown,
                _ => Bootstrap::SortNumericDown,
            }),
    {
        match self {
            SortMode::Manual => Bootstrap::SortDown,
            SortMode::DueDate | SortMode::NeededTime => Bootstrap::SortNumericDown,
        }
    }

    /// Sorts task ids of the project: by due date or by needed time, tasks
    /// without a value first or last. The manual mode keeps the order. The
    /// sort is stable: tasks with equal keys keep their order.
    pub fn sort(&self, project: &Project, tasks: &mut Vec<TaskId>, unspecified_at_bottom: bool)
        ensures
            final(tasks)@.to_multiset() == old(tasks)@.to_multiset(),
            *self == SortMode::Manual ==> final(tasks)@ == old(tasks)@,
            sorted_by_key(final(tasks)@, *project, *self, unspecified_at_bottom),
            keeps_ties(final(tasks)@, old(tasks)@, task_sort_key(*project, *self, unspecified_at_bottom)),
    {
        match self {
            SortMode::Manual => {
                assert forall|i: int, j: int| 0 <= i < j < tasks@.len() implies key_le(
                    #[trigger] sort_key_of(*project, *self, unspecified_at_bottom, tasks@[i]),
                    #[trigger] sort_key_of(*project, *self, unspecified_at_bottom, tasks@[j]),
                ) by {}
            },
            _ => sort_by_key(project, *self, unspecified_at_bottom, tasks),
        }
    }
}

/// Insertion sort of task ids by their keys; ids with equal keys keep their
/// order.
fn sort_by_key(project: &Project, mode: SortMode, unspecified_at_bottom: bool, ids: &mut Vec<TaskId>)
    ensures
        final(ids)@.to_multiset() == old(ids)@.to_multiset(),
        sorted_by_key(final(ids)@, *project, mode, unspecified_at_bottom),
        keeps_ties(final(ids)@, old(ids)@, task_sort_key(*project, mode, unspecified_at_bottom)),
{
    broadcast use vstd::seq_lib::to_multiset_update;
    broadcast use vstd::multiset::group_multiset_properties;

    let ghost key = task_sort_key(*project, mode, unspecified_at_bottom);
    let n = ids.len();
    let mut i: usize = 1;
    if n == 0 {
        return;
    }
    while i < n
        invariant
            1 <= i <= n,
            n == ids@.len(),
            ids@.to_multiset() == old(ids)@.to_multiset(),
            key == task_sort_key(*project, mode, unspecified_at_bottom),
            keeps_ties(ids@, old(ids)@, key),
            forall|a: int, b: int| 0 <= a < b < i ==> key_le(#[trigger] key(ids@[a]), #[trigger] key(ids@[b])),
        decreases n - i,
    {
        let mut j: usize = i;
        while j > 0
            invariant
                1 <= i < n,
                0 <= j <= i,
                n == ids@.len(),
                ids@.to_multiset() == old(ids)@.to_multiset(),
                key == task_sort_key(*project, mode, unspecified_at_bottom),
                keeps_ties(ids@, old(ids)@, key),
                forall|a: int, b: int| 0 <= a < b < j ==> key_le(#[trigger] key(ids@[a]), #[trigger] key(ids@[b])),
                forall|a: int, b: int| j < a < b <= i ==> key_le(#[trigger] key(ids@[a]), #[trigger] key(ids@[b])),
                forall|a: int, b: int| 0 <= a < j && j < b <= i ==> key_le(#[trigger] key(ids@[a]), #[trigger] key(ids@[b])),
                forall|b: int| j < b <= i ==> key_le(key(ids@[j as int]), #[trigger] key(ids@[b])),
            ensures
                n == ids@.len(),
                ids@.to_multiset() == old(ids)@.to_multiset(),
                keeps_ties(ids@, old(ids)@, key),
                forall|a: int, b: int| 0 <= a < b <= i ==> key_le(#[trigger] key(ids@[a]), #[trigger] key(ids@[b])),
            decreases j,
        {
            let before = sort_key(project, mode, unspecified_at_bottom, &ids[j - 1]);
            let current = sort_key(project, mode, unspecified_at_bottom, &ids[j]);
            if key_less_or_equal(&before, &current) {
                assert forall|a: int, b: int| 0 <= a < b <= i implies key_le(#[trigger] key(ids@[a]), #[trigger] key(ids@[b])) by {
                    if b == j && a < j - 1 {
                        assert(key_le(key(ids@[a]), key(ids@[j - 1])));
                    }
                }
                break;
            }
            let ghost s = ids@;
            let left = ids[j - 1];
            let right = ids[j];
            ids.set(j - 1, right);
            ids.set(j, left);
            proof {
                let s1 = s.update(j - 1, right);
                assert(ids@ == s1.update(j as int, left));
                assert(s1[j as int] == right);
                vstd::seq_lib::to_multiset_update(s, j - 1, right);
                vstd::seq_lib::to_multiset_update(s1, j as int, left);
                assert(s[j - 1] == left);
                vstd::seq_lib::to_multiset_contains(s, left);
                assert(s1[j - 1] == right);
                vstd::seq_lib::to_multiset_contains(s1, right);
                broadcast use vstd::multiset::group_multiset_axioms;
                assert(ids@.to_multiset() =~= s.to_multiset());
                assert(key(s[j - 1]) != key(s[j as int]));
                lemma_swap_keeps_key_classes(s, j - 1, key);
                assert(ids@ == s.update(j - 1, s[j as int]).update(j as int, s[j - 1]));
            }
            j = j - 1;
        }
        i = i + 1;
    }
    assert forall|a: int, b: int| 0 <= a < b < ids@.len() implies key_le(
        #[trigger] sort_key_of(*project, mode, unspecified_at_bottom, ids@[a]),
        #[trigger] sort_key_of(*project, mode, unspecified_at_bottom, ids@[b]),
    ) by {
        assert(key_le(key(ids@[a]), key(ids@[b])));
    }
}


/// The due date of a task of the project, if it has one.
pub open spec fn due_of(project: Project, id: TaskId) -> Option<SerializableDate> {
    match task_of(project, id) {
        Some(task) => task.due_date,
        None => None,
    }
}

/// Sorted by due date, tasks with existing due dates come in calendar
/// order: an earlier task is not due later than a later one.
pub proof fn law_due_date_sort_follows_the_calendar(
    ids: Seq<TaskId>,
    project: Project,
    unspecified_at_bottom: bool,
    i: int,
    j: int,
)
    requires
        sorted_by_key(ids, project, SortMode::DueDate, unspecified_at_bottom),
        0 <= i < j < ids.len(),
        due_of(project, ids[i]) is Some,
        due_of(project, ids[j]) is Some,
        valid_date(due_of(project, ids[i])->0),
        valid_date(due_of(project, ids[j])->0),
    ensures
        day_number(due_of(project, ids[i])->0) <= day_number(due_of(project, ids[j])->0),
{
    let a = due_of(project, ids[i])->0;
    let b = due_of(project, ids[j])->0;
    assert(key_le(
        sort_key_of(project, SortMode::DueDate, unspecified_at_bottom, ids[i]),
        sort_key_of(project, SortMode::DueDate, unspecified_at_bottom, ids[j]),
    ));
    law_day_numbers_follow_the_calendar(a, b);
    law_day_numbers_follow_the_calendar(b, a);
}

} // verus!

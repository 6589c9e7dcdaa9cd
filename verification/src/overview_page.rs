//! The overview: the tasks still to do that have a due date, by date and
//! project, and the calendar that shows them.
use crate::calendar::{
    anchor, three_days_backward, three_days_forward, view_can_move, view_movable, week_backward,
    week_forward, CalendarView,
};
use crate::clock::{system_time_is_earlier, system_time_now};
use crate::database::{lemma_project_ids_are_supported_keys, Database};
use crate::date::{day_number, valid_date, FirstWeekday, SerializableDate};
use crate::ids::{ProjectId, TaskId};
use crate::ordered_hash_map::OrderedHashMap;
use crate::preferences::{same_settings, Preferences, SerializedOverviewPage};
use crate::project::{lemma_task_ids_are_supported_keys, Project, Task};
use std::time::SystemTime;
use vstd::prelude::*;

verus! {

/// A task to do with a due date: the date, its project and its id.
pub type DueTask = (SerializableDate, ProjectId, TaskId);

/// The due tasks of a map of tasks, in its order.
pub open spec fn due_tasks_of_map(order: Seq<TaskId>, entries: Map<TaskId, Task>, project_id: ProjectId) -> Seq<
    DueTask,
>
    decreases order.len(),
{
    if order.len() == 0 {
        Seq::empty()
    } else {
        let rest = due_tasks_of_map(order.drop_last(), entries, project_id);
        let id = order.last();
        if entries.contains_key(id) {
            match entries[id].due_date {
                Some(date) => rest.push((date, project_id, id)),
                None => rest,
            }
        } else {
            rest
        }
    }
}

/// The due tasks of a project: its tasks to do, then its to-dos of the
/// source code; done tasks are left out.
pub open spec fn due_tasks_of_project(project_id: ProjectId, project: Project) -> Seq<DueTask> {
    due_tasks_of_map(project.todo_tasks.key_order(), project.todo_tasks.entries(), project_id)
        + due_tasks_of_map(
        project.source_code_todos.key_order(),
        project.source_code_todos.entries(),
        project_id,
    )
}

/// The due tasks of the projects, in their order.
pub open spec fn due_tasks_of_projects(order: Seq<ProjectId>, entries: Map<ProjectId, Project>) -> Seq<
    DueTask,
>
    decreases order.len(),
{
    if order.len() == 0 {
        Seq::empty()
    } else {
        let rest = due_tasks_of_projects(order.drop_last(), entries);
        let id = order.last();
        if entries.contains_key(id) {
            rest + due_tasks_of_project(id, entries[id])
        } else {
            rest
        }
    }
}

pub open spec fn due_tasks_of(database: Option<&Database>) -> Seq<DueTask> {
    match database {
        Some(db) => due_tasks_of_projects(db.projects.key_order(), db.projects.entries()),
        None => Seq::empty(),
    }
}

/// The tasks due on a date, by project: each project once, with its tasks
/// in order, the projects in the order of the due tasks.
pub open spec fn tasks_due_on(due: Seq<DueTask>, date: SerializableDate) -> Seq<(ProjectId, Seq<TaskId>)>
    decreases due.len(),
{
    if due.len() == 0 {
        Seq::empty()
    } else {
        let rest = tasks_due_on(due.drop_last(), date);
        let (d, project_id, task_id) = due.last();
        if d != date {
            rest
        } else if rest.len() > 0 && rest.last().0 == project_id {
            rest.update(rest.len() - 1, (project_id, rest.last().1.push(task_id)))
        } else {
            rest.push((project_id, seq![task_id]))
        }
    }
}

/// The calendar view `w` that a navigation message makes of `view`: one of
/// the same kind with an existing date; for today, the clock's day decides.
pub open spec fn navigated(view: CalendarView, w: CalendarView, message: Message, first: FirstWeekday) -> bool {
    &&& (w is Week <==> view is Week)
    &&& valid_date(anchor(w))
    &&& match message {
        Message::GoForward => day_number(anchor(w)) == match view {
            CalendarView::Week { week_day } => week_forward(day_number(week_day), first),
            CalendarView::ThreeDays { first_date } => three_days_forward(day_number(first_date)),
        },
        Message::GoBackward => day_number(anchor(w)) == match view {
            CalendarView::Week { week_day } => week_backward(day_number(week_day), first),
            CalendarView::ThreeDays { first_date } => three_days_backward(day_number(first_date)),
        },
        _ => true,
    }
}

/// The preferences after their calendar view moved by a navigation message:
/// only the view changed, and as `navigated` says.
pub open spec fn calendar_moved(p: Preferences, after: Option<Preferences>, view: CalendarView, message: Message) -> bool {
    &&& after is Some
    &&& after->0.last_saved_time == p.last_saved_time
    &&& after->0.serialized_overview_page is Calendar
    &&& navigated(view, after->0.serialized_overview_page->view, message, p.first_day_of_week)
    &&& same_settings(after->0, Preferences { serialized_overview_page: after->0.serialized_overview_page, ..p })
}

#[derive(Debug, Clone, Copy, PartialEq, Eq)]
pub enum Message {
    RefreshCachedTaskList,
    GoForward,
    GoBackward,
    GoToToday,
}

/// The overview's due tasks and when they were collected.
#[derive(Debug)]
pub struct Page {
    pub tasks: Vec<DueTask>,
    pub cache_time: SystemTime,
}

/// Appends the due tasks of a map of tasks.
fn push_due_tasks(due: &mut Vec<DueTask>, tasks: &OrderedHashMap<TaskId, Task>, project_id: ProjectId)
    ensures
        final(due)@ == old(due)@ + due_tasks_of_map(tasks.key_order(), tasks.entries(), project_id),
{
    proof {
        lemma_task_ids_are_supported_keys();
    }
    let order = tasks.keys();
    let ghost start = due@;
    let mut i: usize = 0;
    while i < order.len()
        invariant
            i <= order@.len(),
            order@ == tasks.key_order(),
            due@ == start + due_tasks_of_map(tasks.key_order().take(i as int), tasks.entries(), project_id),
        decreases order@.len() - i,
    {
        let id = order[i];
        assert(tasks.key_order().take(i + 1).drop_last() =~= tasks.key_order().take(i as int));
        match tasks.get(&id) {
            Some(task) => match task.due_date {
                Some(date) => {
                    due.push((date, project_id, id));
                },
                None => {},
            },
            None => {},
        }
        i = i + 1;
        assert(due@ =~= start + due_tasks_of_map(tasks.key_order().take(i as int), tasks.entries(), project_id));
    }
    assert(tasks.key_order().take(order@.len() as int) =~= tasks.key_order());
}

/// The due tasks of the database's projects.
fn collect_due_tasks(database: Option<&Database>) -> (r: Vec<DueTask>)
    ensures
        r@ == due_tasks_of(database),
{
    let mut due: Vec<DueTask> = Vec::new();
    match database {
        Some(db) => {
            proof {
                lemma_project_ids_are_supported_keys();
            }
            let projects = db.projects();
            let order = projects.keys();
            let mut i: usize = 0;
            while i < order.len()
                invariant
                    i <= order@.len(),
                    order@ == projects.key_order(),
                    *projects == db.projects,
                    due@ == due_tasks_of_projects(projects.key_order().take(i as int), projects.entries()),
                decreases order@.len() - i,
            {
                let id = order[i];
                assert(projects.key_order().take(i + 1).drop_last() =~= projects.key_order().take(i as int));
                match projects.get(&id) {
                    Some(project) => {
                        let ghost before = due@;
                        push_due_tasks(&mut due, &project.todo_tasks, id);
                        push_due_tasks(&mut due, &project.source_code_todos, id);
                        assert(due@ =~= before + due_tasks_of_project(id, *project));
                    },
                    None => {},
                }
                i = i + 1;
            }
            assert(projects.key_order().take(order@.len() as int) =~= projects.key_order());
        },
        None => {},
    }
    due
}

pub open spec fn groups_model(groups: Seq<(ProjectId, Vec<TaskId>)>) -> Seq<(ProjectId, Seq<TaskId>)> {
    groups.map_values(|g: (ProjectId, Vec<TaskId>)| (g.0, g.1@))
}

/// What a message does to the overview page: `before` and `after` are the
/// page and `prefs_before` and `prefs_after` the preferences around it.
pub open spec fn overview_page_update(
    before: Page,
    after: Page,
    message: Message,
    database: Option<&Database>,
    prefs_before: Option<Preferences>,
    prefs_after: Option<Preferences>,
) -> bool {
    &&& match message {
        Message::RefreshCachedTaskList => {
            &&& prefs_after == prefs_before
            &&& (after == before || (database is Some && after.tasks@ == due_tasks_of(database)))
        },
        _ => {
            &&& after == before
            &&& match prefs_before {
                None => prefs_after is None,
                Some(p) => match p.serialized_overview_page {
                    SerializedOverviewPage::Calendar { view } => if message is GoToToday
                        || view_movable(view) {
                        calendar_moved(p, prefs_after, view, message)
                    } else {
                        prefs_after == Some(p)
                    },
                    SerializedOverviewPage::List => prefs_after == Some(p),
                },
            }
        },
    }
}

impl Page {
    /// The overview of a database: its due tasks, collected now.
    pub fn new(database: Option<&Database>) -> (r: Self)
        ensures
            r.tasks@ == due_tasks_of(database),
    {
        Page { tasks: collect_due_tasks(database), cache_time: system_time_now() }
    }

    /// The tasks due on a date, by project.
    pub fn tasks_on(&self, date: SerializableDate) -> (r: Vec<(ProjectId, Vec<TaskId>)>)
        ensures
            groups_model(r@) == tasks_due_on(self.tasks@, date),
    {
        let mut groups: Vec<(ProjectId, Vec<TaskId>)> = Vec::new();
        let mut i: usize = 0;
        assert(groups_model(groups@) =~= tasks_due_on(self.tasks@.take(0), date));
        while i < self.tasks.len()
            invariant
                i <= self.tasks@.len(),
                groups_model(groups@) == tasks_due_on(self.tasks@.take(i as int), date),
            decreases self.tasks@.len() - i,
        {
            let (d, project_id, task_id) = self.tasks[i];
            assert(self.tasks@.take(i + 1).drop_last() =~= self.tasks@.take(i as int));
            let ghost before = groups_model(groups@);
            if d == date {
                let n = groups.len();
                if n > 0 && groups[n - 1].0 == project_id {
                    let (p, mut ids) = groups.pop().unwrap();
                    let ghost old_ids = ids@;
                    ids.push(task_id);
                    groups.push((p, ids));
                    assert(groups_model(groups@) =~= before.update(n - 1, (project_id, old_ids.push(task_id))));
                } else {
                    let mut ids: Vec<TaskId> = Vec::new();
                    ids.push(task_id);
                    groups.push((project_id, ids));
                    assert(groups_model(groups@) =~= before.push((project_id, seq![task_id])));
                }
            }
            i = i + 1;
        }
        assert(self.tasks@.take(self.tasks@.len() as int) =~= self.tasks@);
        groups
    }

    /// Collects the due tasks again when the database changed after they
    /// were collected; moves the calendar of the preferences a week or a
    /// day forward or backward, or to today.
    pub fn update(&mut self, message: Message, database: Option<&Database>, preferences: &mut Option<Preferences>)
        ensures
            overview_page_update(*old(self), *final(self), message, database, *old(preferences), *final(preferences)),
    {
        match message {
            Message::RefreshCachedTaskList => {
                if let Some(db) = database {
                    if system_time_is_earlier(&self.cache_time, &db.last_changed_time) {
                        *self = Page::new(database);
                    }
                }
            },
            Message::GoForward | Message::GoBackward | Message::GoToToday => {
                if let Some(p) = preferences {
                    if let SerializedOverviewPage::Calendar { view } = p.serialized_overview_page {
                        let first_weekday = p.first_day_of_week;
                        let new_view = match message {
                            Message::GoToToday => match view {
                                CalendarView::Week { .. } => Some(CalendarView::current_week()),
                                CalendarView::ThreeDays { .. } => Some(CalendarView::current_three_days()),
                            },
                            _ => if view_can_move(view, first_weekday) {
                                match message {
                                    Message::GoForward => Some(view.go_forward(first_weekday)),
                                    _ => Some(view.go_backward(first_weekday)),
                                }
                            } else {
                                None
                            },
                        };
                        if let Some(v) = new_view {
                            p.set_serialized_overview_page(SerializedOverviewPage::Calendar { view: v });
                        }
                    }
                }
            },
        }
    }
}

} // verus!

verus! {

/// Every due task of a map of tasks is one of its tasks, under its own due
/// date and the given project.
pub proof fn law_due_tasks_have_their_dates(order: Seq<TaskId>, entries: Map<TaskId, Task>, project_id: ProjectId)
    ensures
        forall|i: int|
            0 <= i < due_tasks_of_map(order, entries, project_id).len() ==> {
                let (d, p, t) = #[trigger] due_tasks_of_map(order, entries, project_id)[i];
                &&& p == project_id
                &&& entries.contains_key(t)
                &&& entries[t].due_date == Some(d)
            },
    decreases order.len(),
{
    if order.len() > 0 {
        law_due_tasks_have_their_dates(order.drop_last(), entries, project_id);
    }
}

} // verus!

//! What the row of a task in a task list shows, and in which order the tag
//! buttons of a task are listed.
use crate::date::{valid_date, SerializableDate};
use crate::date_widget::{days_left_widget, is_days_left_label, DaysLeftLabel};
use crate::ids::TaskTagId;
use crate::project::{Project, SortMode, Task, TaskType};
use std::collections::HashSet;
use vstd::prelude::*;

verus! {

/// The tag ids of `order` that `tags` holds, in that order.
pub open spec fn carried_tags(order: Seq<TaskTagId>, tags: Set<TaskTagId>) -> Seq<TaskTagId>
    decreases order.len(),
{
    if order.len() == 0 {
        Seq::empty()
    } else {
        let rest = carried_tags(order.drop_last(), tags);
        if tags.contains(order.last()) {
            rest.push(order.last())
        } else {
            rest
        }
    }
}

/// The tag ids of `order` that `enabled` holds (for `flag`) or lacks (for
/// `!flag`), in that order, each paired with `flag`.
pub open spec fn tags_with_flag(order: Seq<TaskTagId>, enabled: Set<TaskTagId>, flag: bool) -> Seq<
    (TaskTagId, bool),
>
    decreases order.len(),
{
    if order.len() == 0 {
        Seq::empty()
    } else {
        let rest = tags_with_flag(order.drop_last(), enabled, flag);
        if enabled.contains(order.last()) == flag {
            rest.push((order.last(), flag))
        } else {
            rest
        }
    }
}

/// The tags of a project as buttons: first the enabled ones, then the
/// others, each group in the project's tag order, each tag with whether it
/// is enabled.
pub fn task_tag_list(project: &Project, enabled_tags: &HashSet<TaskTagId>) -> (r: Vec<
    (TaskTagId, bool),
>)
    ensures
        r@ == tags_with_flag(project.task_tags.key_order(), enabled_tags@, true) + tags_with_flag(
            project.task_tags.key_order(),
            enabled_tags@,
            false,
        ),
{
    let order = project.task_tags.keys();
    let mut list: Vec<(TaskTagId, bool)> = Vec::new();
    let mut flag_index: usize = 0;
    while flag_index < 2
        invariant
            flag_index <= 2,
            order@ == project.task_tags.key_order(),
            flag_index == 0 ==> list@ == Seq::<(TaskTagId, bool)>::empty(),
            flag_index == 1 ==> list@ == tags_with_flag(order@, enabled_tags@, true),
            flag_index == 2 ==> list@ == tags_with_flag(order@, enabled_tags@, true)
                + tags_with_flag(order@, enabled_tags@, false),
        decreases 2 - flag_index,
    {
        let flag = flag_index == 0;
        let ghost start = list@;
        let mut i: usize = 0;
        while i < order.len()
            invariant
                i <= order@.len(),
                list@ == start + tags_with_flag(order@.take(i as int), enabled_tags@, flag),
            decreases order@.len() - i,
        {
            let tag_id = order[i];
            proof {
                broadcast use vstd::std_specs::hash::group_hash_axioms;

                assert(order@.take(i as int + 1).drop_last() =~= order@.take(i as int));
            }
            if enabled_tags.contains(&tag_id) == flag {
                list.push((tag_id, flag));
            }
            i = i + 1;
        }
        proof {
            assert(order@.take(order@.len() as int) =~= order@);
        }
        flag_index = flag_index + 1;
    }
    list
}

/// What the row of a task shows.
#[derive(Debug, Clone)]
pub struct TaskWidgetContent {
    /// The name is greyed out and the checkbox checked: the task is done.
    pub done: bool,
    /// The grip to drag the task by is shown.
    pub show_drag_grip: bool,
    /// Beside the grip, a button opens the source code to-do in the editor.
    pub show_open_in_code_editor: bool,
    /// The project's tags, in their order, that the task carries.
    pub tags: Vec<TaskTagId>,
    /// An icon tells that the task has a description.
    pub show_description_icon: bool,
    /// The label of the due date, where it is shown.
    pub due_label: Option<DaysLeftLabel>,
}

/// Whether a description is shown as present: it holds more than one
/// empty line.
pub open spec fn has_description(description: Seq<char>) -> bool {
    !(description.len() == 0 || description == seq!['\n'])
}

/// The ids of `order` that `tags` holds, in that order.
fn carried_tag_ids(order: &Vec<TaskTagId>, tags: &HashSet<TaskTagId>) -> (r: Vec<TaskTagId>)
    ensures
        r@ == carried_tags(order@, tags@),
{
    let mut carried: Vec<TaskTagId> = Vec::new();
    let mut i: usize = 0;
    while i < order.len()
        invariant
            i <= order@.len(),
            carried@ == carried_tags(order@.take(i as int), tags@),
        decreases order@.len() - i,
    {
        let tag_id = order[i];
        proof {
            broadcast use vstd::std_specs::hash::group_hash_axioms;

            assert(order@.take(i as int + 1).drop_last() =~= order@.take(i as int));
        }
        if tags.contains(&tag_id) {
            carried.push(tag_id);
        }
        i = i + 1;
    }
    proof {
        assert(order@.take(order@.len() as int) =~= order@);
    }
    carried
}

fn shows_description_icon(description: &String) -> (r: bool)
    ensures
        r == has_description(description@),
{
    let newline = String::from_str("\n");
    proof {
        reveal_strlit("\n");
        assert(newline@ =~= seq!['\n']);
    }
    !(description.as_str().unicode_len() == 0 || *description == newline)
}

/// The label of a due date where due dates are shown and there is one.
fn due_label_of(due_date: Option<SerializableDate>, show_due_date: bool, is_task_done: bool) -> (r:
    Option<DaysLeftLabel>)
    requires
        show_due_date ==> (due_date matches Some(date) ==> valid_date(date)),
    ensures
        show_due_date && due_date is Some ==> r is Some && exists|t|
            valid_date(t) && #[trigger] is_days_left_label(r->0, due_date->0, t, is_task_done),
        !(show_due_date && due_date is Some) ==> r is None,
{
    if show_due_date {
        match due_date {
            Some(date) => {
                let label = days_left_widget(date, is_task_done);
                let r = Some(label);
                proof {
                    let t = choose|t: SerializableDate|
                        valid_date(t) && #[trigger] is_days_left_label(label, date, t, is_task_done);
                    assert(valid_date(t) && is_days_left_label(r->0, due_date->0, t, is_task_done));
                }
                r
            },
            None => None,
        }
    } else {
        None
    }
}

/// The content of the row of `task`, a task of kind `task_type` in
/// `project`. The flags say whether a code editor is chosen, whether this
/// task is being dragged, whether rows can be dragged at all, and whether
/// the row carries the due date.
pub fn task_widget(
    task: &Task,
    task_type: TaskType,
    project: &Project,
    has_code_editor: bool,
    dragging: bool,
    draggable: bool,
    show_due_date: bool,
) -> (r: TaskWidgetContent)
    requires
        show_due_date ==> (task.due_date matches Some(date) ==> valid_date(date)),
    ensures
        r.done == (task_type == TaskType::Done),
        r.show_drag_grip == (draggable && !dragging && project.sort_mode == SortMode::Manual),
        r.show_open_in_code_editor == (r.show_drag_grip && has_code_editor && task_type
            == TaskType::SourceCodeTodo),
        r.tags@ == carried_tags(project.task_tags.key_order(), task.tags@),
        r.show_description_icon == has_description(task.description@),
        show_due_date && task.due_date is Some ==> r.due_label is Some && exists|t|
            valid_date(t) && #[trigger] is_days_left_label(r.due_label->0, task.due_date->0, t, r.done),
        !(show_due_date && task.due_date is Some) ==> r.due_label is None,
{
    let done = task_type == TaskType::Done;
    let show_drag_grip = draggable && !dragging && project.sort_mode == SortMode::Manual;
    let show_open_in_code_editor = show_drag_grip && has_code_editor && task_type
        == TaskType::SourceCodeTodo;
    let tags = carried_tag_ids(project.task_tags.keys(), &task.tags);
    let show_description_icon = shows_description_icon(&task.description);
    let due_label = due_label_of(task.due_date, show_due_date, done);
    TaskWidgetContent { done, show_drag_grip, show_open_in_code_editor, tags, show_description_icon, due_label }
}

} // verus!

//! What the task list of a project page shows: the rows of its tasks to do,
//! of its source code to-dos and of its done tasks, and the buttons between
//! them.
use crate::ids::TaskId;
use crate::ordered_hash_map::OrderedHashMap;
use crate::project::{lemma_task_ids_are_supported_keys, Project, Task, TaskType};
use crate::project_page::CachedTaskList;
use crate::sidebar_page::TaskDropzone;
use vstd::prelude::*;

verus! {

/// One row of the task list.
#[derive(Debug, Clone, Copy, PartialEq, Eq, Structural)]
pub struct TaskRow {
    pub task_id: TaskId,
    pub task_type: TaskType,
    /// The task is the one being dragged.
    pub dragging: bool,
    /// The drop zone before the task is the one under the dragged task.
    pub highlight: bool,
}

/// The row of task `id`.
pub open spec fn row_of(
    id: TaskId,
    task_type: TaskType,
    dragged_task: Option<TaskId>,
    hovered: Option<TaskDropzone>,
) -> TaskRow {
    TaskRow {
        task_id: id,
        task_type,
        dragging: dragged_task == Some(id),
        highlight: hovered == Some(TaskDropzone::Task(id)),
    }
}

/// The rows of the ids of `ids` that have an entry, in the order of `ids`.
pub open spec fn rows_of(
    ids: Seq<TaskId>,
    entries: Map<TaskId, Task>,
    task_type: TaskType,
    dragged_task: Option<TaskId>,
    hovered: Option<TaskDropzone>,
) -> Seq<TaskRow>
    decreases ids.len(),
{
    if ids.len() == 0 {
        Seq::empty()
    } else {
        let rest = rows_of(ids.drop_last(), entries, task_type, dragged_task, hovered);
        if entries.contains_key(ids.last()) {
            rest.push(row_of(ids.last(), task_type, dragged_task, hovered))
        } else {
            rest
        }
    }
}

/// What the task list shows.
#[derive(Debug, Clone)]
pub struct TaskListContent {
    pub todo: Vec<TaskRow>,
    pub source_code_todos: Vec<TaskRow>,
    pub done: Vec<TaskRow>,
    /// The drop zone after the last task to do is the one under the dragged task.
    pub highlight_bottom_dropzone: bool,
    /// The button that shows or hides the source code to-dos, with their
    /// number, where there are any.
    pub source_code_todos_button: Option<usize>,
    /// The button that shows or hides the done tasks, with their number,
    /// where there are any.
    pub done_tasks_button: Option<usize>,
    /// The button that deletes all done tasks.
    pub delete_all_done_tasks_button: bool,
}

/// The number of a list, where it is not empty.
pub open spec fn count_button(ids: Seq<TaskId>) -> Option<usize> {
    if ids.len() == 0 {
        None
    } else {
        Some(ids.len() as usize)
    }
}

fn rows(
    ids: &Vec<TaskId>,
    tasks: &OrderedHashMap<TaskId, Task>,
    task_type: TaskType,
    dragged_task: Option<TaskId>,
    hovered: Option<TaskDropzone>,
) -> (r: Vec<TaskRow>)
    ensures
        r@ == rows_of(ids@, tasks.entries(), task_type, dragged_task, hovered),
{
    proof {
        lemma_task_ids_are_supported_keys();
    }
    let mut list: Vec<TaskRow> = Vec::new();
    let mut i: usize = 0;
    while i < ids.len()
        invariant
            i <= ids@.len(),
            crate::ordered_hash_map::supported_key::<TaskId>(),
            list@ == rows_of(ids@.take(i as int), tasks.entries(), task_type, dragged_task, hovered),
        decreases ids@.len() - i,
    {
        let id = ids[i];
        proof {
            assert(ids@.take(i as int + 1).drop_last() =~= ids@.take(i as int));
        }
        if tasks.get(&id).is_some() {
            let dragging = match dragged_task {
                Some(dragged) => dragged == id,
                None => false,
            };
            let highlight = match hovered {
                Some(TaskDropzone::Task(hovered_id)) => hovered_id == id,
                _ => false,
            };
            list.push(TaskRow { task_id: id, task_type, dragging, highlight });
        }
        i = i + 1;
    }
    proof {
        assert(ids@.take(ids@.len() as int) =~= ids@);
    }
    list
}

/// What the task list of `project` shows, listed as `cached_task_list`
/// says: `dragged_task` is the task being dragged, `hovered` the drop zone
/// under it; done tasks and source code to-dos are listed where they are
/// shown.
pub fn task_list(
    project: &Project,
    cached_task_list: &CachedTaskList,
    dragged_task: Option<TaskId>,
    hovered: Option<TaskDropzone>,
    show_done_tasks: bool,
    show_source_code_todos: bool,
) -> (r: TaskListContent)
    ensures
        r.todo@ == rows_of(
            cached_task_list.todo@,
            project.todo_tasks.entries(),
            TaskType::Todo,
            dragged_task,
            hovered,
        ),
        r.source_code_todos@ == if show_source_code_todos {
            rows_of(
                cached_task_list.source_code_todo@,
                project.source_code_todos.entries(),
                TaskType::SourceCodeTodo,
                dragged_task,
                hovered,
            )
        } else {
            Seq::empty()
        },
        r.done@ == if show_done_tasks {
            rows_of(
                cached_task_list.done@,
                project.done_tasks.entries(),
                TaskType::Done,
                dragged_task,
                hovered,
            )
        } else {
            Seq::empty()
        },
        r.highlight_bottom_dropzone == (hovered == Some(TaskDropzone::EndOfTodoTaskList)),
        r.source_code_todos_button == count_button(cached_task_list.source_code_todo@),
        r.done_tasks_button == count_button(cached_task_list.done@),
        r.delete_all_done_tasks_button == (cached_task_list.done@.len() > 0 && r.done@.len() > 0),
{
    let todo = rows(&cached_task_list.todo, &project.todo_tasks, TaskType::Todo, dragged_task, hovered);
    let source_code_todos = if show_source_code_todos {
        rows(
            &cached_task_list.source_code_todo,
            &project.source_code_todos,
            TaskType::SourceCodeTodo,
            dragged_task,
            hovered,
        )
    } else {
        Vec::new()
    };
    let done = if show_done_tasks {
        rows(&cached_task_list.done, &project.done_tasks, TaskType::Done, dragged_task, hovered)
    } else {
        Vec::new()
    };
    let highlight_bottom_dropzone = match hovered {
        Some(TaskDropzone::EndOfTodoTaskList) => true,
        _ => false,
    };
    let source_code_todos_button = if cached_task_list.source_code_todo.len() == 0 {
        None
    } else {
        Some(cached_task_list.source_code_todo.len())
    };
    let done_tasks_button = if cached_task_list.done.len() == 0 {
        None
    } else {
        Some(cached_task_list.done.len())
    };
    let delete_all_done_tasks_button = cached_task_list.done.len() > 0 && done.len() > 0;
    TaskListContent {
        todo,
        source_code_todos,
        done,
        highlight_bottom_dropzone,
        source_code_todos_button,
        done_tasks_button,
        delete_all_done_tasks_button,
    }
}

} // verus!

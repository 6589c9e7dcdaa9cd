//! The sidebar: the list of projects, the creation of a new project, and
//! dragging tasks and projects onto drop zones.
//!
//! Which drop zone lies under the pointer, and how far a drag has gone, is
//! measured by the widgets in the application; the sidebar is told the
//! results.
use crate::database::{project_of, Database};
use crate::ids::{ProjectId, TaskId};
use crate::project::SortMode;
use vstd::prelude::*;

verus! {

/// Where a dragged project can be dropped: before another project or at the
/// end of the list.
#[derive(Debug, Clone, Copy, PartialEq, Eq, Structural)]
pub enum ProjectDropzone {
    Project(ProjectId),
    EndOfList,
}

/// Where a dragged task can be dropped: onto a project, before another task,
/// at the end of the tasks to do, or onto the stopwatch.
#[derive(Debug, Clone, Copy, PartialEq, Eq, Structural)]
pub enum TaskDropzone {
    Project(ProjectId),
    Task(TaskId),
    EndOfTodoTaskList,
    Stopwatch,
}

#[derive(Debug, Clone, PartialEq)]
pub enum Message {
    OpenCreateNewProject,
    CloseCreateNewProject,
    ChangeCreateNewProjectName(String),
    /// Creates the project being named under the given fresh id.
    CreateNewProject(ProjectId),
    DropTask { project_id: ProjectId, task_id: TaskId },
    /// The drop zone under a dragged task, as the widgets found it.
    TaskDropzoneHovered(Option<TaskDropzone>),
    CancelDragTask,
    DropProject,
    /// The drop zone under a dragged project, as the widgets found it.
    ProjectDropzoneHovered(Option<ProjectDropzone>),
    /// A project is dragged; `within_minimal_distance` tells whether the
    /// pointer is still close to where the drag began.
    DragProject { project_id: ProjectId, within_minimal_distance: bool },
    ClickProject(ProjectId),
    CancelDragProject,
    LeftClickReleased,
}

/// What the application does after a message of the sidebar.
#[derive(Debug, PartialEq)]
pub enum Action {
    NoAction,
    Actions(Vec<Action>),
    /// Focus the name field of the new project and scroll to the end.
    FocusNewProjectName,
    CreateProject { project_id: ProjectId, name: String, color: [u8; 3] },
    SelectProject(ProjectId),
    MoveTask { task_id: TaskId, src_project_id: ProjectId, dst_project_id: ProjectId },
    MoveTaskBeforeOtherTask { project_id: ProjectId, task_id: TaskId, other_task_id: TaskId },
    MoveTodoTaskToEnd { project_id: ProjectId, task_id: TaskId },
    /// Start taking the time of the task on the stopwatch.
    StopTask { project_id: ProjectId, task_id: TaskId },
    MoveProjectBeforeOtherProject { project_id: ProjectId, other_project_id: ProjectId },
    MoveProjectToEnd(ProjectId),
}

/// The sidebar's state.
#[derive(Debug, Clone, PartialEq)]
pub struct Page {
    pub create_new_project_name: Option<String>,
    pub project_dropzone_hovered: Option<ProjectDropzone>,
    pub task_dropzone_hovered: Option<TaskDropzone>,
    pub dragged_project_id: Option<ProjectId>,
    /// A drag of a project has begun.
    pub dragging_started: bool,
    /// The drag has stayed close to where it began, so that releasing it is
    /// a click.
    pub just_minimal_dragging: bool,
    pub pressed_project_id: Option<ProjectId>,
}

/// The color of a new project: light on a dark theme, dark on a light one.
pub open spec fn new_project_color(is_theme_dark: bool) -> [u8; 3] {
    if is_theme_dark {
        [245u8, 245u8, 245u8]
    } else {
        [10u8, 10u8, 10u8]
    }
}

/// The action is the given list of actions.
pub open spec fn is_actions(r: Action, actions: Seq<Action>) -> bool {
    r matches Action::Actions(v) && v@ == actions
}

/// The action of dropping a task on a drop zone.
pub open spec fn task_drop_action(zone: TaskDropzone, project_id: ProjectId, task_id: TaskId) -> Action {
    match zone {
        TaskDropzone::Project(dst) => Action::MoveTask { task_id, src_project_id: project_id, dst_project_id: dst },
        TaskDropzone::Task(other) => Action::MoveTaskBeforeOtherTask { project_id, task_id, other_task_id: other },
        TaskDropzone::EndOfTodoTaskList => Action::MoveTodoTaskToEnd { project_id, task_id },
        TaskDropzone::Stopwatch => Action::StopTask { project_id, task_id },
    }
}

/// The sidebar after a drag of a project ended.
pub open spec fn drag_ended(p: Page) -> Page {
    Page {
        dragged_project_id: None,
        dragging_started: false,
        just_minimal_dragging: true,
        pressed_project_id: None,
        project_dropzone_hovered: None,
        ..p
    }
}

fn get_new_project_color(is_theme_dark: bool) -> (r: [u8; 3])
    ensures
        r == new_project_color(is_theme_dark),
{
    if is_theme_dark {
        [245u8, 245u8, 245u8]
    } else {
        [10u8, 10u8, 10u8]
    }
}

impl Page {
    pub fn new() -> (r: Self)
        ensures
            r == (Page {
                create_new_project_name: None,
                project_dropzone_hovered: None,
                task_dropzone_hovered: None,
                dragged_project_id: None,
                dragging_started: false,
                just_minimal_dragging: true,
                pressed_project_id: None,
            }),
    {
        Page {
            create_new_project_name: None,
            project_dropzone_hovered: None,
            task_dropzone_hovered: None,
            dragged_project_id: None,
            dragging_started: false,
            just_minimal_dragging: true,
            pressed_project_id: None,
        }
    }

    /// Ends a drag of a project: the pressed project is selected when the
    /// drag stayed a click.
    pub fn should_select_project(&mut self) -> (r: Option<ProjectId>)
        ensures
            r == (if old(self).just_minimal_dragging { old(self).pressed_project_id } else { None }),
            *final(self) == drag_ended(*old(self)),
    {
        let project_id_to_select = if self.just_minimal_dragging {
            self.pressed_project_id
        } else {
            None
        };
        self.dragged_project_id = None;
        self.dragging_started = false;
        self.just_minimal_dragging = true;
        self.pressed_project_id = None;
        self.project_dropzone_hovered = None;
        project_id_to_select
    }

    /// Handles a message of the sidebar.
    pub fn update(&mut self, message: Message, is_theme_dark: bool) -> (r: Action)
        ensures
            match message {
                Message::OpenCreateNewProject => {
                    &&& final(self).create_new_project_name matches Some(s) && s@.len() == 0
                    &&& *final(self) == Page { create_new_project_name: final(self).create_new_project_name, ..*old(self) }
                    &&& r == Action::FocusNewProjectName
                },
                Message::CloseCreateNewProject => {
                    &&& *final(self) == Page { create_new_project_name: None, ..*old(self) }
                    &&& r == Action::NoAction
                },
                Message::ChangeCreateNewProjectName(name) => {
                    &&& *final(self) == Page { create_new_project_name: Some(name), ..*old(self) }
                    &&& r == Action::NoAction
                },
                Message::CreateNewProject(id) => {
                    &&& *final(self) == Page { create_new_project_name: None, ..*old(self) }
                    &&& match old(self).create_new_project_name {
                        Some(name) => is_actions(
                            r,
                            seq![
                                Action::CreateProject { project_id: id, name, color: new_project_color(is_theme_dark) },
                                Action::SelectProject(id),
                            ],
                        ),
                        None => r == Action::NoAction,
                    }
                },
                Message::DropTask { project_id, task_id } => {
                    &&& *final(self) == Page { task_dropzone_hovered: None, ..*old(self) }
                    &&& r == match old(self).task_dropzone_hovered {
                        Some(zone) => task_drop_action(zone, project_id, task_id),
                        None => Action::NoAction,
                    }
                },
                Message::TaskDropzoneHovered(zone) => {
                    &&& *final(self) == Page { task_dropzone_hovered: zone, ..*old(self) }
                    &&& r == Action::NoAction
                },
                Message::CancelDragTask => {
                    &&& *final(self) == Page { task_dropzone_hovered: None, ..*old(self) }
                    &&& r == Action::NoAction
                },
                Message::DropProject => match (old(self).dragged_project_id, old(self).project_dropzone_hovered) {
                    (Some(dragged), Some(zone)) => {
                        &&& *final(self) == Page { project_dropzone_hovered: None, ..*old(self) }
                        &&& r == match zone {
                            ProjectDropzone::Project(other) => Action::MoveProjectBeforeOtherProject {
                                project_id: dragged,
                                other_project_id: other,
                            },
                            ProjectDropzone::EndOfList => Action::MoveProjectToEnd(dragged),
                        }
                    },
                    _ => *final(self) == *old(self) && r == Action::NoAction,
                },
                Message::ProjectDropzoneHovered(zone) => {
                    &&& *final(self) == Page {
                        project_dropzone_hovered: if old(self).dragged_project_id is Some { zone } else { None },
                        ..*old(self)
                    }
                    &&& r == Action::NoAction
                },
                Message::DragProject { project_id, within_minimal_distance } => {
                    &&& *final(self) == Page {
                        dragged_project_id: Some(project_id),
                        dragging_started: true,
                        just_minimal_dragging: if old(self).dragging_started {
                            old(self).just_minimal_dragging && within_minimal_distance
                        } else {
                            true
                        },
                        ..*old(self)
                    }
                    &&& r == Action::NoAction
                },
                Message::ClickProject(id) => {
                    &&& *final(self) == Page { pressed_project_id: Some(id), ..*old(self) }
                    &&& r == Action::NoAction
                },
                Message::CancelDragProject => {
                    &&& *final(self) == drag_ended(*old(self))
                    &&& r == Action::NoAction
                },
                Message::LeftClickReleased => {
                    &&& *final(self) == drag_ended(*old(self))
                    &&& r == if old(self).just_minimal_dragging && old(self).pressed_project_id is Some {
                        Action::SelectProject(old(self).pressed_project_id->0)
                    } else {
                        Action::NoAction
                    }
                },
            },
    {
        match message {
            Message::OpenCreateNewProject => {
                self.create_new_project_name = Some(String::new());
                Action::FocusNewProjectName
            },
            Message::CloseCreateNewProject => {
                self.create_new_project_name = None;
                Action::NoAction
            },
            Message::ChangeCreateNewProjectName(new_project_name) => {
                self.create_new_project_name = Some(new_project_name);
                Action::NoAction
            },
            Message::CreateNewProject(project_id) => {
                let name = self.create_new_project_name.take();
                match name {
                    Some(create_new_project_name) => Action::Actions(
                        vec![
                            Action::CreateProject {
                                project_id,
                                name: create_new_project_name,
                                color: get_new_project_color(is_theme_dark),
                            },
                            Action::SelectProject(project_id),
                        ],
                    ),
                    None => Action::NoAction,
                }
            },
            Message::DropTask { project_id, task_id } => match self.task_dropzone_hovered {
                Some(hovered) => {
                    self.task_dropzone_hovered = None;
                    match hovered {
                        TaskDropzone::Project(dst_project_id) => Action::MoveTask {
                            task_id,
                            src_project_id: project_id,
                            dst_project_id,
                        },
                        TaskDropzone::Task(other_task_id) => Action::MoveTaskBeforeOtherTask {
                            project_id,
                            task_id,
                            other_task_id,
                        },
                        TaskDropzone::EndOfTodoTaskList => Action::MoveTodoTaskToEnd { project_id, task_id },
                        TaskDropzone::Stopwatch => Action::StopTask { project_id, task_id },
                    }
                },
                None => Action::NoAction,
            },
            Message::TaskDropzoneHovered(zone) => {
                self.task_dropzone_hovered = zone;
                Action::NoAction
            },
            Message::CancelDragTask => {
                self.task_dropzone_hovered = None;
                Action::NoAction
            },
            Message::DropProject => {
                if let Some(dragged_project_id) = self.dragged_project_id {
                    if let Some(hovered) = self.project_dropzone_hovered {
                        self.project_dropzone_hovered = None;
                        return match hovered {
                            ProjectDropzone::Project(other_project_id) => Action::MoveProjectBeforeOtherProject {
                                project_id: dragged_project_id,
                                other_project_id,
                            },
                            ProjectDropzone::EndOfList => Action::MoveProjectToEnd(dragged_project_id),
                        };
                    }
                }
                Action::NoAction
            },
            Message::ProjectDropzoneHovered(zone) => {
                self.project_dropzone_hovered = if self.dragged_project_id.is_some() {
                    zone
                } else {
                    None
                };
                Action::NoAction
            },
            Message::DragProject { project_id, within_minimal_distance } => {
                self.dragged_project_id = Some(project_id);
                if self.dragging_started {
                    if self.just_minimal_dragging {
                        self.just_minimal_dragging = within_minimal_distance;
                    }
                } else {
                    self.dragging_started = true;
                    self.just_minimal_dragging = true;
                }
                Action::NoAction
            },
            Message::ClickProject(project_id) => {
                self.pressed_project_id = Some(project_id);
                Action::NoAction
            },
            Message::CancelDragProject => {
                self.dragged_project_id = None;
                self.dragging_started = false;
                self.just_minimal_dragging = true;
                self.pressed_project_id = None;
                self.project_dropzone_hovered = None;
                Action::NoAction
            },
            Message::LeftClickReleased => match self.should_select_project() {
                Some(project_id) => Action::SelectProject(project_id),
                None => Action::NoAction,
            },
        }
    }
}

} // verus!

verus! {

/// The keys among the first `n` of `keys` that a dragged `exception` can be
/// dropped before: all but the exception itself and the key right after it
/// (dropping there leaves the order as it is).
pub open spec fn kept_options(keys: Seq<u64>, exception: u64, n: int) -> Seq<u64>
    decreases n,
{
    if n <= 0 || n > keys.len() {
        Seq::empty()
    } else {
        let rest = kept_options(keys, exception, n - 1);
        let i = n - 1;
        if keys[i] != exception && !(i > 0 && keys[i - 1] == exception) {
            rest.push(keys[i])
        } else {
            rest
        }
    }
}

/// The keys except `exception`, in order.
pub open spec fn keys_except(keys: Seq<u64>, exception: u64) -> Seq<u64> {
    keys.filter(other_than(exception))
}

/// Whether a key is another than `exception`.
pub open spec fn other_than(exception: u64) -> spec_fn(u64) -> bool {
    |k: u64| k != exception
}

/// The zones of the projects other than `exception`, then the stopwatch.
pub open spec fn task_zones_of_projects(zones: Seq<TaskDropzone>, keys: Seq<u64>, exception: u64) -> bool {
    let others = keys_except(keys, exception);
    &&& zones.len() == others.len() + 1
    &&& forall|i: int| 0 <= i < others.len() ==> #[trigger] zones[i] == TaskDropzone::Project(others[i])
    &&& zones.last() == TaskDropzone::Stopwatch
}

/// The zones before the kept projects, then the end of the list where it
/// is kept.
pub open spec fn project_zones(zones: Seq<ProjectDropzone>, keys: Seq<u64>, exception: u64) -> bool {
    let kept = kept_options(keys, exception, keys.len() as int);
    &&& zones.len() == kept.len() + (if end_zone_kept(keys, exception) { 1int } else { 0int })
    &&& forall|i: int| 0 <= i < kept.len() ==> #[trigger] zones[i] == ProjectDropzone::Project(kept[i])
    &&& end_zone_kept(keys, exception) ==> zones.last() == ProjectDropzone::EndOfList
}

/// Whether a drop zone after the last key makes sense: there is a last key
/// and it is not the one being dragged.
pub open spec fn end_zone_kept(keys: Seq<u64>, exception: u64) -> bool {
    keys.len() > 0 && keys.last() != exception
}

fn kept_option_keys(keys: &Vec<u64>, exception: u64) -> (r: Vec<u64>)
    ensures
        r@ == kept_options(keys@, exception, keys@.len() as int),
{
    let mut kept: Vec<u64> = Vec::new();
    let mut skip: Option<usize> = None;
    let mut i: usize = 0;
    while i < keys.len()
        invariant
            i <= keys@.len(),
            kept@ == kept_options(keys@, exception, i as int),
            skip == (if i > 0 && keys@[i - 1] == exception { Some(i) } else { None::<usize> }),
        decreases keys@.len() - i,
    {
        if keys[i] == exception {
            skip = Some(i + 1);
        } else {
            match skip {
                Some(_) => {
                    skip = None;
                },
                None => {
                    kept.push(keys[i]);
                },
            }
        }
        i = i + 1;
    }
    kept
}

/// The drop zones a dragged task of `project_id` can fall into before the
/// other tasks to do: with manual sorting, before each task to do but the
/// dragged one and the one after it, and at the end unless the dragged task
/// is the last; none otherwise. `None` while there is no database.
pub fn task_dropzone_options(database: Option<&Database>, project_id: ProjectId, task_exception: TaskId) -> (r:
    Option<Vec<TaskDropzone>>)
    ensures
        match database {
            None => r is None,
            Some(db) => r matches Some(zones) && match project_of(*db, project_id) {
                Some(project) if project.sort_mode == SortMode::Manual => {
                    let kept = kept_options(project.todo_tasks.key_order(), task_exception, project.todo_tasks.key_order().len() as int);
                    &&& zones@.len() == kept.len() + (if end_zone_kept(project.todo_tasks.key_order(), task_exception) { 1int } else { 0int })
                    &&& forall|i: int| 0 <= i < kept.len() ==> #[trigger] zones@[i] == TaskDropzone::Task(kept[i])
                    &&& end_zone_kept(project.todo_tasks.key_order(), task_exception) ==> zones@.last() == TaskDropzone::EndOfTodoTaskList
                },
                _ => zones@.len() == 0,
            },
        },
{
    match database {
        None => None,
        Some(db) => {
            let mut options: Vec<TaskDropzone> = Vec::new();
            match db.get_project(&project_id) {
                Some(project) => {
                    if project.sort_mode == SortMode::Manual {
                        let order = project.todo_tasks.keys();
                        let kept = kept_option_keys(order, task_exception);
                        let mut i: usize = 0;
                        while i < kept.len()
                            invariant
                                i <= kept@.len(),
                                options@.len() == i,
                                forall|j: int| 0 <= j < i ==> #[trigger] options@[j] == TaskDropzone::Task(kept@[j]),
                            decreases kept@.len() - i,
                        {
                            options.push(TaskDropzone::Task(kept[i]));
                            i = i + 1;
                        }
                        let n = order.len();
                        if n > 0 && order[n - 1] != task_exception {
                            options.push(TaskDropzone::EndOfTodoTaskList);
                        }
                    }
                },
                None => {},
            }
            Some(options)
        },
    }
}

/// The drop zones of the projects a dragged task of `exception` can be moved
/// to: every other project, in order, and the stopwatch. `None` while there
/// is no database.
pub fn project_dropzones_for_tasks_options(database: Option<&Database>, exception: ProjectId) -> (r:
    Option<Vec<TaskDropzone>>)
    ensures
        match database {
            None => r is None,
            Some(db) => r is Some && task_zones_of_projects(r->0@, db.projects.key_order(), exception),
        },
{
    match database {
        None => None,
        Some(db) => {
            let order = db.projects().keys();
            let ghost keys = order@;
            let mut options: Vec<TaskDropzone> = Vec::new();
            let ghost mut others: Seq<u64> = Seq::empty();
            let mut i: usize = 0;
            while i < order.len()
                invariant
                    i <= order@.len(),
                    keys == order@,
                    others == keys.take(i as int).filter(other_than(exception)),
                    options@.len() == others.len(),
                    forall|j: int| 0 <= j < others.len() ==> #[trigger] options@[j] == TaskDropzone::Project(others[j]),
                decreases order@.len() - i,
            {
                proof {
                    assert(keys.take(i as int + 1) =~= keys.take(i as int).push(keys[i as int]));
                    keys.take(i as int).lemma_filter_push(keys[i as int], other_than(exception));
                }
                if order[i] != exception {
                    options.push(TaskDropzone::Project(order[i]));
                    proof {
                        others = others.push(order@[i as int]);
                    }
                }
                i = i + 1;
            }
            proof {
                assert(keys.take(keys.len() as int) =~= keys);
            }
            options.push(TaskDropzone::Stopwatch);
            Some(options)
        },
    }
}

/// The drop zones a dragged project can fall into: before each project but
/// the dragged one and the one after it, and at the end unless the dragged
/// project is the last. `None` while there is no database.
pub fn project_dropzone_options(database: Option<&Database>, exception: ProjectId) -> (r:
    Option<Vec<ProjectDropzone>>)
    ensures
        match database {
            None => r is None,
            Some(db) => r is Some && project_zones(r->0@, db.projects.key_order(), exception),
        },
{
    match database {
        None => None,
        Some(db) => {
            let order = db.projects().keys();
            let kept = kept_option_keys(order, exception);
            let mut options: Vec<ProjectDropzone> = Vec::new();
            let mut i: usize = 0;
            while i < kept.len()
                invariant
                    i <= kept@.len(),
                    options@.len() == i,
                    forall|j: int| 0 <= j < i ==> #[trigger] options@[j] == ProjectDropzone::Project(kept@[j]),
                decreases kept@.len() - i,
            {
                options.push(ProjectDropzone::Project(kept[i]));
                i = i + 1;
            }
            let n = order.len();
            if n > 0 && order[n - 1] != exception {
                options.push(ProjectDropzone::EndOfList);
            }
            Some(options)
        },
    }
}

} // verus!

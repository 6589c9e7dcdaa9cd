//! The content area: the overview, a project's page, or the stopwatch,
//! which keeps running behind the other pages.
use crate::database::{project_of, Database};
use crate::ids::ProjectId;
use crate::overview_page;
use crate::overview_page::{due_tasks_of, overview_page_update};
use crate::preferences::{same_settings, Preferences, SerializedContentPage};
use crate::project::Project;
use crate::project_page;
use crate::project_page::{generated_list, project_page_update};
use crate::stopwatch;
use crate::stopwatch::{elapsed_of, stopwatch_update, StopwatchAction, StopwatchTaskInfo};
use vstd::prelude::*;

verus! {

#[derive(Debug)]
pub enum Message {
    StopwatchPage(stopwatch::Message),
    ProjectPage(project_page::Message),
    OverviewPage(overview_page::Message),
    OpenOverview,
    OpenProjectPage(ProjectId),
    OpenStopwatch,
}

/// What the application does after a message of the content area.
#[derive(Debug)]
pub enum Action {
    NoAction,
    Actions(Vec<Action>),
    Stopwatch(StopwatchAction),
    ProjectPage(project_page::Action),
    CloseTaskModal,
}

/// The content area: the overview or a project's page when one is open, and
/// the stopwatch.
#[derive(Debug)]
pub struct Page {
    pub overview_page: Option<overview_page::Page>,
    pub stopwatch_page: stopwatch::Page,
    pub project_page: Option<project_page::Page>,
}

/// The preferences with the given content page selected, the rest kept.
pub open spec fn selected(before: Option<Preferences>, after: Option<Preferences>, page: SerializedContentPage) -> bool {
    match before {
        Some(p) => after matches Some(q) && same_settings(q, Preferences { selected_content_page: page, ..p })
            && q.last_saved_time == p.last_saved_time,
        None => after is None,
    }
}

/// The content area after opening the overview, with the due tasks of the
/// database.
pub open spec fn overview_opened(page: Page, before: Option<Preferences>, after: Option<Preferences>, database: Option<&Database>) -> bool {
    &&& page.project_page is None
    &&& page.overview_page matches Some(o) && o.tasks@ == due_tasks_of(database)
    &&& selected(before, after, SerializedContentPage::Overview)
}

/// The content area after opening the stopwatch.
pub open spec fn stopwatch_opened(page: Page, before: Option<Preferences>, after: Option<Preferences>) -> bool {
    &&& page.project_page is None
    &&& page.overview_page is None
    &&& selected(before, after, SerializedContentPage::Stopwatch)
}

/// The page of a project as it is opened: no filter, no search.
pub open spec fn opened_project_page(page: project_page::Page, id: ProjectId, project: Project, preferences: Option<Preferences>) -> bool {
    &&& page.project_id == id
    &&& page.filter_task_tags@.is_empty()
    &&& page.search_tasks_filter is None
    &&& generated_list(
        page.cached_task_list,
        project,
        Set::empty(),
        None,
        match preferences {
            Some(p) => p.sort_unspecified_tasks_at_bottom,
            None => true,
        },
    )
}

/// The content area after opening a project's page: that page when the
/// database holds the project; the stopwatch when it does not; nothing
/// chosen yet while there is no database.
pub open spec fn project_opened(
    page: Page,
    before: Option<Preferences>,
    after: Option<Preferences>,
    id: ProjectId,
    database: Option<&Database>,
) -> bool {
    &&& page.overview_page is None
    &&& match database {
        Some(db) => match project_of(*db, id) {
            Some(project) => page.project_page matches Some(pp) && opened_project_page(pp, id, project, before)
                && selected(before, after, SerializedContentPage::Project(id)),
            None => page.project_page is None && selected(before, after, SerializedContentPage::Stopwatch),
        },
        None => page.project_page is None && after == before,
    }
}

impl Page {
    /// The stopwatch is shown: neither the overview nor a project's page is.
    pub fn is_stopwatch_page_opened(&self) -> (r: bool)
        ensures
            r == (self.overview_page is None && self.project_page is None),
    {
        self.overview_page.is_none() && self.project_page.is_none()
    }

    pub fn is_overview_page_opened(&self) -> (r: bool)
        ensures
            r == self.overview_page is Some,
    {
        self.overview_page.is_some()
    }

    pub fn is_project_page_opened(&self) -> (r: bool)
        ensures
            r == self.project_page is Some,
    {
        self.project_page.is_some()
    }

    /// The content area at start: the overview, an idle stopwatch.
    pub fn new(database: Option<&Database>) -> (r: Self)
        ensures
            r.overview_page matches Some(o) && o.tasks@ == due_tasks_of(database),
            r.stopwatch_page is Idle,
            r.project_page is None,
    {
        Page {
            overview_page: Some(overview_page::Page::new(database)),
            stopwatch_page: stopwatch::Page::Idle,
            project_page: None,
        }
    }

    fn open_overview(&mut self, database: Option<&Database>, preferences: &mut Option<Preferences>)
        ensures
            final(self).project_page is None,
            final(self).overview_page matches Some(o) && o.tasks@ == due_tasks_of(database),
            final(self).stopwatch_page == old(self).stopwatch_page,
            selected(*old(preferences), *final(preferences), SerializedContentPage::Overview),
    {
        self.project_page = None;
        self.overview_page = Some(overview_page::Page::new(database));
        if let Some(p) = preferences {
            p.set_selected_content_page(SerializedContentPage::Overview);
        }
    }

    fn open_stopwatch(&mut self, preferences: &mut Option<Preferences>)
        ensures
            final(self).project_page is None,
            final(self).overview_page is None,
            final(self).stopwatch_page == old(self).stopwatch_page,
            selected(*old(preferences), *final(preferences), SerializedContentPage::Stopwatch),
    {
        self.overview_page = None;
        self.project_page = None;
        if let Some(p) = preferences {
            p.set_selected_content_page(SerializedContentPage::Stopwatch);
        }
    }

    fn open_project_page(&mut self, project_id: ProjectId, database: Option<&Database>, preferences: &mut Option<Preferences>)
        ensures
            project_opened(*final(self), *old(preferences), *final(preferences), project_id, database),
            final(self).stopwatch_page == old(self).stopwatch_page,
    {
        self.overview_page = None;
        match database {
            Some(db) => match db.get_project(&project_id) {
                Some(project) => {
                    self.project_page = Some(project_page::Page::new(project_id, project, preferences));
                    if let Some(p) = preferences {
                        p.set_selected_content_page(SerializedContentPage::Project(project_id));
                    }
                },
                None => self.open_stopwatch(preferences),
            },
            None => {
                self.project_page = None;
            },
        }
    }

    /// Starts the stopwatch again from the stored progress and opens the
    /// stored content page: a project's page stays on the project already
    /// open.
    pub fn restore_from_serialized(&mut self, database: Option<&Database>, preferences: &mut Option<Preferences>) -> (r:
        Action)
        ensures
            match *old(preferences) {
                None => *final(self) == *old(self) && *final(preferences) == *old(preferences) && r is NoAction,
                Some(p) => {
                    &&& match p.stopwatch_progress {
                        Some(progress) => stopwatch::progress_of(final(self).stopwatch_page) == Some(progress)
                            && (elapsed_of(final(self).stopwatch_page) matches Some(e) ==> e.nanos == 0)
                            && r matches Action::Stopwatch(_),
                        None => final(self).stopwatch_page == old(self).stopwatch_page && r is NoAction,
                    }
                    &&& match p.selected_content_page {
                        SerializedContentPage::Overview => overview_opened(
                            *final(self),
                            *old(preferences),
                            *final(preferences),
                            database,
                        ),
                        SerializedContentPage::Stopwatch => stopwatch_opened(
                            *final(self),
                            *old(preferences),
                            *final(preferences),
                        ),
                        SerializedContentPage::Project(id) => project_opened(
                            *final(self),
                            *old(preferences),
                            *final(preferences),
                            match old(self).project_page {
                                Some(pp) => pp.project_id,
                                None => id,
                            },
                            database,
                        ),
                    }
                },
            },
    {
        match preferences {
            Some(p) => {
                let action = match p.stopwatch_progress {
                    Some(progress) => {
                        let (stopwatch_page, action) = stopwatch::Page::startup_again(progress);
                        self.stopwatch_page = stopwatch_page;
                        Action::Stopwatch(action)
                    },
                    None => Action::NoAction,
                };
                match p.selected_content_page {
                    SerializedContentPage::Overview => self.open_overview(database, preferences),
                    SerializedContentPage::Stopwatch => self.open_stopwatch(preferences),
                    SerializedContentPage::Project(project_id) => {
                        let project_id_to_open = match &self.project_page {
                            Some(project_page) => project_page.project_id,
                            None => project_id,
                        };
                        self.open_project_page(project_id_to_open, database, preferences);
                    },
                }
                action
            },
            None => Action::NoAction,
        }
    }

    /// Hands a message to its page, or opens a page. A stopwatch message is
    /// handed on with whether the stopwatch is shown; starting a task's time
    /// also closes the task dialog. `stopwatch_task_info` is what the
    /// database holds of the task whose time the stopwatch takes.
    pub fn update(
        &mut self,
        message: Message,
        database: Option<&Database>,
        preferences: &mut Option<Preferences>,
        stopwatch_task_info: Option<StopwatchTaskInfo>,
    ) -> (r: Action)
        requires
            elapsed_of(old(self).stopwatch_page) matches Some(e) ==> e.well_formed(),
        ensures
            elapsed_of(final(self).stopwatch_page) matches Some(e) ==> e.well_formed(),
            match message {
                Message::OpenOverview => {
                    &&& overview_opened(*final(self), *old(preferences), *final(preferences), database)
                    &&& r is NoAction
                },
                Message::OpenStopwatch => {
                    &&& stopwatch_opened(*final(self), *old(preferences), *final(preferences))
                    &&& r is NoAction
                },
                Message::OpenProjectPage(id) => {
                    &&& project_opened(*final(self), *old(preferences), *final(preferences), id, database)
                    &&& r is NoAction
                },
                Message::StopwatchPage(m) => {
                    &&& final(self).overview_page == old(self).overview_page
                    &&& final(self).project_page == old(self).project_page
                    &&& r matches Action::Actions(actions) && actions@.len() == (if m is StopTask { 2int } else { 1int })
                        && (m is StopTask ==> actions@[0] is CloseTaskModal)
                        && actions@.last() is Stopwatch
                        && stopwatch_update(
                            old(self).stopwatch_page,
                            final(self).stopwatch_page,
                            m,
                            stopwatch_task_info,
                            *old(preferences),
                            *final(preferences),
                            old(self).overview_page is None && old(self).project_page is None,
                            actions@.last()->Stopwatch_0,
                        )
                },
                Message::ProjectPage(m) => {
                    &&& final(self).overview_page == old(self).overview_page
                    &&& final(self).stopwatch_page == old(self).stopwatch_page
                    &&& *final(preferences) == *old(preferences)
                    &&& match old(self).project_page {
                        Some(before) => final(self).project_page matches Some(after) && r matches Action::ProjectPage(a)
                            && project_page_update(before, after, m, database, *old(preferences), a),
                        None => final(self).project_page is None && r is NoAction,
                    }
                },
                Message::OverviewPage(m) => {
                    &&& final(self).project_page == old(self).project_page
                    &&& final(self).stopwatch_page == old(self).stopwatch_page
                    &&& match old(self).overview_page {
                        Some(before) => final(self).overview_page matches Some(after)
                            && overview_page_update(before, after, m, database, *old(preferences), *final(preferences)),
                        None => final(self).overview_page is None && *final(preferences) == *old(preferences),
                    }
                    &&& r is NoAction
                },
            },
    {
        match message {
            Message::ProjectPage(message) => match &mut self.project_page {
                Some(project_page) => Action::ProjectPage(project_page.update(message, database, preferences)),
                None => Action::NoAction,
            },
            Message::StopwatchPage(message) => {
                let mut actions: Vec<Action> = Vec::new();
                if let stopwatch::Message::StopTask { .. } = message {
                    actions.push(Action::CloseTaskModal);
                }
                let opened = self.is_stopwatch_page_opened();
                let action = self.stopwatch_page.update(message, stopwatch_task_info, preferences, opened);
                actions.push(Action::Stopwatch(action));
                Action::Actions(actions)
            },
            Message::OverviewPage(message) => {
                if let Some(overview_page) = &mut self.overview_page {
                    overview_page.update(message, database, preferences);
                }
                Action::NoAction
            },
            Message::OpenOverview => {
                self.open_overview(database, preferences);
                Action::NoAction
            },
            Message::OpenProjectPage(project_id) => {
                self.open_project_page(project_id, database, preferences);
                Action::NoAction
            },
            Message::OpenStopwatch => {
                self.open_stopwatch(preferences);
                Action::NoAction
            },
        }
    }
}

} // verus!

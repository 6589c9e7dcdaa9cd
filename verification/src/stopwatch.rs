use crate::clock::{elapsed_checked_add, instant_duration_since, instant_now, max_total_nanos, ElapsedTime};
use crate::ids::{ProjectId, TaskId};
use crate::preferences::{
    plays_timer_sound, same_settings, OptionalPreference, Preferences, StopwatchProgress,
};
use crate::text::{decimal, push_decimal, push_two_digits, two_digits};
use std::time::Instant;
use vstd::prelude::*;

verus! {

/// The text shown for a stopwatch duration: `[-][h:]mm:ss`, the hours only
/// when there is at least one.
pub open spec fn stopwatch_text(total_seconds: int) -> Seq<char> {
    let magnitude = if total_seconds < 0 { -total_seconds } else { total_seconds };
    let hours = magnitude / 3600;
    let minutes = (magnitude % 3600) / 60;
    let seconds = magnitude % 60;
    let sign = if total_seconds >= 0 { Seq::<char>::empty() } else { seq!['-'] };
    if hours > 0 {
        sign + decimal(hours as nat) + seq![':'] + two_digits(minutes as nat) + seq![':']
            + two_digits(seconds as nat)
    } else {
        sign + two_digits(minutes as nat) + seq![':'] + two_digits(seconds as nat)
    }
}

/// Formats a number of seconds as shown by the stopwatch.
pub fn format_stopwatch_duration(total_seconds: i64) -> (r: String)
    requires
        total_seconds > i64::MIN,
    ensures
        r@ == stopwatch_text(total_seconds as int),
{
    let magnitude: u64 = if total_seconds < 0 {
        (-total_seconds) as u64
    } else {
        total_seconds as u64
    };
    let hours = magnitude / 3600;
    let minutes = (magnitude % 3600) / 60;
    let seconds = magnitude % 60;
    let mut r = String::new();
    if total_seconds < 0 {
        r.append("-");
    }
    if hours > 0 {
        push_decimal(&mut r, hours);
        r.append(":");
    }
    push_two_digits(&mut r, minutes);
    r.append(":");
    push_two_digits(&mut r, seconds);
    proof {
        reveal_strlit("-");
        reveal_strlit(":");
        let sign = if total_seconds >= 0 { Seq::<char>::empty() } else { seq!['-'] };
        if hours > 0 {
            assert(r@ =~= sign + decimal(hours as nat) + seq![':'] + two_digits(minutes as nat)
                + seq![':'] + two_digits(seconds as nat));
        } else {
            assert(r@ =~= sign + two_digits(minutes as nat) + seq![':'] + two_digits(
                seconds as nat,
            ));
        }
    }
    r
}


/// What the stopwatch does.
#[derive(Debug, Clone, Copy)]
pub enum Page {
    Idle,
    TrackTime { elapsed_time: ElapsedTime, last_update: Instant, paused: bool },
    StopTaskTime {
        paused: bool,
        project_id: ProjectId,
        task_id: TaskId,
        finished_notification_sent: bool,
    },
    TakingBreak {
        elapsed_time: ElapsedTime,
        last_update: Instant,
        paused: bool,
        break_duration_minutes: usize,
        break_over_notification_sent: bool,
    },
}

impl Default for Page {
    fn default() -> (r: Self)
        ensures
            r is Idle,
    {
        Page::Idle
    }
}

#[derive(Debug, Clone, Copy, PartialEq, Eq)]
pub enum Message {
    StartTrackingTime,
    StopTask { project_id: ProjectId, task_id: TaskId },
    /// Take a break of the given number of minutes.
    TakeBreak(usize),
    StartupAgain(StopwatchProgress),
    Stop,
    Pause,
    Resume,
    Toggle,
    CompleteTask,
    Update,
    SaveTaskTimeSpendBeforeClosing,
}

/// What the database holds of the task whose time the stopwatch takes.
#[derive(Debug, Clone)]
pub struct StopwatchTaskInfo {
    pub name: String,
    pub done: bool,
    pub needed_time_minutes: Option<usize>,
    /// The whole seconds spent on the task so far.
    pub spend_seconds: u64,
}

/// What the application does after a stopwatch message.
#[derive(Debug)]
pub enum StopwatchAction {
    NoAction,
    Actions(Vec<StopwatchAction>),
    OpenStopwatch,
    StartTaskTimeSpend { project_id: ProjectId, task_id: TaskId },
    StopTaskTimeSpend { project_id: ProjectId, task_id: TaskId },
    SetTaskDone { project_id: ProjectId, task_id: TaskId },
    /// Show a notification (and play its sound).
    Notify { summary: String, body: String },
}

/// The stopwatch without its clock: what it does, paused or not, and the
/// flags it keeps.
pub enum PageShape {
    Idle,
    TrackTime { paused: bool },
    StopTaskTime { paused: bool, project_id: ProjectId, task_id: TaskId, finished_notification_sent: bool },
    TakingBreak { paused: bool, break_duration_minutes: usize, break_over_notification_sent: bool },
}

pub open spec fn shape(page: Page) -> PageShape {
    match page {
        Page::Idle => PageShape::Idle,
        Page::TrackTime { paused, .. } => PageShape::TrackTime { paused },
        Page::StopTaskTime { paused, project_id, task_id, finished_notification_sent } => PageShape::StopTaskTime {
            paused,
            project_id,
            task_id,
            finished_notification_sent,
        },
        Page::TakingBreak { paused, break_duration_minutes, break_over_notification_sent, .. } => PageShape::TakingBreak {
            paused,
            break_duration_minutes,
            break_over_notification_sent,
        },
    }
}

/// The time the stopwatch counted, if it counts one.
pub open spec fn elapsed_of(page: Page) -> Option<ElapsedTime> {
    match page {
        Page::TrackTime { elapsed_time, .. } => Some(elapsed_time),
        Page::TakingBreak { elapsed_time, .. } => Some(elapsed_time),
        _ => None,
    }
}

/// When the stopwatch last counted its time, if it counts one.
pub open spec fn last_update_of(page: Page) -> Option<Instant> {
    match page {
        Page::TrackTime { last_update, .. } => Some(last_update),
        Page::TakingBreak { last_update, .. } => Some(last_update),
        _ => None,
    }
}

/// The counted time after an update: unchanged while paused, else the old
/// time plus some measured span, none when the last update did not move.
pub open spec fn counted_after_update(
    e: ElapsedTime,
    f: ElapsedTime,
    paused: bool,
    old_update: Instant,
    new_update: Instant,
) -> bool {
    if paused {
        f == e
    } else {
        &&& exists|since: ElapsedTime| since.well_formed() && #[trigger] advanced_by(e, since) == f.total_nanos()
        &&& new_update == old_update ==> f == e
    }
}

/// What the preferences keep of the stopwatch, so that it can be started
/// again where it was.
pub open spec fn progress_of(page: Page) -> Option<StopwatchProgress> {
    match page {
        Page::Idle => None,
        Page::StopTaskTime { paused, project_id, task_id, finished_notification_sent } => Some(
            StopwatchProgress::Task { project_id, task_id, paused, finished_notification_sent },
        ),
        Page::TrackTime { elapsed_time, paused, .. } => Some(
            StopwatchProgress::TrackTime { elapsed_time_seconds: elapsed_time.secs, paused },
        ),
        Page::TakingBreak {
            elapsed_time,
            paused,
            break_duration_minutes,
            break_over_notification_sent,
            ..
        } => Some(
            StopwatchProgress::Break {
                elapsed_time_seconds: elapsed_time.secs,
                paused,
                break_duration_minutes,
                break_over_notification_sent,
            },
        ),
    }
}

/// The preferences after the stopwatch stored its progress in them.
pub open spec fn progress_stored(
    before: Option<Preferences>,
    after: Option<Preferences>,
    progress: Option<StopwatchProgress>,
) -> bool {
    match before {
        Some(p) => after matches Some(q) && same_settings(q, Preferences { stopwatch_progress: progress, ..p })
            && q.last_saved_time == p.last_saved_time,
        None => after is None,
    }
}

/// The page shape that a stored progress starts the stopwatch with.
pub open spec fn shape_of_progress(progress: StopwatchProgress) -> PageShape {
    match progress {
        StopwatchProgress::TrackTime { paused, .. } => PageShape::TrackTime { paused },
        StopwatchProgress::Task { project_id, task_id, paused, finished_notification_sent } => PageShape::StopTaskTime {
            paused,
            project_id,
            task_id,
            finished_notification_sent,
        },
        StopwatchProgress::Break { paused, break_duration_minutes, break_over_notification_sent, .. } => PageShape::TakingBreak {
            paused,
            break_duration_minutes,
            break_over_notification_sent,
        },
    }
}

/// The summary of the notification at the end of a task's timer.
pub open spec fn timer_finished_text(minutes: nat) -> Seq<char> {
    decimal(minutes) + " min. timer finished!"@
}

/// The summary of the notification at the end of a break.
pub open spec fn break_over_text(minutes: nat) -> Seq<char> {
    decimal(minutes) + " min. break is over!"@
}


/// The needed time of the task has passed.
pub open spec fn task_time_reached(info: StopwatchTaskInfo, needed_minutes: usize) -> bool {
    info.spend_seconds >= needed_minutes * 60
}

/// The shape of the stopwatch after a message. For `Update`, `info` is what
/// the database holds of the task being timed and `break_secs` the whole
/// seconds of the break counted so far.
pub open spec fn shape_after(
    page: PageShape,
    message: Message,
    info: Option<StopwatchTaskInfo>,
    opened: bool,
    break_secs: u64,
) -> PageShape {
    match message {
        Message::StartTrackingTime => PageShape::TrackTime { paused: false },
        Message::StopTask { project_id, task_id } => PageShape::StopTaskTime {
            paused: false,
            project_id,
            task_id,
            finished_notification_sent: false,
        },
        Message::TakeBreak(minutes) => PageShape::TakingBreak {
            paused: false,
            break_duration_minutes: minutes,
            break_over_notification_sent: false,
        },
        Message::StartupAgain(progress) => shape_of_progress(progress),
        Message::Stop | Message::CompleteTask => PageShape::Idle,
        Message::Resume => with_paused(page, false),
        Message::Pause => with_paused(page, true),
        Message::Toggle => if !opened {
            page
        } else {
            match page {
                PageShape::Idle => PageShape::TrackTime { paused: false },
                PageShape::TrackTime { paused } => PageShape::TrackTime { paused: !paused },
                PageShape::StopTaskTime { paused, project_id, task_id, finished_notification_sent } => PageShape::StopTaskTime {
                    paused: !paused,
                    project_id,
                    task_id,
                    finished_notification_sent,
                },
                PageShape::TakingBreak { paused, break_duration_minutes, break_over_notification_sent } => PageShape::TakingBreak {
                    paused: !paused,
                    break_duration_minutes,
                    break_over_notification_sent,
                },
            }
        },
        Message::Update => match page {
            PageShape::StopTaskTime { paused, project_id, task_id, finished_notification_sent } => match info {
                Some(i) => if i.done {
                    PageShape::Idle
                } else {
                    match i.needed_time_minutes {
                        Some(n) => PageShape::StopTaskTime {
                            paused,
                            project_id,
                            task_id,
                            finished_notification_sent: finished_notification_sent || task_time_reached(i, n),
                        },
                        None => page,
                    }
                },
                None => PageShape::Idle,
            },
            PageShape::TakingBreak { paused, break_duration_minutes, break_over_notification_sent } => PageShape::TakingBreak {
                paused,
                break_duration_minutes,
                break_over_notification_sent: break_over_notification_sent || break_secs
                    >= break_duration_minutes * 60,
            },
            _ => page,
        },
        Message::SaveTaskTimeSpendBeforeClosing => page,
    }
}

/// The shape with the pause set, for the pages that can pause.
pub open spec fn with_paused(page: PageShape, paused: bool) -> PageShape {
    match page {
        PageShape::Idle => PageShape::Idle,
        PageShape::TrackTime { .. } => PageShape::TrackTime { paused },
        PageShape::StopTaskTime { project_id, task_id, finished_notification_sent, .. } => PageShape::StopTaskTime {
            paused,
            project_id,
            task_id,
            finished_notification_sent,
        },
        PageShape::TakingBreak { break_duration_minutes, break_over_notification_sent, .. } => PageShape::TakingBreak {
            paused,
            break_duration_minutes,
            break_over_notification_sent,
        },
    }
}

/// The message stores the stopwatch's progress in the preferences.
pub open spec fn stores_progress(page: PageShape, message: Message, opened: bool) -> bool {
    match message {
        Message::StartupAgain(_) | Message::SaveTaskTimeSpendBeforeClosing => false,
        Message::Resume | Message::Pause => !(page is Idle),
        Message::Toggle => opened,
        _ => true,
    }
}

/// The action for a single message, apart from the lists that `StopTask` and
/// `CompleteTask` answer with and from the notifications of `Update`.
pub open spec fn simple_action(page: PageShape, message: Message, opened: bool) -> StopwatchAction {
    match (message, page) {
        (Message::StartupAgain(StopwatchProgress::Task { project_id, task_id, paused, .. }), _) => if paused {
            StopwatchAction::NoAction
        } else {
            StopwatchAction::StartTaskTimeSpend { project_id, task_id }
        },
        (Message::Resume, PageShape::StopTaskTime { project_id, task_id, .. }) => StopwatchAction::StartTaskTimeSpend {
            project_id,
            task_id,
        },
        (Message::Pause, PageShape::StopTaskTime { project_id, task_id, .. }) => StopwatchAction::StopTaskTimeSpend {
            project_id,
            task_id,
        },
        (Message::Toggle, PageShape::StopTaskTime { project_id, task_id, paused, .. }) => if !opened {
            StopwatchAction::NoAction
        } else if paused {
            StopwatchAction::StartTaskTimeSpend { project_id, task_id }
        } else {
            StopwatchAction::StopTaskTimeSpend { project_id, task_id }
        },
        (Message::Stop, PageShape::StopTaskTime { project_id, task_id, .. }) => StopwatchAction::StopTaskTimeSpend {
            project_id,
            task_id,
        },
        (
            Message::SaveTaskTimeSpendBeforeClosing,
            PageShape::StopTaskTime { project_id, task_id, .. },
        ) => StopwatchAction::StopTaskTimeSpend { project_id, task_id },
        _ => StopwatchAction::NoAction,
    }
}

/// The action is the given list of two actions.
pub open spec fn is_pair(r: StopwatchAction, first: StopwatchAction, second: StopwatchAction) -> bool {
    r matches StopwatchAction::Actions(v) && v@.len() == 2 && v@[0] == first && v@[1] == second
}

/// The notification that an `Update` shows, if any: when a task's needed
/// time or a break has just passed and sounds are on.
pub open spec fn notification_after_update(
    page: PageShape,
    info: Option<StopwatchTaskInfo>,
    break_secs: u64,
    play_sound: bool,
) -> Option<(Seq<char>, Seq<char>)> {
    if !play_sound {
        None
    } else {
        match page {
            PageShape::StopTaskTime { finished_notification_sent, .. } => match info {
                Some(i) => if !i.done && !finished_notification_sent {
                    match i.needed_time_minutes {
                        Some(n) => if task_time_reached(i, n) {
                            Some((timer_finished_text(n as nat), i.name@))
                        } else {
                            None
                        },
                        None => None,
                    }
                } else {
                    None
                },
                None => None,
            },
            PageShape::TakingBreak { break_duration_minutes, break_over_notification_sent, .. } => if !break_over_notification_sent
                && break_secs >= break_duration_minutes * 60 {
                Some((break_over_text(break_duration_minutes as nat), Seq::empty()))
            } else {
                None
            },
            _ => None,
        }
    }
}

/// What a stopwatch message does: `before` and `after` are the stopwatch
/// and `prefs_before` and `prefs_after` the preferences around it, `r` is
/// the action it answers with.
pub open spec fn stopwatch_update(
    before: Page,
    after: Page,
    message: Message,
    task_info: Option<StopwatchTaskInfo>,
    prefs_before: Option<Preferences>,
    prefs_after: Option<Preferences>,
    opened: bool,
    r: StopwatchAction,
) -> bool {
    &&& shape(after) == shape_after(
        shape(before),
        message,
        task_info,
        opened,
        match elapsed_of(after) {
            Some(e) => e.secs,
            None => 0,
        },
    )
    &&& if stores_progress(shape(before), message, opened) {
        progress_stored(prefs_before, prefs_after, progress_of(after))
    } else {
        prefs_after == prefs_before
    }
    &&& match message {
        Message::StartTrackingTime | Message::TakeBreak(_) => elapsed_of(after) == Some(
            ElapsedTime { secs: 0, nanos: 0 },
        ),
        Message::Toggle => if opened && before is Idle {
            elapsed_of(after) == Some(ElapsedTime { secs: 0, nanos: 0 })
        } else {
            elapsed_of(after) == elapsed_of(before)
        },
        Message::StartupAgain(progress) => progress_of(after) == Some(progress) && (
        elapsed_of(after) matches Some(e) ==> e.nanos == 0),
        Message::Update => match (before, after) {
            (
                Page::TrackTime { elapsed_time: e, paused, last_update: l },
                Page::TrackTime { elapsed_time: f, last_update: m, .. },
            )
            | (
                Page::TakingBreak { elapsed_time: e, paused, last_update: l, .. },
                Page::TakingBreak { elapsed_time: f, last_update: m, .. },
            ) => counted_after_update(e, f, paused, l, m),
            _ => true,
        },
        Message::StopTask { .. } | Message::Stop | Message::CompleteTask => elapsed_of(
            after,
        ) is None,
        _ => elapsed_of(after) == elapsed_of(before),
    }
    &&& message is Toggle && !opened ==> after == before
    &&& message is Pause || message is Resume || (message is Toggle && !(before is Idle))
        ==> last_update_of(after) == last_update_of(before)
    &&& match message {
        Message::StopTask { project_id, task_id } => is_pair(
            r,
            StopwatchAction::OpenStopwatch,
            StopwatchAction::StartTaskTimeSpend { project_id, task_id },
        ),
        Message::CompleteTask => is_pair(
            r,
            match shape(before) {
                PageShape::StopTaskTime { project_id, task_id, .. } => StopwatchAction::SetTaskDone {
                    project_id,
                    task_id,
                },
                _ => StopwatchAction::NoAction,
            },
            simple_action(shape(before), Message::Stop, opened),
        ),
        Message::Update => match notification_after_update(
            shape(before),
            task_info,
            match elapsed_of(after) {
                Some(e) => e.secs,
                None => 0,
            },
            plays_timer_sound(prefs_before),
        ) {
            Some((summary, body)) => r matches StopwatchAction::Notify { summary: s, body: b } && s@
                == summary && b@ == body,
            None => r == StopwatchAction::NoAction,
        },
        _ => r == simple_action(shape(before), message, opened),
    }
}

impl Page {
    /// Starts the stopwatch again from stored progress: the counted time,
    /// the pause and the notification flags come back, and a running task's
    /// time is counted again.
    pub fn startup_again(stopwatch_progress: StopwatchProgress) -> (r: (Self, StopwatchAction))
        ensures
            progress_of(r.0) == Some(stopwatch_progress),
            shape(r.0) == shape_of_progress(stopwatch_progress),
            elapsed_of(r.0) matches Some(e) ==> e.nanos == 0,
            r.1 == (match stopwatch_progress {
                StopwatchProgress::Task { project_id, task_id, paused, .. } => if paused {
                    StopwatchAction::NoAction
                } else {
                    StopwatchAction::StartTaskTimeSpend { project_id, task_id }
                },
                _ => StopwatchAction::NoAction,
            }),
    {
        match stopwatch_progress {
            StopwatchProgress::TrackTime { elapsed_time_seconds, paused } => (
                Page::TrackTime {
                    elapsed_time: ElapsedTime::from_secs(elapsed_time_seconds),
                    paused,
                    last_update: instant_now(),
                },
                StopwatchAction::NoAction,
            ),
            StopwatchProgress::Task { project_id, task_id, paused, finished_notification_sent } => (
                Page::StopTaskTime { project_id, task_id, paused, finished_notification_sent },
                if paused {
                    StopwatchAction::NoAction
                } else {
                    StopwatchAction::StartTaskTimeSpend { project_id, task_id }
                },
            ),
            StopwatchProgress::Break {
                elapsed_time_seconds,
                paused,
                break_duration_minutes,
                break_over_notification_sent,
            } => (
                Page::TakingBreak {
                    elapsed_time: ElapsedTime::from_secs(elapsed_time_seconds),
                    last_update: instant_now(),
                    paused,
                    break_duration_minutes,
                    break_over_notification_sent,
                },
                StopwatchAction::NoAction,
            ),
        }
    }

    /// Whether the time of the given task is being taken right now.
    pub fn is_task_being_stopped(&self, project_id: ProjectId, task_id: TaskId) -> (r: bool)
        ensures
            r == (match *self {
                Page::StopTaskTime { paused, project_id: p, task_id: t, .. } => p == project_id && t
                    == task_id && !paused,
                _ => false,
            }),
    {
        match self {
            Page::StopTaskTime { paused, project_id: p, task_id: t, .. } => *p == project_id && *t
                == task_id && !*paused,
            _ => false,
        }
    }

    /// Stores the stopwatch's progress in the preferences, if there are any.
    pub fn set_stopwatch_progress(&self, preferences: &mut Option<Preferences>)
        ensures
            progress_stored(*old(preferences), *final(preferences), progress_of(*self)),
    {
        if let Some(preferences) = preferences {
            let progress = match self {
                Page::Idle => None,
                Page::StopTaskTime { paused, project_id, task_id, finished_notification_sent } => Some(
                    StopwatchProgress::Task {
                        project_id: *project_id,
                        task_id: *task_id,
                        paused: *paused,
                        finished_notification_sent: *finished_notification_sent,
                    },
                ),
                Page::TrackTime { elapsed_time, paused, .. } => Some(
                    StopwatchProgress::TrackTime { elapsed_time_seconds: elapsed_time.as_secs(), paused: *paused },
                ),
                Page::TakingBreak {
                    elapsed_time,
                    paused,
                    break_duration_minutes,
                    break_over_notification_sent,
                    ..
                } => Some(
                    StopwatchProgress::Break {
                        elapsed_time_seconds: elapsed_time.as_secs(),
                        paused: *paused,
                        break_duration_minutes: *break_duration_minutes,
                        break_over_notification_sent: *break_over_notification_sent,
                    },
                ),
            };
            preferences.set_stopwatch_progress(progress);
        }
    }

    /// Stops the stopwatch; a task stops counting its time.
    fn stop(&mut self, preferences: &mut Option<Preferences>) -> (r: StopwatchAction)
        ensures
            *final(self) is Idle,
            progress_stored(*old(preferences), *final(preferences), None),
            r == (match *old(self) {
                Page::StopTaskTime { project_id, task_id, .. } => StopwatchAction::StopTaskTimeSpend {
                    project_id,
                    task_id,
                },
                _ => StopwatchAction::NoAction,
            }),
    {
        let action = match self {
            Page::StopTaskTime { project_id, task_id, .. } => StopwatchAction::StopTaskTimeSpend {
                project_id: *project_id,
                task_id: *task_id,
            },
            _ => StopwatchAction::NoAction,
        };
        *self = Page::Idle;
        self.set_stopwatch_progress(preferences);
        action
    }

    /// The break's counted time and the task's spend time are compared with
    /// their ends, and the notifications are sent at most once.
    pub fn update(
        &mut self,
        message: Message,
        task_info: Option<StopwatchTaskInfo>,
        preferences: &mut Option<Preferences>,
        opened: bool,
    ) -> (r: StopwatchAction)
        requires
            elapsed_of(*old(self)) matches Some(e) ==> e.well_formed(),
        ensures
            elapsed_of(*final(self)) matches Some(e) ==> e.well_formed(),
            stopwatch_update(
                *old(self),
                *final(self),
                message,
                task_info,
                *old(preferences),
                *final(preferences),
                opened,
                r,
            ),
        decreases (if message is Toggle { 1int } else { 0int }),
    {
        match message {
            Message::StartTrackingTime => {
                *self = Page::TrackTime {
                    elapsed_time: ElapsedTime::from_secs(0),
                    last_update: instant_now(),
                    paused: false,
                };
                self.set_stopwatch_progress(preferences);
                StopwatchAction::NoAction
            },
            Message::StopTask { project_id, task_id } => {
                *self = Page::StopTaskTime {
                    paused: false,
                    project_id,
                    task_id,
                    finished_notification_sent: false,
                };
                self.set_stopwatch_progress(preferences);
                StopwatchAction::Actions(
                    vec![
                        StopwatchAction::OpenStopwatch,
                        StopwatchAction::StartTaskTimeSpend { project_id, task_id },
                    ],
                )
            },
            Message::TakeBreak(minutes) => {
                *self = Page::TakingBreak {
                    elapsed_time: ElapsedTime::from_secs(0),
                    last_update: instant_now(),
                    paused: false,
                    break_duration_minutes: minutes,
                    break_over_notification_sent: false,
                };
                self.set_stopwatch_progress(preferences);
                StopwatchAction::NoAction
            },
            Message::StartupAgain(progress) => {
                let (new_self, action) = Self::startup_again(progress);
                *self = new_self;
                action
            },
            Message::Stop => self.stop(preferences),
            Message::Resume => self.set_paused(false, preferences),
            Message::Pause => self.set_paused(true, preferences),
            Message::Toggle => {
                if opened {
                    match *self {
                        Page::Idle => self.update(Message::StartTrackingTime, task_info, preferences, opened),
                        Page::TrackTime { paused, .. } => self.set_paused(!paused, preferences),
                        Page::TakingBreak { paused, .. } => self.set_paused(!paused, preferences),
                        Page::StopTaskTime { paused, .. } => self.set_paused(!paused, preferences),
                    }
                } else {
                    StopwatchAction::NoAction
                }
            },
            Message::CompleteTask => {
                let set_task_done_action = match *self {
                    Page::StopTaskTime { project_id, task_id, .. } => StopwatchAction::SetTaskDone {
                        project_id,
                        task_id,
                    },
                    _ => StopwatchAction::NoAction,
                };
                let stop_action = self.stop(preferences);
                StopwatchAction::Actions(vec![set_task_done_action, stop_action])
            },
            Message::Update => self.advance(task_info, preferences),
            Message::SaveTaskTimeSpendBeforeClosing => match *self {
                Page::StopTaskTime { project_id, task_id, .. } => StopwatchAction::StopTaskTimeSpend {
                    project_id,
                    task_id,
                },
                _ => StopwatchAction::NoAction,
            },
        }
    }

    /// Pauses or resumes the stopwatch; a task starts or stops counting its
    /// time.
    fn set_paused(&mut self, paused: bool, preferences: &mut Option<Preferences>) -> (r: StopwatchAction)
        ensures
            shape(*final(self)) == with_paused(shape(*old(self)), paused),
            elapsed_of(*final(self)) == elapsed_of(*old(self)),
            last_update_of(*final(self)) == last_update_of(*old(self)),
            if *old(self) is Idle {
                *final(preferences) == *old(preferences)
            } else {
                progress_stored(*old(preferences), *final(preferences), progress_of(*final(self)))
            },
            r == (match *old(self) {
                Page::StopTaskTime { project_id, task_id, .. } => if paused {
                    StopwatchAction::StopTaskTimeSpend { project_id, task_id }
                } else {
                    StopwatchAction::StartTaskTimeSpend { project_id, task_id }
                },
                _ => StopwatchAction::NoAction,
            }),
    {
        match *self {
            Page::Idle => StopwatchAction::NoAction,
            Page::TrackTime { elapsed_time, last_update, .. } => {
                *self = Page::TrackTime { elapsed_time, last_update, paused };
                self.set_stopwatch_progress(preferences);
                StopwatchAction::NoAction
            },
            Page::TakingBreak {
                elapsed_time,
                last_update,
                break_duration_minutes,
                break_over_notification_sent,
                ..
            } => {
                *self = Page::TakingBreak {
                    elapsed_time,
                    last_update,
                    paused,
                    break_duration_minutes,
                    break_over_notification_sent,
                };
                self.set_stopwatch_progress(preferences);
                StopwatchAction::NoAction
            },
            Page::StopTaskTime { project_id, task_id, finished_notification_sent, .. } => {
                *self = Page::StopTaskTime { paused, project_id, task_id, finished_notification_sent };
                self.set_stopwatch_progress(preferences);
                if paused {
                    StopwatchAction::StopTaskTimeSpend { project_id, task_id }
                } else {
                    StopwatchAction::StartTaskTimeSpend { project_id, task_id }
                }
            },
        }
    }

    /// Counts the time that passed since the last update, checks whether the
    /// task or the break is over and stores the progress.
    fn advance(&mut self, task_info: Option<StopwatchTaskInfo>, preferences: &mut Option<Preferences>) -> (r:
        StopwatchAction)
        requires
            elapsed_of(*old(self)) matches Some(e) ==> e.well_formed(),
        ensures
            elapsed_of(*final(self)) matches Some(e) ==> e.well_formed(),
            shape(*final(self)) == shape_after(
                shape(*old(self)),
                Message::Update,
                task_info,
                true,
                match elapsed_of(*final(self)) {
                    Some(e) => e.secs,
                    None => 0,
                },
            ),
            progress_stored(*old(preferences), *final(preferences), progress_of(*final(self))),
            match (*old(self), *final(self)) {
                (
                    Page::TrackTime { elapsed_time: e, paused, last_update: l },
                    Page::TrackTime { elapsed_time: f, last_update: m, .. },
                )
                | (
                    Page::TakingBreak { elapsed_time: e, paused, last_update: l, .. },
                    Page::TakingBreak { elapsed_time: f, last_update: m, .. },
                ) => counted_after_update(e, f, paused, l, m),
                _ => true,
            },
            match notification_after_update(
                shape(*old(self)),
                task_info,
                match elapsed_of(*final(self)) {
                    Some(e) => e.secs,
                    None => 0,
                },
                plays_timer_sound(*old(preferences)),
            ) {
                Some((summary, body)) => r matches StopwatchAction::Notify { summary: s, body: b } && s@
                    == summary && b@ == body,
                None => r == StopwatchAction::NoAction,
            },
    {
        let play_sound = preferences.play_timer_notification_sound();
        let mut action = StopwatchAction::NoAction;
        match *self {
            Page::Idle => {},
            Page::TrackTime { elapsed_time, last_update, paused } => {
                let now = instant_now();
                let elapsed_time = if paused {
                    elapsed_time
                } else {
                    advanced(elapsed_time, &now, &last_update)
                };
                *self = Page::TrackTime { elapsed_time, last_update: now, paused };
            },
            Page::TakingBreak {
                elapsed_time,
                last_update,
                paused,
                break_duration_minutes,
                break_over_notification_sent,
            } => {
                let now = instant_now();
                let elapsed_time = if paused {
                    elapsed_time
                } else {
                    advanced(elapsed_time, &now, &last_update)
                };
                let over = (elapsed_time.secs as u128) >= (break_duration_minutes as u128) * 60;
                if over && !break_over_notification_sent && play_sound {
                    action = StopwatchAction::Notify {
                        summary: minutes_text(break_duration_minutes, " min. break is over!"),
                        body: String::new(),
                    };
                }
                *self = Page::TakingBreak {
                    elapsed_time,
                    last_update: now,
                    paused,
                    break_duration_minutes,
                    break_over_notification_sent: break_over_notification_sent || over,
                };
            },
            Page::StopTaskTime { paused, project_id, task_id, finished_notification_sent } => {
                match task_info {
                    Some(info) => {
                        if info.done {
                            *self = Page::Idle;
                        } else {
                            match info.needed_time_minutes {
                                Some(needed) => {
                                    let reached = (info.spend_seconds as u128) >= (needed as u128) * 60;
                                    if reached && !finished_notification_sent && play_sound {
                                        action = StopwatchAction::Notify {
                                            summary: minutes_text(needed, " min. timer finished!"),
                                            body: info.name,
                                        };
                                    }
                                    *self = Page::StopTaskTime {
                                        paused,
                                        project_id,
                                        task_id,
                                        finished_notification_sent: finished_notification_sent || reached,
                                    };
                                },
                                None => {},
                            }
                        }
                    },
                    None => {
                        *self = Page::Idle;
                    },
                }
            },
        }
        self.set_stopwatch_progress(preferences);
        action
    }
}

/// The counted time `elapsed` plus a span `since`; a sum that would not fit
/// keeps the counted time.
pub open spec fn advanced_by(elapsed: ElapsedTime, since: ElapsedTime) -> int {
    if elapsed.total_nanos() + since.total_nanos() <= max_total_nanos() {
        elapsed.total_nanos() + since.total_nanos()
    } else {
        elapsed.total_nanos()
    }
}

/// The counted time plus the time from `last_update` to `now` (none when
/// they are the same instant); a sum that would not fit keeps the counted
/// time. How long that time is rests on the clock.
fn advanced(elapsed_time: ElapsedTime, now: &Instant, last_update: &Instant) -> (r: ElapsedTime)
    requires
        elapsed_time.well_formed(),
    ensures
        r.well_formed(),
        exists|since: ElapsedTime| since.well_formed() && #[trigger] advanced_by(elapsed_time, since) == r.total_nanos(),
        *now == *last_update ==> r == elapsed_time,
{
    let since = instant_duration_since(now, last_update);
    let r = advance_by(elapsed_time, since);
    proof {
        if *now == *last_update {
            lemma_same_total_same_span(r, elapsed_time);
        }
    }
    assert(since.well_formed() && advanced_by(elapsed_time, since) == r.total_nanos());
    r
}

/// The counted time `elapsed` plus the measured span `since`; a sum that
/// would not fit keeps the counted time.
pub fn advance_by(elapsed: ElapsedTime, since: ElapsedTime) -> (r: ElapsedTime)
    requires
        elapsed.well_formed(),
        since.well_formed(),
    ensures
        r.well_formed(),
        r.total_nanos() == advanced_by(elapsed, since),
{
    match elapsed_checked_add(elapsed, since) {
        Some(sum) => sum,
        None => elapsed,
    }
}

/// Two well-formed spans with the same number of nanoseconds are the same.
proof fn lemma_same_total_same_span(a: ElapsedTime, b: ElapsedTime)
    requires
        a.well_formed(),
        b.well_formed(),
        a.total_nanos() == b.total_nanos(),
    ensures
        a == b,
{
    assert(a.secs == b.secs) by (nonlinear_arith)
        requires
            a.nanos < 1_000_000_000,
            b.nanos < 1_000_000_000,
            a.secs * 1_000_000_000 + a.nanos == b.secs * 1_000_000_000 + b.nanos,
    ;
}

/// A number of minutes followed by a text.
fn minutes_text(minutes: usize, text: &str) -> (r: String)
    ensures
        r@ == decimal(minutes as nat) + text@,
{
    let mut r = String::new();
    push_decimal(&mut r, minutes as u64);
    r.append(text);
    r
}

} // verus!

verus! {

/// What the stopwatch stores in the preferences starts it again in the same
/// state: the same page, pause and notification flags, and the whole seconds
/// it had counted.
pub proof fn law_stored_progress_restores_the_stopwatch(page: Page)
    requires
        progress_of(page) is Some,
    ensures
        shape_of_progress(progress_of(page)->0) == shape(page),
        match (progress_of(page)->0, elapsed_of(page)) {
            (StopwatchProgress::TrackTime { elapsed_time_seconds, .. }, Some(e)) => elapsed_time_seconds == e.secs,
            (StopwatchProgress::Break { elapsed_time_seconds, .. }, Some(e)) => elapsed_time_seconds == e.secs,
            (StopwatchProgress::Task { .. }, None) => true,
            _ => false,
        },
{
}

} // verus!

verus! {

/// Toggling the open stopwatch twice gives back its page and pause, except
/// when it was idle (the first toggle starts tracking time).
pub proof fn law_toggle_twice_restores(page: PageShape, info: Option<StopwatchTaskInfo>, break_secs: u64)
    requires
        !(page is Idle),
    ensures
        shape_after(
            shape_after(page, Message::Toggle, info, true, break_secs),
            Message::Toggle,
            info,
            true,
            break_secs,
        ) == page,
{
}


/// The timer of a task finishes when the seconds spent on it reach its
/// needed minutes: before that an update sends no notification and marks
/// nothing; from then on the task is marked finished, and with sounds on
/// the update notifies that the timer of that many minutes finished.
pub proof fn law_task_timer_finishes_at_its_needed_time(
    before: Page,
    after: Page,
    info: StopwatchTaskInfo,
    prefs_before: Option<Preferences>,
    prefs_after: Option<Preferences>,
    opened: bool,
    r: StopwatchAction,
    needed_minutes: usize,
)
    requires
        stopwatch_update(before, after, Message::Update, Some(info), prefs_before, prefs_after, opened, r),
        before matches Page::StopTaskTime { finished_notification_sent, .. } && !finished_notification_sent,
        !info.done,
        info.needed_time_minutes == Some(needed_minutes),
    ensures
        shape(after) is StopTaskTime,
        shape(after)->StopTaskTime_finished_notification_sent == (info.spend_seconds >= 60 * needed_minutes),
        info.spend_seconds < 60 * needed_minutes ==> r == StopwatchAction::NoAction,
        info.spend_seconds >= 60 * needed_minutes && plays_timer_sound(prefs_before) ==> (r matches StopwatchAction::Notify {
            summary,
            body,
        } && summary@ == decimal(needed_minutes as nat) + " min. timer finished!"@ && body@ == info.name@),
        info.spend_seconds >= 60 * needed_minutes && !plays_timer_sound(prefs_before) ==> r
            == StopwatchAction::NoAction,
{
}

} // verus!

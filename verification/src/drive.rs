//! Driving a deferred task to its end: polling, status events, cancellation and the deadline.

use vstd::prelude::*;
use vstd::string::*;

use crate::duplicate::Duplicate;
use crate::duration::{duration_text, Duration};
use crate::error::{plain_error, ErrorView, ToolErrorKind, ToolExecutionError};
use crate::output::ContentView;
use crate::result::{task_cancelled, task_failed, ToolTaskResult, ToolTaskResultView};
use crate::status::ToolTaskStatus;
use crate::text::{mentions, parts_are_mentioned};

verus! {

/// When the run that launched a task goes on.
#[derive(Debug, Clone, Copy, PartialEq, Eq, Structural)]
pub enum TaskCompletionPolicy {
    /// The turn waits for the task.
    JoinTurn,
    /// Later turns go on while the task runs.
    ContinueTurns,
}

impl DeepView for TaskCompletionPolicy {
    type V = TaskCompletionPolicy;

    open spec fn deep_view(&self) -> TaskCompletionPolicy {
        *self
    }
}

impl Duplicate for TaskCompletionPolicy {
    fn duplicate(&self) -> (copy: Self) {
        *self
    }
}

/// A deferred task and the call that launched it.
#[derive(Debug)]
pub struct PendingTask {
    /// Identifies the call within the run.
    pub internal_call_id: String,
    /// The tool that was called.
    pub tool_name: String,
    /// The id of the tool call.
    pub tool_use_id: String,
    /// The provider-supplied call id, when available.
    pub call_id: Option<String>,
    /// The backend-assigned task id.
    pub task_id: String,
    /// The effective JSON arguments of the call.
    pub args: String,
    /// When the run goes on.
    pub policy: TaskCompletionPolicy,
    /// The last status that was reported.
    pub last_status: Option<ToolTaskStatus>,
}

/// The model of a [`PendingTask`].
#[verifier::ext_equal]
pub struct PendingTaskView {
    /// Identifies the call within the run.
    pub internal_call_id: Seq<char>,
    /// The tool that was called.
    pub tool_name: Seq<char>,
    /// The id of the tool call.
    pub tool_use_id: Seq<char>,
    /// The provider-supplied call id, when available.
    pub call_id: Option<Seq<char>>,
    /// The backend-assigned task id.
    pub task_id: Seq<char>,
    /// The effective JSON arguments of the call.
    pub args: Seq<char>,
    /// When the run goes on.
    pub policy: TaskCompletionPolicy,
    /// The last status that was reported.
    pub last_status: Option<ToolTaskStatus>,
}

impl DeepView for PendingTask {
    type V = PendingTaskView;

    open spec fn deep_view(&self) -> PendingTaskView {
        PendingTaskView {
            internal_call_id: self.internal_call_id.deep_view(),
            tool_name: self.tool_name.deep_view(),
            tool_use_id: self.tool_use_id.deep_view(),
            call_id: self.call_id.deep_view(),
            task_id: self.task_id.deep_view(),
            args: self.args.deep_view(),
            policy: self.policy,
            last_status: self.last_status.deep_view(),
        }
    }
}

impl Duplicate for PendingTask {
    fn duplicate(&self) -> (copy: Self) {
        PendingTask {
            internal_call_id: self.internal_call_id.duplicate(),
            tool_name: self.tool_name.duplicate(),
            tool_use_id: self.tool_use_id.duplicate(),
            call_id: self.call_id.duplicate(),
            task_id: self.task_id.duplicate(),
            args: self.args.duplicate(),
            policy: self.policy,
            last_status: self.last_status.duplicate(),
        }
    }
}

impl Clone for PendingTask {
    fn clone(&self) -> (copy: Self)
        ensures
            copy.deep_view() == self.deep_view(),
    {
        self.duplicate()
    }
}

/// The end of a deferred task.
#[derive(Debug)]
pub struct TaskResolvedEvent {
    /// Identifies the call within the run.
    pub internal_call_id: String,
    /// The tool that was called.
    pub tool_name: String,
    /// The id of the tool call.
    pub tool_use_id: String,
    /// The provider-supplied call id, when available.
    pub call_id: Option<String>,
    /// The backend-assigned task id.
    pub task_id: String,
    /// The effective JSON arguments of the call.
    pub args: String,
    /// When the run goes on.
    pub policy: TaskCompletionPolicy,
    /// The raw structured result.
    pub result: ToolTaskResult,
}

/// The model of a [`TaskResolvedEvent`].
#[verifier::ext_equal]
pub struct TaskResolvedEventView {
    /// Identifies the call within the run.
    pub internal_call_id: Seq<char>,
    /// The tool that was called.
    pub tool_name: Seq<char>,
    /// The id of the tool call.
    pub tool_use_id: Seq<char>,
    /// The provider-supplied call id, when available.
    pub call_id: Option<Seq<char>>,
    /// The backend-assigned task id.
    pub task_id: Seq<char>,
    /// The effective JSON arguments of the call.
    pub args: Seq<char>,
    /// When the run goes on.
    pub policy: TaskCompletionPolicy,
    /// The raw structured result.
    pub result: ToolTaskResultView,
}

impl DeepView for TaskResolvedEvent {
    type V = TaskResolvedEventView;

    open spec fn deep_view(&self) -> TaskResolvedEventView {
        TaskResolvedEventView {
            internal_call_id: self.internal_call_id.deep_view(),
            tool_name: self.tool_name.deep_view(),
            tool_use_id: self.tool_use_id.deep_view(),
            call_id: self.call_id.deep_view(),
            task_id: self.task_id.deep_view(),
            args: self.args.deep_view(),
            policy: self.policy,
            result: self.result.deep_view(),
        }
    }
}

/// A change of a deferred task's status.
#[derive(Debug)]
pub struct TaskStatusEvent {
    /// Identifies the call within the run.
    pub internal_call_id: String,
    /// The tool that was called.
    pub tool_name: String,
    /// The provider-supplied call id, when available.
    pub call_id: Option<String>,
    /// The backend-assigned task id.
    pub task_id: String,
    /// The new status.
    pub status: ToolTaskStatus,
}

/// The model of a [`TaskStatusEvent`].
#[verifier::ext_equal]
pub struct TaskStatusEventView {
    /// Identifies the call within the run.
    pub internal_call_id: Seq<char>,
    /// The tool that was called.
    pub tool_name: Seq<char>,
    /// The provider-supplied call id, when available.
    pub call_id: Option<Seq<char>>,
    /// The backend-assigned task id.
    pub task_id: Seq<char>,
    /// The new status.
    pub status: ToolTaskStatus,
}

impl DeepView for TaskStatusEvent {
    type V = TaskStatusEventView;

    open spec fn deep_view(&self) -> TaskStatusEventView {
        TaskStatusEventView {
            internal_call_id: self.internal_call_id.deep_view(),
            tool_name: self.tool_name.deep_view(),
            call_id: self.call_id.deep_view(),
            task_id: self.task_id.deep_view(),
            status: self.status,
        }
    }
}

/// One event of a task that is being driven.
#[derive(Debug)]
pub enum TaskDriveEvent {
    /// The status changed.
    Status(TaskStatusEvent),
    /// The task ended.
    Resolved(TaskResolvedEvent),
}

/// The model of a [`TaskDriveEvent`].
#[verifier::ext_equal]
pub enum TaskDriveEventView {
    /// The status changed.
    Status(TaskStatusEventView),
    /// The task ended.
    Resolved(TaskResolvedEventView),
}

impl DeepView for TaskDriveEvent {
    type V = TaskDriveEventView;

    open spec fn deep_view(&self) -> TaskDriveEventView {
        match self {
            TaskDriveEvent::Status(value) => TaskDriveEventView::Status(value.deep_view()),
            TaskDriveEvent::Resolved(value) => TaskDriveEventView::Resolved(value.deep_view()),
        }
    }
}

/// What one round of driving observed.
#[derive(Debug)]
pub enum TaskWake {
    /// The backend told the status.
    Status(ToolTaskStatus),
    /// The backend could not tell the status.
    StatusFailed(ToolExecutionError),
    /// The task delivered its result.
    Result(ToolTaskResult),
    /// The task has to be cancelled, for this reason.
    Cancelled(String),
    /// The deadline passed.
    Deadline,
}

/// The model of a [`TaskWake`].
#[verifier::ext_equal]
pub enum TaskWakeView {
    /// The backend told the status.
    Status(ToolTaskStatus),
    /// The backend could not tell the status.
    StatusFailed(ErrorView),
    /// The task delivered its result.
    Result(ToolTaskResultView),
    /// The task has to be cancelled, for this reason.
    Cancelled(Seq<char>),
    /// The deadline passed.
    Deadline,
}

impl DeepView for TaskWake {
    type V = TaskWakeView;

    open spec fn deep_view(&self) -> TaskWakeView {
        match self {
            TaskWake::Status(value) => TaskWakeView::Status(*value),
            TaskWake::StatusFailed(value) => TaskWakeView::StatusFailed(value.deep_view()),
            TaskWake::Result(value) => TaskWakeView::Result(value.deep_view()),
            TaskWake::Cancelled(value) => TaskWakeView::Cancelled(value.deep_view()),
            TaskWake::Deadline => TaskWakeView::Deadline,
        }
    }
}

/// What ended the wait between two rounds.
#[derive(Debug)]
pub enum PauseEnd {
    /// The task delivered its result.
    Result(ToolTaskResult),
    /// The poll interval ran out.
    Tick,
    /// The task has to be cancelled, for this reason.
    Cancelled(String),
    /// The deadline passed.
    Deadline,
}

/// The model of a [`PauseEnd`].
#[verifier::ext_equal]
pub enum PauseEndView {
    /// The task delivered its result.
    Result(ToolTaskResultView),
    /// The poll interval ran out.
    Tick,
    /// The task has to be cancelled, for this reason.
    Cancelled(Seq<char>),
    /// The deadline passed.
    Deadline,
}

impl DeepView for PauseEnd {
    type V = PauseEndView;

    open spec fn deep_view(&self) -> PauseEndView {
        match self {
            PauseEnd::Result(value) => PauseEndView::Result(value.deep_view()),
            PauseEnd::Tick => PauseEndView::Tick,
            PauseEnd::Cancelled(reason) => PauseEndView::Cancelled(reason.deep_view()),
            PauseEnd::Deadline => PauseEndView::Deadline,
        }
    }
}

/// What a driver is told.
#[derive(Debug)]
pub enum DriveInput {
    /// The task was launched.
    Launched,
    /// A round begins; the reason for cancellation is told, where one was given.
    Round(Option<String>),
    /// The observation of this round was made.
    Wake(TaskWake),
    /// The wait between two rounds ended.
    Paused(PauseEnd),
}

/// The model of a [`DriveInput`].
#[verifier::ext_equal]
pub enum DriveInputView {
    /// The task was launched.
    Launched,
    /// A round begins; the reason for cancellation is told, where one was given.
    Round(Option<Seq<char>>),
    /// The observation of this round was made.
    Wake(TaskWakeView),
    /// The wait between two rounds ended.
    Paused(PauseEndView),
}

impl DeepView for DriveInput {
    type V = DriveInputView;

    open spec fn deep_view(&self) -> DriveInputView {
        match self {
            DriveInput::Launched => DriveInputView::Launched,
            DriveInput::Round(value) => DriveInputView::Round(value.deep_view()),
            DriveInput::Wake(value) => DriveInputView::Wake(value.deep_view()),
            DriveInput::Paused(value) => DriveInputView::Paused(value.deep_view()),
        }
    }
}

/// What a driver does next.
#[derive(Debug)]
pub enum DriveAction {
    /// Open the one request for the result, which stays open until the end, and begin the first
    /// round.
    OpenResult,
    /// Ask for the status, and wait for the result, the status, a cancellation or the deadline,
    /// whichever comes first.
    Race,
    /// Report the event, if any, then wait for the result, the end of the interval, a cancellation
    /// or the deadline, whichever comes first.
    Pause {
        /// The event to be reported.
        event: Option<TaskStatusEvent>,
        /// The poll interval.
        interval: Duration,
    },
    /// Begin the next round.
    NextRound,
    /// Report the end of the task.
    Resolve(TaskResolvedEvent),
    /// Cancel the task at its backend, as far as that goes, then report its end.
    CancelThenResolve(TaskResolvedEvent),
    /// Nothing: the end of the task was reported.
    Ended,
}

/// The model of a [`DriveAction`].
#[verifier::ext_equal]
pub enum DriveActionView {
    /// Open the one request for the result, which stays open until the end, and begin the first
    /// round.
    OpenResult,
    /// Ask for the status, and wait for the result, the status, a cancellation or the deadline,
    /// whichever comes first.
    Race,
    /// Report the event, if any, then wait for the result, the end of the interval, a cancellation
    /// or the deadline, whichever comes first.
    Pause {
        /// The event to be reported.
        event: Option<TaskStatusEventView>,
        /// The poll interval.
        interval: nat,
    },
    /// Begin the next round.
    NextRound,
    /// Report the end of the task.
    Resolve(TaskResolvedEventView),
    /// Cancel the task at its backend, as far as that goes, then report its end.
    CancelThenResolve(TaskResolvedEventView),
    /// Nothing: the end of the task was reported.
    Ended,
}

impl DeepView for DriveAction {
    type V = DriveActionView;

    open spec fn deep_view(&self) -> DriveActionView {
        match self {
            DriveAction::OpenResult => DriveActionView::OpenResult,
            DriveAction::Race => DriveActionView::Race,
            DriveAction::Pause { event, interval } => DriveActionView::Pause {
                event: event.deep_view(),
                interval: interval.deep_view(),
            },
            DriveAction::NextRound => DriveActionView::NextRound,
            DriveAction::Resolve(value) => DriveActionView::Resolve(value.deep_view()),
            DriveAction::CancelThenResolve(value) => {
                DriveActionView::CancelThenResolve(value.deep_view())
            },
            DriveAction::Ended => DriveActionView::Ended,
        }
    }
}

/// A deferred task that is being driven.
#[derive(Debug)]
pub struct TaskDrive {
    /// The task; its last reported status is kept up to date.
    pub task: PendingTask,
    /// The poll interval.
    pub poll_interval: Duration,
    /// Whether the request for the result was opened.
    pub opened: bool,
    /// Whether the deadline passed between two rounds.
    pub deadline_hit: bool,
    /// Whether the end of the task was reported.
    pub ended: bool,
}

/// The model of a [`TaskDrive`].
#[verifier::ext_equal]
pub struct TaskDriveView {
    /// The task; its last reported status is kept up to date.
    pub task: PendingTaskView,
    /// The poll interval.
    pub poll_interval: nat,
    /// Whether the request for the result was opened.
    pub opened: bool,
    /// Whether the deadline passed between two rounds.
    pub deadline_hit: bool,
    /// Whether the end of the task was reported.
    pub ended: bool,
}

impl DeepView for TaskDrive {
    type V = TaskDriveView;

    open spec fn deep_view(&self) -> TaskDriveView {
        TaskDriveView {
            task: self.task.deep_view(),
            poll_interval: self.poll_interval.deep_view(),
            opened: self.opened,
            deadline_hit: self.deadline_hit,
            ended: self.ended,
        }
    }
}

/// How tasks are driven, as the runner decides.
#[derive(Debug, Clone, Copy)]
pub struct TaskDriveConfig {
    /// The poll cadence where the handle suggests none.
    pub poll_fallback: Option<Duration>,
    /// How long a task may take, from its launch or its return.
    pub deadline: Option<Duration>,
}

impl Default for TaskDriveConfig {
    fn default() -> (config: Self)
        ensures
            config.poll_fallback is None,
            config.deadline is None,
    {
        TaskDriveConfig { poll_fallback: None, deadline: None }
    }
}

/// Nanoseconds of the poll cadence where neither the handle nor the runner supplies one.
pub open spec fn default_task_poll_interval() -> nat {
    2_000_000_000
}

/// Nanoseconds that a cancellation may take.
pub open spec fn task_cancel_grace() -> nat {
    5_000_000_000
}

/// The poll interval: the handle's, or else the runner's, or else the default.
pub open spec fn chosen_interval(hint: Option<nat>, fallback: Option<nat>) -> nat {
    match hint {
        Some(interval) => interval,
        None => match fallback {
            Some(interval) => interval,
            None => default_task_poll_interval(),
        },
    }
}

/// A task whose driving has just begun.
pub open spec fn new_drive(
    task: PendingTaskView,
    hint: Option<nat>,
    fallback: Option<nat>,
) -> TaskDriveView {
    TaskDriveView {
        task,
        poll_interval: chosen_interval(hint, fallback),
        opened: false,
        deadline_hit: false,
        ended: false,
    }
}

/// The end of `task` with `result`.
pub open spec fn resolved(task: PendingTaskView, result: ToolTaskResultView) -> TaskResolvedEventView {
    TaskResolvedEventView {
        internal_call_id: task.internal_call_id,
        tool_name: task.tool_name,
        tool_use_id: task.tool_use_id,
        call_id: task.call_id,
        task_id: task.task_id,
        args: task.args,
        policy: task.policy,
        result,
    }
}

/// The report that the status of `task` is now `status`.
pub open spec fn status_event(task: PendingTaskView, status: ToolTaskStatus) -> TaskStatusEventView {
    TaskStatusEventView {
        internal_call_id: task.internal_call_id,
        tool_name: task.tool_name,
        call_id: task.call_id,
        task_id: task.task_id,
        status,
    }
}

/// The result of a task whose deadline passed.
pub open spec fn deadline_result(task: PendingTaskView) -> ToolTaskResultView {
    task_cancelled(
        plain_error(
            ToolErrorKind::Timeout,
            "deferred task `"@ + task.task_id + "` for tool `"@ + task.tool_name
                + "` exceeded its deadline and was cancelled"@,
        ),
    )
}

/// What a driver does with the observation of a round.
pub open spec fn after_wake(drive: TaskDriveView, wake: TaskWakeView) -> (
    TaskDriveView,
    DriveActionView,
) {
    let quiet = DriveActionView::Pause { event: None, interval: drive.poll_interval };
    let over = TaskDriveView { ended: true, ..drive };
    match wake {
        TaskWakeView::Status(status) => if status.terminal() || drive.task.last_status == Some(
            status,
        ) {
            (drive, quiet)
        } else {
            (
                TaskDriveView {
                    task: PendingTaskView { last_status: Some(status), ..drive.task },
                    ..drive
                },
                DriveActionView::Pause {
                    event: Some(status_event(drive.task, status)),
                    interval: drive.poll_interval,
                },
            )
        },
        TaskWakeView::StatusFailed(error) => if error.kind is NotFound {
            (over, DriveActionView::Resolve(resolved(drive.task, task_failed(error))))
        } else {
            (drive, quiet)
        },
        TaskWakeView::Result(result) => (
            over,
            DriveActionView::Resolve(resolved(drive.task, result)),
        ),
        TaskWakeView::Cancelled(reason) => (
            over,
            DriveActionView::CancelThenResolve(
                resolved(
                    drive.task,
                    task_cancelled(plain_error(ToolErrorKind::Cancelled, reason)),
                ),
            ),
        ),
        TaskWakeView::Deadline => (
            over,
            DriveActionView::CancelThenResolve(resolved(drive.task, deadline_result(drive.task))),
        ),
    }
}

/// What a driver does next.
pub open spec fn drive_next(drive: TaskDriveView, input: DriveInputView) -> (
    TaskDriveView,
    DriveActionView,
) {
    if drive.ended {
        (drive, DriveActionView::Ended)
    } else {
        match input {
            DriveInputView::Launched => if drive.opened {
                (drive, DriveActionView::NextRound)
            } else {
                (TaskDriveView { opened: true, ..drive }, DriveActionView::OpenResult)
            },
            DriveInputView::Round(reason) => if drive.deadline_hit {
                after_wake(drive, TaskWakeView::Deadline)
            } else {
                match reason {
                    Some(reason) => after_wake(drive, TaskWakeView::Cancelled(reason)),
                    None => (drive, DriveActionView::Race),
                }
            },
            DriveInputView::Wake(wake) => after_wake(drive, wake),
            DriveInputView::Paused(PauseEndView::Result(result)) => after_wake(
                drive,
                TaskWakeView::Result(result),
            ),
            DriveInputView::Paused(PauseEndView::Tick) => (drive, DriveActionView::NextRound),
            DriveInputView::Paused(PauseEndView::Cancelled(reason)) => after_wake(
                drive,
                TaskWakeView::Cancelled(reason),
            ),
            DriveInputView::Paused(PauseEndView::Deadline) => (
                TaskDriveView { deadline_hit: true, ..drive },
                DriveActionView::NextRound,
            ),
        }
    }
}

/// The failure of a cancellation that took too long.
pub open spec fn cancel_timeout_error(task_id: Seq<char>) -> ErrorView {
    plain_error(
        ToolErrorKind::Timeout,
        "cancelling deferred task `"@ + task_id + "` exceeded "@ + duration_text(
            task_cancel_grace(),
        ),
    )
}

/// The time that a cancellation may take.
pub fn cancel_grace() -> (grace: Duration)
    ensures
        grace@ == task_cancel_grace(),
{
    Duration::from_secs(5)
}

/// The outcome of cancelling the task `task_id`: that of the backend, or a failure where the backend
/// gave none in time.
pub fn cancel_task_handle(task_id: &str, outcome: Option<Result<(), ToolExecutionError>>) -> (result:
    Result<(), ToolExecutionError>)
    ensures
        match outcome {
            Some(answer) => result == answer,
            None => result matches Err(error) && error.deep_view() == cancel_timeout_error(
                task_id@,
            ),
        },
{
    match outcome {
        Some(answer) => answer,
        None => {
            let mut text = "cancelling deferred task `".to_owned();
            text.append(task_id);
            text.append("` exceeded ");
            text.append(cancel_grace().debug_text().as_str());
            Err(ToolExecutionError::timeout(text))
        },
    }
}

/// Starts driving `pending`.
pub fn drive_task(
    pending: &PendingTask,
    poll_hint: Option<Duration>,
    poll_fallback: Option<Duration>,
) -> (drive: TaskDrive)
    ensures
        drive.deep_view() == new_drive(
            pending.deep_view(),
            poll_hint.deep_view(),
            poll_fallback.deep_view(),
        ),
{
    let poll_interval = match poll_hint {
        Some(interval) => interval,
        None => match poll_fallback {
            Some(interval) => interval,
            None => Duration::from_secs(2),
        },
    };
    TaskDrive {
        task: pending.duplicate(),
        poll_interval,
        opened: false,
        deadline_hit: false,
        ended: false,
    }
}

impl PendingTask {
    /// The end of the task with `result`.
    fn resolved(&self, result: ToolTaskResult) -> (event: TaskResolvedEvent)
        ensures
            event.deep_view() == resolved(self.deep_view(), result.deep_view()),
    {
        TaskResolvedEvent {
            internal_call_id: self.internal_call_id.clone(),
            tool_name: self.tool_name.clone(),
            tool_use_id: self.tool_use_id.clone(),
            call_id: self.call_id.duplicate(),
            task_id: self.task_id.clone(),
            args: self.args.clone(),
            policy: self.policy,
            result,
        }
    }
}

impl TaskDrive {
    /// Deals with the observation of a round.
    fn wake(&mut self, wake: TaskWake) -> (action: DriveAction)
        ensures
            (final(self).deep_view(), action.deep_view()) == after_wake(
                old(self).deep_view(),
                wake.deep_view(),
            ),
    {
        match wake {
            TaskWake::Status(status) => {
                if status.is_terminal() || self.task.last_status == Some(status) {
                    DriveAction::Pause { event: None, interval: self.poll_interval }
                } else {
                    self.task.last_status = Some(status);
                    let event = TaskStatusEvent {
                        internal_call_id: self.task.internal_call_id.clone(),
                        tool_name: self.task.tool_name.clone(),
                        call_id: self.task.call_id.duplicate(),
                        task_id: self.task.task_id.clone(),
                        status,
                    };
                    DriveAction::Pause { event: Some(event), interval: self.poll_interval }
                }
            },
            TaskWake::StatusFailed(error) => {
                if error.kind() == ToolErrorKind::NotFound {
                    self.ended = true;
                    DriveAction::Resolve(self.task.resolved(ToolTaskResult::failed(error)))
                } else {
                    DriveAction::Pause { event: None, interval: self.poll_interval }
                }
            },
            TaskWake::Result(result) => {
                self.ended = true;
                DriveAction::Resolve(self.task.resolved(result))
            },
            TaskWake::Cancelled(reason) => {
                self.ended = true;
                DriveAction::CancelThenResolve(
                    self.task.resolved(
                        ToolTaskResult::cancelled(ToolExecutionError::cancelled(reason)),
                    ),
                )
            },
            TaskWake::Deadline => {
                self.ended = true;
                let mut text = "deferred task `".to_owned();
                text.append(self.task.task_id.as_str());
                text.append("` for tool `");
                text.append(self.task.tool_name.as_str());
                text.append("` exceeded its deadline and was cancelled");
                DriveAction::CancelThenResolve(
                    self.task.resolved(
                        ToolTaskResult::cancelled(ToolExecutionError::timeout(text)),
                    ),
                )
            },
        }
    }

    /// Goes one step further.
    pub fn step(&mut self, input: DriveInput) -> (action: DriveAction)
        ensures
            (final(self).deep_view(), action.deep_view()) == drive_next(
                old(self).deep_view(),
                input.deep_view(),
            ),
    {
        if self.ended {
            return DriveAction::Ended;
        }
        match input {
            DriveInput::Launched => {
                if self.opened {
                    DriveAction::NextRound
                } else {
                    self.opened = true;
                    DriveAction::OpenResult
                }
            },
            DriveInput::Round(reason) => {
                if self.deadline_hit {
                    self.wake(TaskWake::Deadline)
                } else {
                    match reason {
                        Some(reason) => self.wake(TaskWake::Cancelled(reason)),
                        None => DriveAction::Race,
                    }
                }
            },
            DriveInput::Wake(wake) => self.wake(wake),
            DriveInput::Paused(PauseEnd::Result(result)) => self.wake(TaskWake::Result(result)),
            DriveInput::Paused(PauseEnd::Tick) => DriveAction::NextRound,
            DriveInput::Paused(PauseEnd::Cancelled(reason)) => {
                self.wake(TaskWake::Cancelled(reason))
            },
            DriveInput::Paused(PauseEnd::Deadline) => {
                self.deadline_hit = true;
                DriveAction::NextRound
            },
        }
    }
}

/// A status is reported only when it differs from the last one that was reported, and never a
/// terminal one: the end of a task is told by its result.
pub proof fn status_events_only_on_change(drive: TaskDriveView, input: DriveInputView)
    ensures
        drive_next(drive, input).1 matches DriveActionView::Pause { event: Some(event), .. } ==> {
            &&& !event.status.terminal()
            &&& drive.task.last_status != Some(event.status)
            &&& drive_next(drive, input).0.task.last_status == Some(event.status)
        },
        drive_next(drive, input).1 matches DriveActionView::Pause { event: None, .. }
            ==> drive_next(drive, input).0 == drive,
{
}

/// A driver keeps the identity, the interval and, once hit, the deadline of its task, opens its
/// result once, and ends once.
pub proof fn drive_keeps_identity(drive: TaskDriveView, input: DriveInputView)
    ensures
        ({
            let next = drive_next(drive, input).0;
            &&& next.task == (PendingTaskView {
                last_status: next.task.last_status,
                ..drive.task
            })
            &&& next.poll_interval == drive.poll_interval
            &&& drive.deadline_hit ==> next.deadline_hit
            &&& drive.opened ==> next.opened
            &&& drive.ended ==> next == drive
        }),
{
}

/// A task resolves only with its own result, because it is gone, because it was cancelled, or
/// because its deadline passed. A transient failure to ask for the status never ends it.
pub proof fn tasks_resolve_only_for_a_reason(drive: TaskDriveView, input: DriveInputView)
    ensures
        drive_next(drive, input).1 matches DriveActionView::Resolve(event) ==> {
            ||| input == DriveInputView::Wake(TaskWakeView::Result(event.result))
            ||| input == DriveInputView::Paused(PauseEndView::Result(event.result))
            ||| (input matches DriveInputView::Wake(TaskWakeView::StatusFailed(error))
                && error.kind is NotFound && event.result == task_failed(error))
        },
        drive_next(drive, input).1 matches DriveActionView::CancelThenResolve(event) ==> {
            ||| ((drive.deadline_hit || input == DriveInputView::Wake(TaskWakeView::Deadline))
                && event.result == deadline_result(drive.task))
            ||| (input matches DriveInputView::Wake(TaskWakeView::Cancelled(reason))
                && event.result == task_cancelled(plain_error(ToolErrorKind::Cancelled, reason)))
            ||| (input matches DriveInputView::Round(Some(reason)) && event.result
                == task_cancelled(plain_error(ToolErrorKind::Cancelled, reason)))
            ||| (input matches DriveInputView::Paused(PauseEndView::Cancelled(reason))
                && event.result == task_cancelled(plain_error(ToolErrorKind::Cancelled, reason)))
        },
{
}

/// A deadline that passes between two rounds ends the task at the start of the next round, before
/// anything else is asked of the backend, whatever has been asked about cancellation meanwhile.
pub proof fn deadline_between_rounds_ends_the_task(
    drive: TaskDriveView,
    reason: Option<Seq<char>>,
)
    requires
        !drive.ended,
    ensures
        ({
            let paused = drive_next(drive, DriveInputView::Paused(PauseEndView::Deadline)).0;
            drive_next(paused, DriveInputView::Round(reason)).1
                == DriveActionView::CancelThenResolve(
                resolved(drive.task, deadline_result(drive.task)),
            )
        }),
{
}

/// The statuses that a driver reports while it is told `inputs`, in order.
pub open spec fn reported(drive: TaskDriveView, inputs: Seq<DriveInputView>) -> Seq<ToolTaskStatus>
    decreases inputs.len(),
{
    if inputs.len() == 0 {
        Seq::empty()
    } else {
        let (next, action) = drive_next(drive, inputs[0]);
        let rest = reported(next, inputs.drop_first());
        match action {
            DriveActionView::Pause { event: Some(event), .. } => seq![event.status] + rest,
            _ => rest,
        }
    }
}

/// Over the whole life of a task no status is reported twice in a row, none repeats the status that
/// was known at the start, and none is terminal.
pub proof fn reports_are_changes(drive: TaskDriveView, inputs: Seq<DriveInputView>)
    ensures
        ({
            let statuses = reported(drive, inputs);
            &&& statuses.len() > 0 ==> Some(statuses[0]) != drive.task.last_status
            &&& forall|i: int| 0 <= i < statuses.len() ==> !(#[trigger] statuses[i]).terminal()
            &&& forall|i: int|
                0 < i < statuses.len() ==> #[trigger] statuses[i] != statuses[i - 1]
        }),
    decreases inputs.len(),
{
    if inputs.len() > 0 {
        let (next, action) = drive_next(drive, inputs[0]);
        let rest = reported(next, inputs.drop_first());
        let statuses = reported(drive, inputs);
        status_events_only_on_change(drive, inputs[0]);
        reports_are_changes(next, inputs.drop_first());
        match action {
            DriveActionView::Pause { event: Some(event), .. } => {
                assert forall|i: int| 0 <= i < statuses.len() implies !(
                #[trigger] statuses[i]).terminal() by {
                    if i > 0 {
                        assert(statuses[i] == rest[i - 1]);
                    }
                }
                assert forall|i: int| 0 < i < statuses.len() implies #[trigger] statuses[i]
                    != statuses[i - 1] by {
                    assert(statuses[i] == rest[i - 1]);
                    if i > 1 {
                        assert(statuses[i - 1] == rest[i - 2]);
                    }
                }
            },
            _ => {},
        }
    }
}

/// A driver after the first `n` of `inputs`.
pub open spec fn driven(drive: TaskDriveView, inputs: Seq<DriveInputView>, n: nat) -> TaskDriveView
    decreases n,
{
    if n == 0 {
        drive
    } else {
        let before = driven(drive, inputs, (n - 1) as nat);
        drive_next(before, inputs[n - 1]).0
    }
}

/// What a driver does at the input at `i`.
pub open spec fn action_at(drive: TaskDriveView, inputs: Seq<DriveInputView>, i: int) ->
    DriveActionView {
    drive_next(driven(drive, inputs, i as nat), inputs[i]).1
}

/// Whether an input is the answer to an action.
pub open spec fn answers(action: DriveActionView, input: DriveInputView) -> bool {
    match action {
        DriveActionView::OpenResult | DriveActionView::NextRound => input is Round,
        DriveActionView::Race => input is Wake,
        DriveActionView::Pause { .. } => input is Paused,
        _ => false,
    }
}

/// Whether a driver is told that its task was launched, and from then on the answer to each of its
/// actions.
pub open spec fn orderly(drive: TaskDriveView, inputs: Seq<DriveInputView>) -> bool {
    &&& inputs.len() > 0 ==> inputs[0] is Launched
    &&& forall|i: int| 0 < i < inputs.len() ==> #[trigger] in_turn(drive, inputs, i)
}

/// Whether the input at `i` is the answer to the action before it.
pub open spec fn in_turn(drive: TaskDriveView, inputs: Seq<DriveInputView>, i: int) -> bool {
    answers(action_at(drive, inputs, i - 1), inputs[i])
}

/// What never changes while a driver goes on.
proof fn driven_keeps(drive: TaskDriveView, inputs: Seq<DriveInputView>, n: nat)
    ensures
        ({
            let now = driven(drive, inputs, n);
            &&& now.task == (PendingTaskView { last_status: now.task.last_status, ..drive.task })
            &&& now.poll_interval == drive.poll_interval
            &&& drive.opened ==> now.opened
            &&& drive.ended ==> now == drive
        }),
    decreases n,
{
    if n > 0 {
        driven_keeps(drive, inputs, (n - 1) as nat);
        drive_keeps_identity(driven(drive, inputs, (n - 1) as nat), inputs[n - 1]);
    }
}

/// Two status requests of a task are always separated by a whole poll interval: the handle's, or
/// else the runner's, or else the default. Between them stands a pause of that interval which ended
/// because the interval ran out.
pub proof fn status_requests_keep_their_distance(
    task: PendingTaskView,
    hint: Option<nat>,
    fallback: Option<nat>,
    inputs: Seq<DriveInputView>,
    first: int,
    second: int,
)
    requires
        orderly(new_drive(task, hint, fallback), inputs),
        0 <= first < second < inputs.len(),
        action_at(new_drive(task, hint, fallback), inputs, first) is Race,
        action_at(new_drive(task, hint, fallback), inputs, second) is Race,
    ensures
        exists|k: int|
            #![trigger inputs[k]]
            first + 1 < k < second && inputs[k] == DriveInputView::Paused(PauseEndView::Tick) && (
            action_at(new_drive(task, hint, fallback), inputs, k - 1) matches
                DriveActionView::Pause { interval, .. } && interval == chosen_interval(
                hint,
                fallback,
            )),
{
    let drive = new_drive(task, hint, fallback);
    let k = second - 1;
    assert(inputs[second] is Round);
    assert(in_turn(drive, inputs, second));
    let before = driven(drive, inputs, k as nat);
    assert(driven(drive, inputs, second as nat) == drive_next(before, inputs[k]).0);
    if k == 0 {
        assert(inputs[0] is Launched);
        assert(first == 0);
    } else {
        assert(in_turn(drive, inputs, k));
    }
    assert(inputs[k] == DriveInputView::Paused(PauseEndView::Tick));
    assert(first < k);
    assert(action_at(drive, inputs, k - 1) is Pause);
    assert(first != k - 1);
    driven_keeps(drive, inputs, (k - 1) as nat);
}

/// Whether `times` can be the times at which a driver is told `inputs`: time does not run backwards,
/// and an interval has passed when it is said to have run out.
pub open spec fn timed(
    drive: TaskDriveView,
    inputs: Seq<DriveInputView>,
    times: Seq<nat>,
) -> bool {
    &&& times.len() == inputs.len()
    &&& forall|i: int, j: int| 0 <= i <= j < times.len() ==> times[i] <= times[j]
    &&& forall|k: int|
        #![trigger inputs[k]]
        0 < k < inputs.len() && inputs[k] == DriveInputView::Paused(PauseEndView::Tick) ==> (
        action_at(drive, inputs, k - 1) matches DriveActionView::Pause { interval, .. }
            ==> times[k] >= times[k - 1] + interval)
}

/// On the clock, two status requests of a task are at least the poll interval apart.
pub proof fn status_requests_are_an_interval_apart(
    task: PendingTaskView,
    hint: Option<nat>,
    fallback: Option<nat>,
    inputs: Seq<DriveInputView>,
    times: Seq<nat>,
    first: int,
    second: int,
)
    requires
        orderly(new_drive(task, hint, fallback), inputs),
        timed(new_drive(task, hint, fallback), inputs, times),
        0 <= first < second < inputs.len(),
        action_at(new_drive(task, hint, fallback), inputs, first) is Race,
        action_at(new_drive(task, hint, fallback), inputs, second) is Race,
    ensures
        times[second] >= times[first] + chosen_interval(hint, fallback),
{
    let drive = new_drive(task, hint, fallback);
    status_requests_keep_their_distance(task, hint, fallback, inputs, first, second);
    let k = choose|k: int|
        #![trigger inputs[k]]
        first + 1 < k < second && inputs[k] == DriveInputView::Paused(PauseEndView::Tick) && (
        action_at(drive, inputs, k - 1) matches DriveActionView::Pause { interval, .. } && interval
            == chosen_interval(hint, fallback));
    assert(times[k] >= times[k - 1] + chosen_interval(hint, fallback));
    assert(times[first] <= times[k - 1]);
    assert(times[k] <= times[second]);
}

/// The request for a task's result is opened exactly once, at its launch, and kept from then on.
pub proof fn the_result_is_asked_for_once(
    task: PendingTaskView,
    hint: Option<nat>,
    fallback: Option<nat>,
    inputs: Seq<DriveInputView>,
    i: int,
)
    requires
        orderly(new_drive(task, hint, fallback), inputs),
        0 <= i < inputs.len(),
    ensures
        action_at(new_drive(task, hint, fallback), inputs, i) is OpenResult <==> i == 0,
{
    let drive = new_drive(task, hint, fallback);
    if i == 0 {
        assert(driven(drive, inputs, 0) == drive);
    } else {
        assert(in_turn(drive, inputs, i));
    }
}

/// The event that an action reports, where it reports one.
pub open spec fn event_of(action: DriveActionView) -> Option<TaskDriveEventView> {
    match action {
        DriveActionView::Pause { event: Some(event), .. } => Some(TaskDriveEventView::Status(event)),
        DriveActionView::Resolve(event) => Some(TaskDriveEventView::Resolved(event)),
        DriveActionView::CancelThenResolve(event) => Some(TaskDriveEventView::Resolved(event)),
        _ => None,
    }
}

/// Everything that a driver reports while it is told `inputs`, in order.
pub open spec fn events(drive: TaskDriveView, inputs: Seq<DriveInputView>) -> Seq<TaskDriveEventView>
    decreases inputs.len(),
{
    if inputs.len() == 0 {
        Seq::empty()
    } else {
        let (next, action) = drive_next(drive, inputs[0]);
        let rest = events(next, inputs.drop_first());
        match event_of(action) {
            Some(event) => seq![event] + rest,
            None => rest,
        }
    }
}

/// A driver reports changes of the status, then exactly one end, and nothing after it: only the
/// last event can be an end, and there is one exactly where the driver has ended.
pub proof fn one_end_comes_last(drive: TaskDriveView, inputs: Seq<DriveInputView>)
    requires
        !drive.ended,
    ensures
        ({
            let told = events(drive, inputs);
            &&& forall|i: int| 0 <= i < told.len() - 1 ==> (#[trigger] told[i]) is Status
            &&& driven(drive, inputs, inputs.len()).ended <==> told.len() > 0
                && told.last() is Resolved
        }),
    decreases inputs.len(),
{
    if inputs.len() > 0 {
        let (next, action) = drive_next(drive, inputs[0]);
        let tail = inputs.drop_first();
        let rest = events(next, tail);
        let told = events(drive, inputs);
        driven_shifts(drive, inputs, inputs.len());
        if next.ended {
            nothing_after_the_end(next, tail);
            driven_keeps(next, tail, tail.len());
            assert(told =~= seq![event_of(action)->0]);
        } else {
            one_end_comes_last(next, tail);
            match event_of(action) {
                Some(event) => {
                    assert(told =~= seq![event] + rest);
                    assert forall|i: int| 0 <= i < told.len() - 1 implies (
                    #[trigger] told[i]) is Status by {
                        if i > 0 {
                            assert(told[i] == rest[i - 1]);
                        }
                    }
                    if rest.len() > 0 {
                        assert(told.last() == rest.last());
                    }
                },
                None => {},
            }
        }
    }
}

/// A driver that has ended reports nothing.
proof fn nothing_after_the_end(drive: TaskDriveView, inputs: Seq<DriveInputView>)
    requires
        drive.ended,
    ensures
        events(drive, inputs).len() == 0,
    decreases inputs.len(),
{
    if inputs.len() > 0 {
        nothing_after_the_end(drive, inputs.drop_first());
    }
}

/// The first input can be told apart from the others.
proof fn driven_shifts(drive: TaskDriveView, inputs: Seq<DriveInputView>, n: nat)
    requires
        0 < n <= inputs.len(),
    ensures
        driven(drive, inputs, n) == driven(
            drive_next(drive, inputs[0]).0,
            inputs.drop_first(),
            (n - 1) as nat,
        ),
    decreases n,
{
    if n > 1 {
        driven_shifts(drive, inputs, (n - 1) as nat);
        assert(inputs[n - 1] == inputs.drop_first()[n - 2]);
    } else {
        assert(driven(drive, inputs, 0) == drive);
    }
}

/// Whether an event has the identity of a task.
pub open spec fn belongs_to(event: TaskDriveEventView, task: PendingTaskView) -> bool {
    match event {
        TaskDriveEventView::Status(told) => {
            &&& told.internal_call_id == task.internal_call_id
            &&& told.tool_name == task.tool_name
            &&& told.call_id == task.call_id
            &&& told.task_id == task.task_id
        },
        TaskDriveEventView::Resolved(told) => {
            &&& told.internal_call_id == task.internal_call_id
            &&& told.tool_name == task.tool_name
            &&& told.tool_use_id == task.tool_use_id
            &&& told.call_id == task.call_id
            &&& told.task_id == task.task_id
            &&& told.args == task.args
            &&& told.policy == task.policy
        },
    }
}

/// Everything that is told of a driven task has the identity of the task that driving began with, so
/// that it can be matched to the call: the internal call id, the tool, the provider's call id and
/// the task, and at the end also the tool use, the arguments and the policy.
pub proof fn events_belong_to_their_task(drive: TaskDriveView, inputs: Seq<DriveInputView>)
    ensures
        forall|i: int|
            0 <= i < events(drive, inputs).len() ==> belongs_to(
                #[trigger] events(drive, inputs)[i],
                drive.task,
            ),
    decreases inputs.len(),
{
    if inputs.len() > 0 {
        let (next, action) = drive_next(drive, inputs[0]);
        let rest = events(next, inputs.drop_first());
        drive_keeps_identity(drive, inputs[0]);
        events_belong_to_their_task(next, inputs.drop_first());
        assert forall|i: int| 0 <= i < events(drive, inputs).len() implies belongs_to(
            #[trigger] events(drive, inputs)[i],
            drive.task,
        ) by {
            match event_of(action) {
                Some(event) => {
                    if i > 0 {
                        assert(events(drive, inputs)[i] == rest[i - 1]);
                        assert(belongs_to(rest[i - 1], next.task));
                    }
                },
                None => {
                    assert(belongs_to(rest[i], next.task));
                },
            }
        }
    }
}

/// The identity of an event, spelled out for a task that ends at any time: each part equals that of
/// the task.
pub proof fn ends_name_the_call(drive: TaskDriveView, input: DriveInputView)
    ensures
        ({
            let action = drive_next(drive, input).1;
            let told = match action {
                DriveActionView::Resolve(event) => Some(event),
                DriveActionView::CancelThenResolve(event) => Some(event),
                _ => None,
            };
            told matches Some(event) ==> {
                &&& event.internal_call_id == drive.task.internal_call_id
                &&& event.tool_name == drive.task.tool_name
                &&& event.tool_use_id == drive.task.tool_use_id
                &&& event.call_id == drive.task.call_id
                &&& event.task_id == drive.task.task_id
                &&& event.args == drive.task.args
                &&& event.policy == drive.task.policy
            }
        }),
        drive_next(drive, input).1 matches DriveActionView::Pause { event: Some(event), .. } ==> {
            &&& event.internal_call_id == drive.task.internal_call_id
            &&& event.tool_name == drive.task.tool_name
            &&& event.call_id == drive.task.call_id
            &&& event.task_id == drive.task.task_id
        },
{
}

/// A result that arrives ends the task at once and unchanged, whether it arrives in a round or
/// between two.
pub proof fn results_end_the_task_unchanged(drive: TaskDriveView, result: ToolTaskResultView)
    requires
        !drive.ended,
    ensures
        drive_next(drive, DriveInputView::Wake(TaskWakeView::Result(result))).1 matches
            DriveActionView::Resolve(event) && event.result == result,
        drive_next(drive, DriveInputView::Paused(PauseEndView::Result(result))).1 matches
            DriveActionView::Resolve(event) && event.result == result,
        drive_next(drive, DriveInputView::Wake(TaskWakeView::Result(result))).0.ended,
        drive_next(drive, DriveInputView::Paused(PauseEndView::Result(result))).0.ended,
{
}

/// A cancellation is asked of the backend and ends the task as cancelled for its reason, whenever it
/// comes; so does a deadline, with a word on the task, the tool and the deadline. A deadline that
/// has passed counts before a cancellation.
pub proof fn cancellations_and_deadlines_end_the_task(drive: TaskDriveView, reason: Seq<char>)
    requires
        !drive.ended,
    ensures
        forall|input: DriveInputView|
            (input == DriveInputView::Wake(TaskWakeView::Cancelled(reason)) || input
                == DriveInputView::Paused(PauseEndView::Cancelled(reason)) || (!drive.deadline_hit
                && input == DriveInputView::Round(Some(reason)))) ==> ((#[trigger] drive_next(
                drive,
                input,
            )).1 matches DriveActionView::CancelThenResolve(event) && {
                &&& event.result.status is Cancelled
                &&& event.result.result.error is Some
                &&& event.result.result.error->0.kind is Cancelled
                &&& event.result.result.error->0.message == reason
                &&& event.result.result.output == seq![ContentView::Text(reason)]
            }),
        forall|input: DriveInputView|
            (input == DriveInputView::Wake(TaskWakeView::Deadline) || (drive.deadline_hit && input
                is Round)) ==> ((#[trigger] drive_next(drive, input)).1 matches
                DriveActionView::CancelThenResolve(event) && {
                &&& event.result.status is Cancelled
                &&& event.result.result.error is Some
                &&& event.result.result.error->0.kind is Timeout
                &&& event.result.result.error->0.code is None
                &&& mentions(event.result.result.error->0.message, drive.task.task_id)
                &&& mentions(event.result.result.error->0.message, drive.task.tool_name)
            }),
        drive_next(drive, DriveInputView::Paused(PauseEndView::Deadline)).0.deadline_hit,
{
    let text = deadline_result(drive.task).result.error->0.message;
    let a = "deferred task `"@;
    let b = "` for tool `"@;
    let c = "` exceeded its deadline and was cancelled"@;
    let id = drive.task.task_id;
    let tool = drive.task.tool_name;
    parts_are_mentioned(a, id, b + tool + c);
    assert(a + id + (b + tool + c) =~= text);
    parts_are_mentioned(a + id + b, tool, c);
    assert(a + id + b + tool + c =~= text);
}

/// A task that the backend does not know any more fails with that failure; any other failure to
/// tell the status is waited out and changes nothing.
pub proof fn only_lost_tasks_fail_by_their_status(drive: TaskDriveView, error: ErrorView)
    requires
        !drive.ended,
    ensures
        ({
            let (next, action) = drive_next(
                drive,
                DriveInputView::Wake(TaskWakeView::StatusFailed(error)),
            );
            &&& error.kind is NotFound ==> (action matches DriveActionView::Resolve(event)
                && event.result.status is Failed && event.result.result.error == Some(error))
            &&& !(error.kind is NotFound) ==> next == drive && action == (DriveActionView::Pause {
                event: None,
                interval: drive.poll_interval,
            })
        }),
{
}

/// A status that is new and not the end is reported as it is, once; one that is known or terminal is
/// not. Either way the next request waits for the interval.
pub proof fn new_statuses_are_reported(drive: TaskDriveView, status: ToolTaskStatus)
    requires
        !drive.ended,
    ensures
        ({
            let (next, action) = drive_next(
                drive,
                DriveInputView::Wake(TaskWakeView::Status(status)),
            );
            let news = !status.terminal() && drive.task.last_status != Some(status);
            &&& action matches DriveActionView::Pause { event, interval } && {
                &&& interval == drive.poll_interval
                &&& event is Some <==> news
                &&& event matches Some(told) ==> told.status == status
            }
            &&& next.task.last_status == if news {
                Some(status)
            } else {
                drive.task.last_status
            }
            &&& !next.ended
        }),
{
}

/// A round without a reason to stop asks for the status, and a pause that ran out begins the next
/// round; neither changes anything.
pub proof fn rounds_follow_each_other(drive: TaskDriveView)
    requires
        !drive.ended,
        !drive.deadline_hit,
    ensures
        drive_next(drive, DriveInputView::Round(None)) == (drive, DriveActionView::Race),
        drive_next(drive, DriveInputView::Paused(PauseEndView::Tick)) == (
            drive,
            DriveActionView::NextRound,
        ),
        drive_next(drive, DriveInputView::Paused(PauseEndView::Deadline)).1 is NextRound,
{
}

/// Driving begins with the pending task as it is and with the handle's interval, or else the
/// runner's, or else two seconds.
pub proof fn driving_begins_with_the_pending_task(
    task: PendingTaskView,
    hint: Option<nat>,
    fallback: Option<nat>,
)
    ensures
        new_drive(task, hint, fallback).task == task,
        !new_drive(task, hint, fallback).opened,
        !new_drive(task, hint, fallback).deadline_hit,
        !new_drive(task, hint, fallback).ended,
        hint matches Some(interval) ==> new_drive(task, hint, fallback).poll_interval == interval,
        hint is None ==> (fallback matches Some(interval) ==> new_drive(
            task,
            hint,
            fallback,
        ).poll_interval == interval),
        hint is None && fallback is None ==> new_drive(task, hint, fallback).poll_interval
            == 2_000_000_000,
{
}

/// A backend has five seconds for a cancellation; one that takes longer is told as a time limit of
/// that task.
pub proof fn stuck_cancellations_are_told(task_id: Seq<char>)
    ensures
        task_cancel_grace() == 5_000_000_000,
        cancel_timeout_error(task_id).kind is Timeout,
        mentions(cancel_timeout_error(task_id).message, task_id),
        mentions(cancel_timeout_error(task_id).message, duration_text(5_000_000_000)),
{
    let a = "cancelling deferred task `"@;
    let b = "` exceeded "@;
    let c = duration_text(5_000_000_000);
    let text = cancel_timeout_error(task_id).message;
    let none = Seq::<char>::empty();
    parts_are_mentioned(a, task_id, b + c);
    assert(a + task_id + (b + c) =~= text);
    parts_are_mentioned(a + task_id + b, c, none);
    assert(a + task_id + b + c + none =~= text);
}

} // verus!

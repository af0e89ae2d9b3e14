//! Waiting for an MCP task: what to do next at each event, until the final result.

use vstd::prelude::*;
use vstd::string::*;

use crate::duplicate::Duplicate;
use crate::duration::Duration;
use crate::error::{ErrorView, ToolErrorKind, ToolExecutionError};
use crate::model::{CallToolResult, CallToolResultView, Task, TaskView};
use crate::result::{ToolTaskResult, ToolTaskResultView};
use crate::status::ToolTaskStatus;
use crate::task_handle::{
    clamp_poll_interval, clamped, clamped_has_floor, convert_status, converted,
    default_mcp_task_poll_interval, default_poll_interval, finished_error, finished_payload,
    min_poll_interval, terminal_result, valid_interval, McpTaskHandle, McpTaskHandleView,
    TaskStatusUpdate, TaskStatusUpdateView,
};

verus! {

/// What a wait has seen so far.
#[derive(Debug)]
pub struct TaskWait {
    /// The last suggested poll cadence.
    pub poll_interval: Option<Duration>,
    /// The last observed status.
    pub observed_status: Option<ToolTaskStatus>,
    /// The last status message.
    pub status_message: Option<String>,
    /// A delivered payload whose final status is still being asked for.
    pub payload: Option<CallToolResult>,
}

/// The model of a [`TaskWait`].
#[verifier::ext_equal]
pub struct TaskWaitView {
    /// The last suggested poll cadence.
    pub poll_interval: Option<nat>,
    /// The last observed status.
    pub observed_status: Option<ToolTaskStatus>,
    /// The last status message.
    pub status_message: Option<Seq<char>>,
    /// A delivered payload whose final status is still being asked for.
    pub payload: Option<CallToolResultView>,
}

impl DeepView for TaskWait {
    type V = TaskWaitView;

    open spec fn deep_view(&self) -> TaskWaitView {
        TaskWaitView {
            poll_interval: self.poll_interval.deep_view(),
            observed_status: self.observed_status.deep_view(),
            status_message: self.status_message.deep_view(),
            payload: self.payload.deep_view(),
        }
    }
}

/// What happened to a waiting handle.
#[derive(Debug)]
pub enum WaitEvent {
    /// The wait began, with the snapshot that was already there. The one `tasks/result` request has been opened.
    Started(Option<TaskStatusUpdate>),
    /// The `tasks/result` request delivered.
    PayloadReady(CallToolResult),
    /// The `tasks/result` request failed.
    PayloadFailed(ToolExecutionError),
    /// The server pushed a snapshot.
    Notified(TaskStatusUpdate),
    /// The poll interval ran out.
    Tick,
    /// A `tasks/get` request delivered.
    StatusReady(Task),
    /// A `tasks/get` request failed.
    StatusFailed(ToolExecutionError),
}

/// The model of a [`WaitEvent`].
#[verifier::ext_equal]
pub enum WaitEventView {
    /// The wait began, with the snapshot that was already there. The one `tasks/result` request has been opened.
    Started(Option<TaskStatusUpdateView>),
    /// The `tasks/result` request delivered.
    PayloadReady(CallToolResultView),
    /// The `tasks/result` request failed.
    PayloadFailed(ErrorView),
    /// The server pushed a snapshot.
    Notified(TaskStatusUpdateView),
    /// The poll interval ran out.
    Tick,
    /// A `tasks/get` request delivered.
    StatusReady(TaskView),
    /// A `tasks/get` request failed.
    StatusFailed(ErrorView),
}

impl DeepView for WaitEvent {
    type V = WaitEventView;

    open spec fn deep_view(&self) -> WaitEventView {
        match self {
            WaitEvent::Started(value) => WaitEventView::Started(value.deep_view()),
            WaitEvent::PayloadReady(value) => WaitEventView::PayloadReady(value.deep_view()),
            WaitEvent::PayloadFailed(value) => WaitEventView::PayloadFailed(value.deep_view()),
            WaitEvent::Notified(value) => WaitEventView::Notified(value.deep_view()),
            WaitEvent::Tick => WaitEventView::Tick,
            WaitEvent::StatusReady(value) => WaitEventView::StatusReady(value.deep_view()),
            WaitEvent::StatusFailed(value) => WaitEventView::StatusFailed(value.deep_view()),
        }
    }
}

/// What a waiting handle does next.
#[derive(Debug)]
pub enum WaitAction {
    /// Wait for the open `tasks/result` request, a pushed snapshot or the end of the interval, whichever comes first.
    Race {
        /// The poll interval.
        interval: Duration,
    },
    /// Make a `tasks/get` request.
    FetchStatus {
        /// Whether a new `tasks/result` request has to be opened first.
        reopen: bool,
    },
    /// Stop with this result.
    Finish(ToolTaskResult),
}

/// The model of a [`WaitAction`].
#[verifier::ext_equal]
pub enum WaitActionView {
    /// Wait for the open `tasks/result` request, a pushed snapshot or the end of the interval, whichever comes first.
    Race {
        /// The poll interval.
        interval: nat,
    },
    /// Make a `tasks/get` request.
    FetchStatus {
        /// Whether a new `tasks/result` request has to be opened first.
        reopen: bool,
    },
    /// Stop with this result.
    Finish(ToolTaskResultView),
}

impl DeepView for WaitAction {
    type V = WaitActionView;

    open spec fn deep_view(&self) -> WaitActionView {
        match self {
            WaitAction::Race { interval } => WaitActionView::Race {
                interval: interval.deep_view(),
            },
            WaitAction::FetchStatus { reopen } => WaitActionView::FetchStatus {
                reopen: *reopen,
            },
            WaitAction::Finish(value) => WaitActionView::Finish(value.deep_view()),
        }
    }
}

/// A wait that has seen nothing yet.
pub open spec fn initial_wait(handle: McpTaskHandleView) -> TaskWaitView {
    TaskWaitView {
        poll_interval: handle.poll_interval,
        observed_status: None,
        status_message: None,
        payload: None,
    }
}

/// The poll interval of a wait.
pub open spec fn wait_interval(state: TaskWaitView) -> nat {
    match state.poll_interval {
        Some(interval) => interval,
        None => default_poll_interval(),
    }
}

/// A wait after a snapshot.
pub open spec fn observed(
    handle: McpTaskHandleView,
    state: TaskWaitView,
    status: ToolTaskStatus,
    message: Option<Seq<char>>,
    suggested_ms: Option<u64>,
) -> (TaskWaitView, WaitActionView) {
    let next = TaskWaitView {
        poll_interval: match suggested_ms {
            Some(ms) => Some(clamped(ms)),
            None => state.poll_interval,
        },
        observed_status: Some(status),
        status_message: match message {
            Some(text) => Some(text),
            None => state.status_message,
        },
        payload: None,
    };
    if status is InputRequired && !handle.elicitation_available {
        (next, WaitActionView::Finish(terminal_result(handle, status, next.status_message)))
    } else {
        (next, WaitActionView::Race { interval: wait_interval(next) })
    }
}

/// What a waiting handle does at an event.
pub open spec fn wait_next(
    handle: McpTaskHandleView,
    state: TaskWaitView,
    event: WaitEventView,
) -> (TaskWaitView, WaitActionView) {
    let unpaid = TaskWaitView { payload: None, ..state };
    match event {
        WaitEventView::Started(Some(update)) | WaitEventView::Notified(update) => observed(
            handle,
            state,
            converted(update.status),
            update.status_message,
            update.poll_interval,
        ),
        WaitEventView::Started(None) => (
            unpaid,
            WaitActionView::Race { interval: wait_interval(state) },
        ),
        WaitEventView::PayloadReady(result) => if state.observed_status is Some
            && state.observed_status->0.terminal() {
            (
                unpaid,
                WaitActionView::Finish(
                    finished_payload(handle, result, state.observed_status, state.status_message),
                ),
            )
        } else {
            (
                TaskWaitView { payload: Some(result), ..state },
                WaitActionView::FetchStatus { reopen: false },
            )
        },
        WaitEventView::PayloadFailed(error) => if error.kind is Timeout {
            (unpaid, WaitActionView::FetchStatus { reopen: true })
        } else {
            (
                unpaid,
                WaitActionView::Finish(
                    finished_error(handle, error, state.observed_status, state.status_message),
                ),
            )
        },
        WaitEventView::Tick => (unpaid, WaitActionView::FetchStatus { reopen: false }),
        WaitEventView::StatusReady(task) => match state.payload {
            Some(result) => (
                unpaid,
                WaitActionView::Finish(
                    finished_payload(
                        handle,
                        result,
                        Some(converted(task.status)),
                        match task.status_message {
                            Some(text) => Some(text),
                            None => state.status_message,
                        },
                    ),
                ),
            ),
            None => observed(
                handle,
                state,
                converted(task.status),
                task.status_message,
                task.poll_interval_ms,
            ),
        },
        WaitEventView::StatusFailed(error) => match state.payload {
            Some(result) => (
                unpaid,
                WaitActionView::Finish(
                    finished_payload(handle, result, state.observed_status, state.status_message),
                ),
            ),
            None => if error.kind is NotFound {
                (
                    unpaid,
                    WaitActionView::Finish(
                        finished_error(handle, error, state.observed_status, state.status_message),
                    ),
                )
            } else {
                observed(handle, state, ToolTaskStatus::Working, None, None)
            },
        },
    }
}

impl McpTaskHandle {
    /// A wait that has seen nothing yet.
    pub fn wait(&self) -> (state: TaskWait)
        ensures
            state.deep_view() == initial_wait(self.deep_view()),
    {
        TaskWait {
            poll_interval: self.poll_interval,
            observed_status: None,
            status_message: None,
            payload: None,
        }
    }

    /// Takes a snapshot into account.
    fn observe(
        &self,
        state: TaskWait,
        status: ToolTaskStatus,
        message: Option<String>,
        suggested_ms: Option<u64>,
    ) -> (next: (TaskWait, WaitAction))
        ensures
            (next.0.deep_view(), next.1.deep_view()) == observed(
                self.deep_view(),
                state.deep_view(),
                status,
                message.deep_view(),
                suggested_ms,
            ),
    {
        let poll_interval = match suggested_ms {
            Some(ms) => Some(clamp_poll_interval(ms)),
            None => state.poll_interval,
        };
        let status_message = match message {
            Some(text) => Some(text),
            None => state.status_message,
        };
        let next = TaskWait {
            poll_interval,
            observed_status: Some(status),
            status_message,
            payload: None,
        };
        if status == ToolTaskStatus::InputRequired && !self.elicitation_available {
            let result = self.terminal_failure(status, next.status_message.duplicate());
            (next, WaitAction::Finish(result))
        } else {
            let action = next.race();
            (next, action)
        }
    }

    /// What to do at `event`. The state after a [`WaitAction::Finish`] is of no further use.
    pub fn wait_step(&self, state: TaskWait, event: WaitEvent) -> (next: (TaskWait, WaitAction))
        ensures
            (next.0.deep_view(), next.1.deep_view()) == wait_next(
                self.deep_view(),
                state.deep_view(),
                event.deep_view(),
            ),
    {
        match event {
            WaitEvent::Started(Some(update)) => {
                let status = convert_status(&update.status);
                self.observe(state, status, update.status_message, update.poll_interval)
            },
            WaitEvent::Notified(update) => {
                let status = convert_status(&update.status);
                self.observe(state, status, update.status_message, update.poll_interval)
            },
            WaitEvent::Started(None) => {
                let action = state.race();
                (state.without_payload(), action)
            },
            WaitEvent::PayloadReady(result) => {
                let settled = match state.observed_status {
                    Some(status) => status.is_terminal(),
                    None => false,
                };
                if settled {
                    let finished = self.finish_payload(
                        result,
                        state.observed_status,
                        state.status_message.duplicate(),
                    );
                    (state.without_payload(), WaitAction::Finish(finished))
                } else {
                    let mut next = state;
                    next.payload = Some(result);
                    (next, WaitAction::FetchStatus { reopen: false })
                }
            },
            WaitEvent::PayloadFailed(error) => {
                if error.kind() == ToolErrorKind::Timeout {
                    (state.without_payload(), WaitAction::FetchStatus { reopen: true })
                } else {
                    let finished = self.finish_payload_error(
                        error,
                        state.observed_status,
                        state.status_message.duplicate(),
                    );
                    (state.without_payload(), WaitAction::Finish(finished))
                }
            },
            WaitEvent::Tick => (
                state.without_payload(),
                WaitAction::FetchStatus { reopen: false },
            ),
            WaitEvent::StatusReady(task) => {
                let status = convert_status(&task.status);
                let mut state = state;
                match state.payload.take() {
                    Some(result) => {
                        let message = match task.status_message {
                            Some(text) => Some(text),
                            None => state.status_message.duplicate(),
                        };
                        let finished = self.finish_payload(result, Some(status), message);
                        (state, WaitAction::Finish(finished))
                    },
                    None => self.observe(
                        state,
                        status,
                        task.status_message,
                        task.poll_interval_ms,
                    ),
                }
            },
            WaitEvent::StatusFailed(error) => {
                let mut state = state;
                match state.payload.take() {
                    Some(result) => {
                        let finished = self.finish_payload(
                            result,
                            state.observed_status,
                            state.status_message.duplicate(),
                        );
                        (state, WaitAction::Finish(finished))
                    },
                    None => {
                        if error.kind() == ToolErrorKind::NotFound {
                            let finished = self.finish_payload_error(
                                error,
                                state.observed_status,
                                state.status_message.duplicate(),
                            );
                            (state, WaitAction::Finish(finished))
                        } else {
                            self.observe(state, ToolTaskStatus::Working, None, None)
                        }
                    },
                }
            },
        }
    }
}

impl TaskWait {
    /// The race at this wait's cadence.
    fn race(&self) -> (action: WaitAction)
        ensures
            action.deep_view() == (WaitActionView::Race { interval: wait_interval(self.deep_view()) }),
    {
        match self.poll_interval {
            Some(interval) => WaitAction::Race { interval },
            None => WaitAction::Race { interval: default_mcp_task_poll_interval() },
        }
    }

    /// The same wait without a payload.
    fn without_payload(self) -> (state: TaskWait)
        ensures
            state.deep_view() == (TaskWaitView { payload: None, ..self.deep_view() }),
    {
        let mut state = self;
        state.payload = None;
        state
    }
}

/// A wait that starts from a valid handle never polls below the floor, at any event.
pub proof fn wait_never_polls_below_the_floor(
    handle: McpTaskHandleView,
    state: TaskWaitView,
    event: WaitEventView,
)
    requires
        valid_interval(state.poll_interval),
    ensures
        valid_interval(initial_wait(handle).poll_interval) == valid_interval(handle.poll_interval),
        valid_interval(wait_next(handle, state, event).0.poll_interval),
        wait_next(handle, state, event).1 matches WaitActionView::Race { interval } ==> interval
            >= min_poll_interval(),
{
    let next = wait_next(handle, state, event).0;
    let suggested: Option<u64> = match event {
        WaitEventView::Started(Some(update)) | WaitEventView::Notified(update) =>
            update.poll_interval,
        WaitEventView::StatusReady(task) => task.poll_interval_ms,
        _ => None,
    };
    if next.poll_interval is Some {
        if next.poll_interval == state.poll_interval {
            let ms = choose|ms: u64| state.poll_interval->0 == clamped(ms);
            clamped_has_floor(ms);
        } else {
            assert(next.poll_interval->0 == clamped(suggested->0));
            clamped_has_floor(suggested->0);
        }
    }
}

/// A new `tasks/result` request is opened only after the last one timed out, so that never more
/// than one is open.
pub proof fn one_result_request_at_a_time(
    handle: McpTaskHandleView,
    state: TaskWaitView,
    event: WaitEventView,
)
    ensures
        wait_next(handle, state, event).1 == (WaitActionView::FetchStatus { reopen: true })
            <==> (event matches WaitEventView::PayloadFailed(error) && error.kind is Timeout),
{
}

/// A wait ends only with a payload, with a failed `tasks/result` request that did not time out,
/// with a task that is gone, or where input is required that nobody here can give. In particular
/// neither a reported terminal status nor a transient failure to ask for the status ends it.
pub proof fn wait_ends_only_for_a_reason(
    handle: McpTaskHandleView,
    state: TaskWaitView,
    event: WaitEventView,
)
    requires
        wait_next(handle, state, event).1 is Finish,
    ensures
        event is PayloadReady || state.payload is Some || (event matches
            WaitEventView::PayloadFailed(error) && !(error.kind is Timeout)) || (event matches
            WaitEventView::StatusFailed(error) && error.kind is NotFound) || (
        !handle.elicitation_available && wait_next(handle, state, event).0.observed_status == Some(
            ToolTaskStatus::InputRequired,
        )),
{
}

/// With a handler for elicitations, a task that requires input is waited for like any other.
pub proof fn elicitation_keeps_the_wait_alive(
    handle: McpTaskHandleView,
    state: TaskWaitView,
    update: TaskStatusUpdateView,
)
    requires
        handle.elicitation_available,
    ensures
        wait_next(handle, state, WaitEventView::Notified(update)).1 is Race,
{
}

/// Every result of a wait names its task and has a terminal status.
pub proof fn wait_results_are_final(
    handle: McpTaskHandleView,
    state: TaskWaitView,
    event: WaitEventView,
)
    ensures
        wait_next(handle, state, event).1 matches WaitActionView::Finish(result)
            ==> result.status.terminal() && result.context.task_info is Some
            && result.context.task_info->0.task_id == handle.task_id,
{
}

/// A wait begins with the cadence of its handle and has seen nothing.
pub proof fn waits_begin_with_the_handles_cadence(handle: McpTaskHandleView)
    ensures
        initial_wait(handle).poll_interval == handle.poll_interval,
        initial_wait(handle).observed_status is None,
        initial_wait(handle).status_message is None,
        initial_wait(handle).payload is None,
{
}

/// Where a wait holds a payload and the server then tells the status, the server's word decides: a
/// terminal status is the status of the result, whatever was observed before, and the message is the
/// server's, or else the last one that was known. So a cancelled task is never reported as
/// completed, and neither is a failed one. A status that is not terminal leaves it to the payload.
pub proof fn the_status_after_the_payload_decides(
    handle: McpTaskHandleView,
    state: TaskWaitView,
    task: TaskView,
)
    requires
        state.payload is Some,
    ensures
        wait_next(handle, state, WaitEventView::StatusReady(task)).1 matches WaitActionView::Finish(
            result,
        ) && {
            let info = result.context.task_info->0;
            let reports_error = state.payload->0.is_error == Some(true);
            &&& result.context.task_info is Some
            &&& result.context.call_result == state.payload
            &&& task.status is Cancelled ==> info.status is Cancelled && result.status is Cancelled
                && result.result.error is Some && result.result.error->0.kind is Cancelled
            &&& task.status is Failed ==> info.status is Failed && result.status is Failed
                && result.result.error is Some
            &&& task.status is Completed ==> info.status is Completed && !(result.status
                is Cancelled) && (reports_error ==> result.status is Failed)
            &&& !(task.status is Cancelled) && !(task.status is Failed) && !(task.status
                is Completed) ==> info.status == if reports_error {
                ToolTaskStatus::Failed
            } else {
                ToolTaskStatus::Completed
            }
            &&& task.status_message is Some ==> info.status_message == task.status_message
            &&& task.status_message is None ==> info.status_message == state.status_message
        },
{
}

/// A delivered payload ends the wait at once where a terminal status was observed, with that
/// status; and else it is held while the status is asked for, with nothing forgotten meanwhile.
/// Where the status cannot be had, the payload stands with what is known.
pub proof fn delivered_payloads_are_never_lost(
    handle: McpTaskHandleView,
    state: TaskWaitView,
    payload: CallToolResultView,
    error: ErrorView,
)
    ensures
        ({
            let (next, action) = wait_next(handle, state, WaitEventView::PayloadReady(payload));
            if state.observed_status is Some && state.observed_status->0.terminal() {
                action matches WaitActionView::Finish(result) && {
                    &&& result.context.call_result == Some(payload)
                    &&& result.context.task_info is Some
                    &&& result.context.task_info->0.status == state.observed_status->0
                    &&& result.context.task_info->0.status_message == state.status_message
                }
            } else {
                &&& action == (WaitActionView::FetchStatus { reopen: false })
                &&& next.payload == Some(payload)
                &&& next.observed_status == state.observed_status
                &&& next.status_message == state.status_message
                &&& next.poll_interval == state.poll_interval
            }
        }),
        state.payload is Some ==> (wait_next(
            handle,
            state,
            WaitEventView::StatusFailed(error),
        ).1 matches WaitActionView::Finish(result) && {
            let info = result.context.task_info->0;
            &&& result.context.call_result == state.payload
            &&& result.context.task_info is Some
            &&& state.observed_status is Some && state.observed_status->0.terminal() ==> info.status
                == state.observed_status->0
            &&& state.observed_status is None || !state.observed_status->0.terminal()
                ==> info.status == if state.payload->0.is_error == Some(true) {
                ToolTaskStatus::Failed
            } else {
                ToolTaskStatus::Completed
            }
            &&& info.status_message == state.status_message
        }),
{
}

/// Every snapshot counts, whether it was there at the start, pushed or asked for: its status and its
/// interval are taken over, and so is its message where it has one. The wait goes on at the latest
/// interval, unless input is required that nobody here can give.
pub proof fn snapshots_are_taken_over(
    handle: McpTaskHandleView,
    state: TaskWaitView,
    update: TaskStatusUpdateView,
    task: TaskView,
)
    requires
        state.payload is None,
        update.status == task.status,
        update.status_message == task.status_message,
        update.poll_interval == task.poll_interval_ms,
    ensures
        ({
            let (next, action) = wait_next(handle, state, WaitEventView::Notified(update));
            &&& wait_next(handle, state, WaitEventView::Started(Some(update))) == (next, action)
            &&& wait_next(handle, state, WaitEventView::StatusReady(task)) == (next, action)
            &&& next.observed_status == Some(converted(update.status))
            &&& next.payload is None
            &&& update.status_message is Some ==> next.status_message == update.status_message
            &&& update.status_message is None ==> next.status_message == state.status_message
            &&& update.poll_interval matches Some(ms) ==> next.poll_interval == Some(clamped(ms))
            &&& update.poll_interval is None ==> next.poll_interval == state.poll_interval
            &&& action is Finish <==> update.status is InputRequired
                && !handle.elicitation_available
            &&& action matches WaitActionView::Finish(result) ==> result.status is Failed
                && result.result.error is Some && result.result.error->0.code == Some(
                "mcp_task_input_required"@,
            ) && result.context.task_info is Some && result.context.task_info->0.status
                is InputRequired && result.context.task_info->0.status_message
                == next.status_message
            &&& !(action is Finish) ==> action == (WaitActionView::Race {
                interval: match next.poll_interval {
                    Some(interval) => interval,
                    None => 2_000_000_000,
                },
            })
        }),
{
}

/// The end of an interval asks for the status and forgets nothing; a start without a snapshot waits
/// at the cadence that is known.
pub proof fn ticks_ask_for_the_status(handle: McpTaskHandleView, state: TaskWaitView)
    requires
        state.payload is None,
    ensures
        wait_next(handle, state, WaitEventView::Tick) == (
            state,
            WaitActionView::FetchStatus { reopen: false },
        ),
        wait_next(handle, state, WaitEventView::Started(None)) == (
            state,
            WaitActionView::Race {
                interval: match state.poll_interval {
                    Some(interval) => interval,
                    None => 2_000_000_000,
                },
            },
        ),
{
}

/// A result request that times out is opened anew and the status is asked for, with nothing
/// forgotten; one that fails otherwise ends the wait with its failure. A status that cannot be had
/// ends the wait only where the task is gone, with that failure; otherwise the task counts as
/// working and the wait goes on at its cadence with the last message.
pub proof fn failed_requests_are_told_or_repeated(
    handle: McpTaskHandleView,
    state: TaskWaitView,
    error: ErrorView,
)
    requires
        state.payload is None,
    ensures
        ({
            let (next, action) = wait_next(handle, state, WaitEventView::PayloadFailed(error));
            &&& next == state
            &&& error.kind is Timeout ==> action == (WaitActionView::FetchStatus { reopen: true })
            &&& !(error.kind is Timeout) ==> (action matches WaitActionView::Finish(result)
                && result.result.error == Some(error) && result.context.task_info is Some && (
            result.status is Cancelled <==> state.observed_status == Some(
                ToolTaskStatus::Cancelled,
            )) && (state.status_message is Some ==> result.context.task_info->0.status_message
                == state.status_message))
        }),
        ({
            let (next, action) = wait_next(handle, state, WaitEventView::StatusFailed(error));
            &&& error.kind is NotFound ==> (action matches WaitActionView::Finish(result)
                && result.result.error == Some(error) && !(result.status is Completed))
            &&& !(error.kind is NotFound) ==> {
                &&& action == (WaitActionView::Race {
                    interval: match state.poll_interval {
                        Some(interval) => interval,
                        None => 2_000_000_000,
                    },
                })
                &&& next == (TaskWaitView {
                    observed_status: Some(ToolTaskStatus::Working),
                    ..state
                })
            }
        }),
{
}

} // verus!

//! Driving an MCP task for a deferred execution: polling by schedule, expiry and the final state.

use vstd::prelude::*;
use vstd::string::*;

use crate::client::{
    client_error_text, registered, takes_requests, waited_for, watchers, McpClientError,
    McpClientErrorView, McpClientState,
};
use crate::content::{
    context_with_result, decode_call_result, decoded_call_result, final_result, mcp_call_result,
    preserve_mcp_result, result_output,
};
use crate::deferred::{
    DeferredToolDriver, DeferredToolState, DeferredToolStateView, InputResponses,
};
use crate::duplicate::Duplicate;
use crate::duration::{duration_text, monus, Duration};
use crate::error::{
    final_error, plain_error, ErrorCause, ErrorCauseView, ErrorView, ToolErrorKind,
    ToolExecutionError,
};
use crate::expiry::{expiry_remaining, millis_left, task_expiry, task_expiry_unix_ms};
use crate::json::JsonMap;
use crate::meta::{meta_of_trace, request_meta_from_trace};
use crate::model::{
    result_view, CallToolResult, CallToolResultView, GetTaskResult, GetTaskResultView,
    InputRequiredResult, InputRequiredResultView, ServiceError, ServiceErrorView, TaskPayload,
    TaskPayloadView,
};
use crate::requests::{
    application_requests, responses_by_request, rig_input_requests, rmcp_input_responses,
};
use crate::result::{ToolContext, ToolContextView};
use crate::service_error::{mcp_service_error, service_error_text, service_failure};
use crate::text::{mentions, parts_are_mentioned, same};

verus! {

/// What an execution publishes of the answers that it got.
#[derive(Debug)]
pub struct McpPublishedContext {
    /// The tool result.
    pub call_result: Option<CallToolResult>,
    /// The last task state.
    pub task_result: Option<GetTaskResult>,
    /// The last request for input.
    pub input_required: Option<InputRequiredResult>,
}

/// The model of a [`McpPublishedContext`].
#[verifier::ext_equal]
pub struct McpPublishedContextView {
    /// The tool result.
    pub call_result: Option<CallToolResultView>,
    /// The last task state.
    pub task_result: Option<GetTaskResultView>,
    /// The last request for input.
    pub input_required: Option<InputRequiredResultView>,
}

impl DeepView for McpPublishedContext {
    type V = McpPublishedContextView;

    open spec fn deep_view(&self) -> McpPublishedContextView {
        McpPublishedContextView {
            call_result: self.call_result.deep_view(),
            task_result: self.task_result.deep_view(),
            input_required: self.input_required.deep_view(),
        }
    }
}

impl Duplicate for McpPublishedContext {
    fn duplicate(&self) -> (copy: Self) {
        McpPublishedContext {
            call_result: self.call_result.duplicate(),
            task_result: self.task_result.duplicate(),
            input_required: self.input_required.duplicate(),
        }
    }
}

impl Clone for McpPublishedContext {
    fn clone(&self) -> (copy: Self)
        ensures
            copy.deep_view() == self.deep_view(),
    {
        self.duplicate()
    }
}

/// Nothing to be published.
pub open spec fn nothing_published() -> McpPublishedContextView {
    McpPublishedContextView { call_result: None, task_result: None, input_required: None }
}

/// A value, or another where it is absent.
pub open spec fn or_else<T>(value: Option<T>, other: Option<T>) -> Option<T> {
    match value {
        Some(_) => value,
        None => other,
    }
}

/// A context after `published` went into it.
pub open spec fn context_with_published(
    published: McpPublishedContextView,
    context: ToolContextView,
) -> ToolContextView {
    let with_call = match published.call_result {
        Some(result) => context_with_result(context, result),
        None => context,
    };
    let with_task = match published.task_result {
        Some(result) => ToolContextView {
            meta: or_else(result.meta, with_call.meta),
            task_result: Some(result),
            ..with_call
        },
        None => with_call,
    };
    match published.input_required {
        Some(result) => ToolContextView {
            meta: or_else(result.meta, with_task.meta),
            input_required: Some(result),
            ..with_task
        },
        None => with_task,
    }
}

/// Publishes what an execution got into the context of its call.
pub fn publish_mcp_deferred_context(published: &McpPublishedContext, context: &mut ToolContext)
    ensures
        final(context).deep_view() == context_with_published(
            published.deep_view(),
            old(context).deep_view(),
        ),
{
    match &published.call_result {
        Some(result) => preserve_mcp_result(context, result),
        None => {},
    }
    match &published.task_result {
        Some(result) => {
            match &result.meta {
                Some(meta) => {
                    context.meta = Some(meta.duplicate());
                },
                None => {},
            }
            context.task_result = Some(result.duplicate());
        },
        None => {},
    }
    match &published.input_required {
        Some(result) => {
            match &result.meta {
                Some(meta) => {
                    context.meta = Some(meta.duplicate());
                },
                None => {},
            }
            context.input_required = Some(result.duplicate());
        },
        None => {},
    }
}

impl Default for McpPublishedContext {
    fn default() -> (published: Self)
        ensures
            published.deep_view() == nothing_published(),
    {
        McpPublishedContext { call_result: None, task_result: None, input_required: None }
    }
}

/// A deferred execution that became an MCP task.
#[derive(Debug)]
pub struct McpTaskDriver {
    /// The server-assigned task id.
    task_id: String,
    /// Time limit of every request.
    request_timeout: Option<Duration>,
    /// Trace entries of the original call.
    trace_meta: JsonMap,
    /// The final state, once it is known.
    terminal: Option<DeferredToolState>,
    /// Whether the server was ever asked.
    polled_once: bool,
    /// When the server was last asked, on the monotonic clock.
    polled_at: Duration,
    /// How long to wait before the server is asked again.
    poll_interval: Duration,
    /// When the task expires.
    expires_at_unix_ms: Option<i64>,
    /// What is published of the answers.
    published: McpPublishedContext,
}

/// The model of a [`McpTaskDriver`].
#[verifier::ext_equal]
pub struct McpTaskDriverView {
    /// The server-assigned task id.
    pub task_id: Seq<char>,
    /// Time limit of every request.
    pub request_timeout: Option<nat>,
    /// Trace entries of the original call.
    pub trace_meta: Map<Seq<char>, Seq<char>>,
    /// The final state, once it is known.
    pub terminal: Option<DeferredToolStateView>,
    /// Whether the server was ever asked.
    pub polled_once: bool,
    /// When the server was last asked, on the monotonic clock.
    pub polled_at: nat,
    /// How long to wait before the server is asked again.
    pub poll_interval: nat,
    /// When the task expires.
    pub expires_at_unix_ms: Option<i64>,
    /// What is published of the answers.
    pub published: McpPublishedContextView,
}

impl DeepView for McpTaskDriver {
    type V = McpTaskDriverView;

    closed spec fn deep_view(&self) -> McpTaskDriverView {
        McpTaskDriverView {
            task_id: self.task_id.deep_view(),
            request_timeout: self.request_timeout.deep_view(),
            trace_meta: self.trace_meta.deep_view(),
            terminal: self.terminal.deep_view(),
            polled_once: self.polled_once,
            polled_at: self.polled_at.deep_view(),
            poll_interval: self.poll_interval.deep_view(),
            expires_at_unix_ms: self.expires_at_unix_ms.deep_view(),
            published: self.published.deep_view(),
        }
    }
}

impl Duplicate for McpTaskDriver {
    fn duplicate(&self) -> (copy: Self) {
        McpTaskDriver {
            task_id: self.task_id.duplicate(),
            request_timeout: self.request_timeout.duplicate(),
            trace_meta: self.trace_meta.duplicate(),
            terminal: self.terminal.duplicate(),
            polled_once: self.polled_once,
            polled_at: self.polled_at.duplicate(),
            poll_interval: self.poll_interval.duplicate(),
            expires_at_unix_ms: self.expires_at_unix_ms.duplicate(),
            published: self.published.duplicate(),
        }
    }
}

impl Clone for McpTaskDriver {
    fn clone(&self) -> (copy: Self)
        ensures
            copy.deep_view() == self.deep_view(),
    {
        self.duplicate()
    }
}

/// What polling needs next.
#[derive(Debug)]
pub enum PollStep {
    /// Nothing: the state is known.
    Done(DeferredToolState),
    /// A wait for the schedule, a notification or the expiry, whichever comes first.
    Sleep {
        /// The time until the schedule.
        poll_remaining: Duration,
        /// The time until the expiry, where there is one.
        ttl_remaining: Option<Duration>,
    },
    /// The answer to a `tasks/get` request.
    Fetch,
}

/// The model of a [`PollStep`].
#[verifier::ext_equal]
pub enum PollStepView {
    /// Nothing: the state is known.
    Done(DeferredToolStateView),
    /// A wait for the schedule, a notification or the expiry, whichever comes first.
    Sleep {
        /// The time until the schedule.
        poll_remaining: nat,
        /// The time until the expiry, where there is one.
        ttl_remaining: Option<nat>,
    },
    /// The answer to a `tasks/get` request.
    Fetch,
}

impl DeepView for PollStep {
    type V = PollStepView;

    open spec fn deep_view(&self) -> PollStepView {
        match self {
            PollStep::Done(value) => PollStepView::Done(value.deep_view()),
            PollStep::Sleep { poll_remaining, ttl_remaining } => PollStepView::Sleep {
                poll_remaining: poll_remaining.deep_view(),
                ttl_remaining: ttl_remaining.deep_view(),
            },
            PollStep::Fetch => PollStepView::Fetch,
        }
    }
}

/// What ended the wait of a poll.
#[derive(Debug, Clone, Copy, PartialEq, Eq, Structural)]
pub enum PollWake {
    /// The schedule.
    Scheduled,
    /// A notification.
    Notified,
    /// The expiry.
    Expired,
}

impl DeepView for PollWake {
    type V = PollWake;

    open spec fn deep_view(&self) -> PollWake {
        *self
    }
}

/// What a request of the application needs next.
#[derive(Debug)]
pub enum TaskRequestStep {
    /// Nothing: the state is final.
    Done(DeferredToolState),
    /// Nothing: the client does not take requests any more.
    Refuse(ToolExecutionError),
    /// The answer to a `tasks/update` or `tasks/cancel` request; the task is polled at once after it.
    Send {
        /// The task.
        task_id: String,
        /// The responses to be sent with `tasks/update`.
        input_responses: Option<JsonMap>,
        /// The metadata of the request.
        meta: Option<JsonMap>,
        /// The time limit of the request.
        timeout: Option<Duration>,
    },
}

/// The model of a [`TaskRequestStep`].
#[verifier::ext_equal]
pub enum TaskRequestStepView {
    /// Nothing: the state is final.
    Done(DeferredToolStateView),
    /// Nothing: the client does not take requests any more.
    Refuse(ErrorView),
    /// The answer to a `tasks/update` or `tasks/cancel` request; the task is polled at once after it.
    Send {
        /// The task.
        task_id: Seq<char>,
        /// The responses to be sent with `tasks/update`.
        input_responses: Option<Map<Seq<char>, Seq<char>>>,
        /// The metadata of the request.
        meta: Option<Map<Seq<char>, Seq<char>>>,
        /// The time limit of the request.
        timeout: Option<nat>,
    },
}

impl DeepView for TaskRequestStep {
    type V = TaskRequestStepView;

    open spec fn deep_view(&self) -> TaskRequestStepView {
        match self {
            TaskRequestStep::Done(state) => TaskRequestStepView::Done(state.deep_view()),
            TaskRequestStep::Refuse(error) => TaskRequestStepView::Refuse(error.deep_view()),
            TaskRequestStep::Send { task_id, input_responses, meta, timeout } => {
                TaskRequestStepView::Send {
                    task_id: task_id.deep_view(),
                    input_responses: input_responses.deep_view(),
                    meta: meta.deep_view(),
                    timeout: timeout.deep_view(),
                }
            },
        }
    }
}

/// How the application reaches a task: not at all once its state is final, and else with a request
/// that carries the trace of the original call.
pub open spec fn task_request(
    driver: McpTaskDriverView,
    takes_requests: bool,
    input_responses: Option<Map<Seq<char>, Seq<char>>>,
) -> TaskRequestStepView {
    match driver.terminal {
        Some(state) => TaskRequestStepView::Done(state),
        None => if !takes_requests {
            TaskRequestStepView::Refuse(client_lost())
        } else {
            TaskRequestStepView::Send {
                task_id: driver.task_id,
                input_responses,
                meta: meta_of_trace(driver.trace_meta),
                timeout: driver.request_timeout,
            }
        },
    }
}

/// `MCP Task '<id>'` with `rest` behind it.
pub open spec fn about_mcp_task(task_id: Seq<char>, rest: Seq<char>) -> Seq<char> {
    "MCP Task '"@ + task_id + rest
}

/// The failure of a task that expired.
pub open spec fn ttl_failure(task_id: Seq<char>) -> ErrorView {
    final_error(
        ToolErrorKind::Timeout,
        about_mcp_task(task_id, "' expired before reaching a terminal state"@),
        "mcp_task_ttl_expired"@,
    )
}

/// A failure without an identifier that no retry can mend.
pub open spec fn unretryable(kind: ToolErrorKind, message: Seq<char>) -> ErrorView {
    ErrorView { retryable: Some(false), ..plain_error(kind, message) }
}

/// The failure of an execution whose client does not take requests any more.
pub open spec fn client_lost() -> ErrorView {
    unretryable(
        ToolErrorKind::Network,
        "MCP client is unavailable: "@ + client_error_text(McpClientErrorView::Unavailable),
    ).caused_by(ErrorCauseView::Client(McpClientErrorView::Unavailable))
}

/// The failure to start an execution on a client that does not take requests.
pub open spec fn client_refused() -> ErrorView {
    plain_error(
        ToolErrorKind::Provider,
        "MCP client is unavailable: "@ + client_error_text(McpClientErrorView::Unavailable),
    ).caused_by(ErrorCauseView::Client(McpClientErrorView::Unavailable))
}

/// The state of a task that completed with a result that reads as `decoded`, and the result to be
/// published.
pub open spec fn completed_state_of(
    task_id: Seq<char>,
    decoded: Result<CallToolResultView, Seq<char>>,
) -> Result<(DeferredToolStateView, Option<CallToolResultView>), ErrorView> {
    match decoded {
        Ok(result) => match final_result(result, None) {
            Ok(shown) => Ok((DeferredToolStateView::Completed(shown), Some(result))),
            Err(error) => Err(error),
        },
        Err(message) => Ok(
            (
                DeferredToolStateView::Failed(
                    unretryable(
                        ToolErrorKind::Provider,
                        about_mcp_task(
                            task_id,
                            "' completed with an invalid tools/call result: "@,
                        ) + message,
                    ).caused_by(ErrorCauseView::Json(message)),
                ),
                None,
            ),
        ),
    }
}

/// The state that a task's payload means, and the result to be published.
pub open spec fn payload_state_of(task_id: Seq<char>, payload: TaskPayloadView) -> Result<
    (DeferredToolStateView, Option<CallToolResultView>),
    ErrorView,
> {
    match payload {
        TaskPayloadView::Working => Ok((DeferredToolStateView::Working, None)),
        TaskPayloadView::InputRequired(requests) => Ok(
            (DeferredToolStateView::InputRequired(application_requests(requests)), None),
        ),
        TaskPayloadView::Completed(json) => completed_state_of(
            task_id,
            decoded_call_result(json),
        ),
        TaskPayloadView::Failed(json) => Ok(
            (
                DeferredToolStateView::Failed(
                    final_error(
                        ToolErrorKind::Provider,
                        about_mcp_task(task_id, "' failed with JSON-RPC error: "@) + json,
                        "mcp_task_failed"@,
                    ),
                ),
                None,
            ),
        ),
        TaskPayloadView::Cancelled => Ok((DeferredToolStateView::Cancelled, None)),
        TaskPayloadView::Unknown => Ok(
            (
                DeferredToolStateView::Failed(
                    unretryable(
                        ToolErrorKind::Provider,
                        about_mcp_task(task_id, "' returned an unsupported status payload"@),
                    ),
                ),
                None,
            ),
        ),
    }
}

/// A driver that has not asked the server yet.
pub open spec fn new_driver(
    task_id: Seq<char>,
    expires_at_unix_ms: Option<i64>,
    poll_interval_ms: Option<u64>,
    request_timeout: Option<nat>,
    trace_meta: Map<Seq<char>, Seq<char>>,
    now: nat,
) -> McpTaskDriverView {
    McpTaskDriverView {
        task_id,
        request_timeout,
        trace_meta,
        terminal: None,
        polled_once: false,
        polled_at: now,
        poll_interval: interval_or_default(poll_interval_ms),
        expires_at_unix_ms,
        published: nothing_published(),
    }
}

/// The poll interval that a server suggests, or one second.
pub open spec fn interval_or_default(poll_interval_ms: Option<u64>) -> nat {
    match poll_interval_ms {
        Some(ms) => (ms * 1_000_000) as nat,
        None => 1_000_000_000,
    }
}

/// Whether a task has expired.
pub open spec fn expired(driver: McpTaskDriverView, now_unix_ms: i64) -> bool {
    driver.expires_at_unix_ms is Some && now_unix_ms >= driver.expires_at_unix_ms->0
}

/// A driver whose task expired, and what its poll gives. A final state that is already known stays.
pub open spec fn expire(driver: McpTaskDriverView) -> (McpTaskDriverView, PollStepView) {
    match driver.terminal {
        Some(state) => (driver, PollStepView::Done(state)),
        None => {
            let failed = DeferredToolStateView::Failed(ttl_failure(driver.task_id));
            (McpTaskDriverView { terminal: Some(failed), ..driver }, PollStepView::Done(failed))
        },
    }
}

/// How a poll begins: a final state is final, an expired task fails without being asked for, a
/// scheduled poll waits, and any other asks the server.
pub open spec fn poll_begun(
    driver: McpTaskDriverView,
    wait_for_schedule: bool,
    now: nat,
    now_unix_ms: i64,
) -> (McpTaskDriverView, PollStepView) {
    match driver.terminal {
        Some(state) => (driver, PollStepView::Done(state)),
        None => if expired(driver, now_unix_ms) {
            expire(driver)
        } else if wait_for_schedule && driver.polled_once {
            (
                driver,
                PollStepView::Sleep {
                    poll_remaining: monus(driver.poll_interval, monus(now, driver.polled_at)),
                    ttl_remaining: match driver.expires_at_unix_ms {
                        Some(expires_at) => Some(millis_left(expires_at, now_unix_ms) * 1_000_000),
                        None => None,
                    },
                },
            )
        } else {
            (driver, PollStepView::Fetch)
        },
    }
}

/// How a poll goes on after its wait: an expired task fails unless its final state is known, and any
/// other wake asks the server.
pub open spec fn poll_woken(driver: McpTaskDriverView, wake: PollWake) -> (
    McpTaskDriverView,
    PollStepView,
) {
    if wake is Expired {
        expire(driver)
    } else {
        (driver, PollStepView::Fetch)
    }
}

/// What an answer to `tasks/get` makes of a driver. A failure changes nothing, and a final state
/// that is already known stays.
pub open spec fn poll_fetched(
    driver: McpTaskDriverView,
    fetched: Result<GetTaskResultView, ServiceErrorView>,
    now: nat,
) -> (McpTaskDriverView, Result<DeferredToolStateView, ErrorView>) {
    match fetched {
        Err(error) => (driver, Err(service_failure("tasks/get"@, error))),
        Ok(result) => if result.task.task_id != driver.task_id {
            (
                driver,
                Err(
                    unretryable(
                        ToolErrorKind::Provider,
                        "MCP tasks/get returned task '"@ + result.task.task_id + "' while '"@
                            + driver.task_id + "' was requested"@,
                    ),
                ),
            )
        } else {
            match task_expiry(result.task) {
                Err(error) => (driver, Err(error)),
                Ok(expires_at) => match payload_state_of(driver.task_id, result.payload) {
                    Err(error) => (driver, Err(error)),
                    Ok((state, call_result)) => {
                        let told = McpTaskDriverView {
                            published: McpPublishedContextView {
                                call_result: or_else(call_result, driver.published.call_result),
                                task_result: Some(result),
                                ..driver.published
                            },
                            ..driver
                        };
                        match driver.terminal {
                            Some(known) => (told, Ok(known)),
                            None => (
                                McpTaskDriverView {
                                    polled_once: true,
                                    polled_at: now,
                                    poll_interval: interval_or_default(
                                        result.task.poll_interval_ms,
                                    ),
                                    expires_at_unix_ms: expires_at,
                                    terminal: if state.terminal() {
                                        Some(state)
                                    } else {
                                        None
                                    },
                                    ..told
                                },
                                Ok(state),
                            ),
                        }
                    },
                },
            }
        },
    }
}

/// The failure of an execution whose client does not take requests any more.
pub(crate) fn client_lost_error() -> (error: ToolExecutionError)
    ensures
        error.deep_view() == client_lost(),
{
    let mut text = "MCP client is unavailable: ".to_owned();
    text.append(McpClientError::Unavailable.to_string().as_str());
    ToolExecutionError::network(text).with_source(
        ErrorCause::Client(McpClientError::Unavailable),
    ).with_retryable(false)
}

/// The failure to start an execution on a client that does not take requests.
pub(crate) fn client_refused_error() -> (error: ToolExecutionError)
    ensures
        error.deep_view() == client_refused(),
{
    let mut text = "MCP client is unavailable: ".to_owned();
    text.append(McpClientError::Unavailable.to_string().as_str());
    ToolExecutionError::provider(text).with_source(ErrorCause::Client(McpClientError::Unavailable))
}

/// Lets a request through while the client takes requests.
pub fn require_client(client: &McpClientState) -> (live: Result<(), ToolExecutionError>)
    ensures
        takes_requests(client) ==> live is Ok,
        !takes_requests(client) ==> (live matches Err(error) && error.deep_view() == client_lost()),
{
    match client.live() {
        Ok(()) => Ok(()),
        Err(_) => Err(client_lost_error()),
    }
}

/// `MCP Task '<id>'` with `rest` behind it.
fn about_text(task_id: &str, rest: &str) -> (text: String)
    ensures
        text@ == about_mcp_task(task_id@, rest@),
{
    let mut text = "MCP Task '".to_owned();
    text.append(task_id);
    text.append(rest);
    text
}

/// The model of a state with the result to be published.
pub open spec fn state_and_result_view(
    outcome: Result<(DeferredToolState, Option<CallToolResult>), ToolExecutionError>,
) -> Result<(DeferredToolStateView, Option<CallToolResultView>), ErrorView> {
    match outcome {
        Ok((state, result)) => Ok((state.deep_view(), result.deep_view())),
        Err(error) => Err(error.deep_view()),
    }
}

/// The state of a task that completed with a result that reads as `decoded`, and the result to be
/// published.
pub fn completed_state(task_id: &str, decoded: Result<CallToolResult, String>) -> (outcome: Result<
    (DeferredToolState, Option<CallToolResult>),
    ToolExecutionError,
>)
    ensures
        state_and_result_view(outcome) == completed_state_of(task_id@, result_view(decoded)),
{
    match decoded {
        Ok(result) => match mcp_call_result(&result, None) {
            Ok(shown) => Ok((DeferredToolState::Completed(shown), Some(result))),
            Err(error) => Err(error),
        },
        Err(message) => {
            let mut text = about_text(
                task_id,
                "' completed with an invalid tools/call result: ",
            );
            text.append(message.as_str());
            Ok(
                (
                    DeferredToolState::Failed(
                        ToolExecutionError::provider(text).with_source(
                            ErrorCause::Json(message),
                        ).with_retryable(false),
                    ),
                    None,
                ),
            )
        },
    }
}

/// The state that a task's payload means, and the result to be published.
pub fn payload_state(task_id: &str, payload: &TaskPayload) -> (outcome: Result<
    (DeferredToolState, Option<CallToolResult>),
    ToolExecutionError,
>)
    ensures
        state_and_result_view(outcome) == payload_state_of(task_id@, payload.deep_view()),
{
    match payload {
        TaskPayload::Working => Ok((DeferredToolState::Working, None)),
        TaskPayload::InputRequired(requests) => Ok(
            (DeferredToolState::InputRequired(rig_input_requests(requests)), None),
        ),
        TaskPayload::Completed(json) => completed_state(task_id, decode_call_result(json)),
        TaskPayload::Failed(json) => {
            let mut text = about_text(task_id, "' failed with JSON-RPC error: ");
            text.append(json.text.as_str());
            Ok(
                (
                    DeferredToolState::Failed(
                        ToolExecutionError::provider(text).with_code(
                            "mcp_task_failed",
                        ).with_retryable(false),
                    ),
                    None,
                ),
            )
        },
        TaskPayload::Cancelled => Ok((DeferredToolState::Cancelled, None)),
        TaskPayload::Unknown => Ok(
            (
                DeferredToolState::Failed(
                    ToolExecutionError::provider(
                        about_text(task_id, "' returned an unsupported status payload"),
                    ).with_retryable(false),
                ),
                None,
            ),
        ),
    }
}

/// The poll interval that a server suggests, or one second.
fn poll_interval_of(poll_interval_ms: Option<u64>) -> (interval: Duration)
    ensures
        interval@ == interval_or_default(poll_interval_ms),
{
    match poll_interval_ms {
        Some(ms) => Duration::from_millis(ms),
        None => Duration::from_millis(1_000),
    }
}

impl McpTaskDriver {
    /// A driver for a task, watched by `client` from now on. `now` is the present time on the
    /// monotonic clock.
    pub fn new(
        client: &mut McpClientState,
        task_id: String,
        expires_at_unix_ms: Option<i64>,
        poll_interval_ms: Option<u64>,
        request_timeout: Option<Duration>,
        trace_meta: JsonMap,
        now: Duration,
    ) -> (driver: Result<McpTaskDriver, ToolExecutionError>)
        requires
            watchers(old(client).task_notifications.deep_view(), task_id@) < usize::MAX,
            old(client).task_notifications.deep_view().revision < u64::MAX,
        ensures
            takes_requests(old(client)) ==> {
                &&& driver matches Ok(made) && made.deep_view() == new_driver(
                    task_id@,
                    expires_at_unix_ms,
                    poll_interval_ms,
                    request_timeout.deep_view(),
                    trace_meta.deep_view(),
                    now@,
                )
                &&& final(client).task_notifications.deep_view() == registered(
                    waited_for(old(client).task_notifications.deep_view(), task_id@),
                    task_id@,
                )
                &&& *final(client) == (McpClientState {
                    task_notifications: final(client).task_notifications,
                    ..*old(client)
                })
            },
            !takes_requests(old(client)) ==> {
                &&& driver matches Err(error) && error.deep_view() == client_refused()
                &&& *final(client) == *old(client)
            },
    {
        match client.live() {
            Ok(()) => {},
            Err(_) => {
                return Err(client_refused_error());
            },
        }
        client.task_notifications.waiter(task_id.as_str());
        client.task_notifications.register(task_id.as_str());
        Ok(
            McpTaskDriver {
                task_id,
                request_timeout,
                trace_meta,
                terminal: None,
                polled_once: false,
                polled_at: now,
                poll_interval: poll_interval_of(poll_interval_ms),
                expires_at_unix_ms,
                published: McpPublishedContext::default(),
            },
        )
    }

    /// The failure of a task that expired.
    pub fn ttl_error(&self) -> (error: ToolExecutionError)
        ensures
            error.deep_view() == ttl_failure(self.deep_view().task_id),
    {
        ToolExecutionError::timeout(
            about_text(self.task_id.as_str(), "' expired before reaching a terminal state"),
        ).with_code("mcp_task_ttl_expired").with_retryable(false)
    }

    /// The final state, once it is known.
    pub fn terminal(&self) -> (state: Option<DeferredToolState>)
        ensures
            state.deep_view() == self.deep_view().terminal,
    {
        self.terminal.duplicate()
    }

    /// The server-assigned task id.
    pub fn task_id(&self) -> (id: &str)
        ensures
            id@ == self.deep_view().task_id,
    {
        self.task_id.as_str()
    }

    /// Time limit of every request.
    pub fn request_timeout(&self) -> (timeout: Option<Duration>)
        ensures
            timeout.deep_view() == self.deep_view().request_timeout,
    {
        self.request_timeout
    }

    /// The metadata of every request.
    pub fn request_meta(&self) -> (meta: Option<JsonMap>)
        ensures
            meta.deep_view() == meta_of_trace(self.deep_view().trace_meta),
    {
        request_meta_from_trace(&self.trace_meta)
    }

    /// Reaches the task with or without responses.
    fn request(&self, client: &McpClientState, input_responses: Option<JsonMap>) -> (step:
        TaskRequestStep)
        ensures
            step.deep_view() == task_request(
                self.deep_view(),
                takes_requests(client),
                input_responses.deep_view(),
            ),
    {
        match &self.terminal {
            Some(state) => {
                return TaskRequestStep::Done(state.duplicate());
            },
            None => {},
        }
        match require_client(client) {
            Ok(()) => TaskRequestStep::Send {
                task_id: self.task_id.clone(),
                input_responses,
                meta: self.request_meta(),
                timeout: self.request_timeout,
            },
            Err(error) => TaskRequestStep::Refuse(error),
        }
    }

    /// Submits the application's responses.
    pub fn submit_input(&self, client: &McpClientState, responses: InputResponses) -> (step:
        TaskRequestStep)
        ensures
            step.deep_view() == task_request(
                self.deep_view(),
                takes_requests(client),
                Some(responses_by_request(responses.deep_view())),
            ),
    {
        self.request(client, Some(rmcp_input_responses(responses)))
    }

    /// Asks for the cancellation of the task. Only the poll after it tells whether it was cancelled.
    pub fn cancel(&self, client: &McpClientState) -> (step: TaskRequestStep)
        ensures
            step.deep_view() == task_request(self.deep_view(), takes_requests(client), None),
    {
        self.request(client, None)
    }

    /// Lets the task expire, unless its final state is known.
    fn expire(&mut self) -> (step: PollStep)
        ensures
            (final(self).deep_view(), step.deep_view()) == expire(old(self).deep_view()),
    {
        match &self.terminal {
            Some(state) => {
                return PollStep::Done(state.duplicate());
            },
            None => {},
        }
        let failed = DeferredToolState::Failed(self.ttl_error());
        self.terminal = Some(failed.duplicate());
        PollStep::Done(failed)
    }

    /// Begins a poll. `now` is the present time on the monotonic clock, `now_unix_ms` that of day.
    pub fn poll(&mut self, wait_for_schedule: bool, now: Duration, now_unix_ms: i64) -> (step:
        PollStep)
        ensures
            (final(self).deep_view(), step.deep_view()) == poll_begun(
                old(self).deep_view(),
                wait_for_schedule,
                now@,
                now_unix_ms,
            ),
    {
        match &self.terminal {
            Some(state) => {
                return PollStep::Done(state.duplicate());
            },
            None => {},
        }
        let ttl_remaining = expiry_remaining(self.expires_at_unix_ms, now_unix_ms);
        let over = match &ttl_remaining {
            Some(remaining) => remaining.is_zero(),
            None => false,
        };
        if over {
            return self.expire();
        }
        if wait_for_schedule && self.polled_once {
            let since = now.saturating_sub(self.polled_at);
            PollStep::Sleep {
                poll_remaining: self.poll_interval.saturating_sub(since),
                ttl_remaining,
            }
        } else {
            PollStep::Fetch
        }
    }

    /// Goes on after the wait of a poll: an expired task fails, any other is asked for.
    pub fn woken(&mut self, wake: PollWake) -> (step: PollStep)
        ensures
            (final(self).deep_view(), step.deep_view()) == poll_woken(old(self).deep_view(), wake),
    {
        if wake == PollWake::Expired {
            self.expire()
        } else {
            PollStep::Fetch
        }
    }

    /// Takes the answer to a `tasks/get` request into account.
    pub fn fetched(&mut self, result: Result<GetTaskResult, ServiceError>, now: Duration) -> (state:
        Result<DeferredToolState, ToolExecutionError>)
        ensures
            (final(self).deep_view(), result_view(state)) == poll_fetched(
                old(self).deep_view(),
                result_view(result),
                now@,
            ),
    {
        let result = match result {
            Ok(result) => result,
            Err(error) => {
                return Err(mcp_service_error("tasks/get", error));
            },
        };
        if !same(result.task.task_id.as_str(), self.task_id.as_str()) {
            let mut text = "MCP tasks/get returned task '".to_owned();
            text.append(result.task.task_id.as_str());
            text.append("' while '");
            text.append(self.task_id.as_str());
            text.append("' was requested");
            return Err(ToolExecutionError::provider(text).with_retryable(false));
        }
        let expires_at_unix_ms = match task_expiry_unix_ms(&result.task) {
            Ok(expires_at_unix_ms) => expires_at_unix_ms,
            Err(error) => {
                return Err(error);
            },
        };
        let poll_interval = poll_interval_of(result.task.poll_interval_ms);
        let state = match payload_state(self.task_id.as_str(), &result.payload) {
            Ok((state, call_result)) => {
                match call_result {
                    Some(call_result) => {
                        self.published.call_result = Some(call_result);
                    },
                    None => {},
                }
                state
            },
            Err(error) => {
                return Err(error);
            },
        };
        self.published.task_result = Some(result);
        match &self.terminal {
            Some(known) => {
                return Ok(known.duplicate());
            },
            None => {},
        }
        self.polled_once = true;
        self.polled_at = now;
        self.poll_interval = poll_interval;
        self.expires_at_unix_ms = expires_at_unix_ms;
        if state.is_terminal() {
            self.terminal = Some(state.duplicate());
        }
        Ok(state)
    }
}

/// Goes on after a `tasks/update` or `tasks/cancel` request, named by `operation`: the task is then
/// asked for, unless the request failed.
pub fn after_request(operation: &str, outcome: Result<(), ServiceError>) -> (result: Result<
    (),
    ToolExecutionError,
>)
    ensures
        match outcome {
            Ok(()) => result is Ok,
            Err(error) => result matches Err(failure) && failure.deep_view() == service_failure(
                operation@,
                error.deep_view(),
            ),
        },
{
    match outcome {
        Ok(()) => Ok(()),
        Err(error) => Err(mcp_service_error(operation, error)),
    }
}

impl DeferredToolDriver for McpTaskDriver {
    closed spec fn published(&self, context: ToolContextView) -> ToolContextView {
        context_with_published(self.deep_view().published, context)
    }

    fn publish_result_context(&self, context: &mut ToolContext)
        ensures
            final(context).deep_view() == context_with_published(
                self.deep_view().published,
                old(context).deep_view(),
            ),
    {
        publish_mcp_deferred_context(&self.published, context)
    }
}

/// A final state is final: every later poll gives it back without asking the server, and neither an
/// answer that still comes in nor the end of a wait that is still running changes it.
pub proof fn final_states_are_final(
    driver: McpTaskDriverView,
    wait_for_schedule: bool,
    now: nat,
    now_unix_ms: i64,
    fetched: Result<GetTaskResultView, ServiceErrorView>,
    wake: PollWake,
)
    requires
        driver.terminal is Some,
    ensures
        poll_begun(driver, wait_for_schedule, now, now_unix_ms) == (
            driver,
            PollStepView::Done(driver.terminal->0),
        ),
        poll_woken(driver, wake).0.terminal == driver.terminal,
        poll_woken(driver, wake).1 matches PollStepView::Done(state) ==> state
            == driver.terminal->0,
        poll_fetched(driver, fetched, now).0.terminal == driver.terminal,
        poll_fetched(driver, fetched, now).1 matches Ok(state) ==> state == driver.terminal->0,
{
}

/// A final state answers every request of the application without asking the server: neither
/// responses nor a cancellation can change it.
pub proof fn final_states_answer_requests(
    driver: McpTaskDriverView,
    takes_requests: bool,
    input_responses: Option<Map<Seq<char>, Seq<char>>>,
)
    requires
        driver.terminal is Some,
    ensures
        task_request(driver, takes_requests, input_responses) == TaskRequestStepView::Done(
            driver.terminal->0,
        ),
{
}

/// A notification only shortens the wait: after it the poll goes on as it would by the schedule,
/// and what it tells comes from the server's answer to `tasks/get`. So a lost notification delays a
/// poll and changes nothing else.
pub proof fn notifications_only_shorten_the_wait(
    driver: McpTaskDriverView,
    now: nat,
    now_unix_ms: i64,
)
    requires
        poll_begun(driver, true, now, now_unix_ms).1 is Sleep,
    ensures
        poll_begun(driver, true, now, now_unix_ms).0 == driver,
        poll_woken(driver, PollWake::Notified) == (driver, PollStepView::Fetch),
        poll_woken(driver, PollWake::Notified) == poll_woken(driver, PollWake::Scheduled),
{
}

/// A final state that the server reports is kept: the next poll gives it back.
pub proof fn reported_final_states_are_kept(
    driver: McpTaskDriverView,
    fetched: Result<GetTaskResultView, ServiceErrorView>,
    now: nat,
    later: nat,
    later_unix_ms: i64,
)
    requires
        poll_fetched(driver, fetched, now).1 is Ok,
        poll_fetched(driver, fetched, now).1->Ok_0.terminal(),
    ensures
        poll_begun(poll_fetched(driver, fetched, now).0, true, later, later_unix_ms).1
            == PollStepView::Done(poll_fetched(driver, fetched, now).1->Ok_0),
{
}

/// An expired task fails at its next poll, whatever the schedule says, and the server is not asked.
pub proof fn expired_tasks_fail_unasked(
    driver: McpTaskDriverView,
    wait_for_schedule: bool,
    now: nat,
    now_unix_ms: i64,
)
    requires
        driver.terminal is None,
        expired(driver, now_unix_ms),
    ensures
        poll_begun(driver, wait_for_schedule, now, now_unix_ms).1 == PollStepView::Done(
            DeferredToolStateView::Failed(ttl_failure(driver.task_id)),
        ),
        poll_begun(driver, wait_for_schedule, now, now_unix_ms).0.terminal is Some,
{
}

/// An answer that cannot be used leaves everything as it was.
pub proof fn unusable_answers_change_nothing(
    driver: McpTaskDriverView,
    fetched: Result<GetTaskResultView, ServiceErrorView>,
    now: nat,
)
    requires
        poll_fetched(driver, fetched, now).1 is Err,
    ensures
        poll_fetched(driver, fetched, now).0 == driver,
{
}

/// A driver never takes the answer for another task, and keeps its identity.
pub proof fn answers_for_other_tasks_are_refused(
    driver: McpTaskDriverView,
    result: GetTaskResultView,
    now: nat,
)
    ensures
        result.task.task_id != driver.task_id ==> poll_fetched(driver, Ok(result), now).1 is Err,
        poll_fetched(driver, Ok(result), now).0.task_id == driver.task_id,
        poll_fetched(driver, Ok(result), now).0.trace_meta == driver.trace_meta,
        poll_fetched(driver, Ok(result), now).0.request_timeout == driver.request_timeout,
{
}

/// A driver begins with what it was given, has not asked the server yet, knows no end and has
/// published nothing. Its interval is the server's, or else one second.
pub proof fn drivers_begin_with_what_they_were_given(
    task_id: Seq<char>,
    expires_at_unix_ms: Option<i64>,
    poll_interval_ms: Option<u64>,
    request_timeout: Option<nat>,
    trace_meta: Map<Seq<char>, Seq<char>>,
    now: nat,
)
    ensures
        ({
            let driver = new_driver(
                task_id,
                expires_at_unix_ms,
                poll_interval_ms,
                request_timeout,
                trace_meta,
                now,
            );
            &&& driver.task_id == task_id
            &&& driver.expires_at_unix_ms == expires_at_unix_ms
            &&& driver.request_timeout == request_timeout
            &&& driver.trace_meta == trace_meta
            &&& driver.polled_at == now
            &&& !driver.polled_once && driver.terminal is None
            &&& poll_interval_ms matches Some(ms) ==> driver.poll_interval == ms * 1_000_000
            &&& poll_interval_ms is None ==> driver.poll_interval == 1_000_000_000
            &&& driver.published.call_result is None && driver.published.task_result is None
            &&& driver.published.input_required is None
        }),
{
}

/// A poll asks the server at once where it need not wait: at the first time and where no schedule is
/// to be kept. Otherwise it waits until the interval since the last answer has passed, and no longer
/// than the task lives.
pub proof fn polls_keep_their_schedule(
    driver: McpTaskDriverView,
    wait_for_schedule: bool,
    now: nat,
    now_unix_ms: i64,
)
    requires
        driver.terminal is None,
        driver.expires_at_unix_ms matches Some(expiry) ==> now_unix_ms < expiry,
        driver.polled_at <= now,
    ensures
        ({
            let (next, step) = poll_begun(driver, wait_for_schedule, now, now_unix_ms);
            &&& next == driver
            &&& step is Fetch <==> !(wait_for_schedule && driver.polled_once)
            &&& wait_for_schedule && driver.polled_once ==> (step matches PollStepView::Sleep {
                poll_remaining,
                ttl_remaining,
            } && {
                &&& now <= driver.polled_at + driver.poll_interval ==> now + poll_remaining
                    == driver.polled_at + driver.poll_interval
                &&& now >= driver.polled_at + driver.poll_interval ==> poll_remaining == 0
                &&& ttl_remaining is Some <==> driver.expires_at_unix_ms is Some
                &&& driver.expires_at_unix_ms matches Some(expiry) ==> (expiry - now_unix_ms
                    <= i64::MAX ==> ttl_remaining->0 == (expiry - now_unix_ms) * 1_000_000)
            })
        }),
{
}

/// A task has expired from the moment of its expiry on, and then fails for good by its time limit,
/// unless its end is known.
pub proof fn expired_tasks_fail_for_good(driver: McpTaskDriverView, now_unix_ms: i64)
    ensures
        expired(driver, now_unix_ms) <==> (driver.expires_at_unix_ms matches Some(expiry)
            && now_unix_ms >= expiry),
        driver.terminal is None ==> {
            let (next, step) = poll_woken(driver, PollWake::Expired);
            &&& step matches PollStepView::Done(DeferredToolStateView::Failed(error)) && {
                &&& error.kind is Timeout
                &&& error.code == Some("mcp_task_ttl_expired"@)
                &&& error.retryable == Some(false)
                &&& error.cause is None && error.model_output is None
                &&& mentions(error.message, driver.task_id)
                &&& next.terminal == Some(DeferredToolStateView::Failed(error))
            }
            &&& next == (McpTaskDriverView { terminal: next.terminal, ..driver })
        },
{
    parts_are_mentioned(
        "MCP Task '"@,
        driver.task_id,
        "' expired before reaching a terminal state"@,
    );
}

/// What the server tells of its own task is taken over: the state, the interval, the expiry and the
/// whole answer, from now on; an end is kept. What identifies the driver stays.
pub proof fn answers_are_taken_over(
    driver: McpTaskDriverView,
    result: GetTaskResultView,
    now: nat,
)
    requires
        driver.terminal is None,
        result.task.task_id == driver.task_id,
        poll_fetched(driver, Ok(result), now).1 is Ok,
    ensures
        ({
            let (next, told) = poll_fetched(driver, Ok(result), now);
            let state = told->Ok_0;
            &&& next.polled_once && next.polled_at == now
            &&& result.task.poll_interval_ms matches Some(ms) ==> next.poll_interval
                == ms * 1_000_000
            &&& result.task.poll_interval_ms is None ==> next.poll_interval == 1_000_000_000
            &&& task_expiry(result.task) == Ok::<Option<i64>, ErrorView>(next.expires_at_unix_ms)
            &&& next.published.task_result == Some(result)
            &&& next.published.input_required == driver.published.input_required
            &&& next.task_id == driver.task_id && next.trace_meta == driver.trace_meta
            &&& next.request_timeout == driver.request_timeout
            &&& state is Completed || state is Failed || state is Cancelled ==> next.terminal
                == Some(state)
            &&& state is Working || state is InputRequired ==> next.terminal is None
        }),
{
}

/// The state that is told is the one that the server's answer means: working, waiting for the input
/// that the server asks for, cancelled, failed with the server's error, or completed with the result
/// that was sent. A completed task whose result cannot be read, and an answer of no known kind, are
/// failures of the server that no retry can mend.
pub proof fn answers_mean_what_they_say(task_id: Seq<char>, payload: TaskPayloadView)
    ensures
        ({
            let meaning = payload_state_of(task_id, payload);
            &&& payload is Working ==> meaning == Ok::<
                (DeferredToolStateView, Option<CallToolResultView>),
                ErrorView,
            >((DeferredToolStateView::Working, None))
            &&& payload is Cancelled ==> meaning == Ok::<
                (DeferredToolStateView, Option<CallToolResultView>),
                ErrorView,
            >((DeferredToolStateView::Cancelled, None))
            &&& payload matches TaskPayloadView::InputRequired(requests) ==> meaning == Ok::<
                (DeferredToolStateView, Option<CallToolResultView>),
                ErrorView,
            >((DeferredToolStateView::InputRequired(application_requests(requests)), None))
            &&& payload matches TaskPayloadView::Failed(json) ==> (meaning matches Ok(
                (DeferredToolStateView::Failed(error), None),
            ) && {
                &&& error.kind is Provider
                &&& error.code == Some("mcp_task_failed"@)
                &&& error.retryable == Some(false)
                &&& mentions(error.message, task_id)
                &&& mentions(error.message, json)
            })
            &&& payload is Unknown ==> (meaning matches Ok(
                (DeferredToolStateView::Failed(error), None),
            ) && {
                &&& error.kind is Provider
                &&& error.code is None && error.retryable == Some(false)
                &&& mentions(error.message, task_id)
            })
            &&& payload matches TaskPayloadView::Completed(json) ==> match decoded_call_result(
                json,
            ) {
                Err(complaint) => meaning matches Ok((DeferredToolStateView::Failed(error), None))
                    && {
                    &&& error.kind is Provider
                    &&& error.code is None && error.retryable == Some(false)
                    &&& error.cause == Some(ErrorCauseView::Json(complaint))
                    &&& mentions(error.message, task_id)
                    &&& mentions(error.message, complaint)
                },
                Ok(result) => match result_output(result) {
                    Err(error) => meaning == Err::<
                        (DeferredToolStateView, Option<CallToolResultView>),
                        ErrorView,
                    >(error),
                    Ok(output) => meaning matches Ok(
                        (DeferredToolStateView::Completed(shown), Some(kept)),
                    ) && {
                        &&& kept == result
                        &&& shown.output == output
                        &&& shown.error is Some <==> result.is_error == Some(true)
                    },
                },
            }
        }),
{
    let head = "MCP Task '"@;
    let none = Seq::<char>::empty();
    parts_are_mentioned(head, task_id, "' returned an unsupported status payload"@);
    match payload {
        TaskPayloadView::Failed(json) => {
            let why = "' failed with JSON-RPC error: "@;
            parts_are_mentioned(head, task_id, why + json);
            assert(head + task_id + (why + json) =~= head + task_id + why + json);
            parts_are_mentioned(head + task_id + why, json, none);
            assert(head + task_id + why + json + none =~= head + task_id + why + json);
        },
        TaskPayloadView::Completed(json) => {
            if decoded_call_result(json) is Err {
                let complaint = decoded_call_result(json)->Err_0;
                let why = "' completed with an invalid tools/call result: "@;
                parts_are_mentioned(head, task_id, why + complaint);
                assert(head + task_id + (why + complaint) =~= head + task_id + why + complaint);
                parts_are_mentioned(head + task_id + why, complaint, none);
                assert(head + task_id + why + complaint + none =~= head + task_id + why
                    + complaint);
            }
        },
        _ => {},
    }
}

/// A poll tells exactly what the answer for its own task means, publishes the result of a completed
/// one, and fails by what cannot be used: the request, an answer for another task, which it names,
/// or a lifetime that cannot be told.
pub proof fn polls_tell_what_the_answer_means(
    driver: McpTaskDriverView,
    fetched: Result<GetTaskResultView, ServiceErrorView>,
    now: nat,
)
    requires
        driver.terminal is None,
    ensures
        fetched matches Err(error) ==> (poll_fetched(driver, fetched, now).1 matches Err(failure)
            && failure.cause == Some(ErrorCauseView::Service(error)) && mentions(
            failure.message,
            "tasks/get"@,
        )),
        fetched matches Ok(result) ==> {
            let (next, told) = poll_fetched(driver, fetched, now);
            let meaning = payload_state_of(driver.task_id, result.payload);
            if result.task.task_id != driver.task_id {
                told matches Err(failure) && {
                    &&& failure.kind is Provider && failure.retryable == Some(false)
                    &&& mentions(failure.message, result.task.task_id)
                    &&& mentions(failure.message, driver.task_id)
                }
            } else if task_expiry(result.task) is Err {
                told == Err::<DeferredToolStateView, ErrorView>(task_expiry(result.task)->Err_0)
            } else {
                &&& meaning matches Err(failure) ==> told == Err::<
                    DeferredToolStateView,
                    ErrorView,
                >(failure)
                &&& meaning matches Ok((state, kept)) ==> {
                    &&& told == Ok::<DeferredToolStateView, ErrorView>(state)
                    &&& kept is Some ==> next.published.call_result == kept
                    &&& kept is None ==> next.published.call_result == driver.published.call_result
                }
            }
        },
{
    match fetched {
        Err(error) => {
            the_servers_words_name_the_method("tasks/get"@, error);
        },
        Ok(result) => {
            let a = "MCP tasks/get returned task '"@;
            let b = "' while '"@;
            let c = "' was requested"@;
            let theirs = result.task.task_id;
            let ours = driver.task_id;
            parts_are_mentioned(a, theirs, b + ours + c);
            assert(a + theirs + (b + ours + c) =~= a + theirs + b + ours + c);
            parts_are_mentioned(a + theirs + b, ours, c);
        },
    }
}

/// The failure of a request names the request.
proof fn the_servers_words_name_the_method(method: Seq<char>, error: ServiceErrorView)
    ensures
        mentions(service_failure(method, error).message, method),
{
    let text = service_failure(method, error).message;
    let rest = match error {
        ServiceErrorView::Timeout { timeout } => " timed out after "@ + duration_text(timeout),
        _ => " failed: "@ + service_error_text(error),
    };
    parts_are_mentioned("MCP "@, method, rest);
    assert("MCP "@ + method + rest =~= text);
}

/// While a task has no known end, a request reaches it with its id, the responses, the trace and the
/// time limit of its driver; a client that takes no requests is told as lost, and final.
pub proof fn requests_reach_their_task(
    driver: McpTaskDriverView,
    takes_requests: bool,
    input_responses: Option<Map<Seq<char>, Seq<char>>>,
)
    requires
        driver.terminal is None,
    ensures
        takes_requests ==> (task_request(driver, takes_requests, input_responses) matches
            TaskRequestStepView::Send { task_id, input_responses: sent, meta, timeout } && {
            &&& task_id == driver.task_id
            &&& sent == input_responses
            &&& timeout == driver.request_timeout
            &&& meta is Some <==> driver.trace_meta != Map::<Seq<char>, Seq<char>>::empty()
            &&& meta matches Some(entries) ==> entries == driver.trace_meta
        }),
        !takes_requests ==> (task_request(driver, takes_requests, input_responses) matches
            TaskRequestStepView::Refuse(error) && {
            &&& error.kind is Network && error.retryable == Some(false) && error.code is None
            &&& error.cause == Some(ErrorCauseView::Client(McpClientErrorView::Unavailable))
        }),
        client_refused().kind is Provider,
        client_refused().retryable is None && client_refused().code is None,
        client_refused().cause == Some(ErrorCauseView::Client(McpClientErrorView::Unavailable)),
{
}

/// What an execution publishes reaches the context whole: the result with its structure and
/// metadata, the last state of the task and the last request for input. The metadata is that of the
/// last of them that has any, and nothing else in the context changes.
pub proof fn published_answers_reach_the_context(
    published: McpPublishedContextView,
    context: ToolContextView,
)
    ensures
        ({
            let after = context_with_published(published, context);
            &&& published.call_result is Some ==> after.call_result == published.call_result
            &&& published.call_result is None ==> after.call_result == context.call_result
                && after.structured == context.structured
            &&& published.call_result matches Some(result) ==> after.structured
                == match result.structured_content {
                Some(value) => Some(value),
                None => context.structured,
            }
            &&& published.task_result is Some ==> after.task_result == published.task_result
            &&& published.task_result is None ==> after.task_result == context.task_result
            &&& published.input_required is Some ==> after.input_required
                == published.input_required
            &&& published.input_required is None ==> after.input_required == context.input_required
            &&& after.request_meta == context.request_meta
            &&& after.created_task == context.created_task
            &&& after.task_info == context.task_info
            &&& published.input_required is Some && published.input_required->0.meta is Some
                ==> after.meta == published.input_required->0.meta
            &&& (published.input_required is None || published.input_required->0.meta is None)
                && published.task_result is Some && published.task_result->0.meta is Some
                ==> after.meta == published.task_result->0.meta
            &&& (published.input_required is None || published.input_required->0.meta is None) && (
            published.task_result is None || published.task_result->0.meta is None)
                && published.call_result is Some && published.call_result->0.meta is Some
                ==> after.meta == published.call_result->0.meta
            &&& (published.input_required is None || published.input_required->0.meta is None) && (
            published.task_result is None || published.task_result->0.meta is None) && (
            published.call_result is None || published.call_result->0.meta is None) ==> after.meta
                == context.meta
        }),
{
}

} // verus!

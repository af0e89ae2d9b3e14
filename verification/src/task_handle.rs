//! Live handles to MCP tasks: from launch or resumption to the final result.

use vstd::prelude::*;
use vstd::string::*;

use crate::content::{context_with_result, mcp_result_output, preserve_mcp_result, result_output};
use crate::descriptor::{ToolTaskDescriptor, ToolTaskDescriptorView};
use crate::duplicate::Duplicate;
use crate::duration::{duration_to_millis, longer, millis_of, Duration};
use crate::error::{final_error, plain_error, ErrorView, ToolErrorKind, ToolExecutionError};
use crate::json::{serde_json_member, serde_json_string};
use crate::model::{
    result_view, CallToolResult, CallToolResultView, CreateTaskResult, Task, TaskStatus, TaskView,
};
use crate::output::ContentView;
use crate::result::{
    task_cancelled, task_failed, task_success, McpTaskInfo, McpTaskInfoView, ToolContext,
    ToolContextView, ToolTaskResult, ToolTaskResultView,
};
use crate::status::ToolTaskStatus;
use crate::task::ToolTaskHandle;
use crate::text::{mentions, parts_are_mentioned, same};

verus! {

/// `_meta` key under which a server suggests what to tell the model at once.
pub const MODEL_IMMEDIATE_RESPONSE_META_KEY: &'static str =
    "io.modelcontextprotocol/model-immediate-response";

/// Nanoseconds of the polling cadence where the server suggests none.
pub open spec fn default_poll_interval() -> nat {
    2_000_000_000
}

/// Nanoseconds below which no poll interval goes, so that no server can induce busy polling.
pub open spec fn min_poll_interval() -> nat {
    100_000_000
}

/// Polling cadence where the server suggests none.
pub fn default_mcp_task_poll_interval() -> (interval: Duration)
    ensures
        interval@ == default_poll_interval(),
{
    Duration::from_secs(2)
}

/// A server-suggested poll interval in milliseconds, raised to the floor.
pub open spec fn clamped(poll_interval_ms: u64) -> nat {
    longer((poll_interval_ms * 1_000_000) as nat, min_poll_interval())
}

/// Raises a server-suggested poll interval to the floor.
pub fn clamp_poll_interval(poll_interval_ms: u64) -> (interval: Duration)
    ensures
        interval@ == clamped(poll_interval_ms),
{
    Duration::from_millis(poll_interval_ms).max(Duration::from_millis(100))
}

/// The status that a server's report means. An unknown one counts as working.
pub open spec fn converted(status: TaskStatus) -> ToolTaskStatus {
    match status {
        TaskStatus::Working => ToolTaskStatus::Working,
        TaskStatus::InputRequired => ToolTaskStatus::InputRequired,
        TaskStatus::Completed => ToolTaskStatus::Completed,
        TaskStatus::Failed => ToolTaskStatus::Failed,
        TaskStatus::Cancelled => ToolTaskStatus::Cancelled,
        TaskStatus::Unknown => ToolTaskStatus::Working,
    }
}

/// Converts a server's report. An unknown status counts as working: polling goes on, and a
/// deadline bounds it.
pub fn convert_status(status: &TaskStatus) -> (result: ToolTaskStatus)
    ensures
        result == converted(*status),
{
    match status {
        TaskStatus::Working => ToolTaskStatus::Working,
        TaskStatus::InputRequired => ToolTaskStatus::InputRequired,
        TaskStatus::Completed => ToolTaskStatus::Completed,
        TaskStatus::Failed => ToolTaskStatus::Failed,
        TaskStatus::Cancelled => ToolTaskStatus::Cancelled,
        TaskStatus::Unknown => ToolTaskStatus::Working,
    }
}

/// A status snapshot that a server pushed.
#[derive(Debug)]
pub struct TaskStatusUpdate {
    /// The reported status.
    pub status: TaskStatus,
    /// A message for people.
    pub status_message: Option<String>,
    /// Suggested polling interval in milliseconds.
    pub poll_interval: Option<u64>,
}

/// The model of a [`TaskStatusUpdate`].
#[verifier::ext_equal]
pub struct TaskStatusUpdateView {
    /// The reported status.
    pub status: TaskStatus,
    /// A message for people.
    pub status_message: Option<Seq<char>>,
    /// Suggested polling interval in milliseconds.
    pub poll_interval: Option<u64>,
}

impl DeepView for TaskStatusUpdate {
    type V = TaskStatusUpdateView;

    open spec fn deep_view(&self) -> TaskStatusUpdateView {
        TaskStatusUpdateView {
            status: self.status,
            status_message: self.status_message.deep_view(),
            poll_interval: self.poll_interval.deep_view(),
        }
    }
}

impl Duplicate for TaskStatusUpdate {
    fn duplicate(&self) -> (copy: Self) {
        TaskStatusUpdate {
            status: self.status,
            status_message: self.status_message.duplicate(),
            poll_interval: self.poll_interval.duplicate(),
        }
    }
}

impl Clone for TaskStatusUpdate {
    fn clone(&self) -> (copy: Self)
        ensures
            copy.deep_view() == self.deep_view(),
    {
        self.duplicate()
    }
}

/// The snapshot in a task.
pub open spec fn update_of(task: TaskView) -> TaskStatusUpdateView {
    TaskStatusUpdateView {
        status: task.status,
        status_message: task.status_message,
        poll_interval: task.poll_interval_ms,
    }
}

impl TaskStatusUpdate {
    /// The snapshot in `task`.
    pub fn from_task(task: &Task) -> (update: TaskStatusUpdate)
        ensures
            update.deep_view() == update_of(task.deep_view()),
    {
        TaskStatusUpdate {
            status: task.status,
            status_message: task.status_message.duplicate(),
            poll_interval: task.poll_interval_ms,
        }
    }
}

/// A handle to an MCP task.
#[derive(Debug)]
pub struct McpTaskHandle {
    /// The tool whose call became the task.
    pub tool_name: String,
    /// The server-assigned task id.
    pub task_id: String,
    /// The server-reported ISO-8601 creation timestamp, verbatim.
    pub created_at: Option<String>,
    /// Retention in milliseconds from creation; `None` is unlimited.
    pub ttl_ms: Option<u64>,
    /// Server-suggested poll cadence, not below the floor.
    pub poll_interval: Option<Duration>,
    /// What to tell the model at once.
    pub immediate_response: Option<String>,
    /// Time limit of every request that the handle makes.
    pub request_timeout: Option<Duration>,
    /// `"{name}@{version}"` identity of the server.
    pub server_key: Option<String>,
    /// Whether the connection answers elicitations.
    pub elicitation_available: bool,
}

/// The model of a [`McpTaskHandle`].
#[verifier::ext_equal]
pub struct McpTaskHandleView {
    /// The tool whose call became the task.
    pub tool_name: Seq<char>,
    /// The server-assigned task id.
    pub task_id: Seq<char>,
    /// The server-reported ISO-8601 creation timestamp, verbatim.
    pub created_at: Option<Seq<char>>,
    /// Retention in milliseconds from creation; `None` is unlimited.
    pub ttl_ms: Option<u64>,
    /// Server-suggested poll cadence, not below the floor.
    pub poll_interval: Option<nat>,
    /// What to tell the model at once.
    pub immediate_response: Option<Seq<char>>,
    /// Time limit of every request that the handle makes.
    pub request_timeout: Option<nat>,
    /// `"{name}@{version}"` identity of the server.
    pub server_key: Option<Seq<char>>,
    /// Whether the connection answers elicitations.
    pub elicitation_available: bool,
}

impl DeepView for McpTaskHandle {
    type V = McpTaskHandleView;

    open spec fn deep_view(&self) -> McpTaskHandleView {
        McpTaskHandleView {
            tool_name: self.tool_name.deep_view(),
            task_id: self.task_id.deep_view(),
            created_at: self.created_at.deep_view(),
            ttl_ms: self.ttl_ms.deep_view(),
            poll_interval: self.poll_interval.deep_view(),
            immediate_response: self.immediate_response.deep_view(),
            request_timeout: self.request_timeout.deep_view(),
            server_key: self.server_key.deep_view(),
            elicitation_available: self.elicitation_available,
        }
    }
}

/// A poll interval that a server's suggestion became.
pub open spec fn valid_interval(interval: Option<nat>) -> bool {
    interval matches Some(total) ==> exists|ms: u64| total == clamped(ms)
}

/// The task metadata that a final result carries.
pub open spec fn info_of(
    handle: McpTaskHandleView,
    status: ToolTaskStatus,
    status_message: Option<Seq<char>>,
) -> McpTaskInfoView {
    McpTaskInfoView {
        task_id: handle.task_id,
        status,
        status_message,
        created_at: handle.created_at,
        server_key: handle.server_key,
    }
}

/// A result with the task metadata attached.
pub open spec fn with_info(
    handle: McpTaskHandleView,
    result: ToolTaskResultView,
    status: ToolTaskStatus,
    status_message: Option<Seq<char>>,
) -> ToolTaskResultView {
    ToolTaskResultView {
        context: ToolContextView {
            task_info: Some(info_of(handle, status, status_message)),
            ..result.context
        },
        ..result
    }
}

/// `MCP task '<id>'` with `rest` behind it.
pub open spec fn about_task(handle: McpTaskHandleView, rest: Seq<char>) -> Seq<char> {
    "MCP task '"@ + handle.task_id + rest
}

/// The status message, or `other` where there is none.
pub open spec fn message_or(status_message: Option<Seq<char>>, other: Seq<char>) -> Seq<char> {
    match status_message {
        Some(message) => message,
        None => other,
    }
}

/// The failure of a task that needs input which nobody here can give.
pub open spec fn input_required_error(handle: McpTaskHandleView) -> ErrorView {
    final_error(
        ToolErrorKind::Other,
        "MCP task '"@ + handle.task_id + "' for tool '"@ + handle.tool_name
            + "' requires interactive input, but no elicitation handler is registered on this connection (see `McpClientHandler::with_elicitation_handler`)"@,
        "mcp_task_input_required"@,
    )
}

/// The result of a task that ended without a payload.
pub open spec fn terminal_result(
    handle: McpTaskHandleView,
    status: ToolTaskStatus,
    status_message: Option<Seq<char>>,
) -> ToolTaskResultView {
    let result = match status {
        ToolTaskStatus::InputRequired => task_failed(input_required_error(handle)),
        ToolTaskStatus::Cancelled => task_cancelled(
            plain_error(
                ToolErrorKind::Cancelled,
                message_or(status_message, about_task(handle, "' was cancelled"@)),
            ),
        ),
        _ => task_failed(
            plain_error(
                ToolErrorKind::Other,
                message_or(status_message, about_task(handle, "' failed"@)),
            ),
        ),
    };
    with_info(handle, result, status, status_message)
}

/// The status of a finished task: the observed one where it is terminal, and else what the payload
/// tells.
pub open spec fn final_status(observed: Option<ToolTaskStatus>, is_error: bool) -> ToolTaskStatus {
    match observed {
        Some(status) if status.terminal() => status,
        _ => if is_error {
            ToolTaskStatus::Failed
        } else {
            ToolTaskStatus::Completed
        },
    }
}

/// The result of a task whose status is `status` and whose payload shows `output`.
pub open spec fn payload_result(
    handle: McpTaskHandleView,
    output: Result<Seq<ContentView>, ErrorView>,
    is_error: bool,
    status: ToolTaskStatus,
    status_message: Option<Seq<char>>,
) -> ToolTaskResultView {
    let cancellation = plain_error(
        ToolErrorKind::Cancelled,
        message_or(status_message, about_task(handle, "' was cancelled"@)),
    );
    match output {
        Ok(output) => if status is Cancelled {
            task_cancelled(cancellation.showing(output))
        } else if status is Failed && !is_error {
            task_failed(
                final_error(
                    ToolErrorKind::Provider,
                    about_task(handle, "' returned a status/payload mismatch: "@) + message_or(
                        status_message,
                        "the server reported Failed with a success payload"@,
                    ),
                    "mcp_task_status_mismatch"@,
                ).showing(output),
            )
        } else if status is Completed && is_error {
            task_failed(
                final_error(
                    ToolErrorKind::Provider,
                    about_task(handle, "' reported Completed with an error payload"@),
                    "mcp_task_status_mismatch"@,
                ).showing(output),
            )
        } else if is_error {
            task_failed(
                plain_error(
                    ToolErrorKind::Other,
                    about_task(handle, "' reported an execution error"@),
                ).showing(output),
            )
        } else {
            task_success(output)
        },
        Err(error) => if status is Cancelled {
            task_cancelled(cancellation)
        } else {
            task_failed(error)
        },
    }
}

/// The result of a task that delivered `payload`.
pub open spec fn finished_payload(
    handle: McpTaskHandleView,
    payload: CallToolResultView,
    observed: Option<ToolTaskStatus>,
    status_message: Option<Seq<char>>,
) -> ToolTaskResultView {
    let is_error = payload.is_error == Some(true);
    let status = final_status(observed, is_error);
    let completion = payload_result(
        handle,
        result_output(payload),
        is_error,
        status,
        status_message,
    );
    with_info(
        handle,
        ToolTaskResultView {
            context: context_with_result(ToolContext::empty(), payload),
            ..completion
        },
        status,
        status_message,
    )
}

/// The result of a task whose payload could not be had.
pub open spec fn finished_error(
    handle: McpTaskHandleView,
    error: ErrorView,
    observed: Option<ToolTaskStatus>,
    status_message: Option<Seq<char>>,
) -> ToolTaskResultView {
    let status = match observed {
        Some(status) if status.terminal() => status,
        _ => ToolTaskStatus::Failed,
    };
    let result = if status is Cancelled {
        task_cancelled(error)
    } else {
        task_failed(error)
    };
    with_info(handle, result, status, Some(message_or(status_message, error.message)))
}

/// What a server wants the model to be told at once.
pub open spec fn immediate_response_of(meta: Option<Seq<char>>) -> Option<Seq<char>> {
    match meta {
        Some(meta) => match serde_json_member(meta, MODEL_IMMEDIATE_RESPONSE_META_KEY@) {
            Some(value) => serde_json_string(value),
            None => None,
        },
        None => None,
    }
}

/// The handle to a task that was just created, given what its metadata wants the model to be told.
pub open spec fn created_handle(
    tool_name: Seq<char>,
    task: TaskView,
    immediate_response: Option<Seq<char>>,
    request_timeout: Option<nat>,
    server_key: Option<Seq<char>>,
    elicitation_available: bool,
) -> McpTaskHandleView {
    McpTaskHandleView {
        tool_name,
        task_id: task.task_id,
        created_at: Some(task.created_at),
        ttl_ms: task.ttl_ms,
        poll_interval: match task.poll_interval_ms {
            Some(ms) => Some(clamped(ms)),
            None => None,
        },
        immediate_response,
        request_timeout,
        server_key,
        elicitation_available,
    }
}

/// The handle to a task that a descriptor brings back.
pub open spec fn resumed_handle(
    descriptor: ToolTaskDescriptorView,
    request_timeout: Option<nat>,
    live_key: Option<Seq<char>>,
    elicitation_available: bool,
) -> Result<McpTaskHandleView, ErrorView> {
    if descriptor.backend != ToolTaskDescriptor::BACKEND_MCP@ {
        Err(
            plain_error(
                ToolErrorKind::InvalidArgs,
                "descriptor for backend '"@ + descriptor.backend
                    + "' cannot be resumed as an MCP task"@,
            ),
        )
    } else {
        Ok(
            McpTaskHandleView {
                tool_name: descriptor.tool_name,
                task_id: descriptor.task_id,
                created_at: descriptor.created_at,
                ttl_ms: descriptor.ttl_ms,
                poll_interval: match descriptor.poll_interval_ms {
                    Some(ms) => Some(clamped(ms)),
                    None => None,
                },
                immediate_response: descriptor.immediate_response,
                request_timeout,
                server_key: live_key,
                elicitation_available,
            },
        )
    }
}

/// The durable description of a task.
pub open spec fn described(handle: McpTaskHandleView) -> ToolTaskDescriptorView {
    ToolTaskDescriptorView {
        backend: ToolTaskDescriptor::BACKEND_MCP@,
        task_id: handle.task_id,
        tool_name: handle.tool_name,
        server_key: handle.server_key,
        created_at: handle.created_at,
        ttl_ms: handle.ttl_ms,
        poll_interval_ms: match handle.poll_interval {
            Some(total) => Some(millis_of(total)),
            None => None,
        },
        immediate_response: handle.immediate_response,
    }
}

/// `"{name}@{version}"` of a server.
pub fn server_key(name: &str, version: &str) -> (key: String)
    ensures
        key@ == name@ + "@"@ + version@,
{
    let mut key = name.to_owned();
    key.append("@");
    key.append(version);
    key
}

impl McpTaskHandle {
    /// The handle to a task that was just created. `server_key` is the identity of the connected
    /// server.
    pub fn from_create_result(
        tool_name: String,
        created: CreateTaskResult,
        request_timeout: Option<Duration>,
        server_key: Option<String>,
        elicitation_available: bool,
    ) -> (handle: McpTaskHandle)
        ensures
            handle.deep_view() == created_handle(
                tool_name@,
                created.deep_view().task,
                immediate_response_of(created.deep_view().meta),
                request_timeout.deep_view(),
                server_key.deep_view(),
                elicitation_available,
            ),
            valid_interval(handle.deep_view().poll_interval),
    {
        let immediate_response = match &created.meta {
            Some(meta) => match meta.member(MODEL_IMMEDIATE_RESPONSE_META_KEY) {
                Some(value) => value.as_string(),
                None => None,
            },
            None => None,
        };
        McpTaskHandle::from_task(
            tool_name,
            created.task,
            immediate_response,
            request_timeout,
            server_key,
            elicitation_available,
        )
    }

    /// The handle to a new task, given what to tell the model at once.
    pub fn from_task(
        tool_name: String,
        task: Task,
        immediate_response: Option<String>,
        request_timeout: Option<Duration>,
        server_key: Option<String>,
        elicitation_available: bool,
    ) -> (handle: McpTaskHandle)
        ensures
            handle.deep_view() == created_handle(
                tool_name@,
                task.deep_view(),
                immediate_response.deep_view(),
                request_timeout.deep_view(),
                server_key.deep_view(),
                elicitation_available,
            ),
            valid_interval(handle.deep_view().poll_interval),
    {
        let poll_interval = match task.poll_interval_ms {
            Some(ms) => Some(clamp_poll_interval(ms)),
            None => None,
        };
        McpTaskHandle {
            tool_name,
            task_id: task.task_id,
            created_at: Some(task.created_at),
            ttl_ms: task.ttl_ms,
            poll_interval,
            immediate_response,
            request_timeout,
            server_key,
            elicitation_available,
        }
    }

    /// Brings a task back from its durable description, on a connection whose server has the
    /// identity `live_key`. A different identity in the description does not matter: the task id
    /// decides.
    pub fn resume(
        descriptor: ToolTaskDescriptor,
        request_timeout: Option<Duration>,
        live_key: Option<String>,
    ) -> (handle: Result<McpTaskHandle, ToolExecutionError>)
        ensures
            result_view(handle) == resumed_handle(
                descriptor.deep_view(),
                request_timeout.deep_view(),
                live_key.deep_view(),
                false,
            ),
    {
        McpTaskHandle::resume_with_options(descriptor, request_timeout, live_key, false)
    }

    /// Brings a task back, with a word on whether the connection answers elicitations.
    pub fn resume_with_options(
        descriptor: ToolTaskDescriptor,
        request_timeout: Option<Duration>,
        live_key: Option<String>,
        elicitation_available: bool,
    ) -> (handle: Result<McpTaskHandle, ToolExecutionError>)
        ensures
            result_view(handle) == resumed_handle(
                descriptor.deep_view(),
                request_timeout.deep_view(),
                live_key.deep_view(),
                elicitation_available,
            ),
            handle matches Ok(h) ==> valid_interval(h.deep_view().poll_interval),
    {
        if !same(descriptor.backend.as_str(), ToolTaskDescriptor::BACKEND_MCP) {
            let mut text = "descriptor for backend '".to_owned();
            text.append(descriptor.backend.as_str());
            text.append("' cannot be resumed as an MCP task");
            return Err(ToolExecutionError::invalid_args(text));
        }
        let poll_interval = match descriptor.poll_interval_ms {
            Some(ms) => Some(clamp_poll_interval(ms)),
            None => None,
        };
        Ok(
            McpTaskHandle {
                tool_name: descriptor.tool_name,
                task_id: descriptor.task_id,
                created_at: descriptor.created_at,
                ttl_ms: descriptor.ttl_ms,
                poll_interval,
                immediate_response: descriptor.immediate_response,
                request_timeout,
                server_key: live_key,
                elicitation_available,
            },
        )
    }

    /// Attaches the task metadata to a final result.
    pub fn attach_info(
        &self,
        result: ToolTaskResult,
        final_status: ToolTaskStatus,
        status_message: Option<String>,
    ) -> (attached: ToolTaskResult)
        ensures
            attached.deep_view() == with_info(
                self.deep_view(),
                result.deep_view(),
                final_status,
                status_message.deep_view(),
            ),
    {
        let mut attached = result;
        attached.context.task_info =
        Some(
            McpTaskInfo {
                task_id: self.task_id.clone(),
                status: final_status,
                status_message,
                created_at: self.created_at.duplicate(),
                server_key: self.server_key.duplicate(),
            },
        );
        attached
    }

    /// `MCP task '<id>'` with `rest` behind it.
    fn about(&self, rest: &str) -> (text: String)
        ensures
            text@ == about_task(self.deep_view(), rest@),
    {
        let mut text = "MCP task '".to_owned();
        text.append(self.task_id.as_str());
        text.append(rest);
        text
    }

    /// The status message, or the task with `rest` behind it.
    fn message_or_about(&self, status_message: &Option<String>, rest: &str) -> (text: String)
        ensures
            text@ == message_or(
                status_message.deep_view(),
                about_task(self.deep_view(), rest@),
            ),
    {
        match status_message {
            Some(message) => message.clone(),
            None => self.about(rest),
        }
    }

    /// The result of a task that ended without a payload.
    pub fn terminal_failure(&self, status: ToolTaskStatus, status_message: Option<String>) -> (result:
        ToolTaskResult)
        ensures
            result.deep_view() == terminal_result(
                self.deep_view(),
                status,
                status_message.deep_view(),
            ),
    {
        let result = match status {
            ToolTaskStatus::InputRequired => {
                let mut text = "MCP task '".to_owned();
                text.append(self.task_id.as_str());
                text.append("' for tool '");
                text.append(self.tool_name.as_str());
                text.append(
                    "' requires interactive input, but no elicitation handler is registered on this connection (see `McpClientHandler::with_elicitation_handler`)",
                );
                ToolTaskResult::failed(
                    ToolExecutionError::other(text).with_code(
                        "mcp_task_input_required",
                    ).with_retryable(false),
                )
            },
            ToolTaskStatus::Cancelled => ToolTaskResult::cancelled(
                ToolExecutionError::cancelled(
                    self.message_or_about(&status_message, "' was cancelled"),
                ),
            ),
            _ => ToolTaskResult::failed(
                ToolExecutionError::other(self.message_or_about(&status_message, "' failed")),
            ),
        };
        self.attach_info(result, status, status_message)
    }

    /// The result of a task that delivered `result`.
    pub fn finish_payload(
        &self,
        result: CallToolResult,
        observed_status: Option<ToolTaskStatus>,
        status_message: Option<String>,
    ) -> (finished: ToolTaskResult)
        ensures
            finished.deep_view() == finished_payload(
                self.deep_view(),
                result.deep_view(),
                observed_status,
                status_message.deep_view(),
            ),
    {
        let is_error = result.is_error == Some(true);
        let inferred = if is_error {
            ToolTaskStatus::Failed
        } else {
            ToolTaskStatus::Completed
        };
        let status = match observed_status {
            Some(status) => if status.is_terminal() {
                status
            } else {
                inferred
            },
            None => inferred,
        };
        let mut context = ToolContext::new();
        preserve_mcp_result(&mut context, &result);
        let completion = match mcp_result_output(&result) {
            Ok(output) => {
                if status == ToolTaskStatus::Cancelled {
                    ToolTaskResult::cancelled(
                        ToolExecutionError::cancelled(
                            self.message_or_about(&status_message, "' was cancelled"),
                        ).with_model_output(output),
                    )
                } else if status == ToolTaskStatus::Failed && !is_error {
                    let mut text = self.about("' returned a status/payload mismatch: ");
                    match &status_message {
                        Some(message) => text.append(message.as_str()),
                        None => text.append("the server reported Failed with a success payload"),
                    }
                    ToolTaskResult::failed(
                        ToolExecutionError::provider(text).with_code(
                            "mcp_task_status_mismatch",
                        ).with_retryable(false).with_model_output(output),
                    )
                } else if status == ToolTaskStatus::Completed && is_error {
                    ToolTaskResult::failed(
                        ToolExecutionError::provider(
                            self.about("' reported Completed with an error payload"),
                        ).with_code("mcp_task_status_mismatch").with_retryable(
                            false,
                        ).with_model_output(output),
                    )
                } else if is_error {
                    ToolTaskResult::failed(
                        ToolExecutionError::other(
                            self.about("' reported an execution error"),
                        ).with_model_output(output),
                    )
                } else {
                    ToolTaskResult::success(output)
                }
            },
            Err(error) => {
                if status == ToolTaskStatus::Cancelled {
                    ToolTaskResult::cancelled(
                        ToolExecutionError::cancelled(
                            self.message_or_about(&status_message, "' was cancelled"),
                        ),
                    )
                } else {
                    ToolTaskResult::failed(error)
                }
            },
        };
        self.attach_info(completion.with_context(context), status, status_message)
    }

    /// The result of a task whose payload could not be had.
    pub fn finish_payload_error(
        &self,
        error: ToolExecutionError,
        observed_status: Option<ToolTaskStatus>,
        status_message: Option<String>,
    ) -> (finished: ToolTaskResult)
        ensures
            finished.deep_view() == finished_error(
                self.deep_view(),
                error.deep_view(),
                observed_status,
                status_message.deep_view(),
            ),
    {
        let status = match observed_status {
            Some(status) => if status.is_terminal() {
                status
            } else {
                ToolTaskStatus::Failed
            },
            None => ToolTaskStatus::Failed,
        };
        let message = match status_message {
            Some(message) => message,
            None => error.to_string(),
        };
        let result = if status == ToolTaskStatus::Cancelled {
            ToolTaskResult::cancelled(error)
        } else {
            ToolTaskResult::failed(error)
        };
        self.attach_info(result, status, Some(message))
    }

    /// The status that an answer to `tasks/get` tells.
    pub fn status(&self, fetched: Result<Task, ToolExecutionError>) -> (status: Result<
        ToolTaskStatus,
        ToolExecutionError,
    >)
        ensures
            result_view(status) == match result_view(fetched) {
                Ok(task) => Ok::<ToolTaskStatus, ErrorView>(converted(task.status)),
                Err(error) => Err(error),
            },
    {
        match fetched {
            Ok(task) => Ok(convert_status(&task.status)),
            Err(error) => Err(error),
        }
    }
}

impl ToolTaskHandle for McpTaskHandle {
    open spec fn described(&self) -> ToolTaskDescriptorView {
        described(self.deep_view())
    }

    /// The server-assigned task id.
    fn task_id(&self) -> (id: &str)
        ensures
            id@ == self.deep_view().task_id,
    {
        self.task_id.as_str()
    }

    /// The server-suggested poll cadence, not below the floor.
    fn poll_hint(&self) -> (interval: Option<Duration>)
        ensures
            interval.deep_view() == self.deep_view().poll_interval,
    {
        self.poll_interval
    }

    /// The durable description of the task.
    fn descriptor(&self) -> (descriptor: ToolTaskDescriptor)
        ensures
            descriptor.deep_view() == described(self.deep_view()),
    {
        let mut descriptor = ToolTaskDescriptor::new(
            ToolTaskDescriptor::BACKEND_MCP.to_owned(),
            self.task_id.clone(),
            self.tool_name.clone(),
        );
        descriptor.server_key = self.server_key.duplicate();
        descriptor.created_at = self.created_at.duplicate();
        descriptor.ttl_ms = self.ttl_ms;
        descriptor.poll_interval_ms = duration_to_millis(self.poll_interval);
        descriptor.immediate_response = self.immediate_response.duplicate();
        descriptor
    }

    /// What to tell the model at once, if anything.
    fn immediate_response(&self) -> (text: Option<&str>)
        ensures
            match text {
                Some(text) => self.deep_view().immediate_response == Some(text@),
                None => self.deep_view().immediate_response is None,
            },
    {
        match &self.immediate_response {
            Some(text) => Some(text.as_str()),
            None => None,
        }
    }
}

/// A poll interval never falls below the floor, and raising one twice changes nothing more.
pub proof fn clamped_has_floor(poll_interval_ms: u64)
    ensures
        clamped(poll_interval_ms) >= min_poll_interval(),
        clamped(millis_of(clamped(poll_interval_ms))) == clamped(poll_interval_ms),
{
}

/// A task that is brought back from its own description is the same task: only the time limit of
/// requests, the identity of the server and the word on elicitations come from the new connection.
pub proof fn descriptor_round_trip(
    handle: McpTaskHandleView,
    request_timeout: Option<nat>,
    live_key: Option<Seq<char>>,
    elicitation_available: bool,
)
    requires
        valid_interval(handle.poll_interval),
    ensures
        resumed_handle(described(handle), request_timeout, live_key, elicitation_available) == Ok::<
            McpTaskHandleView,
            ErrorView,
        >(
            McpTaskHandleView {
                request_timeout,
                server_key: live_key,
                elicitation_available,
                ..handle
            },
        ),
{
    if handle.poll_interval is Some {
        let ms = choose|ms: u64| handle.poll_interval->0 == clamped(ms);
        clamped_has_floor(ms);
    }
}

/// Every final result names its task, and its status is terminal. A result counts as completed
/// only where the payload reports no error and no other terminal status was observed.
pub proof fn finished_payload_is_final(
    handle: McpTaskHandleView,
    payload: CallToolResultView,
    observed: Option<ToolTaskStatus>,
    status_message: Option<Seq<char>>,
)
    ensures
        ({
            let result = finished_payload(handle, payload, observed, status_message);
            &&& result.status.terminal()
            &&& result.context.task_info matches Some(info) && info.task_id == handle.task_id
                && info.status.terminal() && info.status_message == status_message
            &&& result.context.call_result == Some(payload)
            &&& result.status is Completed ==> payload.is_error != Some(true) && (observed is Some
                && observed->0.terminal() ==> observed->0 is Completed)
            &&& result.status is Completed <==> result.result.error is None
        }),
{
}

/// A task that could not deliver its payload ends as failed or cancelled, and names its error.
pub proof fn finished_error_is_final(
    handle: McpTaskHandleView,
    error: ErrorView,
    observed: Option<ToolTaskStatus>,
    status_message: Option<Seq<char>>,
)
    ensures
        ({
            let result = finished_error(handle, error, observed, status_message);
            &&& result.status is Failed || result.status is Cancelled
            &&& result.result.error == Some(error)
            &&& result.context.task_info matches Some(info) && info.task_id == handle.task_id
        }),
{
}

/// A reported status keeps its meaning, and one that is not known counts as working, so that no
/// task ends by a word that nobody understands.
pub proof fn reported_statuses_keep_their_meaning(status: TaskStatus)
    ensures
        converted(status) is Completed <==> status is Completed,
        converted(status) is Failed <==> status is Failed,
        converted(status) is Cancelled <==> status is Cancelled,
        converted(status) is InputRequired <==> status is InputRequired,
        converted(status) is Working <==> status is Working || status is Unknown,
{
}

/// A snapshot tells what the task tells.
pub proof fn snapshots_tell_what_the_task_tells(task: TaskView)
    ensures
        update_of(task).status == task.status,
        update_of(task).status_message == task.status_message,
        update_of(task).poll_interval == task.poll_interval_ms,
{
}

/// A server's interval is taken over where it is at least a tenth of a second, and raised to that
/// where it is not. Where there is none, two seconds are waited.
pub proof fn intervals_are_kept_or_raised(poll_interval_ms: u64)
    ensures
        poll_interval_ms >= 100 ==> clamped(poll_interval_ms) == poll_interval_ms * 1_000_000,
        poll_interval_ms < 100 ==> clamped(poll_interval_ms) == 100_000_000,
        default_poll_interval() == 2_000_000_000,
{
}

/// The handle to a new task holds what the server told of the task and what the connection is;
/// nothing is made up and nothing is lost.
pub proof fn new_handles_hold_what_was_told(
    tool_name: Seq<char>,
    task: TaskView,
    immediate_response: Option<Seq<char>>,
    request_timeout: Option<nat>,
    server_key: Option<Seq<char>>,
    elicitation_available: bool,
    meta: Option<Seq<char>>,
)
    ensures
        ({
            let handle = created_handle(
                tool_name,
                task,
                immediate_response,
                request_timeout,
                server_key,
                elicitation_available,
            );
            &&& handle.tool_name == tool_name
            &&& handle.task_id == task.task_id
            &&& handle.created_at == Some(task.created_at)
            &&& handle.ttl_ms == task.ttl_ms
            &&& handle.poll_interval is Some <==> task.poll_interval_ms is Some
            &&& task.poll_interval_ms matches Some(ms) ==> handle.poll_interval == Some(clamped(ms))
            &&& handle.immediate_response == immediate_response
            &&& handle.request_timeout == request_timeout
            &&& handle.server_key == server_key
            &&& handle.elicitation_available == elicitation_available
        }),
        meta is None ==> immediate_response_of(meta) is None,
        meta matches Some(text) ==> match serde_json_member(
            text,
            "io.modelcontextprotocol/model-immediate-response"@,
        ) {
            Some(value) => immediate_response_of(meta) == serde_json_string(value),
            None => immediate_response_of(meta) is None,
        },
{
}

/// A task is brought back exactly where its description names this backend: with the identity, the
/// times and the response of the description, and with the time limit, the server and the word on
/// elicitations of the connection. Any other description is refused by the name of its backend.
pub proof fn descriptions_bring_their_own_task_back(
    descriptor: ToolTaskDescriptorView,
    request_timeout: Option<nat>,
    live_key: Option<Seq<char>>,
    elicitation_available: bool,
)
    ensures
        ({
            let back = resumed_handle(descriptor, request_timeout, live_key, elicitation_available);
            &&& back is Ok <==> descriptor.backend == "mcp"@
            &&& back matches Ok(handle) ==> {
                &&& handle.task_id == descriptor.task_id
                &&& handle.tool_name == descriptor.tool_name
                &&& handle.created_at == descriptor.created_at
                &&& handle.ttl_ms == descriptor.ttl_ms
                &&& handle.immediate_response == descriptor.immediate_response
                &&& handle.poll_interval is Some <==> descriptor.poll_interval_ms is Some
                &&& descriptor.poll_interval_ms matches Some(ms) ==> handle.poll_interval == Some(
                    clamped(ms),
                )
                &&& handle.request_timeout == request_timeout
                &&& handle.server_key == live_key
                &&& handle.elicitation_available == elicitation_available
            }
            &&& back matches Err(error) ==> error.kind is InvalidArgs && mentions(
                error.message,
                descriptor.backend,
            )
        }),
{
    parts_are_mentioned(
        "descriptor for backend '"@,
        descriptor.backend,
        "' cannot be resumed as an MCP task"@,
    );
}

/// The description of a task names the task, its tool, its server and its times, so that another
/// process can find it.
pub proof fn descriptions_name_their_task(handle: McpTaskHandleView)
    ensures
        ({
            let told = described(handle);
            &&& told.backend == "mcp"@
            &&& told.task_id == handle.task_id
            &&& told.tool_name == handle.tool_name
            &&& told.server_key == handle.server_key
            &&& told.created_at == handle.created_at
            &&& told.ttl_ms == handle.ttl_ms
            &&& told.immediate_response == handle.immediate_response
            &&& told.poll_interval_ms is Some <==> handle.poll_interval is Some
            &&& handle.poll_interval matches Some(total) ==> told.poll_interval_ms == Some(
                millis_of(total),
            )
        }),
{
}

/// Every result of a task carries the task's metadata: which task and server it was, when it was
/// created, and the status and message that it ended with. A message given for the end is the
/// message of the failure.
pub proof fn ends_without_a_payload_are_told(
    handle: McpTaskHandleView,
    status: ToolTaskStatus,
    status_message: Option<Seq<char>>,
)
    ensures
        ({
            let result = terminal_result(handle, status, status_message);
            &&& result.context.task_info matches Some(info) && {
                &&& info.task_id == handle.task_id
                &&& info.status == status
                &&& info.status_message == status_message
                &&& info.created_at == handle.created_at
                &&& info.server_key == handle.server_key
            }
            &&& result.status is Cancelled <==> status is Cancelled
            &&& !(status is Cancelled) ==> result.status is Failed
            &&& result.result.error matches Some(error) && {
                &&& status is Cancelled ==> error.kind is Cancelled
                &&& !(status is Cancelled) ==> error.kind is Other
                &&& status is InputRequired ==> error.code == Some("mcp_task_input_required"@)
                    && error.retryable == Some(false)
                &&& !(status is InputRequired) ==> error.code is None
                &&& !(status is InputRequired) && status_message is Some ==> error.message
                    == status_message->0
                &&& status_message is None || status is InputRequired ==> mentions(
                    error.message,
                    handle.task_id,
                )
                &&& result.result.output == seq![ContentView::Text(error.message)]
            }
        }),
{
    let head = "MCP task '"@;
    parts_are_mentioned(head, handle.task_id, "' was cancelled"@);
    parts_are_mentioned(head, handle.task_id, "' failed"@);
    let tail = "' for tool '"@ + handle.tool_name
        + "' requires interactive input, but no elicitation handler is registered on this connection (see `McpClientHandler::with_elicitation_handler`)"@;
    parts_are_mentioned(head, handle.task_id, tail);
    assert(head + handle.task_id + tail =~= input_required_error(handle).message);
}

/// The status of a delivered task is the terminal one that was observed, and else what the payload
/// reports: failed where it reports an error, completed where it does not. The task counts as
/// completed only where status and payload both say so; a cancelled task stays cancelled, whatever
/// its payload says; and where status and payload contradict each other the failure says that.
pub proof fn status_and_payload_decide_together(
    handle: McpTaskHandleView,
    payload: CallToolResultView,
    observed: Option<ToolTaskStatus>,
    status_message: Option<Seq<char>>,
)
    ensures
        ({
            let result = finished_payload(handle, payload, observed, status_message);
            let info = result.context.task_info->0;
            let reports_error = payload.is_error == Some(true);
            let shown = result_output(payload);
            &&& result.context.task_info is Some
            &&& observed is Some && observed->0.terminal() ==> info.status == observed->0
            &&& (observed is None || !observed->0.terminal()) && reports_error ==> info.status
                is Failed
            &&& (observed is None || !observed->0.terminal()) && !reports_error ==> info.status
                is Completed
            &&& info.task_id == handle.task_id
            &&& info.status_message == status_message
            &&& info.created_at == handle.created_at
            &&& info.server_key == handle.server_key
            &&& result.status is Cancelled <==> info.status is Cancelled
            &&& result.status is Completed <==> info.status is Completed && !reports_error && shown
                is Ok
            &&& result.status is Completed || result.status is Cancelled || result.status is Failed
            &&& result.result.error is None <==> result.status is Completed
        }),
{
}

/// What a delivered payload shows is shown in every outcome, and the failure is classified: a
/// cancellation with the server's message, a contradiction as the provider's own and final, the
/// tool's own error as such, and a payload that cannot be shown by its own failure.
pub proof fn delivered_payloads_are_shown_and_classified(
    handle: McpTaskHandleView,
    payload: CallToolResultView,
    observed: Option<ToolTaskStatus>,
    status_message: Option<Seq<char>>,
)
    ensures
        ({
            let result = finished_payload(handle, payload, observed, status_message);
            let status = result.context.task_info->0.status;
            let reports_error = payload.is_error == Some(true);
            &&& result_output(payload) matches Ok(output) ==> result.result.output == output
            &&& status is Cancelled ==> (result.result.error matches Some(error) && error.kind
                is Cancelled && error.code is None && (status_message matches Some(message)
                ==> error.message == message) && (status_message is None ==> mentions(
                error.message,
                handle.task_id,
            )))
            &&& result_output(payload) is Ok && !(status is Cancelled) && reports_error != (status
                is Failed) ==> (result.result.error matches Some(error) && error.kind is Provider
                && error.code == Some("mcp_task_status_mismatch"@) && error.retryable == Some(false)
                && mentions(error.message, handle.task_id))
            &&& result_output(payload) is Ok && status is Failed && !reports_error && status_message
                is Some ==> mentions(result.result.error->0.message, status_message->0)
            &&& result_output(payload) is Ok && status is Failed && reports_error
                ==> (result.result.error matches Some(error) && error.kind is Other && error.code
                is None && error.retryable is None && mentions(error.message, handle.task_id))
            &&& result_output(payload) matches Err(failure) ==> (!(status is Cancelled)
                ==> result.result.error == Some(failure))
            &&& result.context.call_result == Some(payload)
            &&& result.context.structured == payload.structured_content
            &&& result.context.meta == payload.meta
            &&& result.context.request_meta is None && result.context.task_result is None
            &&& result.context.created_task is None && result.context.input_required is None
        }),
{
    let head = "MCP task '"@;
    let id = handle.task_id;
    parts_are_mentioned(head, id, "' was cancelled"@);
    parts_are_mentioned(head, id, "' reported Completed with an error payload"@);
    parts_are_mentioned(head, id, "' reported an execution error"@);
    let why = message_or(
        status_message,
        "the server reported Failed with a success payload"@,
    );
    let tail = "' returned a status/payload mismatch: "@ + why;
    parts_are_mentioned(head, id, tail);
    let message = about_task(handle, "' returned a status/payload mismatch: "@) + why;
    assert(head + id + tail =~= message);
    parts_are_mentioned(about_task(handle, "' returned a status/payload mismatch: "@), why, Seq::empty());
    assert(message + Seq::<char>::empty() =~= message);
}

/// A task without a payload has the failure that it was given, counts as cancelled only where it
/// was seen to be cancelled, and tells the last message, or else that of the failure.
pub proof fn lost_payloads_are_told(
    handle: McpTaskHandleView,
    error: ErrorView,
    observed: Option<ToolTaskStatus>,
    status_message: Option<Seq<char>>,
)
    ensures
        ({
            let result = finished_error(handle, error, observed, status_message);
            &&& result.result.error == Some(error)
            &&& result.status is Cancelled <==> observed == Some(ToolTaskStatus::Cancelled)
            &&& !(result.status is Cancelled) ==> result.status is Failed
            &&& result.context.task_info matches Some(info) && {
                &&& observed is Some && observed->0.terminal() ==> info.status == observed->0
                &&& observed is None || !observed->0.terminal() ==> info.status is Failed
                &&& status_message is Some ==> info.status_message == status_message
                &&& status_message is None ==> info.status_message == Some(error.message)
                &&& info.task_id == handle.task_id
                &&& info.created_at == handle.created_at
                &&& info.server_key == handle.server_key
            }
            &&& result.context.call_result is None && result.context.structured is None
        }),
{
}

} // verus!

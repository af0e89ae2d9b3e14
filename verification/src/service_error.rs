//! Classification of requests that got no usable answer.

use vstd::prelude::*;
use vstd::string::*;

use crate::content::{decode_call_result, decoded_call_result};
use crate::duration::duration_text;
use crate::error::{
    plain_error, ErrorCause, ErrorCauseView, ErrorView, ToolErrorKind, ToolExecutionError,
};
use crate::model::{
    result_view, CallToolResult, CallToolResultView, CreateTaskResult, CreateTaskResultView,
    ServerReply, ServerReplyView, ServiceError, ServiceErrorView, Task, TaskView,
};
use crate::rmcp_values::{
    invalid_params, method_not_found, request_timeout, request_timeout_text, spec_invalid_params,
    spec_method_not_found,
};
use crate::text::{mentions, parts_are_mentioned};

verus! {

/// The requests of a task's life.
#[derive(Debug, Clone, Copy, PartialEq, Eq, Structural)]
pub enum McpTaskOperation {
    /// The tool call that starts the task.
    Launch,
    /// `tasks/get`.
    Get,
    /// `tasks/result`.
    Result,
    /// `tasks/cancel`.
    Cancel,
}

impl McpTaskOperation {
    /// The name of the request.
    pub open spec fn spec_name(self) -> Seq<char> {
        match self {
            McpTaskOperation::Launch => "tools/call (task)"@,
            McpTaskOperation::Get => "tasks/get"@,
            McpTaskOperation::Result => "tasks/result"@,
            McpTaskOperation::Cancel => "tasks/cancel"@,
        }
    }

    /// The name of the request.
    pub fn name(self) -> (name: &'static str)
        ensures
            name@ == self.spec_name(),
    {
        match self {
            McpTaskOperation::Launch => "tools/call (task)",
            McpTaskOperation::Get => "tasks/get",
            McpTaskOperation::Result => "tasks/result",
            McpTaskOperation::Cancel => "tasks/cancel",
        }
    }
}

/// A text, or `<unknown>` where there is none.
pub open spec fn known_or_unknown(reason: Option<Seq<char>>) -> Seq<char> {
    match reason {
        Some(text) => text,
        None => "<unknown>"@,
    }
}

/// The rendering of a service error.
pub open spec fn service_error_text(error: ServiceErrorView) -> Seq<char> {
    match error {
        ServiceErrorView::McpError { display, .. } => "Mcp error: "@ + display,
        ServiceErrorView::TransportSend(display) => "Transport send error: "@ + display,
        ServiceErrorView::TransportClosed => "Transport closed"@,
        ServiceErrorView::UnexpectedResponse => "Unexpected response type"@,
        ServiceErrorView::Cancelled { reason } => "task cancelled for reason "@ + known_or_unknown(
            reason,
        ),
        ServiceErrorView::Timeout { timeout } => request_timeout_text(timeout),
        ServiceErrorView::Other(display) => display,
    }
}

/// `operation` for the task `task_id`, as the start of a message.
pub open spec fn operation_for_task(operation: McpTaskOperation, task_id: Seq<char>) -> Seq<char> {
    operation.spec_name() + " for MCP task '"@ + task_id
}

/// The classified failure of a task request.
///
/// Invalid parameters mean an unknown or expired task where the request looks a task up, and a
/// rejection where it launches or cancels one.
pub open spec fn task_service_error(
    operation: McpTaskOperation,
    task_id: Seq<char>,
    error: ServiceErrorView,
) -> ErrorView {
    let subject = operation_for_task(operation, task_id);
    match error {
        ServiceErrorView::McpError { code, message, display } => {
            if code == spec_invalid_params() && (operation is Get || operation is Result) {
                plain_error(
                    ToolErrorKind::NotFound,
                    "MCP task '"@ + task_id + "' not found or expired during "@
                        + operation.spec_name() + ": "@ + message,
                )
            } else if code == spec_invalid_params() {
                plain_error(
                    ToolErrorKind::Provider,
                    "MCP server rejected "@ + operation.spec_name() + " for task '"@ + task_id
                        + "': "@ + message,
                )
            } else if code == spec_method_not_found() {
                plain_error(
                    ToolErrorKind::Provider,
                    "MCP server does not support "@ + operation.spec_name() + ": "@ + message,
                )
            } else {
                plain_error(ToolErrorKind::Provider, subject + "' failed: "@ + display)
            }
        },
        ServiceErrorView::Timeout { timeout } => plain_error(
            ToolErrorKind::Timeout,
            subject + "' timed out after "@ + duration_text(timeout),
        ),
        ServiceErrorView::Cancelled { reason } => plain_error(
            ToolErrorKind::Cancelled,
            subject + "' was cancelled: "@ + known_or_unknown(reason),
        ),
        ServiceErrorView::TransportSend(_) | ServiceErrorView::TransportClosed => plain_error(
            ToolErrorKind::Network,
            subject + "' hit a transport failure: "@ + service_error_text(error),
        ),
        ServiceErrorView::UnexpectedResponse => plain_error(
            ToolErrorKind::Provider,
            subject + "' returned an unexpected response type"@,
        ),
        ServiceErrorView::Other(display) => plain_error(
            ToolErrorKind::Other,
            subject + "' failed: "@ + display,
        ),
    }
}

impl ServiceError {
    /// The rendering of the error.
    pub fn display(&self) -> (text: String)
        ensures
            text@ == service_error_text(self.deep_view()),
    {
        match self {
            ServiceError::McpError { display, .. } => {
                let mut text = "Mcp error: ".to_owned();
                text.append(display.as_str());
                text
            },
            ServiceError::TransportSend(display) => {
                let mut text = "Transport send error: ".to_owned();
                text.append(display.as_str());
                text
            },
            ServiceError::TransportClosed => "Transport closed".to_owned(),
            ServiceError::UnexpectedResponse => "Unexpected response type".to_owned(),
            ServiceError::Cancelled { reason } => {
                let mut text = "task cancelled for reason ".to_owned();
                match reason {
                    Some(reason) => text.append(reason.as_str()),
                    None => text.append("<unknown>"),
                }
                text
            },
            ServiceError::Timeout { timeout } => request_timeout(timeout),
            ServiceError::Other(display) => display.clone(),
        }
    }
}

/// Classifies the failure of a task request.
pub fn map_task_service_error(
    operation: McpTaskOperation,
    task_id: &str,
    err: ServiceError,
) -> (error: ToolExecutionError)
    ensures
        error.deep_view() == task_service_error(operation, task_id@, err.deep_view()),
{
    let mut subject = operation.name().to_owned();
    subject.append(" for MCP task '");
    subject.append(task_id);
    let rendering = err.display();
    match err {
        ServiceError::McpError { code, message, display } => {
            if code == invalid_params() && (operation == McpTaskOperation::Get || operation
                == McpTaskOperation::Result) {
                let mut text = "MCP task '".to_owned();
                text.append(task_id);
                text.append("' not found or expired during ");
                text.append(operation.name());
                text.append(": ");
                text.append(message.as_str());
                ToolExecutionError::not_found(text)
            } else if code == invalid_params() {
                let mut text = "MCP server rejected ".to_owned();
                text.append(operation.name());
                text.append(" for task '");
                text.append(task_id);
                text.append("': ");
                text.append(message.as_str());
                ToolExecutionError::provider(text)
            } else if code == method_not_found() {
                let mut text = "MCP server does not support ".to_owned();
                text.append(operation.name());
                text.append(": ");
                text.append(message.as_str());
                ToolExecutionError::provider(text)
            } else {
                subject.append("' failed: ");
                subject.append(display.as_str());
                ToolExecutionError::provider(subject)
            }
        },
        ServiceError::Timeout { timeout } => {
            subject.append("' timed out after ");
            subject.append(timeout.debug_text().as_str());
            ToolExecutionError::timeout(subject)
        },
        ServiceError::Cancelled { reason } => {
            subject.append("' was cancelled: ");
            match reason {
                Some(reason) => subject.append(reason.as_str()),
                None => subject.append("<unknown>"),
            }
            ToolExecutionError::cancelled(subject)
        },
        ServiceError::TransportSend(_) | ServiceError::TransportClosed => {
            subject.append("' hit a transport failure: ");
            subject.append(rendering.as_str());
            ToolExecutionError::network(subject)
        },
        ServiceError::UnexpectedResponse => {
            subject.append("' returned an unexpected response type");
            ToolExecutionError::provider(subject)
        },
        ServiceError::Other(display) => {
            subject.append("' failed: ");
            subject.append(display.as_str());
            ToolExecutionError::other(subject)
        },
    }
}

/// The new task in the answer to a task-augmented tool call. `debug` is the debug rendering of the
/// answer.
pub open spec fn launched_task(
    reply: Result<ServerReplyView, ServiceErrorView>,
    debug: Seq<char>,
) -> Result<CreateTaskResultView, ErrorView> {
    match reply {
        Ok(ServerReplyView::CreateTask(created)) => Ok(created),
        Ok(ServerReplyView::CallTool(_)) => Err(
            plain_error(
                ToolErrorKind::Provider,
                "MCP server ignored task augmentation and returned a plain tool result"@,
            ),
        ),
        Ok(_) => Err(
            plain_error(
                ToolErrorKind::Provider,
                "task-augmented tools/call returned an unexpected result: "@ + debug,
            ),
        ),
        Err(error) => Err(task_service_error(McpTaskOperation::Launch, "<new>"@, error)),
    }
}

/// Takes the new task out of the answer to a task-augmented tool call.
pub fn call_tool_as_task(reply: Result<ServerReply, ServiceError>, debug: &str) -> (created: Result<
    CreateTaskResult,
    ToolExecutionError,
>)
    ensures
        result_view(created) == launched_task(result_view(reply), debug@),
{
    match reply {
        Ok(ServerReply::CreateTask(created)) => Ok(created),
        Ok(ServerReply::CallTool(_)) => Err(
            ToolExecutionError::provider(
                "MCP server ignored task augmentation and returned a plain tool result".to_owned(),
            ),
        ),
        Ok(_) => {
            let mut text = "task-augmented tools/call returned an unexpected result: ".to_owned();
            text.append(debug);
            Err(ToolExecutionError::provider(text))
        },
        Err(error) => Err(map_task_service_error(McpTaskOperation::Launch, "<new>", error)),
    }
}

/// The task in the answer to `tasks/get`.
pub open spec fn fetched_task(
    task_id: Seq<char>,
    reply: Result<ServerReplyView, ServiceErrorView>,
    debug: Seq<char>,
) -> Result<TaskView, ErrorView> {
    match reply {
        Ok(ServerReplyView::GetTask(result)) => Ok(result.task),
        Ok(_) => Err(
            plain_error(
                ToolErrorKind::Provider,
                "tasks/get returned an unexpected result: "@ + debug,
            ),
        ),
        Err(error) => Err(task_service_error(McpTaskOperation::Get, task_id, error)),
    }
}

/// Takes the task out of the answer to `tasks/get`.
pub fn get_task(task_id: &str, reply: Result<ServerReply, ServiceError>, debug: &str) -> (task:
    Result<Task, ToolExecutionError>)
    ensures
        result_view(task) == fetched_task(task_id@, result_view(reply), debug@),
{
    match reply {
        Ok(ServerReply::GetTask(result)) => Ok(result.task),
        Ok(_) => {
            let mut text = "tasks/get returned an unexpected result: ".to_owned();
            text.append(debug);
            Err(ToolExecutionError::provider(text))
        },
        Err(error) => Err(map_task_service_error(McpTaskOperation::Get, task_id, error)),
    }
}

/// The tool result in the answer to `tasks/result`. An answer of no known shape is read once more
/// as a tool result.
pub open spec fn fetched_payload(
    task_id: Seq<char>,
    reply: Result<ServerReplyView, ServiceErrorView>,
    debug: Seq<char>,
) -> Result<CallToolResultView, ErrorView> {
    match reply {
        Ok(ServerReplyView::CallTool(result)) => Ok(result),
        Ok(ServerReplyView::Custom(json)) => payload_of_reading(
            task_id,
            decoded_call_result(json),
        ),
        Ok(_) => Err(
            plain_error(
                ToolErrorKind::Provider,
                "tasks/result returned an unexpected result: "@ + debug,
            ),
        ),
        Err(error) => Err(task_service_error(McpTaskOperation::Result, task_id, error)),
    }
}

/// The tool result that an answer of no known shape reads as, if it does.
pub open spec fn payload_of_reading(
    task_id: Seq<char>,
    reading: Result<CallToolResultView, Seq<char>>,
) -> Result<CallToolResultView, ErrorView> {
    match reading {
        Ok(result) => Ok(result),
        Err(error) => Err(
            plain_error(
                ToolErrorKind::Provider,
                "tasks/result payload for MCP task '"@ + task_id + "' was not a CallToolResult: "@
                    + error,
            ),
        ),
    }
}

/// Takes the tool result that an answer of no known shape reads as.
pub fn payload_from_reading(task_id: &str, reading: Result<CallToolResult, String>) -> (payload:
    Result<CallToolResult, ToolExecutionError>)
    ensures
        result_view(payload) == payload_of_reading(task_id@, result_view(reading)),
{
    match reading {
        Ok(result) => Ok(result),
        Err(error) => {
            let mut text = "tasks/result payload for MCP task '".to_owned();
            text.append(task_id);
            text.append("' was not a CallToolResult: ");
            text.append(error.as_str());
            Err(ToolExecutionError::provider(text))
        },
    }
}

/// Takes the tool result out of the answer to `tasks/result`.
pub fn get_task_payload(
    task_id: &str,
    reply: Result<ServerReply, ServiceError>,
    debug: &str,
) -> (payload: Result<CallToolResult, ToolExecutionError>)
    ensures
        result_view(payload) == fetched_payload(task_id@, result_view(reply), debug@),
{
    match reply {
        Ok(ServerReply::CallTool(result)) => Ok(result),
        Ok(ServerReply::Custom(json)) => payload_from_reading(task_id, decode_call_result(&json)),
        Ok(_) => {
            let mut text = "tasks/result returned an unexpected result: ".to_owned();
            text.append(debug);
            Err(ToolExecutionError::provider(text))
        },
        Err(error) => Err(map_task_service_error(McpTaskOperation::Result, task_id, error)),
    }
}

/// The task in the answer to `tasks/cancel`. A `tasks/get` answer has the same shape and counts as
/// well.
pub open spec fn cancelled_task(
    task_id: Seq<char>,
    reply: Result<ServerReplyView, ServiceErrorView>,
    debug: Seq<char>,
) -> Result<TaskView, ErrorView> {
    match reply {
        Ok(ServerReplyView::CancelTask(task)) => Ok(task),
        Ok(ServerReplyView::GetTask(result)) => Ok(result.task),
        Ok(_) => Err(
            plain_error(
                ToolErrorKind::Provider,
                "tasks/cancel returned an unexpected result: "@ + debug,
            ),
        ),
        Err(error) => Err(task_service_error(McpTaskOperation::Cancel, task_id, error)),
    }
}

/// Takes the task out of the answer to `tasks/cancel`.
pub fn cancel_task(task_id: &str, reply: Result<ServerReply, ServiceError>, debug: &str) -> (task:
    Result<Task, ToolExecutionError>)
    ensures
        result_view(task) == cancelled_task(task_id@, result_view(reply), debug@),
{
    match reply {
        Ok(ServerReply::CancelTask(task)) => Ok(task),
        Ok(ServerReply::GetTask(result)) => Ok(result.task),
        Ok(_) => {
            let mut text = "tasks/cancel returned an unexpected result: ".to_owned();
            text.append(debug);
            Err(ToolExecutionError::provider(text))
        },
        Err(error) => Err(map_task_service_error(McpTaskOperation::Cancel, task_id, error)),
    }
}

/// The failure of a request to a live client.
pub open spec fn service_failure(operation: Seq<char>, error: ServiceErrorView) -> ErrorView {
    match error {
        ServiceErrorView::Timeout { timeout } => plain_error(
            ToolErrorKind::Timeout,
            "MCP "@ + operation + " timed out after "@ + duration_text(timeout),
        ).caused_by(ErrorCauseView::Service(error)),
        _ => ErrorView {
            retryable: Some(false),
            ..plain_error(
                ToolErrorKind::Network,
                "MCP "@ + operation + " failed: "@ + service_error_text(error),
            ).caused_by(ErrorCauseView::Service(error))
        },
    }
}

/// Classifies the failure of a request to a live client.
pub fn mcp_service_error(operation: &str, error: ServiceError) -> (failure: ToolExecutionError)
    ensures
        failure.deep_view() == service_failure(operation@, error.deep_view()),
{
    let mut text = "MCP ".to_owned();
    text.append(operation);
    match error {
        ServiceError::Timeout { timeout } => {
            text.append(" timed out after ");
            text.append(timeout.debug_text().as_str());
            ToolExecutionError::timeout(text).with_source(
                ErrorCause::Service(ServiceError::Timeout { timeout }),
            )
        },
        error => {
            text.append(" failed: ");
            text.append(error.display().as_str());
            ToolExecutionError::network(text).with_source(ErrorCause::Service(error)).with_retryable(
                false,
            )
        },
    }
}

/// A failed task request is classified by what failed: a task that the server does not know any
/// more, a time limit, a cancellation, the transport, or the server. The failure names the task and
/// the operation, but for an operation that the server does not have at all.
pub proof fn task_failures_are_classified(
    operation: McpTaskOperation,
    task_id: Seq<char>,
    error: ServiceErrorView,
)
    ensures
        ({
            let failure = task_service_error(operation, task_id, error);
            let unknown = error matches ServiceErrorView::McpError { code, .. } && code == -32602i32
                && (operation is Get || operation is Result);
            &&& failure.kind is NotFound <==> unknown
            &&& failure.kind is Timeout <==> error is Timeout
            &&& failure.kind is Cancelled <==> error is Cancelled
            &&& failure.kind is Network <==> error is TransportSend || error is TransportClosed
            &&& failure.kind is Other <==> error is Other
            &&& failure.kind is Provider <==> error is UnexpectedResponse || (error is McpError
                && !unknown)
            &&& failure.code is None && failure.retryable is None
            &&& failure.model_output is None && failure.cause is None
            &&& mentions(failure.message, operation.spec_name())
            &&& !(error matches ServiceErrorView::McpError { code, .. } && code == -32601i32)
                ==> mentions(failure.message, task_id)
        }),
{
    let message = task_service_error(operation, task_id, error).message;
    let name = operation.spec_name();
    let none = Seq::<char>::empty();
    let middle = " for MCP task '"@;
    match error {
        ServiceErrorView::McpError { code, message: told, display } => {
            if code == spec_invalid_params() && (operation is Get || operation is Result) {
                let a = "MCP task '"@;
                let b = "' not found or expired during "@;
                let c = ": "@ + told;
                parts_are_mentioned(a, task_id, b + name + c);
                assert(a + task_id + (b + name + c) =~= message);
                parts_are_mentioned(a + task_id + b, name, c);
                assert(a + task_id + b + name + c =~= message);
            } else if code == spec_invalid_params() {
                let a = "MCP server rejected "@;
                let b = " for task '"@;
                let c = "': "@ + told;
                parts_are_mentioned(a, name, b + task_id + c);
                assert(a + name + (b + task_id + c) =~= message);
                parts_are_mentioned(a + name + b, task_id, c);
                assert(a + name + b + task_id + c =~= message);
            } else if code == spec_method_not_found() {
                let a = "MCP server does not support "@;
                let c = ": "@ + told;
                parts_are_mentioned(a, name, c);
                assert(a + name + c =~= message);
            } else {
                subject_is_mentioned(operation, task_id, "' failed: "@ + display);
                assert(name + middle + task_id + ("' failed: "@ + display) =~= message);
            }
        },
        ServiceErrorView::Timeout { timeout } => {
            let rest = "' timed out after "@ + duration_text(timeout);
            subject_is_mentioned(operation, task_id, rest);
            assert(name + middle + task_id + rest =~= message);
        },
        ServiceErrorView::Cancelled { reason } => {
            let rest = "' was cancelled: "@ + known_or_unknown(reason);
            subject_is_mentioned(operation, task_id, rest);
            assert(name + middle + task_id + rest =~= message);
        },
        ServiceErrorView::TransportSend(_) | ServiceErrorView::TransportClosed => {
            let rest = "' hit a transport failure: "@ + service_error_text(error);
            subject_is_mentioned(operation, task_id, rest);
            assert(name + middle + task_id + rest =~= message);
        },
        ServiceErrorView::UnexpectedResponse => {
            let rest = "' returned an unexpected response type"@;
            subject_is_mentioned(operation, task_id, rest);
            assert(name + middle + task_id + rest =~= message);
        },
        ServiceErrorView::Other(display) => {
            let rest = "' failed: "@ + display;
            subject_is_mentioned(operation, task_id, rest);
            assert(name + middle + task_id + rest =~= message);
        },
    }
}

/// A text about an operation for a task mentions both.
proof fn subject_is_mentioned(operation: McpTaskOperation, task_id: Seq<char>, rest: Seq<char>)
    ensures
        mentions(operation.spec_name() + " for MCP task '"@ + task_id + rest, operation.spec_name()),
        mentions(operation.spec_name() + " for MCP task '"@ + task_id + rest, task_id),
{
    let none = Seq::<char>::empty();
    let name = operation.spec_name();
    let middle = " for MCP task '"@;
    let text = name + middle + task_id + rest;
    parts_are_mentioned(none, name, middle + task_id + rest);
    assert(none + name + (middle + task_id + rest) =~= text);
    parts_are_mentioned(name + middle, task_id, rest);
}

/// Every operation goes by the name of its method.
pub proof fn operations_go_by_their_methods(operation: McpTaskOperation)
    ensures
        operation is Launch ==> operation.spec_name() == "tools/call (task)"@,
        operation is Get ==> operation.spec_name() == "tasks/get"@,
        operation is Result ==> operation.spec_name() == "tasks/result"@,
        operation is Cancel ==> operation.spec_name() == "tasks/cancel"@,
{
}

/// What the server said of a failure is part of what is told of it.
pub proof fn the_servers_words_are_passed_on(
    operation: McpTaskOperation,
    task_id: Seq<char>,
    code: i32,
    message: Seq<char>,
    display: Seq<char>,
    reason: Seq<char>,
    method: Seq<char>,
    timeout: nat,
)
    ensures
        ({
            let error = ServiceErrorView::McpError { code, message, display };
            let failure = task_service_error(operation, task_id, error);
            &&& code == -32602i32 || code == -32601i32 ==> mentions(failure.message, message)
            &&& code != -32602i32 && code != -32601i32 ==> mentions(failure.message, display)
            &&& mentions(service_error_text(error), display)
            &&& mentions(service_failure(method, error).message, display)
            &&& mentions(service_failure(method, error).message, method)
        }),
        mentions(
            task_service_error(
                operation,
                task_id,
                ServiceErrorView::Cancelled { reason: Some(reason) },
            ).message,
            reason,
        ),
        mentions(
            task_service_error(operation, task_id, ServiceErrorView::Timeout { timeout }).message,
            duration_text(timeout),
        ),
        mentions(
            service_failure(method, ServiceErrorView::Timeout { timeout }).message,
            duration_text(timeout),
        ),
        mentions(service_failure(method, ServiceErrorView::Timeout { timeout }).message, method),
        service_error_text(ServiceErrorView::Timeout { timeout }) == request_timeout_text(timeout),
        service_error_text(ServiceErrorView::Other(display)) == display,
        service_error_text(ServiceErrorView::TransportClosed) == "Transport closed"@,
        service_error_text(ServiceErrorView::UnexpectedResponse) == "Unexpected response type"@,
        mentions(service_error_text(ServiceErrorView::TransportSend(display)), display),
        mentions(
            service_error_text(ServiceErrorView::Cancelled { reason: Some(reason) }),
            reason,
        ),
{
    let none = Seq::<char>::empty();
    let error = ServiceErrorView::McpError { code, message, display };
    let told = task_service_error(operation, task_id, error).message;
    let last = if code == spec_invalid_params() || code == spec_method_not_found() {
        message
    } else {
        display
    };
    ends_are_mentioned(told, last);
    ends_are_mentioned(service_error_text(error), display);
    let failed = service_failure(method, error).message;
    ends_are_mentioned(failed, display);
    let rest = " failed: "@ + service_error_text(error);
    parts_are_mentioned("MCP "@, method, rest);
    assert("MCP "@ + method + rest =~= failed);
    ends_are_mentioned(
        task_service_error(
            operation,
            task_id,
            ServiceErrorView::Cancelled { reason: Some(reason) },
        ).message,
        reason,
    );
    let slow = ServiceErrorView::Timeout { timeout };
    ends_are_mentioned(
        task_service_error(operation, task_id, slow).message,
        duration_text(timeout),
    );
    let late = service_failure(method, slow).message;
    ends_are_mentioned(late, duration_text(timeout));
    let tail = " timed out after "@ + duration_text(timeout);
    parts_are_mentioned("MCP "@, method, tail);
    assert("MCP "@ + method + tail =~= late);
    ends_are_mentioned(service_error_text(ServiceErrorView::TransportSend(display)), display);
    ends_are_mentioned(
        service_error_text(ServiceErrorView::Cancelled { reason: Some(reason) }),
        reason,
    );
}

/// A text mentions what it ends with.
proof fn ends_are_mentioned(text: Seq<char>, end: Seq<char>)
    requires
        end.len() <= text.len(),
        text.subrange(text.len() - end.len(), text.len() as int) =~= end,
    ensures
        mentions(text, end),
{
    let at = text.len() - end.len();
    assert(text.subrange(at, at + end.len()) == end);
}

/// The answer to a task request is handed on unchanged where it is of the right kind. One of another
/// kind is the server's fault, a payload that does not read as a result is too, and a failure is
/// classified for the operation that was asked for.
pub proof fn task_answers_are_handed_on(
    task_id: Seq<char>,
    reply: Result<ServerReplyView, ServiceErrorView>,
    debug: Seq<char>,
)
    ensures
        ({
            let created = launched_task(reply, debug);
            &&& created is Ok <==> (reply matches Ok(ServerReplyView::CreateTask(_)))
            &&& reply matches Ok(ServerReplyView::CreateTask(answer)) ==> created == Ok::<
                CreateTaskResultView,
                ErrorView,
            >(answer)
            &&& reply is Ok && created is Err ==> created->Err_0.kind is Provider
            &&& reply matches Err(error) ==> created == Err::<CreateTaskResultView, ErrorView>(
                task_service_error(McpTaskOperation::Launch, "<new>"@, error),
            )
        }),
        ({
            let fetched = fetched_task(task_id, reply, debug);
            &&& fetched is Ok <==> (reply matches Ok(ServerReplyView::GetTask(_)))
            &&& reply matches Ok(ServerReplyView::GetTask(answer)) ==> fetched == Ok::<
                TaskView,
                ErrorView,
            >(answer.task)
            &&& reply is Ok && fetched is Err ==> fetched->Err_0.kind is Provider
            &&& reply matches Err(error) ==> fetched == Err::<TaskView, ErrorView>(
                task_service_error(McpTaskOperation::Get, task_id, error),
            )
        }),
        ({
            let cancelled = cancelled_task(task_id, reply, debug);
            &&& cancelled is Ok <==> (reply matches Ok(ServerReplyView::CancelTask(_))) || (
            reply matches Ok(ServerReplyView::GetTask(_)))
            &&& reply matches Ok(ServerReplyView::CancelTask(task)) ==> cancelled == Ok::<
                TaskView,
                ErrorView,
            >(task)
            &&& reply matches Ok(ServerReplyView::GetTask(answer)) ==> cancelled == Ok::<
                TaskView,
                ErrorView,
            >(answer.task)
            &&& reply is Ok && cancelled is Err ==> cancelled->Err_0.kind is Provider
            &&& reply matches Err(error) ==> cancelled == Err::<TaskView, ErrorView>(
                task_service_error(McpTaskOperation::Cancel, task_id, error),
            )
        }),
        ({
            let payload = fetched_payload(task_id, reply, debug);
            &&& reply matches Ok(ServerReplyView::CallTool(result)) ==> payload == Ok::<
                CallToolResultView,
                ErrorView,
            >(result)
            &&& reply matches Ok(ServerReplyView::Custom(json)) ==> match decoded_call_result(
                json,
            ) {
                Ok(result) => payload == Ok::<CallToolResultView, ErrorView>(result),
                Err(_) => payload is Err,
            }
            &&& payload is Ok ==> (reply matches Ok(ServerReplyView::CallTool(_))) || (
            reply matches Ok(ServerReplyView::Custom(_)))
            &&& reply is Ok && payload is Err ==> payload->Err_0.kind is Provider
            &&& reply matches Err(error) ==> payload == Err::<CallToolResultView, ErrorView>(
                task_service_error(McpTaskOperation::Result, task_id, error),
            )
        }),
{
}

/// A payload that does not read as a result is told with the task and the reader's complaint.
pub proof fn unreadable_payloads_are_told(task_id: Seq<char>, complaint: Seq<char>)
    ensures
        payload_of_reading(task_id, Err(complaint)) matches Err(error) && error.kind is Provider
            && mentions(error.message, task_id) && mentions(error.message, complaint),
{
    let a = "tasks/result payload for MCP task '"@;
    let b = "' was not a CallToolResult: "@;
    let text = payload_of_reading(task_id, Err(complaint))->Err_0.message;
    parts_are_mentioned(a, task_id, b + complaint);
    assert(a + task_id + (b + complaint) =~= text);
    ends_are_mentioned(text, complaint);
}

/// A failed request to a live client is a time limit or a broken network, keeps what it came from,
/// and is said to be final unless a time limit ran out.
pub proof fn request_failures_keep_their_cause(operation: Seq<char>, error: ServiceErrorView)
    ensures
        ({
            let failure = service_failure(operation, error);
            &&& failure.kind is Timeout <==> error is Timeout
            &&& !(error is Timeout) ==> failure.kind is Network
            &&& failure.retryable == if error is Timeout {
                None
            } else {
                Some(false)
            }
            &&& failure.cause == Some(ErrorCauseView::Service(error))
            &&& failure.code is None && failure.model_output is None
        }),
{
}

} // verus!

//! Executing an MCP tool, describing what it defers, and bringing that back.

use vstd::prelude::*;
use vstd::string::*;

use crate::client::{
    client_error_text, registered, takes_requests, waited_for, watchers, McpClientErrorView,
    McpClientState,
};
use crate::content::{
    context_with_result, final_result, mcp_call_result, preserve_mcp_result, result_output,
};
use crate::deferred::{
    DeferredToolDescriptor, DeferredToolDescriptorView, DeferredToolDriver, DeferredToolHandle,
    DeferredToolResolver, ToolExecution, ToolExecutionView, DEFERRED_TOOL_DESCRIPTOR_VERSION,
};
use crate::duplicate::Duplicate;
use crate::duration::{duration_from_millis, duration_text, duration_to_millis, millis_of, Duration};
use crate::error::{
    plain_error, ErrorCause, ErrorCauseView, ErrorView, ToolErrorKind, ToolExecutionError,
};
use crate::expiry::{task_expiry, task_expiry_unix_ms};
use crate::json::{Json, JsonKind, JsonMap};
use crate::meta::{
    reserved_keys, retained_trace_meta, trace_of, without_reserved, without_reserved_client_meta,
};
use crate::model::{
    result_view, CallToolRequest, CallToolRequestView, CallToolResponse, CallToolResponseView,
    CallToolResultView, CreateTaskResultView, InputRequestEntry, InputRequestEntryView,
    InputRequiredResult, InputRequiredResultView, ServiceError, ServiceErrorView, Task, TaskView,
};
use crate::mrtr::{
    new_mrtr, outstanding, published_by, unsupported_response, unsupported_response_error,
    McpMrtrDriver, McpMrtrDriverView,
};
use crate::output::ContentView;
use crate::requests::{
    argument_error_text, argument_reading, arguments_of_reading, parse_mcp_arguments,
    McpArgumentError, McpArgumentErrorView,
};
use crate::result::{failed_result, ToolContext, ToolContextView, ToolResult};
use crate::service_error::service_error_text;
use crate::string_map::StringMap;
use crate::task_driver::{
    client_refused, client_refused_error, context_with_published, new_driver, or_else,
    McpTaskDriver, McpTaskDriverView,
};
use crate::text::{mentions, parts_are_mentioned, same};

verus! {

/// An MCP tool as an ordinary tool.
#[derive(Debug)]
pub struct McpTool {
    /// The name of the tool.
    pub name: String,
    /// What the tool does.
    pub description: Option<String>,
    /// The JSON schema of the arguments.
    pub parameters: Json,
    /// Time limit of one call; `None` is unlimited.
    pub timeout: Option<Duration>,
}

/// The model of a [`McpTool`].
#[verifier::ext_equal]
pub struct McpToolView {
    /// The name of the tool.
    pub name: Seq<char>,
    /// What the tool does.
    pub description: Option<Seq<char>>,
    /// The JSON schema of the arguments.
    pub parameters: Seq<char>,
    /// Time limit of one call; `None` is unlimited.
    pub timeout: Option<nat>,
}

impl DeepView for McpTool {
    type V = McpToolView;

    open spec fn deep_view(&self) -> McpToolView {
        McpToolView {
            name: self.name.deep_view(),
            description: self.description.deep_view(),
            parameters: self.parameters.deep_view(),
            timeout: self.timeout.deep_view(),
        }
    }
}

impl Duplicate for McpTool {
    fn duplicate(&self) -> (copy: Self) {
        McpTool {
            name: self.name.duplicate(),
            description: self.description.duplicate(),
            parameters: self.parameters.duplicate(),
            timeout: self.timeout.duplicate(),
        }
    }
}

impl Clone for McpTool {
    fn clone(&self) -> (copy: Self)
        ensures
            copy.deep_view() == self.deep_view(),
    {
        self.duplicate()
    }
}

/// What a durable descriptor keeps of an MCP execution.
#[derive(Debug)]
pub enum McpDeferredPayload {
    /// An MCP task.
    Task {
        /// The server-assigned task id.
        task_id: String,
        /// When the task expires.
        expires_at_unix_ms: Option<i64>,
        /// The suggested polling interval in milliseconds.
        poll_interval_ms: Option<u64>,
        /// Time limit of every request in milliseconds.
        request_timeout_ms: Option<u64>,
        /// Trace entries of the original call.
        trace_meta: JsonMap,
    },
    /// A call that waits for input.
    Mrtr {
        /// The tool.
        tool_name: String,
        /// The arguments of the call.
        arguments: Option<Json>,
        /// Opaque state that the next try has to send back.
        request_state: Option<String>,
        /// The requests to be answered.
        input_requests: StringMap<InputRequestEntry>,
        /// The present input round.
        round: usize,
        /// Limit of the input rounds.
        max_rounds: usize,
        /// Time limit of every request in milliseconds.
        request_timeout_ms: Option<u64>,
        /// Trace entries of the original call.
        trace_meta: JsonMap,
    },
}

/// The model of a [`McpDeferredPayload`].
#[verifier::ext_equal]
pub enum McpDeferredPayloadView {
    /// An MCP task.
    Task {
        /// The server-assigned task id.
        task_id: Seq<char>,
        /// When the task expires.
        expires_at_unix_ms: Option<i64>,
        /// The suggested polling interval in milliseconds.
        poll_interval_ms: Option<u64>,
        /// Time limit of every request in milliseconds.
        request_timeout_ms: Option<u64>,
        /// Trace entries of the original call.
        trace_meta: Map<Seq<char>, Seq<char>>,
    },
    /// A call that waits for input.
    Mrtr {
        /// The tool.
        tool_name: Seq<char>,
        /// The arguments of the call.
        arguments: Option<Seq<char>>,
        /// Opaque state that the next try has to send back.
        request_state: Option<Seq<char>>,
        /// The requests to be answered.
        input_requests: Map<Seq<char>, InputRequestEntryView>,
        /// The present input round.
        round: usize,
        /// Limit of the input rounds.
        max_rounds: usize,
        /// Time limit of every request in milliseconds.
        request_timeout_ms: Option<u64>,
        /// Trace entries of the original call.
        trace_meta: Map<Seq<char>, Seq<char>>,
    },
}

impl DeepView for McpDeferredPayload {
    type V = McpDeferredPayloadView;

    open spec fn deep_view(&self) -> McpDeferredPayloadView {
        match self {
            McpDeferredPayload::Task { task_id, expires_at_unix_ms, poll_interval_ms, request_timeout_ms, trace_meta } => McpDeferredPayloadView::Task {
                task_id: task_id.deep_view(),
                expires_at_unix_ms: expires_at_unix_ms.deep_view(),
                poll_interval_ms: poll_interval_ms.deep_view(),
                request_timeout_ms: request_timeout_ms.deep_view(),
                trace_meta: trace_meta.deep_view(),
            },
            McpDeferredPayload::Mrtr { tool_name, arguments, request_state, input_requests, round, max_rounds, request_timeout_ms, trace_meta } => McpDeferredPayloadView::Mrtr {
                tool_name: tool_name.deep_view(),
                arguments: arguments.deep_view(),
                request_state: request_state.deep_view(),
                input_requests: input_requests.deep_view(),
                round: *round,
                max_rounds: *max_rounds,
                request_timeout_ms: request_timeout_ms.deep_view(),
                trace_meta: trace_meta.deep_view(),
            },
        }
    }
}

impl Duplicate for McpDeferredPayload {
    fn duplicate(&self) -> (copy: Self) {
        match self {
            McpDeferredPayload::Task { task_id, expires_at_unix_ms, poll_interval_ms, request_timeout_ms, trace_meta } => McpDeferredPayload::Task {
                task_id: task_id.duplicate(),
                expires_at_unix_ms: expires_at_unix_ms.duplicate(),
                poll_interval_ms: poll_interval_ms.duplicate(),
                request_timeout_ms: request_timeout_ms.duplicate(),
                trace_meta: trace_meta.duplicate(),
            },
            McpDeferredPayload::Mrtr { tool_name, arguments, request_state, input_requests, round, max_rounds, request_timeout_ms, trace_meta } => McpDeferredPayload::Mrtr {
                tool_name: tool_name.duplicate(),
                arguments: arguments.duplicate(),
                request_state: request_state.duplicate(),
                input_requests: input_requests.duplicate(),
                round: *round,
                max_rounds: *max_rounds,
                request_timeout_ms: request_timeout_ms.duplicate(),
                trace_meta: trace_meta.duplicate(),
            },
        }
    }
}

impl Clone for McpDeferredPayload {
    fn clone(&self) -> (copy: Self)
        ensures
            copy.deep_view() == self.deep_view(),
    {
        self.duplicate()
    }
}

/// A deferred MCP execution that was brought back.
#[derive(Debug)]
pub enum McpDriver {
    /// An MCP task.
    Task(McpTaskDriver),
    /// A call that waits for input.
    Mrtr(McpMrtrDriver),
}

/// The model of a [`McpDriver`].
#[verifier::ext_equal]
pub enum McpDriverView {
    /// An MCP task.
    Task(McpTaskDriverView),
    /// A call that waits for input.
    Mrtr(McpMrtrDriverView),
}

impl DeepView for McpDriver {
    type V = McpDriverView;

    open spec fn deep_view(&self) -> McpDriverView {
        match self {
            McpDriver::Task(value) => McpDriverView::Task(value.deep_view()),
            McpDriver::Mrtr(value) => McpDriverView::Mrtr(value.deep_view()),
        }
    }
}

/// What an execution needs next.
#[derive(Debug)]
pub enum ExecuteStep {
    /// Nothing: the execution is complete.
    Done(ToolExecution),
    /// The serialized form of this payload, for a descriptor of the task.
    DescribeTask(McpDeferredPayload),
    /// The serialized form of this payload, and a new execution identifier.
    DescribeMrtr(McpDeferredPayload),
}

/// The model of a [`ExecuteStep`].
#[verifier::ext_equal]
pub enum ExecuteStepView {
    /// Nothing: the execution is complete.
    Done(ToolExecutionView),
    /// The serialized form of this payload, for a descriptor of the task.
    DescribeTask(McpDeferredPayloadView),
    /// The serialized form of this payload, and a new execution identifier.
    DescribeMrtr(McpDeferredPayloadView),
}

impl DeepView for ExecuteStep {
    type V = ExecuteStepView;

    open spec fn deep_view(&self) -> ExecuteStepView {
        match self {
            ExecuteStep::Done(value) => ExecuteStepView::Done(value.deep_view()),
            ExecuteStep::DescribeTask(value) => ExecuteStepView::DescribeTask(value.deep_view()),
            ExecuteStep::DescribeMrtr(value) => ExecuteStepView::DescribeMrtr(value.deep_view()),
        }
    }
}

/// Milliseconds of a time limit, where there is one.
pub open spec fn limit_in_millis(timeout: Option<nat>) -> Option<u64> {
    match timeout {
        Some(total) => Some(millis_of(total)),
        None => None,
    }
}

/// The time limit of milliseconds, where there is one.
pub open spec fn limit_of_millis(millis: Option<u64>) -> Option<nat> {
    match millis {
        Some(count) => Some((count * 1_000_000) as nat),
        None => None,
    }
}

/// What a descriptor keeps of a task.
pub open spec fn task_payload_of(
    task: TaskView,
    request_timeout: Option<nat>,
    request_meta: Option<Map<Seq<char>, Seq<char>>>,
) -> Result<McpDeferredPayloadView, ErrorView> {
    match task_expiry(task) {
        Err(error) => Err(error),
        Ok(expires_at_unix_ms) => Ok(
            McpDeferredPayloadView::Task {
                task_id: task.task_id,
                expires_at_unix_ms,
                poll_interval_ms: task.poll_interval_ms,
                request_timeout_ms: limit_in_millis(request_timeout),
                trace_meta: trace_of(request_meta),
            },
        ),
    }
}

/// What a descriptor keeps of a call that waits for input.
pub open spec fn mrtr_payload_of(
    max_rounds: usize,
    request: CallToolRequestView,
    input_required: InputRequiredResultView,
    round: usize,
    request_timeout: Option<nat>,
) -> McpDeferredPayloadView {
    McpDeferredPayloadView::Mrtr {
        tool_name: request.name,
        arguments: request.arguments,
        request_state: input_required.request_state,
        input_requests: outstanding(input_required),
        round,
        max_rounds,
        request_timeout_ms: limit_in_millis(request_timeout),
        trace_meta: trace_of(request.meta),
    }
}

/// A descriptor in the current format.
pub open spec fn descriptor_of(
    backend_type: Seq<char>,
    execution_id: Seq<char>,
    payload: Seq<char>,
) -> DeferredToolDescriptorView {
    DeferredToolDescriptorView {
        version: DEFERRED_TOOL_DESCRIPTOR_VERSION,
        backend_type,
        execution_id,
        payload,
    }
}

/// The descriptor of a task whose payload serialized as `serialized`.
pub open spec fn task_descriptor_of(
    backend_id: Option<Seq<char>>,
    task_id: Seq<char>,
    serialized: Result<Seq<char>, Seq<char>>,
) -> Result<DeferredToolDescriptorView, ErrorView> {
    match serialized {
        Err(message) => Err(
            plain_error(
                ToolErrorKind::Provider,
                "failed to serialize MCP Task '"@ + task_id + "': "@ + message,
            ).caused_by(ErrorCauseView::Json(message)),
        ),
        Ok(payload) => match backend_id {
            Some(backend) => Ok(descriptor_of(backend, task_id, payload)),
            None => Err(client_refused()),
        },
    }
}

/// The descriptor of a call that waits for input, whose payload serialized as `serialized`.
pub open spec fn mrtr_descriptor_of(
    backend_id: Seq<char>,
    execution_id: Seq<char>,
    serialized: Result<Seq<char>, Seq<char>>,
) -> Result<DeferredToolDescriptorView, ErrorView> {
    match serialized {
        Err(message) => Err(
            plain_error(
                ToolErrorKind::Provider,
                "failed to serialize MCP MRTR state: "@ + message,
            ).caused_by(ErrorCauseView::Json(message)),
        ),
        Ok(payload) => Ok(descriptor_of(backend_id, execution_id, payload)),
    }
}

/// The resolver key of a client that takes requests.
pub open spec fn backend_of(client: &McpClientState) -> Option<Seq<char>> {
    if takes_requests(client) {
        Some(client.deferred_backend_id@)
    } else {
        None
    }
}

/// What a descriptor keeps of a task.
pub fn task_payload(task: &Task, request_timeout: Option<Duration>, request_meta: Option<&JsonMap>) -> (
    payload: Result<McpDeferredPayload, ToolExecutionError>)
    ensures
        result_view(payload) == task_payload_of(
            task.deep_view(),
            request_timeout.deep_view(),
            match request_meta {
                Some(meta) => Some(meta.deep_view()),
                None => None,
            },
        ),
{
    match task_expiry_unix_ms(task) {
        Err(error) => Err(error),
        Ok(expires_at_unix_ms) => Ok(
            McpDeferredPayload::Task {
                task_id: task.task_id.clone(),
                expires_at_unix_ms,
                poll_interval_ms: task.poll_interval_ms,
                request_timeout_ms: duration_to_millis(request_timeout),
                trace_meta: retained_trace_meta(request_meta),
            },
        ),
    }
}

/// The descriptor of a task, given its serialized payload.
pub fn task_descriptor(client: &McpClientState, task_id: &str, serialized: Result<Json, String>) -> (
    descriptor: Result<DeferredToolDescriptor, ToolExecutionError>)
    ensures
        result_view(descriptor) == task_descriptor_of(
            backend_of(client),
            task_id@,
            result_view(serialized),
        ),
{
    match serialized {
        Err(message) => {
            let mut text = "failed to serialize MCP Task '".to_owned();
            text.append(task_id);
            text.append("': ");
            text.append(message.as_str());
            Err(ToolExecutionError::provider(text).with_source(ErrorCause::Json(message)))
        },
        Ok(payload) => match client.deferred_backend_id() {
            Ok(backend) => Ok(DeferredToolDescriptor::new(backend, task_id.to_owned(), payload)),
            Err(_) => Err(client_refused_error()),
        },
    }
}

/// What a descriptor keeps of a call that waits for input.
pub fn mrtr_payload(
    client: &McpClientState,
    request: &CallToolRequest,
    input_required: &InputRequiredResult,
    round: usize,
    request_timeout: Option<Duration>,
) -> (payload: Result<McpDeferredPayload, ToolExecutionError>)
    ensures
        result_view(payload) == if takes_requests(client) {
            Ok::<McpDeferredPayloadView, ErrorView>(
                mrtr_payload_of(
                    client.mrtr_max_rounds,
                    request.deep_view(),
                    input_required.deep_view(),
                    round,
                    request_timeout.deep_view(),
                ),
            )
        } else {
            Err(client_refused())
        },
{
    match client.live() {
        Ok(()) => {},
        Err(_) => {
            return Err(client_refused_error());
        },
    }
    let input_requests: StringMap<InputRequestEntry> = match &input_required.input_requests {
        Some(requests) => requests.duplicate(),
        None => StringMap::new(),
    };
    assert(input_requests.deep_view() =~= outstanding(input_required.deep_view()));
    let trace_meta = match &request.meta {
        Some(meta) => retained_trace_meta(Some(meta)),
        None => retained_trace_meta(None),
    };
    Ok(
        McpDeferredPayload::Mrtr {
            tool_name: request.name.clone(),
            arguments: request.arguments.duplicate(),
            request_state: input_required.request_state.duplicate(),
            input_requests,
            round,
            max_rounds: client.mrtr_max_rounds,
            request_timeout_ms: duration_to_millis(request_timeout),
            trace_meta,
        },
    )
}

/// The descriptor of a call that waits for input, given its serialized payload and a new execution
/// identifier.
pub fn mrtr_descriptor(backend_id: &str, execution_id: String, serialized: Result<Json, String>) -> (
    descriptor: Result<DeferredToolDescriptor, ToolExecutionError>)
    ensures
        result_view(descriptor) == mrtr_descriptor_of(
            backend_id@,
            execution_id@,
            result_view(serialized),
        ),
{
    match serialized {
        Err(message) => {
            let mut text = "failed to serialize MCP MRTR state: ".to_owned();
            text.append(message.as_str());
            Err(ToolExecutionError::provider(text).with_source(ErrorCause::Json(message)))
        },
        Ok(payload) => Ok(
            DeferredToolDescriptor::new(backend_id.to_owned(), execution_id, payload),
        ),
    }
}

/// `MCP tool '<name>'` with `rest` behind it.
pub open spec fn about_tool(name: Seq<char>, rest: Seq<char>) -> Seq<char> {
    "MCP tool '"@ + name + rest
}

/// The failure of a call whose arguments cannot be sent.
pub open spec fn refused_arguments(name: Seq<char>, error: McpArgumentErrorView) -> ErrorView {
    plain_error(
        ToolErrorKind::InvalidArgs,
        about_tool(name, "' received invalid arguments: "@) + argument_error_text(error),
    ).caused_by(ErrorCauseView::Arguments(error))
}

/// The call of a tool whose arguments read as `reading`.
pub open spec fn prepared_call(
    name: Seq<char>,
    reading: Result<(JsonKind, Seq<char>), Seq<char>>,
    meta: Option<Map<Seq<char>, Seq<char>>>,
) -> Result<CallToolRequestView, ErrorView> {
    match arguments_of_reading(reading) {
        Err(error) => Err(refused_arguments(name, error)),
        Ok(arguments) => Ok(
            CallToolRequestView {
                name,
                arguments,
                input_responses: None,
                request_state: None,
                meta: match meta {
                    Some(entries) => Some(without_reserved(entries)),
                    None => None,
                },
            },
        ),
    }
}

/// The outcome of a tool call.
pub open spec fn call_outcome(
    tool: McpToolView,
    response: Result<CallToolResponseView, ServiceErrorView>,
) -> Result<CallToolResponseView, ErrorView> {
    match response {
        Ok(response) => Ok(response),
        Err(ServiceErrorView::Timeout { timeout }) => Err(
            plain_error(
                ToolErrorKind::Timeout,
                about_tool(tool.name, "' timed out after "@) + duration_text(
                    match tool.timeout {
                        Some(limit) => limit,
                        None => timeout,
                    },
                ),
            ).caused_by(ErrorCauseView::Service(ServiceErrorView::Timeout { timeout })),
        ),
        Err(error) => Err(
            plain_error(
                ToolErrorKind::Provider,
                about_tool(tool.name, "' request failed: "@) + service_error_text(error),
            ).caused_by(ErrorCauseView::Service(error)),
        ),
    }
}

/// A complete execution that failed.
pub open spec fn failed_execution(error: ErrorView) -> ToolExecutionView {
    ToolExecutionView::Complete(failed_result(error))
}

/// What a tool's execution needs after its call, and the context that it leaves.
pub open spec fn executed(
    tool: McpToolView,
    client: &McpClientState,
    request: CallToolRequestView,
    outcome: Result<CallToolResponseView, ErrorView>,
    context: ToolContextView,
) -> (ToolContextView, ExecuteStepView) {
    match outcome {
        Err(error) => (context, ExecuteStepView::Done(failed_execution(error))),
        Ok(CallToolResponseView::Complete(result)) => (
            context_with_result(context, result),
            ExecuteStepView::Done(
                ToolExecutionView::Complete(
                    match final_result(result, Some(tool.name)) {
                        Ok(shown) => shown,
                        Err(error) => failed_result(error),
                    },
                ),
            ),
        ),
        Ok(CallToolResponseView::Task(created)) => (
            ToolContextView {
                meta: or_else(created.meta, context.meta),
                created_task: Some(created),
                ..context
            },
            match task_payload_of(created.task, tool.timeout, request.meta) {
                Ok(payload) => ExecuteStepView::DescribeTask(payload),
                Err(error) => ExecuteStepView::Done(failed_execution(error)),
            },
        ),
        Ok(CallToolResponseView::InputRequired(result)) => (
            ToolContextView {
                meta: or_else(result.meta, context.meta),
                input_required: Some(result),
                ..context
            },
            if takes_requests(client) {
                ExecuteStepView::DescribeMrtr(
                    mrtr_payload_of(client.mrtr_max_rounds, request, result, 1, tool.timeout),
                )
            } else {
                ExecuteStepView::Done(failed_execution(client_refused()))
            },
        ),
        Ok(CallToolResponseView::Unsupported) => (
            context,
            ExecuteStepView::Done(failed_execution(unsupported_response())),
        ),
    }
}

impl McpTool {
    /// A tool with the default time limit of five minutes.
    pub fn from_mcp_server(name: String, description: Option<String>, parameters: Json) -> (tool:
        McpTool)
        ensures
            tool.deep_view() == (McpToolView {
                name: name@,
                description: description.deep_view(),
                parameters: parameters.deep_view(),
                timeout: Some(300_000_000_000nat),
            }),
    {
        McpTool { name, description, parameters, timeout: Some(Duration::from_secs(300)) }
    }

    /// The same tool with another time limit.
    pub fn with_timeout(self, timeout: Option<Duration>) -> (tool: McpTool)
        ensures
            tool.deep_view() == (McpToolView { timeout: timeout.deep_view(), ..self.deep_view() }),
    {
        McpTool {
            name: self.name,
            description: self.description,
            parameters: self.parameters,
            timeout,
        }
    }

    /// The per-call time limit, if any.
    pub fn timeout(&self) -> (timeout: Option<Duration>)
        ensures
            timeout.deep_view() == self.deep_view().timeout,
    {
        self.timeout
    }

    /// The name of the tool.
    pub fn name(&self) -> (name: String)
        ensures
            name@ == self.deep_view().name,
    {
        self.name.clone()
    }

    /// What the tool does; empty where the server does not say.
    pub fn description(&self) -> (text: String)
        ensures
            text@ == match self.deep_view().description {
                Some(text) => text,
                None => ""@,
            },
    {
        match &self.description {
            Some(text) => text.clone(),
            None => "".to_owned(),
        }
    }

    /// The JSON schema of the arguments.
    pub fn parameters(&self) -> (schema: Json)
        ensures
            schema.deep_view() == self.deep_view().parameters,
    {
        self.parameters.duplicate()
    }

    /// `MCP tool '<name>'` with `rest` behind it.
    fn about(&self, rest: &str) -> (text: String)
        ensures
            text@ == about_tool(self.deep_view().name, rest@),
    {
        let mut text = "MCP tool '".to_owned();
        text.append(self.name.as_str());
        text.append(rest);
        text
    }

    /// Prepares a call. Arguments that cannot be sent are refused before the server is asked, and
    /// metadata that belongs to the client is left out.
    pub fn execute_mcp(&self, args: &str, meta: Option<JsonMap>) -> (request: Result<
        CallToolRequest,
        ToolExecutionError,
    >)
        ensures
            result_view(request) == prepared_call(
                self.deep_view().name,
                argument_reading(args@),
                meta.deep_view(),
            ),
    {
        let arguments = parse_mcp_arguments(args);
        self.prepare(arguments, meta)
    }

    /// Prepares a call whose arguments were read.
    pub fn prepare(&self, arguments: Result<Option<Json>, McpArgumentError>, meta: Option<JsonMap>) -> (
        request: Result<CallToolRequest, ToolExecutionError>)
        ensures
            match arguments {
                Err(error) => request matches Err(failure) && failure.deep_view()
                    == refused_arguments(self.deep_view().name, error.deep_view()),
                Ok(arguments) => request matches Ok(call) && call.deep_view() == (
                CallToolRequestView {
                    name: self.deep_view().name,
                    arguments: arguments.deep_view(),
                    input_responses: None,
                    request_state: None,
                    meta: match meta.deep_view() {
                        Some(entries) => Some(without_reserved(entries)),
                        None => None,
                    },
                }),
            },
    {
        match arguments {
            Err(error) => {
                let mut text = self.about("' received invalid arguments: ");
                text.append(error.to_string().as_str());
                Err(ToolExecutionError::invalid_args(text).with_source(ErrorCause::Arguments(error)))
            },
            Ok(arguments) => Ok(
                CallToolRequest {
                    name: self.name.clone(),
                    arguments,
                    input_responses: None,
                    request_state: None,
                    meta: without_reserved_client_meta(meta),
                },
            ),
        }
    }

    /// Lets a call through while the client takes requests.
    pub fn require_client(&self, client: &McpClientState) -> (live: Result<(), ToolExecutionError>)
        ensures
            takes_requests(client) ==> live is Ok,
            !takes_requests(client) ==> (live matches Err(error) && error.deep_view()
                == plain_error(
                ToolErrorKind::Provider,
                about_tool(self.deep_view().name, "' is unavailable: "@) + client_error_text(
                    McpClientErrorView::Unavailable,
                ),
            ).caused_by(ErrorCauseView::Client(McpClientErrorView::Unavailable))),
    {
        match client.live() {
            Ok(()) => Ok(()),
            Err(error) => {
                let mut text = self.about("' is unavailable: ");
                text.append(error.to_string().as_str());
                Err(ToolExecutionError::provider(text).with_source(ErrorCause::Client(error)))
            },
        }
    }

    /// Classifies the outcome of a call.
    pub fn outcome(&self, response: Result<CallToolResponse, ServiceError>) -> (outcome: Result<
        CallToolResponse,
        ToolExecutionError,
    >)
        ensures
            result_view(outcome) == call_outcome(self.deep_view(), result_view(response)),
    {
        match response {
            Ok(response) => Ok(response),
            Err(ServiceError::Timeout { timeout }) => {
                let limit = match self.timeout {
                    Some(limit) => limit,
                    None => timeout,
                };
                let mut text = self.about("' timed out after ");
                text.append(limit.debug_text().as_str());
                Err(
                    ToolExecutionError::timeout(text).with_source(
                        ErrorCause::Service(ServiceError::Timeout { timeout }),
                    ),
                )
            },
            Err(error) => {
                let mut text = self.about("' request failed: ");
                text.append(error.display().as_str());
                Err(ToolExecutionError::provider(text).with_source(ErrorCause::Service(error)))
            },
        }
    }

    /// Goes on after a call: keeps what came back in `context`, and completes or defers the
    /// execution.
    pub fn execute(
        &self,
        client: &McpClientState,
        request: &CallToolRequest,
        outcome: Result<CallToolResponse, ToolExecutionError>,
        context: &mut ToolContext,
    ) -> (step: ExecuteStep)
        ensures
            (final(context).deep_view(), step.deep_view()) == executed(
                self.deep_view(),
                client,
                request.deep_view(),
                result_view(outcome),
                old(context).deep_view(),
            ),
    {
        match outcome {
            Err(error) => ExecuteStep::Done(ToolExecution::complete(ToolResult::failed(error))),
            Ok(CallToolResponse::Complete(result)) => {
                preserve_mcp_result(context, &result);
                let shown = match mcp_call_result(&result, Some(self.name.as_str())) {
                    Ok(shown) => shown,
                    Err(error) => ToolResult::failed(error),
                };
                ExecuteStep::Done(ToolExecution::complete(shown))
            },
            Ok(CallToolResponse::Task(created)) => {
                match &created.meta {
                    Some(meta) => {
                        context.meta = Some(meta.duplicate());
                    },
                    None => {},
                }
                context.created_task = Some(created.duplicate());
                let payload = match &request.meta {
                    Some(meta) => task_payload(&created.task, self.timeout, Some(meta)),
                    None => task_payload(&created.task, self.timeout, None),
                };
                match payload {
                    Ok(payload) => ExecuteStep::DescribeTask(payload),
                    Err(error) => ExecuteStep::Done(
                        ToolExecution::complete(ToolResult::failed(error)),
                    ),
                }
            },
            Ok(CallToolResponse::InputRequired(result)) => {
                match &result.meta {
                    Some(meta) => {
                        context.meta = Some(meta.duplicate());
                    },
                    None => {},
                }
                context.input_required = Some(result.duplicate());
                match mrtr_payload(client, request, &result, 1, self.timeout) {
                    Ok(payload) => ExecuteStep::DescribeMrtr(payload),
                    Err(error) => ExecuteStep::Done(
                        ToolExecution::complete(ToolResult::failed(error)),
                    ),
                }
            },
            Ok(CallToolResponse::Unsupported) => ExecuteStep::Done(
                ToolExecution::complete(ToolResult::failed(unsupported_response_error())),
            ),
        }
    }
}

/// An execution that is deferred with a descriptor, or complete where there is none.
pub fn deferred_or_failed(descriptor: Result<DeferredToolDescriptor, ToolExecutionError>) -> (
    execution: ToolExecution)
    ensures
        execution.deep_view() == match result_view(descriptor) {
            Ok(descriptor) => ToolExecutionView::Deferred(descriptor),
            Err(error) => failed_execution(error),
        },
{
    match descriptor {
        Ok(descriptor) => ToolExecution::Deferred(descriptor),
        Err(error) => ToolExecution::complete(ToolResult::failed(error)),
    }
}

impl DeferredToolDriver for McpDriver {
    open spec fn published(&self, context: ToolContextView) -> ToolContextView {
        match self.deep_view() {
            McpDriverView::Task(driver) => context_with_published(driver.published, context),
            McpDriverView::Mrtr(driver) => published_by(driver, context),
        }
    }

    fn publish_result_context(&self, context: &mut ToolContext) {
        match self {
            McpDriver::Task(driver) => driver.publish_result_context(context),
            McpDriver::Mrtr(driver) => driver.publish_result_context(context),
        }
    }
}

/// Brings MCP executions back on one live client.
#[derive(Debug)]
pub struct McpDeferredResolver {
    backend_id: String,
}

impl DeferredToolResolver for McpDeferredResolver {
    closed spec fn key(&self) -> Seq<char> {
        self.backend_id@
    }

    fn backend_type(&self) -> (key: &str) {
        self.backend_id.as_str()
    }
}

/// The driver of an execution that a payload describes, on a client that takes requests or not.
pub open spec fn driver_of(
    execution_id: Seq<char>,
    payload: McpDeferredPayloadView,
    takes_requests: bool,
    now: nat,
) -> Result<McpDriverView, ErrorView> {
    match payload {
        McpDeferredPayloadView::Task {
            task_id,
            expires_at_unix_ms,
            poll_interval_ms,
            request_timeout_ms,
            trace_meta,
        } => if execution_id != task_id {
            Err(
                plain_error(
                    ToolErrorKind::InvalidArgs,
                    "MCP Task descriptor execution ID does not match its opaque task ID"@,
                ),
            )
        } else if !takes_requests {
            Err(client_refused())
        } else {
            Ok(
                McpDriverView::Task(
                    new_driver(
                        task_id,
                        expires_at_unix_ms,
                        poll_interval_ms,
                        limit_of_millis(request_timeout_ms),
                        trace_meta,
                        now,
                    ),
                ),
            )
        },
        McpDeferredPayloadView::Mrtr {
            tool_name,
            arguments,
            request_state,
            input_requests,
            round,
            max_rounds,
            request_timeout_ms,
            trace_meta,
        } => Ok(
            McpDriverView::Mrtr(
                new_mrtr(
                    tool_name,
                    arguments,
                    max_rounds,
                    limit_of_millis(request_timeout_ms),
                    trace_meta,
                    InputRequiredResultView {
                        input_requests: Some(input_requests),
                        request_state,
                        meta: None,
                    },
                    round,
                ),
            ),
        ),
    }
}

/// What bringing an execution back gives. `payload` is what the descriptor's payload reads as.
pub open spec fn resolved_execution(
    backend_id: Seq<char>,
    descriptor: DeferredToolDescriptorView,
    payload: Result<McpDeferredPayloadView, Seq<char>>,
    takes_requests: bool,
    now: nat,
) -> Result<McpDriverView, ErrorView> {
    if descriptor.backend_type != backend_id {
        Err(
            plain_error(
                ToolErrorKind::InvalidArgs,
                "MCP deferred descriptor targets '"@ + descriptor.backend_type
                    + "' but this resolver owns '"@ + backend_id + "'"@,
            ),
        )
    } else {
        match payload {
            Err(message) => Err(
                plain_error(
                    ToolErrorKind::InvalidArgs,
                    "invalid MCP deferred descriptor payload: "@ + message,
                ).caused_by(ErrorCauseView::Json(message)),
            ),
            Ok(payload) => driver_of(descriptor.execution_id, payload, takes_requests, now),
        }
    }
}

impl McpDeferredResolver {
    /// The resolver of a client.
    pub fn new(backend_id: String) -> (resolver: McpDeferredResolver)
        ensures
            resolver.key() == backend_id@,
    {
        McpDeferredResolver { backend_id }
    }

    /// Brings an execution back. `payload` is what the descriptor's payload reads as; a task is
    /// watched by `client` from now on.
    pub fn resolve(
        &self,
        descriptor: &DeferredToolDescriptor,
        payload: Result<McpDeferredPayload, String>,
        client: &mut McpClientState,
        now: Duration,
    ) -> (handle: Result<DeferredToolHandle<McpDriver>, ToolExecutionError>)
        requires
            payload matches Ok(McpDeferredPayload::Task { task_id, .. }) ==> {
                &&& watchers(old(client).task_notifications.deep_view(), task_id@) < usize::MAX
                &&& old(client).task_notifications.deep_view().revision < u64::MAX
            },
        ensures
            match resolved_execution(
                self.key(),
                descriptor.deep_view(),
                result_view(payload),
                takes_requests(old(client)),
                now@,
            ) {
                Ok(driver) => handle matches Ok(found) && found.spec_descriptor()
                    == descriptor.deep_view() && found.spec_driver().deep_view() == driver,
                Err(failure) => handle matches Err(error) && error.deep_view() == failure,
            },
            *final(client) == (McpClientState {
                task_notifications: final(client).task_notifications,
                ..*old(client)
            }),
            final(client).task_notifications.deep_view() == match resolved_execution(
                self.key(),
                descriptor.deep_view(),
                result_view(payload),
                takes_requests(old(client)),
                now@,
            ) {
                Ok(McpDriverView::Task(driver)) => registered(
                    waited_for(old(client).task_notifications.deep_view(), driver.task_id),
                    driver.task_id,
                ),
                _ => old(client).task_notifications.deep_view(),
            },
    {
        if !same(descriptor.backend_type(), self.backend_id.as_str()) {
            let mut text = "MCP deferred descriptor targets '".to_owned();
            text.append(descriptor.backend_type());
            text.append("' but this resolver owns '");
            text.append(self.backend_id.as_str());
            text.append("'");
            return Err(ToolExecutionError::invalid_args(text));
        }
        let payload = match payload {
            Ok(payload) => payload,
            Err(message) => {
                let mut text = "invalid MCP deferred descriptor payload: ".to_owned();
                text.append(message.as_str());
                return Err(
                    ToolExecutionError::invalid_args(text).with_source(ErrorCause::Json(message)),
                );
            },
        };
        match payload {
            McpDeferredPayload::Task {
                task_id,
                expires_at_unix_ms,
                poll_interval_ms,
                request_timeout_ms,
                trace_meta,
            } => {
                if !same(descriptor.execution_id(), task_id.as_str()) {
                    return Err(
                        ToolExecutionError::invalid_args(
                            "MCP Task descriptor execution ID does not match its opaque task ID".to_owned(),
                        ),
                    );
                }
                match McpTaskDriver::new(
                    client,
                    task_id,
                    expires_at_unix_ms,
                    poll_interval_ms,
                    duration_from_millis(request_timeout_ms),
                    trace_meta,
                    now,
                ) {
                    Ok(driver) => Ok(
                        DeferredToolHandle::new(descriptor.duplicate(), McpDriver::Task(driver)),
                    ),
                    Err(error) => Err(error),
                }
            },
            McpDeferredPayload::Mrtr {
                tool_name,
                arguments,
                request_state,
                input_requests,
                round,
                max_rounds,
                request_timeout_ms,
                trace_meta,
            } => {
                let current = InputRequiredResult {
                    input_requests: Some(input_requests),
                    request_state,
                    meta: None,
                };
                let driver = McpMrtrDriver::new(
                    tool_name,
                    arguments,
                    max_rounds,
                    duration_from_millis(request_timeout_ms),
                    trace_meta,
                    current,
                    round,
                );
                Ok(DeferredToolHandle::new(descriptor.duplicate(), McpDriver::Mrtr(driver)))
            },
        }
    }
}

/// Every entry of a call's metadata reaches the server, but for those that belong to the client.
pub proof fn call_metadata_is_forwarded(
    name: Seq<char>,
    reading: Result<(JsonKind, Seq<char>), Seq<char>>,
    meta: Map<Seq<char>, Seq<char>>,
    key: Seq<char>,
)
    requires
        prepared_call(name, reading, Some(meta)) is Ok,
    ensures
        ({
            let sent = prepared_call(name, reading, Some(meta))->Ok_0.meta;
            &&& sent is Some
            &&& reserved_keys().contains(key) ==> !sent->0.contains_key(key)
            &&& meta.contains_key(key) && !reserved_keys().contains(key) ==> sent->0.contains_key(
                key,
            ) && sent->0[key] == meta[key]
            &&& sent->0.contains_key(key) ==> meta.contains_key(key)
        }),
{
}

/// Arguments that cannot be sent never reach the server, and a call without arguments is made only
/// for a blank text or `null`.
pub proof fn unusable_arguments_are_never_dropped(
    name: Seq<char>,
    reading: Result<(JsonKind, Seq<char>), Seq<char>>,
    meta: Option<Map<Seq<char>, Seq<char>>>,
)
    ensures
        prepared_call(name, reading, meta) matches Ok(request) ==> match request.arguments {
            Some(arguments) => reading == Ok::<(JsonKind, Seq<char>), Seq<char>>(
                (JsonKind::Object, arguments),
            ),
            None => reading is Ok && reading->Ok_0.0 is Null,
        },
        prepared_call(name, reading, meta) matches Err(error) ==> error.kind is InvalidArgs,
{
}

/// What a server sent back stays whole in the context of the call, whatever the model is shown.
pub proof fn responses_are_retained(
    tool: McpToolView,
    client: &McpClientState,
    request: CallToolRequestView,
    response: CallToolResponseView,
    context: ToolContextView,
)
    ensures
        ({
            let after = executed(tool, client, request, Ok(response), context).0;
            match response {
                CallToolResponseView::Complete(result) => {
                    &&& after.call_result == Some(result)
                    &&& result.structured_content is Some ==> after.structured
                        == result.structured_content
                    &&& result.meta is Some ==> after.meta == result.meta
                },
                CallToolResponseView::Task(created) => {
                    &&& after.created_task == Some(created)
                    &&& created.meta is Some ==> after.meta == created.meta
                },
                CallToolResponseView::InputRequired(required) => {
                    &&& after.input_required == Some(required)
                    &&& required.meta is Some ==> after.meta == required.meta
                },
                CallToolResponseView::Unsupported => after == context,
            }
        }),
{
}

/// A task that a tool deferred is brought back as the same task: its id, expiry, poll interval and
/// trace entries survive, and its time limit up to whole milliseconds. `payload` is what was
/// stored, and reading it gives back what was written.
pub proof fn deferred_tasks_come_back(
    task: TaskView,
    request_timeout: Option<nat>,
    request_meta: Option<Map<Seq<char>, Seq<char>>>,
    backend_id: Seq<char>,
    payload: Seq<char>,
    now: nat,
)
    requires
        task_payload_of(task, request_timeout, request_meta) is Ok,
    ensures
        ({
            let kept = task_payload_of(task, request_timeout, request_meta)->Ok_0;
            let descriptor = task_descriptor_of(Some(backend_id), task.task_id, Ok(payload));
            &&& descriptor is Ok
            &&& resolved_execution(backend_id, descriptor->Ok_0, Ok(kept), true, now) == Ok::<
                McpDriverView,
                ErrorView,
            >(
                McpDriverView::Task(
                    new_driver(
                        task.task_id,
                        task_expiry(task)->Ok_0,
                        task.poll_interval_ms,
                        limit_of_millis(limit_in_millis(request_timeout)),
                        trace_of(request_meta),
                        now,
                    ),
                ),
            )
        }),
{
}

/// A call that a tool deferred for input is brought back as the same call, in the same round and
/// with the same limit. `payload` is what was stored, and reading it gives back what was written.
pub proof fn deferred_rounds_come_back(
    request: CallToolRequestView,
    input_required: InputRequiredResultView,
    round: usize,
    max_rounds: usize,
    request_timeout: Option<nat>,
    backend_id: Seq<char>,
    execution_id: Seq<char>,
    payload: Seq<char>,
    takes_requests: bool,
    now: nat,
)
    ensures
        ({
            let kept = mrtr_payload_of(
                max_rounds,
                request,
                input_required,
                round,
                request_timeout,
            );
            let descriptor = mrtr_descriptor_of(backend_id, execution_id, Ok(payload));
            let back = resolved_execution(
                backend_id,
                descriptor->Ok_0,
                Ok(kept),
                takes_requests,
                now,
            );
            &&& descriptor is Ok
            &&& back matches Ok(McpDriverView::Mrtr(driver)) && {
                &&& driver.tool_name == request.name
                &&& driver.arguments == request.arguments
                &&& driver.round == round
                &&& driver.max_rounds == max_rounds
                &&& driver.current.request_state == input_required.request_state
                &&& outstanding(driver.current) == outstanding(input_required)
                &&& driver.request_timeout == limit_of_millis(limit_in_millis(request_timeout))
                &&& driver.trace_meta == trace_of(request.meta)
            }
        }),
{
}

/// A time limit of whole milliseconds survives the way into a descriptor and back.
pub proof fn whole_milliseconds_survive(millis: u64)
    ensures
        limit_of_millis(limit_in_millis(Some((millis * 1_000_000) as nat))) == Some(
            (millis * 1_000_000) as nat,
        ),
{
}

/// A call is prepared from the tool's name, the arguments and the caller's metadata and nothing
/// else: it is no answer to a request for input. Arguments that cannot be sent are told with the
/// tool and with what is wrong, and that is the cause.
pub proof fn calls_are_prepared_from_what_was_given(
    name: Seq<char>,
    reading: Result<(JsonKind, Seq<char>), Seq<char>>,
    meta: Option<Map<Seq<char>, Seq<char>>>,
)
    ensures
        prepared_call(name, reading, meta) is Ok <==> reading is Ok && (reading->Ok_0.0 is Null
            || reading->Ok_0.0 is Object),
        prepared_call(name, reading, meta) matches Ok(request) ==> {
            &&& request.name == name
            &&& request.input_responses is None && request.request_state is None
            &&& request.meta is Some <==> meta is Some
            &&& request.arguments is Some <==> reading->Ok_0.0 is Object
            &&& request.arguments matches Some(sent) ==> sent == reading->Ok_0.1
        },
        prepared_call(name, reading, meta) matches Err(error) ==> {
            &&& error.kind is InvalidArgs && error.code is None && error.retryable is None
            &&& mentions(error.message, name)
            &&& reading matches Err(complaint) ==> error.cause == Some(
                ErrorCauseView::Arguments(McpArgumentErrorView::Json(complaint)),
            ) && mentions(error.message, complaint)
            &&& reading matches Ok((kind, _)) ==> error.cause == Some(
                ErrorCauseView::Arguments(McpArgumentErrorView::NonObject(kind)),
            )
        },
{
    let head = "MCP tool '"@;
    let why = "' received invalid arguments: "@;
    match arguments_of_reading(reading) {
        Err(error) => {
            let text = argument_error_text(error);
            let message = refused_arguments(name, error).message;
            parts_are_mentioned(head, name, why + text);
            assert(head + name + (why + text) =~= message);
            match reading {
                Err(complaint) => {
                    let none = Seq::<char>::empty();
                    let before = head + name + why + "invalid JSON: "@;
                    parts_are_mentioned(before, complaint, none);
                    assert(before + complaint + none =~= message);
                },
                _ => {},
            }
        },
        Ok(_) => {},
    }
}

/// A response is handed on unchanged. A call that took too long is told as that, by the tool's limit
/// or else by the one that ran out; any other failure is the provider's and says what failed. Either
/// way the failure names the tool and keeps what it came from.
pub proof fn call_failures_are_classified(
    tool: McpToolView,
    response: Result<CallToolResponseView, ServiceErrorView>,
)
    ensures
        response matches Ok(answer) ==> call_outcome(tool, response) == Ok::<
            CallToolResponseView,
            ErrorView,
        >(answer),
        response matches Err(error) ==> (call_outcome(tool, response) matches Err(failure) && {
            &&& failure.kind is Timeout <==> error is Timeout
            &&& !(error is Timeout) ==> failure.kind is Provider
            &&& failure.cause == Some(ErrorCauseView::Service(error))
            &&& failure.code is None && failure.retryable is None && failure.model_output is None
            &&& mentions(failure.message, tool.name)
            &&& !(error is Timeout) ==> mentions(failure.message, service_error_text(error))
            &&& error is Timeout && tool.timeout is Some ==> mentions(
                failure.message,
                duration_text(tool.timeout->0),
            )
            &&& error matches ServiceErrorView::Timeout { timeout } ==> (tool.timeout is None
                ==> mentions(failure.message, duration_text(timeout)))
        }),
{
    let head = "MCP tool '"@;
    let none = Seq::<char>::empty();
    match response {
        Err(error) => {
            let message = call_outcome(tool, response)->Err_0.message;
            let (why, what) = match error {
                ServiceErrorView::Timeout { timeout } => (
                    "' timed out after "@,
                    duration_text(
                        match tool.timeout {
                            Some(limit) => limit,
                            None => timeout,
                        },
                    ),
                ),
                _ => ("' request failed: "@, service_error_text(error)),
            };
            parts_are_mentioned(head, tool.name, why + what);
            assert(head + tool.name + (why + what) =~= message);
            parts_are_mentioned(head + tool.name + why, what, none);
            assert(head + tool.name + why + what + none =~= message);
        },
        _ => {},
    }
}

/// A complete answer completes the execution: with what the result shows, and with an error exactly
/// where the tool reports one or the result cannot be shown. A failure completes it as that failure,
/// and changes nothing in the context.
pub proof fn complete_answers_complete_the_execution(
    tool: McpToolView,
    client: &McpClientState,
    request: CallToolRequestView,
    result: CallToolResultView,
    failure: ErrorView,
    context: ToolContextView,
)
    ensures
        executed(tool, client, request, Ok(CallToolResponseView::Complete(result)), context).1
            matches ExecuteStepView::Done(ToolExecutionView::Complete(shown)) && {
            &&& result_output(result) matches Ok(output) ==> {
                &&& shown.output == output
                &&& shown.error is Some <==> result.is_error == Some(true)
                &&& shown.error matches Some(error) ==> error.kind is Other && mentions(
                    error.message,
                    tool.name,
                )
            }
            &&& result_output(result) matches Err(error) ==> shown.error == Some(error)
        },
        executed(tool, client, request, Err(failure), context).0 == context,
        executed(tool, client, request, Err(failure), context).1 matches ExecuteStepView::Done(
            ToolExecutionView::Complete(shown),
        ) && shown.error == Some(failure) && (failure.model_output is None ==> shown.output == seq![
            ContentView::Text(failure.message),
        ]),
        executed(tool, client, request, Ok(CallToolResponseView::Unsupported), context).1 matches
            ExecuteStepView::Done(ToolExecutionView::Complete(shown)) && (shown.error matches Some(
            error,
        ) && error.kind is Provider && error.retryable == Some(false)),
{
    parts_are_mentioned("MCP tool '"@, tool.name, "' reported an execution error"@);
}

/// A call that became a task, or that waits for input, is deferred with everything that is needed to
/// go on: the task with its expiry and interval, or the call with its arguments, the server's state
/// and requests and the first round; and in both cases the time limit in milliseconds and the trace
/// of the call. What cannot be described is a failure.
pub proof fn deferred_calls_keep_what_they_need(
    tool: McpToolView,
    client: &McpClientState,
    request: CallToolRequestView,
    created: CreateTaskResultView,
    required: InputRequiredResultView,
    context: ToolContextView,
)
    ensures
        ({
            let step = executed(
                tool,
                client,
                request,
                Ok(CallToolResponseView::Task(created)),
                context,
            ).1;
            match task_expiry(created.task) {
                Ok(expiry) => step matches ExecuteStepView::DescribeTask(
                    McpDeferredPayloadView::Task {
                        task_id,
                        expires_at_unix_ms,
                        poll_interval_ms,
                        request_timeout_ms,
                        trace_meta,
                    },
                ) && {
                    &&& task_id == created.task.task_id
                    &&& expires_at_unix_ms == expiry
                    &&& poll_interval_ms == created.task.poll_interval_ms
                    &&& request_timeout_ms is Some <==> tool.timeout is Some
                    &&& tool.timeout matches Some(total) ==> request_timeout_ms == Some(
                        millis_of(total),
                    )
                    &&& trace_meta == trace_of(request.meta)
                },
                Err(error) => step matches ExecuteStepView::Done(
                    ToolExecutionView::Complete(shown),
                ) && shown.error == Some(error),
            }
        }),
        ({
            let step = executed(
                tool,
                client,
                request,
                Ok(CallToolResponseView::InputRequired(required)),
                context,
            ).1;
            if client.available && !client.transport_closed {
                step matches ExecuteStepView::DescribeMrtr(
                    McpDeferredPayloadView::Mrtr {
                        tool_name,
                        arguments,
                        request_state,
                        input_requests,
                        round,
                        max_rounds,
                        request_timeout_ms,
                        trace_meta,
                    },
                ) && {
                    &&& tool_name == request.name && arguments == request.arguments
                    &&& request_state == required.request_state
                    &&& required.input_requests matches Some(requests) ==> input_requests
                        == requests
                    &&& required.input_requests is None ==> input_requests == Map::<
                        Seq<char>,
                        InputRequestEntryView,
                    >::empty()
                    &&& round == 1 && max_rounds == client.mrtr_max_rounds
                    &&& request_timeout_ms is Some <==> tool.timeout is Some
                    &&& tool.timeout matches Some(total) ==> request_timeout_ms == Some(
                        millis_of(total),
                    )
                    &&& trace_meta == trace_of(request.meta)
                }
            } else {
                step matches ExecuteStepView::Done(ToolExecutionView::Complete(shown)) && (
                shown.error matches Some(error) && error.kind is Provider && error.cause == Some(
                    ErrorCauseView::Client(McpClientErrorView::Unavailable),
                ))
            }
        }),
{
}

/// A descriptor is of the current format and carries the backend, the execution and the payload that
/// it was made of. It cannot be made where the payload could not be written, which is the cause, or
/// where the client of a task is gone.
pub proof fn descriptors_carry_what_they_were_made_of(
    backend: Option<Seq<char>>,
    backend_id: Seq<char>,
    execution_id: Seq<char>,
    serialized: Result<Seq<char>, Seq<char>>,
)
    ensures
        serialized matches Ok(payload) ==> {
            &&& mrtr_descriptor_of(backend_id, execution_id, serialized) matches Ok(made) && {
                &&& made.version == 1
                &&& made.backend_type == backend_id
                &&& made.execution_id == execution_id
                &&& made.payload == payload
            }
            &&& task_descriptor_of(Some(backend_id), execution_id, serialized)
                == mrtr_descriptor_of(backend_id, execution_id, serialized)
            &&& task_descriptor_of(None, execution_id, serialized) matches Err(error)
                && error.cause == Some(ErrorCauseView::Client(McpClientErrorView::Unavailable))
        },
        serialized matches Err(complaint) ==> {
            &&& task_descriptor_of(backend, execution_id, serialized) matches Err(error) && {
                &&& error.kind is Provider
                &&& error.cause == Some(ErrorCauseView::Json(complaint))
                &&& mentions(error.message, execution_id)
            }
            &&& mrtr_descriptor_of(backend_id, execution_id, serialized) matches Err(error) && {
                &&& error.kind is Provider
                &&& error.cause == Some(ErrorCauseView::Json(complaint))
            }
        },
{
    if serialized is Err {
        let a = "failed to serialize MCP Task '"@;
        let rest = "': "@ + serialized->Err_0;
        parts_are_mentioned(a, execution_id, rest);
        assert(a + execution_id + rest =~= task_descriptor_of(
            backend,
            execution_id,
            serialized,
        )->Err_0.message);
    }
}

/// A client gives out its resolver key exactly while it takes requests.
pub proof fn keys_are_given_out_while_requests_are_taken(client: &McpClientState)
    ensures
        client.available && !client.transport_closed ==> backend_of(client) == Some(
            client.deferred_backend_id@,
        ),
        !client.available || client.transport_closed ==> backend_of(client) is None,
{
}

/// An execution is brought back only by the resolver that its description names, from a payload that
/// could be read and, for a task, that is the described execution, on a client that takes requests.
/// It is then the described task or call, with the times, the trace, the rounds, the requests and
/// the state of the payload. Every refusal says what is wrong.
pub proof fn payloads_bring_their_own_execution_back(
    backend_id: Seq<char>,
    descriptor: DeferredToolDescriptorView,
    payload: Result<McpDeferredPayloadView, Seq<char>>,
    takes_requests: bool,
    now: nat,
)
    ensures
        ({
            let back = resolved_execution(backend_id, descriptor, payload, takes_requests, now);
            let refused = back matches Err(error) && error.kind is InvalidArgs;
            &&& descriptor.backend_type != backend_id ==> refused
            &&& descriptor.backend_type == backend_id ==> match payload {
                Err(complaint) => refused && back->Err_0.cause == Some(
                    ErrorCauseView::Json(complaint),
                ),
                Ok(
                    McpDeferredPayloadView::Task {
                        task_id,
                        expires_at_unix_ms,
                        poll_interval_ms,
                        request_timeout_ms,
                        trace_meta,
                    },
                ) => {
                    &&& task_id != descriptor.execution_id ==> refused
                    &&& task_id == descriptor.execution_id && !takes_requests ==> (back matches Err(
                        error,
                    ) && error.kind is Provider && error.cause == Some(
                        ErrorCauseView::Client(McpClientErrorView::Unavailable),
                    ))
                    &&& task_id == descriptor.execution_id && takes_requests ==> (back matches Ok(
                        McpDriverView::Task(driver),
                    ) && {
                        &&& driver.task_id == task_id
                        &&& driver.expires_at_unix_ms == expires_at_unix_ms
                        &&& poll_interval_ms matches Some(ms) ==> driver.poll_interval
                            == ms * 1_000_000
                        &&& poll_interval_ms is None ==> driver.poll_interval == 1_000_000_000
                        &&& request_timeout_ms is Some <==> driver.request_timeout is Some
                        &&& request_timeout_ms matches Some(ms) ==> driver.request_timeout->0
                            == ms * 1_000_000
                        &&& driver.trace_meta == trace_meta
                        &&& driver.terminal is None && !driver.polled_once
                    })
                },
                Ok(
                    McpDeferredPayloadView::Mrtr {
                        tool_name,
                        arguments,
                        request_state,
                        input_requests,
                        round,
                        max_rounds,
                        request_timeout_ms,
                        trace_meta,
                    },
                ) => back matches Ok(McpDriverView::Mrtr(driver)) && {
                    &&& driver.tool_name == tool_name && driver.arguments == arguments
                    &&& driver.current.request_state == request_state
                    &&& driver.current.input_requests == Some(input_requests)
                    &&& driver.current.meta is None
                    &&& driver.round == round && driver.max_rounds == max_rounds
                    &&& request_timeout_ms is Some <==> driver.request_timeout is Some
                    &&& request_timeout_ms matches Some(ms) ==> driver.request_timeout->0
                        == ms * 1_000_000
                    &&& driver.trace_meta == trace_meta
                    &&& driver.terminal is None && driver.task_driver is None
                },
            }
        }),
{
}

/// An answer that defers the call is kept in the context and replaces nothing else: its metadata
/// only where it has any. A response of no known kind changes nothing.
pub proof fn deferring_answers_replace_nothing_else(
    tool: McpToolView,
    client: &McpClientState,
    request: CallToolRequestView,
    created: CreateTaskResultView,
    required: InputRequiredResultView,
    context: ToolContextView,
)
    ensures
        ({
            let after = executed(
                tool,
                client,
                request,
                Ok(CallToolResponseView::Task(created)),
                context,
            ).0;
            &&& after.created_task == Some(created)
            &&& created.meta is None ==> after.meta == context.meta
            &&& after.request_meta == context.request_meta && after.structured == context.structured
            &&& after.call_result == context.call_result && after.task_result == context.task_result
            &&& after.input_required == context.input_required
            &&& after.task_info == context.task_info
        }),
        ({
            let after = executed(
                tool,
                client,
                request,
                Ok(CallToolResponseView::InputRequired(required)),
                context,
            ).0;
            &&& after.input_required == Some(required)
            &&& required.meta is None ==> after.meta == context.meta
            &&& after.request_meta == context.request_meta && after.structured == context.structured
            &&& after.call_result == context.call_result && after.task_result == context.task_result
            &&& after.created_task == context.created_task
            &&& after.task_info == context.task_info
        }),
{
}

} // verus!

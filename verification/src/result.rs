//! Final results of tool executions and the typed context that travels with them.

use vstd::prelude::*;
use vstd::string::*;

use crate::duplicate::Duplicate;
use crate::error::{ErrorView, ToolExecutionError};
use crate::json::{Json, JsonMap};
use crate::model::{
    CallToolResult, CallToolResultView, CreateTaskResult, CreateTaskResultView, GetTaskResult,
    GetTaskResultView, InputRequiredResult, InputRequiredResultView,
};
use crate::output::{ContentView, ToolOutput};
use crate::status::ToolTaskStatus;

verus! {

/// Task metadata attached to the final result of a task. Never sent to the model.
#[derive(Debug)]
#[non_exhaustive]
pub struct McpTaskInfo {
    /// The server-assigned task id.
    pub task_id: String,
    /// The last observed lifecycle status when the result was produced.
    pub status: ToolTaskStatus,
    /// The server's human-readable status message, if any.
    pub status_message: Option<String>,
    /// The server-reported ISO-8601 creation timestamp, verbatim.
    pub created_at: Option<String>,
    /// `"{name}@{version}"` identity of the server that ran the task.
    pub server_key: Option<String>,
}

/// The model of a [`McpTaskInfo`].
#[verifier::ext_equal]
pub struct McpTaskInfoView {
    /// The server-assigned task id.
    pub task_id: Seq<char>,
    /// The last observed lifecycle status when the result was produced.
    pub status: ToolTaskStatus,
    /// The server's human-readable status message, if any.
    pub status_message: Option<Seq<char>>,
    /// The server-reported ISO-8601 creation timestamp, verbatim.
    pub created_at: Option<Seq<char>>,
    /// `"{name}@{version}"` identity of the server that ran the task.
    pub server_key: Option<Seq<char>>,
}

impl DeepView for McpTaskInfo {
    type V = McpTaskInfoView;

    open spec fn deep_view(&self) -> McpTaskInfoView {
        McpTaskInfoView {
            task_id: self.task_id.deep_view(),
            status: self.status,
            status_message: self.status_message.deep_view(),
            created_at: self.created_at.deep_view(),
            server_key: self.server_key.deep_view(),
        }
    }
}

impl Duplicate for McpTaskInfo {
    fn duplicate(&self) -> (copy: Self) {
        McpTaskInfo {
            task_id: self.task_id.duplicate(),
            status: self.status,
            status_message: self.status_message.duplicate(),
            created_at: self.created_at.duplicate(),
            server_key: self.server_key.duplicate(),
        }
    }
}

impl Clone for McpTaskInfo {
    fn clone(&self) -> (copy: Self)
        ensures
            copy.deep_view() == self.deep_view(),
    {
        self.duplicate()
    }
}

/// Typed values that travel with a tool call and are never sent to the model. At most one value of each type is held; a later one replaces an earlier one.
#[derive(Debug)]
pub struct ToolContext {
    /// Metadata to be sent with the request.
    pub request_meta: Option<JsonMap>,
    /// The structured result.
    pub structured: Option<Json>,
    /// The metadata of the result.
    pub meta: Option<Json>,
    /// The complete tool result.
    pub call_result: Option<CallToolResult>,
    /// The last task state.
    pub task_result: Option<GetTaskResult>,
    /// The task that the call became.
    pub created_task: Option<CreateTaskResult>,
    /// The last request for input.
    pub input_required: Option<InputRequiredResult>,
    /// The task behind the result.
    pub task_info: Option<McpTaskInfo>,
}

/// The model of a [`ToolContext`].
#[verifier::ext_equal]
pub struct ToolContextView {
    /// Metadata to be sent with the request.
    pub request_meta: Option<Map<Seq<char>, Seq<char>>>,
    /// The structured result.
    pub structured: Option<Seq<char>>,
    /// The metadata of the result.
    pub meta: Option<Seq<char>>,
    /// The complete tool result.
    pub call_result: Option<CallToolResultView>,
    /// The last task state.
    pub task_result: Option<GetTaskResultView>,
    /// The task that the call became.
    pub created_task: Option<CreateTaskResultView>,
    /// The last request for input.
    pub input_required: Option<InputRequiredResultView>,
    /// The task behind the result.
    pub task_info: Option<McpTaskInfoView>,
}

impl DeepView for ToolContext {
    type V = ToolContextView;

    open spec fn deep_view(&self) -> ToolContextView {
        ToolContextView {
            request_meta: self.request_meta.deep_view(),
            structured: self.structured.deep_view(),
            meta: self.meta.deep_view(),
            call_result: self.call_result.deep_view(),
            task_result: self.task_result.deep_view(),
            created_task: self.created_task.deep_view(),
            input_required: self.input_required.deep_view(),
            task_info: self.task_info.deep_view(),
        }
    }
}

impl Duplicate for ToolContext {
    fn duplicate(&self) -> (copy: Self) {
        ToolContext {
            request_meta: self.request_meta.duplicate(),
            structured: self.structured.duplicate(),
            meta: self.meta.duplicate(),
            call_result: self.call_result.duplicate(),
            task_result: self.task_result.duplicate(),
            created_task: self.created_task.duplicate(),
            input_required: self.input_required.duplicate(),
            task_info: self.task_info.duplicate(),
        }
    }
}

impl Clone for ToolContext {
    fn clone(&self) -> (copy: Self)
        ensures
            copy.deep_view() == self.deep_view(),
    {
        self.duplicate()
    }
}

impl ToolContext {
    /// The context without any value.
    pub open spec fn empty() -> ToolContextView {
        ToolContextView {
            request_meta: None,
            structured: None,
            meta: None,
            call_result: None,
            task_result: None,
            created_task: None,
            input_required: None,
            task_info: None,
        }
    }

    /// A context without any value.
    pub fn new() -> (context: ToolContext)
        ensures
            context.deep_view() == ToolContext::empty(),
    {
        ToolContext {
            request_meta: None,
            structured: None,
            meta: None,
            call_result: None,
            task_result: None,
            created_task: None,
            input_required: None,
            task_info: None,
        }
    }
}

/// The final result of a tool execution.
#[derive(Debug)]
pub struct ToolResult {
    /// What the model is shown.
    pub output: ToolOutput,
    /// The failure, where the execution failed.
    pub error: Option<ToolExecutionError>,
}

/// The model of a [`ToolResult`].
#[verifier::ext_equal]
pub struct ToolResultView {
    /// What the model is shown.
    pub output: Seq<ContentView>,
    /// The failure, where the execution failed.
    pub error: Option<ErrorView>,
}

impl DeepView for ToolResult {
    type V = ToolResultView;

    open spec fn deep_view(&self) -> ToolResultView {
        ToolResultView {
            output: self.output.deep_view(),
            error: self.error.deep_view(),
        }
    }
}

impl Duplicate for ToolResult {
    fn duplicate(&self) -> (copy: Self) {
        ToolResult {
            output: self.output.duplicate(),
            error: self.error.duplicate(),
        }
    }
}

impl Clone for ToolResult {
    fn clone(&self) -> (copy: Self)
        ensures
            copy.deep_view() == self.deep_view(),
    {
        self.duplicate()
    }
}

/// A result that shows `output`.
pub open spec fn success_result(output: Seq<ContentView>) -> ToolResultView {
    ToolResultView { output, error: None }
}

/// A result that reports `error`.
pub open spec fn failed_result(error: ErrorView) -> ToolResultView {
    ToolResultView { output: error.presented(), error: Some(error) }
}

impl ToolResult {
    /// A successful result.
    pub fn success(output: ToolOutput) -> (result: ToolResult)
        ensures
            result.deep_view() == success_result(output.deep_view()),
    {
        ToolResult { output, error: None }
    }

    /// A failed result.
    pub fn failed(error: ToolExecutionError) -> (result: ToolResult)
        ensures
            result.deep_view() == failed_result(error.deep_view()),
    {
        let output = match &error.model_output {
            Some(output) => output.duplicate(),
            None => ToolOutput::text(error.message.clone()),
        };
        ToolResult { output, error: Some(error) }
    }

    /// What the model is shown.
    pub fn output(&self) -> (output: &ToolOutput)
        ensures
            output.deep_view() == self.deep_view().output,
    {
        &self.output
    }

    /// The failure, where the execution failed.
    pub fn error(&self) -> (error: Option<&ToolExecutionError>)
        ensures
            match error {
                Some(e) => self.deep_view().error == Some(e.deep_view()),
                None => self.deep_view().error is None,
            },
    {
        match &self.error {
            Some(error) => Some(error),
            None => None,
        }
    }
}

/// The final result of a deferred task.
#[derive(Debug)]
pub struct ToolTaskResult {
    /// The terminal status of the task.
    pub status: ToolTaskStatus,
    /// The result of the tool.
    pub result: ToolResult,
    /// Typed values for hooks and telemetry.
    pub context: ToolContext,
}

/// The model of a [`ToolTaskResult`].
#[verifier::ext_equal]
pub struct ToolTaskResultView {
    /// The terminal status of the task.
    pub status: ToolTaskStatus,
    /// The result of the tool.
    pub result: ToolResultView,
    /// Typed values for hooks and telemetry.
    pub context: ToolContextView,
}

impl DeepView for ToolTaskResult {
    type V = ToolTaskResultView;

    open spec fn deep_view(&self) -> ToolTaskResultView {
        ToolTaskResultView {
            status: self.status,
            result: self.result.deep_view(),
            context: self.context.deep_view(),
        }
    }
}

impl Duplicate for ToolTaskResult {
    fn duplicate(&self) -> (copy: Self) {
        ToolTaskResult {
            status: self.status,
            result: self.result.duplicate(),
            context: self.context.duplicate(),
        }
    }
}

impl Clone for ToolTaskResult {
    fn clone(&self) -> (copy: Self)
        ensures
            copy.deep_view() == self.deep_view(),
    {
        self.duplicate()
    }
}

/// A completed task that shows `output`.
pub open spec fn task_success(output: Seq<ContentView>) -> ToolTaskResultView {
    ToolTaskResultView {
        status: ToolTaskStatus::Completed,
        result: success_result(output),
        context: ToolContext::empty(),
    }
}

/// A task that failed with `error`.
pub open spec fn task_failed(error: ErrorView) -> ToolTaskResultView {
    ToolTaskResultView {
        status: ToolTaskStatus::Failed,
        result: failed_result(error),
        context: ToolContext::empty(),
    }
}

/// A task that was cancelled, as `error` tells.
pub open spec fn task_cancelled(error: ErrorView) -> ToolTaskResultView {
    ToolTaskResultView {
        status: ToolTaskStatus::Cancelled,
        result: failed_result(error),
        context: ToolContext::empty(),
    }
}

impl ToolTaskResult {
    /// A completed task.
    pub fn success(output: ToolOutput) -> (result: ToolTaskResult)
        ensures
            result.deep_view() == task_success(output.deep_view()),
    {
        ToolTaskResult {
            status: ToolTaskStatus::Completed,
            result: ToolResult::success(output),
            context: ToolContext::new(),
        }
    }

    /// A failed task.
    pub fn failed(error: ToolExecutionError) -> (result: ToolTaskResult)
        ensures
            result.deep_view() == task_failed(error.deep_view()),
    {
        ToolTaskResult {
            status: ToolTaskStatus::Failed,
            result: ToolResult::failed(error),
            context: ToolContext::new(),
        }
    }

    /// A cancelled task.
    pub fn cancelled(error: ToolExecutionError) -> (result: ToolTaskResult)
        ensures
            result.deep_view() == task_cancelled(error.deep_view()),
    {
        ToolTaskResult {
            status: ToolTaskStatus::Cancelled,
            result: ToolResult::failed(error),
            context: ToolContext::new(),
        }
    }

    /// The same result with another context.
    pub fn with_context(self, context: ToolContext) -> (result: ToolTaskResult)
        ensures
            result.deep_view() == (ToolTaskResultView {
                context: context.deep_view(),
                ..self.deep_view()
            }),
    {
        ToolTaskResult { status: self.status, result: self.result, context }
    }

    /// The terminal status of the task.
    pub fn status(&self) -> (status: ToolTaskStatus)
        ensures
            status == self.deep_view().status,
    {
        self.status
    }

    /// The result of the tool.
    pub fn result(&self) -> (result: &ToolResult)
        ensures
            result.deep_view() == self.deep_view().result,
    {
        &self.result
    }

    /// Typed values for hooks and telemetry.
    pub fn context(&self) -> (context: &ToolContext)
        ensures
            context.deep_view() == self.deep_view().context,
    {
        &self.context
    }
}

/// A successful result shows its output and has no error; a failed one has exactly the error that
/// it was given and shows what that error presents. A task's result says by its status how it went
/// and starts with an empty context.
pub proof fn results_say_how_it_went(output: Seq<ContentView>, error: ErrorView)
    ensures
        success_result(output).output == output,
        success_result(output).error is None,
        failed_result(error).error == Some(error),
        failed_result(error).output == match error.model_output {
            Some(shown) => shown,
            None => seq![ContentView::Text(error.message)],
        },
        task_success(output).status is Completed,
        task_success(output).result == success_result(output),
        task_failed(error).status is Failed,
        task_failed(error).result == failed_result(error),
        task_cancelled(error).status is Cancelled,
        task_cancelled(error).result == failed_result(error),
        forall|context: ToolContextView|
            #![trigger context.call_result]
            context == task_success(output).context || context == task_failed(error).context
                || context == task_cancelled(error).context || context == ToolContext::empty() ==> {
                &&& context.request_meta is None && context.structured is None
                &&& context.meta is None && context.call_result is None
                &&& context.task_result is None && context.created_task is None
                &&& context.input_required is None && context.task_info is None
            },
{
}

} // verus!

//! The values that cross an MCP connection.

use vstd::prelude::*;
use vstd::string::*;

use crate::duplicate::Duplicate;
use crate::duration::Duration;
use crate::json::{Json, JsonMap};
use crate::string_map::StringMap;

verus! {

/// Lifecycle status of a task, as a server reports it.
#[derive(Debug, Clone, Copy, PartialEq, Eq, Structural)]
pub enum TaskStatus {
    /// The server is working on the task.
    Working,
    /// The server needs input.
    InputRequired,
    /// The task completed.
    Completed,
    /// The task failed.
    Failed,
    /// The task was cancelled.
    Cancelled,
    /// A status that this version of the protocol does not name.
    Unknown,
}

impl DeepView for TaskStatus {
    type V = TaskStatus;

    open spec fn deep_view(&self) -> TaskStatus {
        *self
    }
}

impl Duplicate for TaskStatus {
    fn duplicate(&self) -> (copy: Self) {
        *self
    }
}

/// A task, as a server describes it.
#[derive(Debug)]
pub struct Task {
    /// The server-assigned task id.
    pub task_id: String,
    /// The lifecycle status.
    pub status: TaskStatus,
    /// A message for people.
    pub status_message: Option<String>,
    /// ISO-8601 time of creation.
    pub created_at: String,
    /// ISO-8601 time of the last change.
    pub last_updated_at: String,
    /// Retention in milliseconds from creation; `None` is unlimited.
    pub ttl_ms: Option<u64>,
    /// Suggested polling interval in milliseconds.
    pub poll_interval_ms: Option<u64>,
}

/// The model of a [`Task`].
#[verifier::ext_equal]
pub struct TaskView {
    /// The server-assigned task id.
    pub task_id: Seq<char>,
    /// The lifecycle status.
    pub status: TaskStatus,
    /// A message for people.
    pub status_message: Option<Seq<char>>,
    /// ISO-8601 time of creation.
    pub created_at: Seq<char>,
    /// ISO-8601 time of the last change.
    pub last_updated_at: Seq<char>,
    /// Retention in milliseconds from creation; `None` is unlimited.
    pub ttl_ms: Option<u64>,
    /// Suggested polling interval in milliseconds.
    pub poll_interval_ms: Option<u64>,
}

impl DeepView for Task {
    type V = TaskView;

    open spec fn deep_view(&self) -> TaskView {
        TaskView {
            task_id: self.task_id.deep_view(),
            status: self.status,
            status_message: self.status_message.deep_view(),
            created_at: self.created_at.deep_view(),
            last_updated_at: self.last_updated_at.deep_view(),
            ttl_ms: self.ttl_ms.deep_view(),
            poll_interval_ms: self.poll_interval_ms.deep_view(),
        }
    }
}

impl Duplicate for Task {
    fn duplicate(&self) -> (copy: Self) {
        Task {
            task_id: self.task_id.duplicate(),
            status: self.status,
            status_message: self.status_message.duplicate(),
            created_at: self.created_at.duplicate(),
            last_updated_at: self.last_updated_at.duplicate(),
            ttl_ms: self.ttl_ms.duplicate(),
            poll_interval_ms: self.poll_interval_ms.duplicate(),
        }
    }
}

impl Clone for Task {
    fn clone(&self) -> (copy: Self)
        ensures
            copy.deep_view() == self.deep_view(),
    {
        self.duplicate()
    }
}

/// What kind of client-side work an input request asks for.
#[derive(Debug, Clone, Copy, PartialEq, Eq, Structural)]
pub enum InputCategory {
    /// A model completion.
    Sampling,
    /// An answer of the user.
    Elicitation,
    /// The list of roots.
    Roots,
    /// A request that this version of the protocol does not name.
    Unsupported,
}

impl DeepView for InputCategory {
    type V = InputCategory;

    open spec fn deep_view(&self) -> InputCategory {
        *self
    }
}

impl Duplicate for InputCategory {
    fn duplicate(&self) -> (copy: Self) {
        *self
    }
}

/// A server-initiated request for input.
#[derive(Debug)]
pub struct InputRequestEntry {
    /// What the request asks for.
    pub category: InputCategory,
    /// The request as JSON, where it can be rendered.
    pub value: Option<Json>,
}

/// The model of a [`InputRequestEntry`].
#[verifier::ext_equal]
pub struct InputRequestEntryView {
    /// What the request asks for.
    pub category: InputCategory,
    /// The request as JSON, where it can be rendered.
    pub value: Option<Seq<char>>,
}

impl DeepView for InputRequestEntry {
    type V = InputRequestEntryView;

    open spec fn deep_view(&self) -> InputRequestEntryView {
        InputRequestEntryView {
            category: self.category,
            value: self.value.deep_view(),
        }
    }
}

impl Duplicate for InputRequestEntry {
    fn duplicate(&self) -> (copy: Self) {
        InputRequestEntry {
            category: self.category,
            value: self.value.duplicate(),
        }
    }
}

impl Clone for InputRequestEntry {
    fn clone(&self) -> (copy: Self)
        ensures
            copy.deep_view() == self.deep_view(),
    {
        self.duplicate()
    }
}

/// What a task carries in its present status.
#[derive(Debug)]
pub enum TaskPayload {
    /// Nothing yet.
    Working,
    /// The requests that wait for an answer.
    InputRequired(StringMap<InputRequestEntry>),
    /// The result of the original request, as a JSON object.
    Completed(Json),
    /// The JSON-RPC error, as a JSON object.
    Failed(Json),
    /// Nothing.
    Cancelled,
    /// A payload that this version of the protocol does not name.
    Unknown,
}

/// The model of a [`TaskPayload`].
#[verifier::ext_equal]
pub enum TaskPayloadView {
    /// Nothing yet.
    Working,
    /// The requests that wait for an answer.
    InputRequired(Map<Seq<char>, InputRequestEntryView>),
    /// The result of the original request, as a JSON object.
    Completed(Seq<char>),
    /// The JSON-RPC error, as a JSON object.
    Failed(Seq<char>),
    /// Nothing.
    Cancelled,
    /// A payload that this version of the protocol does not name.
    Unknown,
}

impl DeepView for TaskPayload {
    type V = TaskPayloadView;

    open spec fn deep_view(&self) -> TaskPayloadView {
        match self {
            TaskPayload::Working => TaskPayloadView::Working,
            TaskPayload::InputRequired(value) => TaskPayloadView::InputRequired(value.deep_view()),
            TaskPayload::Completed(value) => TaskPayloadView::Completed(value.deep_view()),
            TaskPayload::Failed(value) => TaskPayloadView::Failed(value.deep_view()),
            TaskPayload::Cancelled => TaskPayloadView::Cancelled,
            TaskPayload::Unknown => TaskPayloadView::Unknown,
        }
    }
}

impl Duplicate for TaskPayload {
    fn duplicate(&self) -> (copy: Self) {
        match self {
            TaskPayload::Working => TaskPayload::Working,
            TaskPayload::InputRequired(value) => TaskPayload::InputRequired(value.duplicate()),
            TaskPayload::Completed(value) => TaskPayload::Completed(value.duplicate()),
            TaskPayload::Failed(value) => TaskPayload::Failed(value.duplicate()),
            TaskPayload::Cancelled => TaskPayload::Cancelled,
            TaskPayload::Unknown => TaskPayload::Unknown,
        }
    }
}

impl Clone for TaskPayload {
    fn clone(&self) -> (copy: Self)
        ensures
            copy.deep_view() == self.deep_view(),
    {
        self.duplicate()
    }
}

/// The answer to `tasks/get`.
#[derive(Debug)]
pub struct GetTaskResult {
    /// Protocol-level metadata, a JSON object.
    pub meta: Option<Json>,
    /// The task.
    pub task: Task,
    /// What the task carries in its present status.
    pub payload: TaskPayload,
}

/// The model of a [`GetTaskResult`].
#[verifier::ext_equal]
pub struct GetTaskResultView {
    /// Protocol-level metadata, a JSON object.
    pub meta: Option<Seq<char>>,
    /// The task.
    pub task: TaskView,
    /// What the task carries in its present status.
    pub payload: TaskPayloadView,
}

impl DeepView for GetTaskResult {
    type V = GetTaskResultView;

    open spec fn deep_view(&self) -> GetTaskResultView {
        GetTaskResultView {
            meta: self.meta.deep_view(),
            task: self.task.deep_view(),
            payload: self.payload.deep_view(),
        }
    }
}

impl Duplicate for GetTaskResult {
    fn duplicate(&self) -> (copy: Self) {
        GetTaskResult {
            meta: self.meta.duplicate(),
            task: self.task.duplicate(),
            payload: self.payload.duplicate(),
        }
    }
}

impl Clone for GetTaskResult {
    fn clone(&self) -> (copy: Self)
        ensures
            copy.deep_view() == self.deep_view(),
    {
        self.duplicate()
    }
}

/// The answer to a tool call that became a task.
#[derive(Debug)]
pub struct CreateTaskResult {
    /// The task.
    pub task: Task,
    /// Protocol-level metadata, a JSON object.
    pub meta: Option<Json>,
}

/// The model of a [`CreateTaskResult`].
#[verifier::ext_equal]
pub struct CreateTaskResultView {
    /// The task.
    pub task: TaskView,
    /// Protocol-level metadata, a JSON object.
    pub meta: Option<Seq<char>>,
}

impl DeepView for CreateTaskResult {
    type V = CreateTaskResultView;

    open spec fn deep_view(&self) -> CreateTaskResultView {
        CreateTaskResultView {
            task: self.task.deep_view(),
            meta: self.meta.deep_view(),
        }
    }
}

impl Duplicate for CreateTaskResult {
    fn duplicate(&self) -> (copy: Self) {
        CreateTaskResult {
            task: self.task.duplicate(),
            meta: self.meta.duplicate(),
        }
    }
}

impl Clone for CreateTaskResult {
    fn clone(&self) -> (copy: Self)
        ensures
            copy.deep_view() == self.deep_view(),
    {
        self.duplicate()
    }
}

/// The answer to a tool call that needs input first.
#[derive(Debug)]
pub struct InputRequiredResult {
    /// The requests to be answered.
    pub input_requests: Option<StringMap<InputRequestEntry>>,
    /// Opaque state that the next try has to send back.
    pub request_state: Option<String>,
    /// Protocol-level metadata, a JSON object.
    pub meta: Option<Json>,
}

/// The model of a [`InputRequiredResult`].
#[verifier::ext_equal]
pub struct InputRequiredResultView {
    /// The requests to be answered.
    pub input_requests: Option<Map<Seq<char>, InputRequestEntryView>>,
    /// Opaque state that the next try has to send back.
    pub request_state: Option<Seq<char>>,
    /// Protocol-level metadata, a JSON object.
    pub meta: Option<Seq<char>>,
}

impl DeepView for InputRequiredResult {
    type V = InputRequiredResultView;

    open spec fn deep_view(&self) -> InputRequiredResultView {
        InputRequiredResultView {
            input_requests: self.input_requests.deep_view(),
            request_state: self.request_state.deep_view(),
            meta: self.meta.deep_view(),
        }
    }
}

impl Duplicate for InputRequiredResult {
    fn duplicate(&self) -> (copy: Self) {
        InputRequiredResult {
            input_requests: self.input_requests.duplicate(),
            request_state: self.request_state.duplicate(),
            meta: self.meta.duplicate(),
        }
    }
}

impl Clone for InputRequiredResult {
    fn clone(&self) -> (copy: Self)
        ensures
            copy.deep_view() == self.deep_view(),
    {
        self.duplicate()
    }
}

/// The parts of a content block that decide how it is shown.
#[derive(Debug)]
pub enum BlockShape {
    /// A text.
    Text(String),
    /// An image in base64.
    Image {
        /// The base64 data.
        data: String,
        /// The MIME type.
        mime_type: String,
    },
    /// A resource with a text.
    TextResource,
    /// A resource with base64 data.
    BlobResource {
        /// The MIME type.
        blob_mime_type: Option<String>,
        /// The base64 data.
        blob: String,
    },
    /// Any other block.
    Other,
}

/// The model of a [`BlockShape`].
#[verifier::ext_equal]
pub enum BlockShapeView {
    /// A text.
    Text(Seq<char>),
    /// An image in base64.
    Image {
        /// The base64 data.
        data: Seq<char>,
        /// The MIME type.
        mime_type: Seq<char>,
    },
    /// A resource with a text.
    TextResource,
    /// A resource with base64 data.
    BlobResource {
        /// The MIME type.
        blob_mime_type: Option<Seq<char>>,
        /// The base64 data.
        blob: Seq<char>,
    },
    /// Any other block.
    Other,
}

impl DeepView for BlockShape {
    type V = BlockShapeView;

    open spec fn deep_view(&self) -> BlockShapeView {
        match self {
            BlockShape::Text(value) => BlockShapeView::Text(value.deep_view()),
            BlockShape::Image { data, mime_type } => BlockShapeView::Image {
                data: data.deep_view(),
                mime_type: mime_type.deep_view(),
            },
            BlockShape::TextResource => BlockShapeView::TextResource,
            BlockShape::BlobResource { blob_mime_type, blob } => BlockShapeView::BlobResource {
                blob_mime_type: blob_mime_type.deep_view(),
                blob: blob.deep_view(),
            },
            BlockShape::Other => BlockShapeView::Other,
        }
    }
}

impl Duplicate for BlockShape {
    fn duplicate(&self) -> (copy: Self) {
        match self {
            BlockShape::Text(value) => BlockShape::Text(value.duplicate()),
            BlockShape::Image { data, mime_type } => BlockShape::Image {
                data: data.duplicate(),
                mime_type: mime_type.duplicate(),
            },
            BlockShape::TextResource => BlockShape::TextResource,
            BlockShape::BlobResource { blob_mime_type, blob } => BlockShape::BlobResource {
                blob_mime_type: blob_mime_type.duplicate(),
                blob: blob.duplicate(),
            },
            BlockShape::Other => BlockShape::Other,
        }
    }
}

impl Clone for BlockShape {
    fn clone(&self) -> (copy: Self)
        ensures
            copy.deep_view() == self.deep_view(),
    {
        self.duplicate()
    }
}

/// A value as JSON.
#[derive(Debug)]
pub enum Rendering {
    /// The rendered value.
    Value(Json),
    /// Why the value cannot be rendered.
    Failed(String),
}

/// The model of a [`Rendering`].
#[verifier::ext_equal]
pub enum RenderingView {
    /// The rendered value.
    Value(Seq<char>),
    /// Why the value cannot be rendered.
    Failed(Seq<char>),
}

impl DeepView for Rendering {
    type V = RenderingView;

    open spec fn deep_view(&self) -> RenderingView {
        match self {
            Rendering::Value(value) => RenderingView::Value(value.deep_view()),
            Rendering::Failed(value) => RenderingView::Failed(value.deep_view()),
        }
    }
}

impl Duplicate for Rendering {
    fn duplicate(&self) -> (copy: Self) {
        match self {
            Rendering::Value(value) => Rendering::Value(value.duplicate()),
            Rendering::Failed(value) => Rendering::Failed(value.duplicate()),
        }
    }
}

impl Clone for Rendering {
    fn clone(&self) -> (copy: Self)
        ensures
            copy.deep_view() == self.deep_view(),
    {
        self.duplicate()
    }
}

/// One block of a tool call's result.
#[derive(Debug)]
pub struct ContentBlock {
    /// What decides how the block is shown.
    pub shape: BlockShape,
    /// The whole block as JSON.
    pub json: Rendering,
}

/// The model of a [`ContentBlock`].
#[verifier::ext_equal]
pub struct ContentBlockView {
    /// What decides how the block is shown.
    pub shape: BlockShapeView,
    /// The whole block as JSON.
    pub json: RenderingView,
}

impl DeepView for ContentBlock {
    type V = ContentBlockView;

    open spec fn deep_view(&self) -> ContentBlockView {
        ContentBlockView {
            shape: self.shape.deep_view(),
            json: self.json.deep_view(),
        }
    }
}

impl Duplicate for ContentBlock {
    fn duplicate(&self) -> (copy: Self) {
        ContentBlock {
            shape: self.shape.duplicate(),
            json: self.json.duplicate(),
        }
    }
}

impl Clone for ContentBlock {
    fn clone(&self) -> (copy: Self)
        ensures
            copy.deep_view() == self.deep_view(),
    {
        self.duplicate()
    }
}

/// The result of a tool call.
#[derive(Debug)]
pub struct CallToolResult {
    /// The content blocks, in order.
    pub content: Vec<ContentBlock>,
    /// The structured result.
    pub structured_content: Option<Json>,
    /// Whether the tool reports an error.
    pub is_error: Option<bool>,
    /// Protocol-level metadata, a JSON object.
    pub meta: Option<Json>,
}

/// The model of a [`CallToolResult`].
#[verifier::ext_equal]
pub struct CallToolResultView {
    /// The content blocks, in order.
    pub content: Seq<ContentBlockView>,
    /// The structured result.
    pub structured_content: Option<Seq<char>>,
    /// Whether the tool reports an error.
    pub is_error: Option<bool>,
    /// Protocol-level metadata, a JSON object.
    pub meta: Option<Seq<char>>,
}

impl DeepView for CallToolResult {
    type V = CallToolResultView;

    open spec fn deep_view(&self) -> CallToolResultView {
        CallToolResultView {
            content: self.content.deep_view(),
            structured_content: self.structured_content.deep_view(),
            is_error: self.is_error.deep_view(),
            meta: self.meta.deep_view(),
        }
    }
}

impl Duplicate for CallToolResult {
    fn duplicate(&self) -> (copy: Self) {
        CallToolResult {
            content: self.content.duplicate(),
            structured_content: self.structured_content.duplicate(),
            is_error: self.is_error.duplicate(),
            meta: self.meta.duplicate(),
        }
    }
}

impl Clone for CallToolResult {
    fn clone(&self) -> (copy: Self)
        ensures
            copy.deep_view() == self.deep_view(),
    {
        self.duplicate()
    }
}

/// The parameters of a tool call.
#[derive(Debug)]
pub struct CallToolRequest {
    /// The tool.
    pub name: String,
    /// The arguments, a JSON object.
    pub arguments: Option<Json>,
    /// Answers to input requests.
    pub input_responses: Option<JsonMap>,
    /// Opaque state that the server asked to get back.
    pub request_state: Option<String>,
    /// Request metadata.
    pub meta: Option<JsonMap>,
}

/// The model of a [`CallToolRequest`].
#[verifier::ext_equal]
pub struct CallToolRequestView {
    /// The tool.
    pub name: Seq<char>,
    /// The arguments, a JSON object.
    pub arguments: Option<Seq<char>>,
    /// Answers to input requests.
    pub input_responses: Option<Map<Seq<char>, Seq<char>>>,
    /// Opaque state that the server asked to get back.
    pub request_state: Option<Seq<char>>,
    /// Request metadata.
    pub meta: Option<Map<Seq<char>, Seq<char>>>,
}

impl DeepView for CallToolRequest {
    type V = CallToolRequestView;

    open spec fn deep_view(&self) -> CallToolRequestView {
        CallToolRequestView {
            name: self.name.deep_view(),
            arguments: self.arguments.deep_view(),
            input_responses: self.input_responses.deep_view(),
            request_state: self.request_state.deep_view(),
            meta: self.meta.deep_view(),
        }
    }
}

impl Duplicate for CallToolRequest {
    fn duplicate(&self) -> (copy: Self) {
        CallToolRequest {
            name: self.name.duplicate(),
            arguments: self.arguments.duplicate(),
            input_responses: self.input_responses.duplicate(),
            request_state: self.request_state.duplicate(),
            meta: self.meta.duplicate(),
        }
    }
}

impl Clone for CallToolRequest {
    fn clone(&self) -> (copy: Self)
        ensures
            copy.deep_view() == self.deep_view(),
    {
        self.duplicate()
    }
}

/// The three answers to a tool call.
#[derive(Debug)]
pub enum CallToolResponse {
    /// The tool ran.
    Complete(CallToolResult),
    /// The tool needs input first.
    InputRequired(InputRequiredResult),
    /// The call became a task.
    Task(CreateTaskResult),
    /// An answer that this version of the protocol does not name.
    Unsupported,
}

/// The model of a [`CallToolResponse`].
#[verifier::ext_equal]
pub enum CallToolResponseView {
    /// The tool ran.
    Complete(CallToolResultView),
    /// The tool needs input first.
    InputRequired(InputRequiredResultView),
    /// The call became a task.
    Task(CreateTaskResultView),
    /// An answer that this version of the protocol does not name.
    Unsupported,
}

impl DeepView for CallToolResponse {
    type V = CallToolResponseView;

    open spec fn deep_view(&self) -> CallToolResponseView {
        match self {
            CallToolResponse::Complete(value) => CallToolResponseView::Complete(value.deep_view()),
            CallToolResponse::InputRequired(value) => CallToolResponseView::InputRequired(value.deep_view()),
            CallToolResponse::Task(value) => CallToolResponseView::Task(value.deep_view()),
            CallToolResponse::Unsupported => CallToolResponseView::Unsupported,
        }
    }
}

/// The answer of a server to any request.
#[derive(Debug)]
pub enum ServerReply {
    /// A tool result.
    CallTool(CallToolResult),
    /// A request for input.
    InputRequired(InputRequiredResult),
    /// A new task.
    CreateTask(CreateTaskResult),
    /// The state of a task.
    GetTask(GetTaskResult),
    /// A task after its cancellation.
    CancelTask(Task),
    /// An acknowledgement.
    TaskAck,
    /// An empty result.
    Empty,
    /// A result of no known shape.
    Custom(Json),
    /// Any other result.
    Other,
}

/// The model of a [`ServerReply`].
#[verifier::ext_equal]
pub enum ServerReplyView {
    /// A tool result.
    CallTool(CallToolResultView),
    /// A request for input.
    InputRequired(InputRequiredResultView),
    /// A new task.
    CreateTask(CreateTaskResultView),
    /// The state of a task.
    GetTask(GetTaskResultView),
    /// A task after its cancellation.
    CancelTask(TaskView),
    /// An acknowledgement.
    TaskAck,
    /// An empty result.
    Empty,
    /// A result of no known shape.
    Custom(Seq<char>),
    /// Any other result.
    Other,
}

impl DeepView for ServerReply {
    type V = ServerReplyView;

    open spec fn deep_view(&self) -> ServerReplyView {
        match self {
            ServerReply::CallTool(value) => ServerReplyView::CallTool(value.deep_view()),
            ServerReply::InputRequired(value) => ServerReplyView::InputRequired(value.deep_view()),
            ServerReply::CreateTask(value) => ServerReplyView::CreateTask(value.deep_view()),
            ServerReply::GetTask(value) => ServerReplyView::GetTask(value.deep_view()),
            ServerReply::CancelTask(value) => ServerReplyView::CancelTask(value.deep_view()),
            ServerReply::TaskAck => ServerReplyView::TaskAck,
            ServerReply::Empty => ServerReplyView::Empty,
            ServerReply::Custom(value) => ServerReplyView::Custom(value.deep_view()),
            ServerReply::Other => ServerReplyView::Other,
        }
    }
}

/// Why a request got no answer.
#[derive(Debug)]
pub enum ServiceError {
    /// The server answered with an error.
    McpError {
        /// The JSON-RPC error code.
        code: i32,
        /// The message of the error.
        message: String,
        /// The rendering of the error.
        display: String,
    },
    /// The request could not be sent.
    TransportSend(String),
    /// The connection is closed.
    TransportClosed,
    /// The answer is of the wrong type.
    UnexpectedResponse,
    /// The request was cancelled.
    Cancelled {
        /// Why.
        reason: Option<String>,
    },
    /// The request took too long.
    Timeout {
        /// The time limit.
        timeout: Duration,
    },
    /// Anything else, by its rendering.
    Other(String),
}

/// The model of a [`ServiceError`].
#[verifier::ext_equal]
pub enum ServiceErrorView {
    /// The server answered with an error.
    McpError {
        /// The JSON-RPC error code.
        code: i32,
        /// The message of the error.
        message: Seq<char>,
        /// The rendering of the error.
        display: Seq<char>,
    },
    /// The request could not be sent.
    TransportSend(Seq<char>),
    /// The connection is closed.
    TransportClosed,
    /// The answer is of the wrong type.
    UnexpectedResponse,
    /// The request was cancelled.
    Cancelled {
        /// Why.
        reason: Option<Seq<char>>,
    },
    /// The request took too long.
    Timeout {
        /// The time limit.
        timeout: nat,
    },
    /// Anything else, by its rendering.
    Other(Seq<char>),
}

impl DeepView for ServiceError {
    type V = ServiceErrorView;

    open spec fn deep_view(&self) -> ServiceErrorView {
        match self {
            ServiceError::McpError { code, message, display } => ServiceErrorView::McpError {
                code: *code,
                message: message.deep_view(),
                display: display.deep_view(),
            },
            ServiceError::TransportSend(value) => ServiceErrorView::TransportSend(value.deep_view()),
            ServiceError::TransportClosed => ServiceErrorView::TransportClosed,
            ServiceError::UnexpectedResponse => ServiceErrorView::UnexpectedResponse,
            ServiceError::Cancelled { reason } => ServiceErrorView::Cancelled {
                reason: reason.deep_view(),
            },
            ServiceError::Timeout { timeout } => ServiceErrorView::Timeout {
                timeout: timeout.deep_view(),
            },
            ServiceError::Other(value) => ServiceErrorView::Other(value.deep_view()),
        }
    }
}

impl Duplicate for ServiceError {
    fn duplicate(&self) -> (copy: Self) {
        match self {
            ServiceError::McpError { code, message, display } => ServiceError::McpError {
                code: *code,
                message: message.duplicate(),
                display: display.duplicate(),
            },
            ServiceError::TransportSend(value) => ServiceError::TransportSend(value.duplicate()),
            ServiceError::TransportClosed => ServiceError::TransportClosed,
            ServiceError::UnexpectedResponse => ServiceError::UnexpectedResponse,
            ServiceError::Cancelled { reason } => ServiceError::Cancelled {
                reason: reason.duplicate(),
            },
            ServiceError::Timeout { timeout } => ServiceError::Timeout {
                timeout: timeout.duplicate(),
            },
            ServiceError::Other(value) => ServiceError::Other(value.duplicate()),
        }
    }
}

impl Clone for ServiceError {
    fn clone(&self) -> (copy: Self)
        ensures
            copy.deep_view() == self.deep_view(),
    {
        self.duplicate()
    }
}

/// The model of a `Result`.
pub open spec fn result_view<T: DeepView, E: DeepView>(result: Result<T, E>) -> Result<T::V, E::V> {
    match result {
        Ok(value) => Ok(value.deep_view()),
        Err(error) => Err(error.deep_view()),
    }
}

/// The model of a result is the result of the models: nothing is mixed up and nothing is lost.
pub proof fn results_are_seen_through<T: DeepView, E: DeepView>(value: T, error: E)
    ensures
        result_view(Ok::<T, E>(value)) == Ok::<T::V, E::V>(value.deep_view()),
        result_view(Err::<T, E>(error)) == Err::<T::V, E::V>(error.deep_view()),
{
}

} // verus!

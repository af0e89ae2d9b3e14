//! Deferred tool executions, independent of any protocol.

use std::sync::Arc;

use vstd::prelude::*;
use vstd::string::*;

use crate::duplicate::Duplicate;
use crate::duration::Duration;
use crate::error::{plain_error, ErrorView, ToolErrorKind, ToolExecutionError};
use crate::json::{Json, JsonMap};
use crate::result::{ToolContext, ToolContextView, ToolResult, ToolResultView};
use crate::string_map::StringMap;
use crate::text::{decimal, decimal_text, mentions, parts_are_mentioned, trim, trimmed};

verus! {

/// Current serialized descriptor format.
pub const DEFERRED_TOOL_DESCRIPTOR_VERSION: u16 = 1;

/// What is needed to bring one deferred execution back. It holds data alone: credentials and connections belong to a registered resolver.
#[derive(Debug)]
#[non_exhaustive]
pub struct DeferredToolDescriptor {
    /// Format version.
    version: u16,
    /// Resolver key.
    backend_type: String,
    /// Backend-opaque execution identifier.
    execution_id: String,
    /// Backend-specific data.
    payload: Json,
}

/// The model of a [`DeferredToolDescriptor`].
#[verifier::ext_equal]
pub struct DeferredToolDescriptorView {
    /// Format version.
    pub version: u16,
    /// Resolver key.
    pub backend_type: Seq<char>,
    /// Backend-opaque execution identifier.
    pub execution_id: Seq<char>,
    /// Backend-specific data.
    pub payload: Seq<char>,
}

impl DeepView for DeferredToolDescriptor {
    type V = DeferredToolDescriptorView;

    closed spec fn deep_view(&self) -> DeferredToolDescriptorView {
        DeferredToolDescriptorView {
            version: self.version,
            backend_type: self.backend_type.deep_view(),
            execution_id: self.execution_id.deep_view(),
            payload: self.payload.deep_view(),
        }
    }
}

impl Duplicate for DeferredToolDescriptor {
    fn duplicate(&self) -> (copy: Self) {
        DeferredToolDescriptor {
            version: self.version,
            backend_type: self.backend_type.duplicate(),
            execution_id: self.execution_id.duplicate(),
            payload: self.payload.duplicate(),
        }
    }
}

impl Clone for DeferredToolDescriptor {
    fn clone(&self) -> (copy: Self)
        ensures
            copy.deep_view() == self.deep_view(),
    {
        self.duplicate()
    }
}

impl DeferredToolDescriptor {
    /// A descriptor in the current format.
    pub fn new(backend_type: String, execution_id: String, payload: Json) -> (descriptor:
        DeferredToolDescriptor)
        ensures
            descriptor.deep_view() == (DeferredToolDescriptorView {
                version: DEFERRED_TOOL_DESCRIPTOR_VERSION,
                backend_type: backend_type@,
                execution_id: execution_id@,
                payload: payload.deep_view(),
            }),
    {
        DeferredToolDescriptor {
            version: DEFERRED_TOOL_DESCRIPTOR_VERSION,
            backend_type,
            execution_id,
            payload,
        }
    }

    /// A descriptor as it was stored, in any format.
    pub fn from_parts(version: u16, backend_type: String, execution_id: String, payload: Json) -> (
        descriptor: DeferredToolDescriptor)
        ensures
            descriptor.deep_view() == (DeferredToolDescriptorView {
                version,
                backend_type: backend_type@,
                execution_id: execution_id@,
                payload: payload.deep_view(),
            }),
    {
        DeferredToolDescriptor { version, backend_type, execution_id, payload }
    }

    /// Serialized format version.
    pub fn version(&self) -> (version: u16)
        ensures
            version == self.deep_view().version,
    {
        self.version
    }

    /// Resolver key for this backend.
    pub fn backend_type(&self) -> (backend: &str)
        ensures
            backend@ == self.deep_view().backend_type,
    {
        self.backend_type.as_str()
    }

    /// Backend-opaque execution identifier.
    pub fn execution_id(&self) -> (id: &str)
        ensures
            id@ == self.deep_view().execution_id,
    {
        self.execution_id.as_str()
    }

    /// Backend-specific, credential-free reconstruction data.
    pub fn payload(&self) -> (payload: &Json)
        ensures
            payload.deep_view() == self.deep_view().payload,
    {
        &self.payload
    }

    /// Whether the descriptor can be used at all.
    pub fn validate(&self) -> (valid: Result<(), DeferredResolverError>)
        ensures
            match descriptor_defect(self.deep_view()) {
                Some(defect) => valid matches Err(error) && error.deep_view() == defect,
                None => valid is Ok,
            },
    {
        if self.version != DEFERRED_TOOL_DESCRIPTOR_VERSION {
            return Err(DeferredResolverError::UnsupportedVersion(self.version));
        }
        if trim(self.backend_type.as_str()).is_empty() {
            return Err(DeferredResolverError::MissingBackendType);
        }
        if trim(self.execution_id.as_str()).is_empty() {
            return Err(DeferredResolverError::MissingExecutionId);
        }
        Ok(())
    }
}

/// What makes a descriptor unusable, if anything: another format, a blank resolver key or a blank
/// execution identifier, in this order.
pub open spec fn descriptor_defect(descriptor: DeferredToolDescriptorView) -> Option<
    DeferredResolverErrorView,
> {
    if descriptor.version != DEFERRED_TOOL_DESCRIPTOR_VERSION {
        Some(DeferredResolverErrorView::UnsupportedVersion(descriptor.version))
    } else if trimmed(descriptor.backend_type).len() == 0 {
        Some(DeferredResolverErrorView::MissingBackendType)
    } else if trimmed(descriptor.execution_id).len() == 0 {
        Some(DeferredResolverErrorView::MissingExecutionId)
    } else {
        None
    }
}

/// One request for additional application input.
#[derive(Debug)]
pub struct InputRequest {
    /// Identifier matched by [`InputResponse::request_id`].
    pub id: String,
    /// Category such as `elicitation`, `sampling`, or `roots`.
    pub kind: String,
    /// Human-readable prompt, when supplied by the backend.
    pub prompt: Option<String>,
    /// Input schema or other structured constraints.
    pub schema: Option<Json>,
    /// Non-secret extension fields for the application handler.
    pub metadata: JsonMap,
}

/// The model of a [`InputRequest`].
#[verifier::ext_equal]
pub struct InputRequestView {
    /// Identifier matched by [`InputResponse::request_id`].
    pub id: Seq<char>,
    /// Category such as `elicitation`, `sampling`, or `roots`.
    pub kind: Seq<char>,
    /// Human-readable prompt, when supplied by the backend.
    pub prompt: Option<Seq<char>>,
    /// Input schema or other structured constraints.
    pub schema: Option<Seq<char>>,
    /// Non-secret extension fields for the application handler.
    pub metadata: Map<Seq<char>, Seq<char>>,
}

impl DeepView for InputRequest {
    type V = InputRequestView;

    open spec fn deep_view(&self) -> InputRequestView {
        InputRequestView {
            id: self.id.deep_view(),
            kind: self.kind.deep_view(),
            prompt: self.prompt.deep_view(),
            schema: self.schema.deep_view(),
            metadata: self.metadata.deep_view(),
        }
    }
}

impl Duplicate for InputRequest {
    fn duplicate(&self) -> (copy: Self) {
        InputRequest {
            id: self.id.duplicate(),
            kind: self.kind.duplicate(),
            prompt: self.prompt.duplicate(),
            schema: self.schema.duplicate(),
            metadata: self.metadata.duplicate(),
        }
    }
}

impl Clone for InputRequest {
    fn clone(&self) -> (copy: Self)
        ensures
            copy.deep_view() == self.deep_view(),
    {
        self.duplicate()
    }
}

/// Ordered input requests surfaced by a deferred execution.
#[derive(Debug)]
pub struct InputRequests(pub Vec<InputRequest>);

impl DeepView for InputRequests {
    type V = Seq<InputRequestView>;

    open spec fn deep_view(&self) -> Seq<InputRequestView> {
        self.0.deep_view()
    }
}

impl Duplicate for InputRequests {
    fn duplicate(&self) -> (copy: Self) {
        InputRequests(self.0.duplicate())
    }
}

impl Clone for InputRequests {
    fn clone(&self) -> (copy: Self)
        ensures
            copy.deep_view() == self.deep_view(),
    {
        self.duplicate()
    }
}

/// One application response matched to an input request.
#[derive(Debug)]
pub struct InputResponse {
    /// Identifier of the corresponding [`InputRequest`].
    pub request_id: String,
    /// Structured response value.
    pub value: Json,
}

/// The model of a [`InputResponse`].
#[verifier::ext_equal]
pub struct InputResponseView {
    /// Identifier of the corresponding [`InputRequest`].
    pub request_id: Seq<char>,
    /// Structured response value.
    pub value: Seq<char>,
}

impl DeepView for InputResponse {
    type V = InputResponseView;

    open spec fn deep_view(&self) -> InputResponseView {
        InputResponseView {
            request_id: self.request_id.deep_view(),
            value: self.value.deep_view(),
        }
    }
}

impl Duplicate for InputResponse {
    fn duplicate(&self) -> (copy: Self) {
        InputResponse {
            request_id: self.request_id.duplicate(),
            value: self.value.duplicate(),
        }
    }
}

impl Clone for InputResponse {
    fn clone(&self) -> (copy: Self)
        ensures
            copy.deep_view() == self.deep_view(),
    {
        self.duplicate()
    }
}

/// Ordered application responses submitted to a deferred execution.
#[derive(Debug)]
pub struct InputResponses(pub Vec<InputResponse>);

impl DeepView for InputResponses {
    type V = Seq<InputResponseView>;

    open spec fn deep_view(&self) -> Seq<InputResponseView> {
        self.0.deep_view()
    }
}

impl Duplicate for InputResponses {
    fn duplicate(&self) -> (copy: Self) {
        InputResponses(self.0.duplicate())
    }
}

impl Clone for InputResponses {
    fn clone(&self) -> (copy: Self)
        ensures
            copy.deep_view() == self.deep_view(),
    {
        self.duplicate()
    }
}

/// Bounds applied while an agent runner waits for a deferred tool.
#[derive(Debug, Clone, Copy, PartialEq, Eq, Structural)]
#[non_exhaustive]
pub struct DeferredExecutionPolicy {
    /// Maximum wall-clock time spent resolving one deferred execution.
    pub timeout: Duration,
    /// Delay between state reads while the backend reports `Working`.
    pub working_poll_interval: Duration,
    /// Maximum number of observable state reads, including input rounds.
    pub max_state_reads: usize,
}

impl Default for DeferredExecutionPolicy {
    fn default() -> (policy: Self)
        ensures
            policy.timeout@ == 86_400_000_000_000,
            policy.working_poll_interval@ == 100_000_000,
            policy.max_state_reads == 10_000,
    {
        DeferredExecutionPolicy {
            timeout: Duration::from_secs(86_400),
            working_poll_interval: Duration::from_millis(100),
            max_state_reads: 10_000,
        }
    }
}

/// Result of invoking a tool.
#[derive(Debug)]
pub enum ToolExecution {
    /// The tool reached an immediate terminal result.
    Complete(ToolResult),
    /// The backend created an execution that can be brought back later.
    Deferred(DeferredToolDescriptor),
}

/// The model of a [`ToolExecution`].
#[verifier::ext_equal]
pub enum ToolExecutionView {
    /// The tool reached an immediate terminal result.
    Complete(ToolResultView),
    /// The backend created an execution that can be brought back later.
    Deferred(DeferredToolDescriptorView),
}

impl DeepView for ToolExecution {
    type V = ToolExecutionView;

    open spec fn deep_view(&self) -> ToolExecutionView {
        match self {
            ToolExecution::Complete(value) => ToolExecutionView::Complete(value.deep_view()),
            ToolExecution::Deferred(value) => ToolExecutionView::Deferred(value.deep_view()),
        }
    }
}

impl Duplicate for ToolExecution {
    fn duplicate(&self) -> (copy: Self) {
        match self {
            ToolExecution::Complete(value) => ToolExecution::Complete(value.duplicate()),
            ToolExecution::Deferred(value) => ToolExecution::Deferred(value.duplicate()),
        }
    }
}

impl Clone for ToolExecution {
    fn clone(&self) -> (copy: Self)
        ensures
            copy.deep_view() == self.deep_view(),
    {
        self.duplicate()
    }
}

impl ToolExecution {
    /// An ordinary result as a complete execution.
    pub fn complete(result: ToolResult) -> (execution: ToolExecution)
        ensures
            execution.deep_view() == ToolExecutionView::Complete(result.deep_view()),
    {
        ToolExecution::Complete(result)
    }
}

/// Current state of a live deferred execution.
#[derive(Debug)]
pub enum DeferredToolState {
    /// The backend is still making progress.
    Working,
    /// Application input is required before work can continue.
    InputRequired(InputRequests),
    /// The tool reached a completed result, including model-visible tool errors.
    Completed(ToolResult),
    /// The deferred backend itself failed to execute the work.
    Failed(ToolExecutionError),
    /// The execution reached its immutable cancelled state.
    Cancelled,
}

/// The model of a [`DeferredToolState`].
#[verifier::ext_equal]
pub enum DeferredToolStateView {
    /// The backend is still making progress.
    Working,
    /// Application input is required before work can continue.
    InputRequired(Seq<InputRequestView>),
    /// The tool reached a completed result, including model-visible tool errors.
    Completed(ToolResultView),
    /// The deferred backend itself failed to execute the work.
    Failed(ErrorView),
    /// The execution reached its immutable cancelled state.
    Cancelled,
}

impl DeepView for DeferredToolState {
    type V = DeferredToolStateView;

    open spec fn deep_view(&self) -> DeferredToolStateView {
        match self {
            DeferredToolState::Working => DeferredToolStateView::Working,
            DeferredToolState::InputRequired(value) => DeferredToolStateView::InputRequired(value.deep_view()),
            DeferredToolState::Completed(value) => DeferredToolStateView::Completed(value.deep_view()),
            DeferredToolState::Failed(value) => DeferredToolStateView::Failed(value.deep_view()),
            DeferredToolState::Cancelled => DeferredToolStateView::Cancelled,
        }
    }
}

impl Duplicate for DeferredToolState {
    fn duplicate(&self) -> (copy: Self) {
        match self {
            DeferredToolState::Working => DeferredToolState::Working,
            DeferredToolState::InputRequired(value) => DeferredToolState::InputRequired(value.duplicate()),
            DeferredToolState::Completed(value) => DeferredToolState::Completed(value.duplicate()),
            DeferredToolState::Failed(value) => DeferredToolState::Failed(value.duplicate()),
            DeferredToolState::Cancelled => DeferredToolState::Cancelled,
        }
    }
}

impl Clone for DeferredToolState {
    fn clone(&self) -> (copy: Self)
        ensures
            copy.deep_view() == self.deep_view(),
    {
        self.duplicate()
    }
}

impl DeferredToolStateView {
    /// The states that an execution never leaves.
    pub open spec fn terminal(self) -> bool {
        self is Completed || self is Failed || self is Cancelled
    }
}

impl DeferredToolState {
    /// Whether the execution never leaves this state.
    pub fn is_terminal(&self) -> (terminal: bool)
        ensures
            terminal == self.deep_view().terminal(),
    {
        match self {
            DeferredToolState::Completed(_) => true,
            DeferredToolState::Failed(_) => true,
            DeferredToolState::Cancelled => true,
            _ => false,
        }
    }
}

/// Lifecycle signal emitted while a deferred tool is driven.
#[derive(Debug)]
pub enum DeferredToolLifecycleEvent {
    /// A descriptor was accepted for reconstruction.
    Started,
    /// The backend remains in progress.
    Working,
    /// The backend is waiting for application input.
    InputRequired {
        /// The outstanding requests.
        requests: InputRequests,
    },
    /// Matching application responses were submitted.
    InputSubmitted {
        /// The answered requests.
        request_ids: Vec<String>,
    },
    /// Cooperative cancellation was requested.
    CancellationRequested,
    /// The execution completed, including model-visible tool errors.
    Completed,
    /// The deferred execution itself failed.
    Failed {
        /// What went wrong.
        message: String,
    },
    /// The execution reached its cancelled terminal state.
    Cancelled,
}

/// The model of a [`DeferredToolLifecycleEvent`].
#[verifier::ext_equal]
pub enum DeferredToolLifecycleEventView {
    /// A descriptor was accepted for reconstruction.
    Started,
    /// The backend remains in progress.
    Working,
    /// The backend is waiting for application input.
    InputRequired {
        /// The outstanding requests.
        requests: Seq<InputRequestView>,
    },
    /// Matching application responses were submitted.
    InputSubmitted {
        /// The answered requests.
        request_ids: Seq<Seq<char>>,
    },
    /// Cooperative cancellation was requested.
    CancellationRequested,
    /// The execution completed, including model-visible tool errors.
    Completed,
    /// The deferred execution itself failed.
    Failed {
        /// What went wrong.
        message: Seq<char>,
    },
    /// The execution reached its cancelled terminal state.
    Cancelled,
}

impl DeepView for DeferredToolLifecycleEvent {
    type V = DeferredToolLifecycleEventView;

    open spec fn deep_view(&self) -> DeferredToolLifecycleEventView {
        match self {
            DeferredToolLifecycleEvent::Started => DeferredToolLifecycleEventView::Started,
            DeferredToolLifecycleEvent::Working => DeferredToolLifecycleEventView::Working,
            DeferredToolLifecycleEvent::InputRequired { requests } => DeferredToolLifecycleEventView::InputRequired {
                requests: requests.deep_view(),
            },
            DeferredToolLifecycleEvent::InputSubmitted { request_ids } => DeferredToolLifecycleEventView::InputSubmitted {
                request_ids: request_ids.deep_view(),
            },
            DeferredToolLifecycleEvent::CancellationRequested => DeferredToolLifecycleEventView::CancellationRequested,
            DeferredToolLifecycleEvent::Completed => DeferredToolLifecycleEventView::Completed,
            DeferredToolLifecycleEvent::Failed { message } => DeferredToolLifecycleEventView::Failed {
                message: message.deep_view(),
            },
            DeferredToolLifecycleEvent::Cancelled => DeferredToolLifecycleEventView::Cancelled,
        }
    }
}

impl Duplicate for DeferredToolLifecycleEvent {
    fn duplicate(&self) -> (copy: Self) {
        match self {
            DeferredToolLifecycleEvent::Started => DeferredToolLifecycleEvent::Started,
            DeferredToolLifecycleEvent::Working => DeferredToolLifecycleEvent::Working,
            DeferredToolLifecycleEvent::InputRequired { requests } => DeferredToolLifecycleEvent::InputRequired {
                requests: requests.duplicate(),
            },
            DeferredToolLifecycleEvent::InputSubmitted { request_ids } => DeferredToolLifecycleEvent::InputSubmitted {
                request_ids: request_ids.duplicate(),
            },
            DeferredToolLifecycleEvent::CancellationRequested => DeferredToolLifecycleEvent::CancellationRequested,
            DeferredToolLifecycleEvent::Completed => DeferredToolLifecycleEvent::Completed,
            DeferredToolLifecycleEvent::Failed { message } => DeferredToolLifecycleEvent::Failed {
                message: message.duplicate(),
            },
            DeferredToolLifecycleEvent::Cancelled => DeferredToolLifecycleEvent::Cancelled,
        }
    }
}

impl Clone for DeferredToolLifecycleEvent {
    fn clone(&self) -> (copy: Self)
        ensures
            copy.deep_view() == self.deep_view(),
    {
        self.duplicate()
    }
}

/// Live backend access to one deferred execution, as far as it needs no connection.
pub trait DeferredToolDriver {
    /// A context after the driver published into it. Nothing is published unless a driver says
    /// otherwise.
    open spec fn published(&self, context: ToolContextView) -> ToolContextView {
        context
    }

    /// Publish backend-specific terminal metadata into the context of the original dispatch.
    fn publish_result_context(&self, context: &mut ToolContext)
        ensures
            final(context).deep_view() == self.published(old(context).deep_view()),
    ;
}

/// Live access to a deferred tool execution that was brought back.
pub struct DeferredToolHandle<D> {
    descriptor: DeferredToolDescriptor,
    driver: D,
}

impl<D> DeferredToolHandle<D> {
    /// The description from which the execution was brought back.
    pub closed spec fn spec_descriptor(&self) -> DeferredToolDescriptorView {
        self.descriptor.deep_view()
    }

    /// The backend driver.
    pub closed spec fn spec_driver(&self) -> D {
        self.driver
    }

    /// A live handle from a descriptor and a backend driver.
    pub fn new(descriptor: DeferredToolDescriptor, driver: D) -> (handle: DeferredToolHandle<D>)
        ensures
            handle.spec_descriptor() == descriptor.deep_view(),
            handle.spec_driver() == driver,
    {
        DeferredToolHandle { descriptor, driver }
    }

    /// The description from which the execution was brought back.
    pub fn descriptor(&self) -> (descriptor: &DeferredToolDescriptor)
        ensures
            descriptor.deep_view() == self.spec_descriptor(),
    {
        &self.descriptor
    }

    /// The backend driver.
    pub fn driver(&self) -> (driver: &D)
        ensures
            *driver == self.spec_driver(),
    {
        &self.driver
    }
}

impl<D: DeferredToolDriver> DeferredToolHandle<D> {
    /// Publish backend-specific terminal metadata into a dispatch context.
    pub fn publish_result_context(&self, context: &mut ToolContext)
        ensures
            final(context).deep_view() == self.spec_driver().published(old(context).deep_view()),
    {
        self.driver.publish_result_context(context)
    }
}

/// Backend factory that can bring described executions back.
pub trait DeferredToolResolver {
    /// The key under which descriptors name this backend.
    open spec fn key(&self) -> Seq<char> {
        arbitrary()
    }

    /// Stable backend key stored in [`DeferredToolDescriptor`].
    fn backend_type(&self) -> (key: &str)
        ensures
            key@ == self.key(),
    ;
}

/// Resolver registration or descriptor validation failure.
#[derive(Debug)]
pub enum DeferredResolverError {
    /// A resolver is already registered for this backend key.
    AlreadyRegistered(String),
    /// No resolver is registered for this backend key.
    NotRegistered(String),
    /// The serialized descriptor format is not supported.
    UnsupportedVersion(u16),
    /// The descriptor has no backend key.
    MissingBackendType,
    /// The descriptor has no execution identifier.
    MissingExecutionId,
    /// Internal resolver registry synchronization failed.
    RegistryPoisoned,
}

/// The model of a [`DeferredResolverError`].
#[verifier::ext_equal]
pub enum DeferredResolverErrorView {
    /// A resolver is already registered for this backend key.
    AlreadyRegistered(Seq<char>),
    /// No resolver is registered for this backend key.
    NotRegistered(Seq<char>),
    /// The serialized descriptor format is not supported.
    UnsupportedVersion(u16),
    /// The descriptor has no backend key.
    MissingBackendType,
    /// The descriptor has no execution identifier.
    MissingExecutionId,
    /// Internal resolver registry synchronization failed.
    RegistryPoisoned,
}

impl DeepView for DeferredResolverError {
    type V = DeferredResolverErrorView;

    open spec fn deep_view(&self) -> DeferredResolverErrorView {
        match self {
            DeferredResolverError::AlreadyRegistered(value) => DeferredResolverErrorView::AlreadyRegistered(value.deep_view()),
            DeferredResolverError::NotRegistered(value) => DeferredResolverErrorView::NotRegistered(value.deep_view()),
            DeferredResolverError::UnsupportedVersion(value) => DeferredResolverErrorView::UnsupportedVersion(*value),
            DeferredResolverError::MissingBackendType => DeferredResolverErrorView::MissingBackendType,
            DeferredResolverError::MissingExecutionId => DeferredResolverErrorView::MissingExecutionId,
            DeferredResolverError::RegistryPoisoned => DeferredResolverErrorView::RegistryPoisoned,
        }
    }
}

impl Duplicate for DeferredResolverError {
    fn duplicate(&self) -> (copy: Self) {
        match self {
            DeferredResolverError::AlreadyRegistered(value) => DeferredResolverError::AlreadyRegistered(value.duplicate()),
            DeferredResolverError::NotRegistered(value) => DeferredResolverError::NotRegistered(value.duplicate()),
            DeferredResolverError::UnsupportedVersion(value) => DeferredResolverError::UnsupportedVersion(*value),
            DeferredResolverError::MissingBackendType => DeferredResolverError::MissingBackendType,
            DeferredResolverError::MissingExecutionId => DeferredResolverError::MissingExecutionId,
            DeferredResolverError::RegistryPoisoned => DeferredResolverError::RegistryPoisoned,
        }
    }
}

impl Clone for DeferredResolverError {
    fn clone(&self) -> (copy: Self)
        ensures
            copy.deep_view() == self.deep_view(),
    {
        self.duplicate()
    }
}

/// The rendering of a resolver error.
pub open spec fn resolver_error_text(error: DeferredResolverErrorView) -> Seq<char> {
    match error {
        DeferredResolverErrorView::AlreadyRegistered(key) =>
            "a deferred tool resolver is already registered for `"@ + key + "`"@,
        DeferredResolverErrorView::NotRegistered(key) =>
            "no deferred tool resolver is registered for `"@ + key + "`"@,
        DeferredResolverErrorView::UnsupportedVersion(version) =>
            "unsupported deferred tool descriptor version "@ + decimal(version as nat),
        DeferredResolverErrorView::MissingBackendType =>
            "deferred tool descriptor has an empty backend type"@,
        DeferredResolverErrorView::MissingExecutionId =>
            "deferred tool descriptor has an empty execution ID"@,
        DeferredResolverErrorView::RegistryPoisoned =>
            "deferred tool resolver registry lock is poisoned"@,
    }
}

impl DeferredResolverError {
    /// The rendering of the error.
    pub fn to_string(&self) -> (text: String)
        ensures
            text@ == resolver_error_text(self.deep_view()),
    {
        match self {
            DeferredResolverError::AlreadyRegistered(key) => {
                let mut text = "a deferred tool resolver is already registered for `".to_owned();
                text.append(key.as_str());
                text.append("`");
                text
            },
            DeferredResolverError::NotRegistered(key) => {
                let mut text = "no deferred tool resolver is registered for `".to_owned();
                text.append(key.as_str());
                text.append("`");
                text
            },
            DeferredResolverError::UnsupportedVersion(version) => {
                let mut text = "unsupported deferred tool descriptor version ".to_owned();
                text.append(decimal_text(*version as u64).as_str());
                text
            },
            DeferredResolverError::MissingBackendType => {
                "deferred tool descriptor has an empty backend type".to_owned()
            },
            DeferredResolverError::MissingExecutionId => {
                "deferred tool descriptor has an empty execution ID".to_owned()
            },
            DeferredResolverError::RegistryPoisoned => {
                "deferred tool resolver registry lock is poisoned".to_owned()
            },
        }
    }
}

/// Resolvers by the backend type of the descriptors that they bring back.
pub struct DeferredToolResolverRegistry<R> {
    resolvers: StringMap<Arc<R>>,
}

impl<R> View for DeferredToolResolverRegistry<R> {
    type V = Map<Seq<char>, R>;

    closed spec fn view(&self) -> Map<Seq<char>, R> {
        self.resolvers@.map_values(|resolver: Arc<R>| *resolver)
    }
}

/// The resolvers after one more was offered. One that is already there stays.
pub open spec fn registration<R>(resolvers: Map<Seq<char>, R>, key: Seq<char>, resolver: R) -> Map<
    Seq<char>,
    R,
> {
    if resolvers.contains_key(key) {
        resolvers
    } else {
        resolvers.insert(key, resolver)
    }
}

/// A registration never replaces a resolver, and a resolver that could be registered is found.
pub proof fn registration_never_replaces<R>(
    resolvers: Map<Seq<char>, R>,
    key: Seq<char>,
    resolver: R,
    other: Seq<char>,
)
    ensures
        resolvers.contains_key(other) ==> registration(resolvers, key, resolver).contains_key(other)
            && registration(resolvers, key, resolver)[other] == resolvers[other],
        !resolvers.contains_key(key) ==> registration(resolvers, key, resolver)[key] == resolver,
{
}

/// Why no resolver can be had for a descriptor, if so.
pub open spec fn resolution_failure<R>(
    resolvers: Map<Seq<char>, R>,
    descriptor: DeferredToolDescriptorView,
) -> Option<ErrorView> {
    match descriptor_defect(descriptor) {
        Some(defect) => Some(
            plain_error(ToolErrorKind::InvalidArgs, resolver_error_text(defect)),
        ),
        None => if resolvers.contains_key(descriptor.backend_type) {
            None
        } else {
            Some(
                plain_error(
                    ToolErrorKind::NotFound,
                    resolver_error_text(
                        DeferredResolverErrorView::NotRegistered(descriptor.backend_type),
                    ),
                ),
            )
        },
    }
}

impl<R: DeferredToolResolver> DeferredToolResolverRegistry<R> {
    /// A registry without resolvers.
    pub fn new() -> (registry: DeferredToolResolverRegistry<R>)
        ensures
            registry@ == Map::<Seq<char>, R>::empty(),
    {
        let registry = DeferredToolResolverRegistry { resolvers: StringMap::new() };
        assert(registry@ =~= Map::<Seq<char>, R>::empty());
        registry
    }

    /// Register one backend resolver without replacing an existing resolver.
    pub fn register(&mut self, resolver: R) -> (outcome: Result<(), DeferredResolverError>)
        ensures
            final(self)@ == registration(old(self)@, resolver.key(), resolver),
            outcome is Ok <==> !old(self)@.contains_key(resolver.key()),
            outcome matches Err(error) ==> error.deep_view()
                == DeferredResolverErrorView::AlreadyRegistered(resolver.key()),
    {
        self.register_arc(Arc::new(resolver))
    }

    /// Register an already shared resolver without replacing an existing one.
    pub fn register_arc(&mut self, resolver: Arc<R>) -> (outcome: Result<(), DeferredResolverError>)
        ensures
            final(self)@ == registration(old(self)@, (*resolver).key(), *resolver),
            outcome is Ok <==> !old(self)@.contains_key((*resolver).key()),
            outcome matches Err(error) ==> error.deep_view()
                == DeferredResolverErrorView::AlreadyRegistered((*resolver).key()),
    {
        let ghost before = self@;
        let key = resolver.backend_type().to_owned();
        if self.resolvers.contains_key(key.as_str()) {
            return Err(DeferredResolverError::AlreadyRegistered(key));
        }
        let _ = self.resolvers.insert(key, resolver);
        assert(self@ =~= before.insert((*resolver).key(), *resolver));
        Ok(())
    }

    /// The resolver that is registered for the backend of a valid descriptor.
    pub fn resolve(&self, descriptor: &DeferredToolDescriptor) -> (resolver: Result<
        &R,
        ToolExecutionError,
    >)
        ensures
            match resolution_failure(self@, descriptor.deep_view()) {
                Some(failure) => resolver matches Err(error) && error.deep_view() == failure,
                None => resolver matches Ok(found) && *found
                    == self@[descriptor.deep_view().backend_type],
            },
    {
        match descriptor.validate() {
            Ok(()) => {},
            Err(error) => {
                return Err(ToolExecutionError::invalid_args(error.to_string()));
            },
        }
        match self.resolvers.get(descriptor.backend_type()) {
            Some(resolver) => Ok(&**resolver),
            None => Err(
                ToolExecutionError::not_found(
                    DeferredResolverError::NotRegistered(
                        descriptor.backend_type().to_owned(),
                    ).to_string(),
                ),
            ),
        }
    }
}

/// A descriptor can be resolved exactly where it is of the current format, names a backend and an
/// execution in more than white space, and its backend has a resolver. Otherwise it is refused by
/// the first of these that fails: as arguments that cannot be used, or as a backend that nobody
/// knows, which is named.
pub proof fn descriptors_are_resolved_by_their_backend<R>(
    resolvers: Map<Seq<char>, R>,
    descriptor: DeferredToolDescriptorView,
)
    ensures
        ({
            let failure = resolution_failure(resolvers, descriptor);
            let blank = |text: Seq<char>| trimmed(text).len() == 0;
            let usable = descriptor.version == 1 && !blank(descriptor.backend_type) && !blank(
                descriptor.execution_id,
            );
            &&& failure is None <==> usable && resolvers.contains_key(descriptor.backend_type)
            &&& !usable ==> failure is Some && failure->0.kind is InvalidArgs
            &&& usable && failure is Some ==> failure->0.kind is NotFound && mentions(
                failure->0.message,
                descriptor.backend_type,
            )
            &&& descriptor.version != 1 ==> mentions(
                failure->0.message,
                decimal(descriptor.version as nat),
            )
            &&& failure matches Some(error) ==> error.code is None && error.retryable is None
        }),
        descriptor_defect(descriptor) == if descriptor.version != 1 {
            Some(DeferredResolverErrorView::UnsupportedVersion(descriptor.version))
        } else if trimmed(descriptor.backend_type).len() == 0 {
            Some(DeferredResolverErrorView::MissingBackendType)
        } else if trimmed(descriptor.execution_id).len() == 0 {
            Some(DeferredResolverErrorView::MissingExecutionId)
        } else {
            None
        },
{
    let key = descriptor.backend_type;
    parts_are_mentioned("no deferred tool resolver is registered for `"@, key, "`"@);
    let before = "unsupported deferred tool descriptor version "@;
    let none = Seq::<char>::empty();
    let version = decimal(descriptor.version as nat);
    parts_are_mentioned(before, version, none);
    assert(before + version + none =~= before + version);
}

/// A refused registration names the backend that is already registered.
pub proof fn refused_registrations_name_the_backend(key: Seq<char>)
    ensures
        mentions(
            resolver_error_text(DeferredResolverErrorView::AlreadyRegistered(key)),
            key,
        ),
{
    parts_are_mentioned("a deferred tool resolver is already registered for `"@, key, "`"@);
}

/// An execution is over exactly when it completed, failed or was cancelled.
pub proof fn executions_are_over_at_their_end(state: DeferredToolStateView)
    ensures
        state.terminal() <==> !(state is Working) && !(state is InputRequired),
{
}

} // verus!

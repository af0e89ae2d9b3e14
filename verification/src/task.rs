//! Deferred tool execution: the boundary between a tool and whoever drives its tasks.

use vstd::prelude::*;
use vstd::string::*;

use crate::descriptor::{ToolTaskDescriptor, ToolTaskDescriptorView};
use crate::duplicate::Duplicate;
use crate::duration::Duration;
use crate::error::{final_error, ErrorView, ToolErrorKind, ToolExecutionError};
use crate::model::result_view;
use crate::result::ToolResult;
use crate::status::ToolTaskStatus;
use crate::task_handle::{resumed_handle, McpTaskHandle, McpTaskHandleView};
use crate::text::same;

verus! {

/// A handle to a deferred tool execution, as far as it needs no connection.
pub trait ToolTaskHandle {
    /// The durable description of the task.
    open spec fn described(&self) -> ToolTaskDescriptorView {
        arbitrary()
    }

    /// The backend-assigned task id.
    fn task_id(&self) -> (id: &str)
        ensures
            id@ == self.described().task_id,
    ;

    /// Suggested delay between two status requests, if the backend provided one.
    fn poll_hint(&self) -> Option<Duration>;

    /// The durable description of the task.
    fn descriptor(&self) -> (descriptor: ToolTaskDescriptor)
        ensures
            descriptor.deep_view() == self.described(),
    ;

    /// What the backend wants the model to be told at once, if anything.
    fn immediate_response(&self) -> (text: Option<&str>)
        ensures
            match text {
                Some(text) => self.described().immediate_response == Some(text@),
                None => self.described().immediate_response is None,
            },
    ;
}

/// Brings suspended tasks back.
pub trait TaskResumer {
    /// The handles that this resumer gives out.
    type Handle: ToolTaskHandle;

    /// Brings the described task back. `Ok(None)` means that the task belongs to another resumer,
    /// which is asked next; an error is definitive.
    fn resume(&mut self, descriptor: &ToolTaskDescriptor) -> Result<
        Option<Self::Handle>,
        ToolExecutionError,
    >;
}

/// The outcome of dispatching a tool call: already complete, or deferred behind a handle that the
/// caller must drive.
#[derive(Debug)]
pub enum ToolDispatch<H> {
    /// The tool ran; the result is final.
    Completed(ToolResult),
    /// The backend accepted the call as a task.
    Deferred(H),
}

impl<H> ToolDispatch<H> {
    /// The final result where there is one; otherwise the handle, whose result has to be waited
    /// for.
    pub fn resolve(self) -> (result: Result<ToolResult, H>)
        ensures
            match self {
                ToolDispatch::Completed(done) => result == Ok::<ToolResult, H>(done),
                ToolDispatch::Deferred(handle) => result == Err::<ToolResult, H>(handle),
            },
    {
        match self {
            ToolDispatch::Completed(done) => Ok(done),
            ToolDispatch::Deferred(handle) => Err(handle),
        }
    }
}

/// What a tool says about being called as a task.
#[derive(Debug, Clone, Copy, PartialEq, Eq, Structural)]
pub enum TaskSupport {
    /// It must not be.
    Forbidden,
    /// It may be.
    Optional,
    /// It must be.
    Required,
}

/// When MCP tools are called as tasks. A server without tasks, or a tool that forbids them, is
/// never called so, whatever the policy.
#[derive(Debug, Clone, Copy, PartialEq, Eq, Structural)]
#[non_exhaustive]
pub enum McpTaskPolicy {
    /// Never. A tool that requires a task fails at once.
    Never,
    /// Only where the tool requires it.
    Required,
    /// Wherever the tool permits it.
    Preferred,
}

impl Default for McpTaskPolicy {
    fn default() -> (policy: Self)
        ensures
            policy == McpTaskPolicy::Required,
    {
        McpTaskPolicy::Required
    }
}

/// How a tool is called.
#[derive(Debug, Clone, Copy, PartialEq, Eq, Structural)]
pub enum DispatchMode {
    /// As an ordinary call.
    Plain,
    /// As a task.
    Task,
    /// Not at all: the tool requires a task, which the policy rules out.
    TaskRequired,
    /// Not at all: the tool requires a task, which the server does not offer.
    CapabilityMissing,
}

/// How a tool is called under a policy, by a server that offers tasks or not.
pub open spec fn dispatch_mode_of(
    policy: McpTaskPolicy,
    support: Option<TaskSupport>,
    server_offers_tasks: bool,
) -> DispatchMode {
    match support {
        Some(TaskSupport::Required) => if policy is Never {
            DispatchMode::TaskRequired
        } else if !server_offers_tasks {
            DispatchMode::CapabilityMissing
        } else {
            DispatchMode::Task
        },
        Some(TaskSupport::Optional) => if policy is Preferred && server_offers_tasks {
            DispatchMode::Task
        } else {
            DispatchMode::Plain
        },
        _ => DispatchMode::Plain,
    }
}

impl McpTaskPolicy {
    /// How a tool is called by a server that offers tasks or not.
    pub fn dispatch_mode(self, support: Option<TaskSupport>, server_offers_tasks: bool) -> (mode:
        DispatchMode)
        ensures
            mode == dispatch_mode_of(self, support, server_offers_tasks),
    {
        match support {
            Some(TaskSupport::Required) => if self == McpTaskPolicy::Never {
                DispatchMode::TaskRequired
            } else if !server_offers_tasks {
                DispatchMode::CapabilityMissing
            } else {
                DispatchMode::Task
            },
            Some(TaskSupport::Optional) => if self == McpTaskPolicy::Preferred
                && server_offers_tasks {
                DispatchMode::Task
            } else {
                DispatchMode::Plain
            },
            _ => DispatchMode::Plain,
        }
    }
}

impl DispatchMode {
    /// The failure of a call that is not made, with `message`; nothing for a call that is made.
    pub fn refusal(self, message: String) -> (error: Option<ToolExecutionError>)
        ensures
            error.deep_view() == match self {
                DispatchMode::TaskRequired => Some(
                    final_error(ToolErrorKind::Other, message@, "mcp_task_required"@),
                ),
                DispatchMode::CapabilityMissing => Some(
                    final_error(
                        ToolErrorKind::Provider,
                        message@,
                        "mcp_task_capability_missing"@,
                    ),
                ),
                _ => None,
            },
    {
        match self {
            DispatchMode::TaskRequired => Some(
                ToolExecutionError::other(message).with_code("mcp_task_required").with_retryable(
                    false,
                ),
            ),
            DispatchMode::CapabilityMissing => Some(
                ToolExecutionError::provider(message).with_code(
                    "mcp_task_capability_missing",
                ).with_retryable(false),
            ),
            _ => None,
        }
    }
}

/// A server without tasks, or a tool that forbids them or says nothing, is never called as a task,
/// whatever the policy; and a tool that requires a task is never called plainly.
pub proof fn protocol_rules_always_apply(
    policy: McpTaskPolicy,
    support: Option<TaskSupport>,
    server_offers_tasks: bool,
)
    ensures
        dispatch_mode_of(policy, support, server_offers_tasks) is Task ==> server_offers_tasks
            && support is Some && !(support->0 is Forbidden),
        support == Some(TaskSupport::Required) ==> !(dispatch_mode_of(
            policy,
            support,
            server_offers_tasks,
        ) is Plain),
{
}

/// Brings MCP tasks back on one connected server.
#[derive(Debug)]
pub struct McpTaskResumer {
    server_key: Option<String>,
    request_timeout: Option<Duration>,
    elicitation_available: bool,
}

/// The model of an [`McpTaskResumer`].
#[verifier::ext_equal]
pub struct McpTaskResumerView {
    /// `"{name}@{version}"` identity of the connected server.
    pub server_key: Option<Seq<char>>,
    /// Time limit of every request.
    pub request_timeout: Option<nat>,
    /// Whether the connection answers elicitations.
    pub elicitation_available: bool,
}

impl DeepView for McpTaskResumer {
    type V = McpTaskResumerView;

    closed spec fn deep_view(&self) -> McpTaskResumerView {
        McpTaskResumerView {
            server_key: self.server_key.deep_view(),
            request_timeout: self.request_timeout.deep_view(),
            elicitation_available: self.elicitation_available,
        }
    }
}

/// Whether a task may belong to a resumer's server. Identities that are not both known say nothing.
pub open spec fn may_own(resumer: McpTaskResumerView, descriptor: ToolTaskDescriptorView) -> bool {
    &&& descriptor.backend == ToolTaskDescriptor::BACKEND_MCP@
    &&& descriptor.server_key is Some && resumer.server_key is Some ==> descriptor.server_key
        == resumer.server_key
}

/// The handle that a resumer makes of a description.
pub open spec fn claimed(
    resumer: McpTaskResumerView,
    descriptor: ToolTaskDescriptorView,
) -> Option<McpTaskHandleView> {
    if may_own(resumer, descriptor) {
        Some(
            resumed_handle(
                descriptor,
                resumer.request_timeout,
                resumer.server_key,
                resumer.elicitation_available,
            )->Ok_0,
        )
    } else {
        None
    }
}

/// What a resumer gives back once it knows whether the server has the task.
pub open spec fn settled(
    handle: McpTaskHandleView,
    status: Result<ToolTaskStatus, ErrorView>,
) -> Result<Option<McpTaskHandleView>, ErrorView> {
    match status {
        Ok(_) => Ok(Some(handle)),
        Err(error) => if error.kind is NotFound {
            Ok(None)
        } else {
            Err(error)
        },
    }
}

impl McpTaskResumer {
    /// A resumer for a server with this identity.
    pub fn new(server_key: Option<String>, request_timeout: Option<Duration>) -> (resumer:
        McpTaskResumer)
        ensures
            resumer.deep_view() == (McpTaskResumerView {
                server_key: server_key.deep_view(),
                request_timeout: request_timeout.deep_view(),
                elicitation_available: false,
            }),
    {
        McpTaskResumer { server_key, request_timeout, elicitation_available: false }
    }

    /// Tells whether the connection answers elicitations, so that resumed tasks keep waiting where
    /// input is required.
    pub fn with_elicitation_available(self, available: bool) -> (resumer: McpTaskResumer)
        ensures
            resumer.deep_view() == (McpTaskResumerView {
                elicitation_available: available,
                ..self.deep_view()
            }),
    {
        McpTaskResumer {
            server_key: self.server_key,
            request_timeout: self.request_timeout,
            elicitation_available: available,
        }
    }

    /// The handle to the described task, if it may belong to this server. The server has to be
    /// asked for it before the handle is given out.
    pub fn claim(&self, descriptor: &ToolTaskDescriptor) -> (handle: Option<McpTaskHandle>)
        ensures
            handle.deep_view() == claimed(self.deep_view(), descriptor.deep_view()),
    {
        if !same(descriptor.backend.as_str(), ToolTaskDescriptor::BACKEND_MCP) {
            return None;
        }
        match (&descriptor.server_key, &self.server_key) {
            (Some(persisted), Some(live)) => {
                if !same(persisted.as_str(), live.as_str()) {
                    return None;
                }
            },
            _ => {},
        }
        match McpTaskHandle::resume_with_options(
            descriptor.duplicate(),
            self.request_timeout,
            self.server_key.duplicate(),
            self.elicitation_available,
        ) {
            Ok(handle) => Some(handle),
            Err(_) => None,
        }
    }

    /// Gives a claimed handle out once the server was asked for its task. A task that the server
    /// does not know belongs to another resumer.
    pub fn settle(&self, handle: McpTaskHandle, status: Result<ToolTaskStatus, ToolExecutionError>) -> (
        outcome: Result<Option<McpTaskHandle>, ToolExecutionError>)
        ensures
            result_view(outcome) == settled(handle.deep_view(), result_view(status)),
    {
        match status {
            Ok(_) => Ok(Some(handle)),
            Err(error) => if error.kind() == ToolErrorKind::NotFound {
                Ok(None)
            } else {
                Err(error)
            },
        }
    }
}

/// A resumer gives out a handle to the described task only, and only where the server knows it.
/// Servers with the same identity are told apart by which of them knows the task.
pub proof fn resumers_give_out_owned_tasks_only(
    resumer: McpTaskResumerView,
    descriptor: ToolTaskDescriptorView,
    status: Result<ToolTaskStatus, ErrorView>,
)
    requires
        claimed(resumer, descriptor) is Some,
    ensures
        claimed(resumer, descriptor)->0.task_id == descriptor.task_id,
        claimed(resumer, descriptor)->0.elicitation_available == resumer.elicitation_available,
        settled(claimed(resumer, descriptor)->0, status) matches Ok(Some(_)) <==> status is Ok,
        settled(claimed(resumer, descriptor)->0, status) matches Ok(None) <==> status is Err
            && status->Err_0.kind is NotFound,
{
}

/// A call becomes a task exactly where server and tool permit it and the tool requires it or the
/// policy prefers it. A tool that requires a task is refused where the policy forbids tasks or the
/// server has none; any other call is made plainly.
pub proof fn policies_decide_among_what_is_permitted(
    policy: McpTaskPolicy,
    support: Option<TaskSupport>,
    server_offers_tasks: bool,
)
    ensures
        ({
            let mode = dispatch_mode_of(policy, support, server_offers_tasks);
            let requires_task = support == Some(TaskSupport::Required);
            let may_be_task = support == Some(TaskSupport::Optional);
            &&& mode is Task <==> server_offers_tasks && ((requires_task && !(policy is Never)) || (
            may_be_task && policy is Preferred))
            &&& mode is TaskRequired <==> requires_task && policy is Never
            &&& mode is CapabilityMissing <==> requires_task && !(policy is Never)
                && !server_offers_tasks
            &&& mode is Plain <==> !requires_task && !(may_be_task && policy is Preferred
                && server_offers_tasks)
        }),
{
}

/// A resumer claims a task of its own backend unless the description names another server, and the
/// handle has the identity, the times and the response of the description, and the time limit, the
/// server and the word on elicitations of the resumer. The handle is given out as it is where the
/// server has the task; one that the server does not know belongs to another resumer, and any other
/// failure is told.
pub proof fn resumers_claim_their_own_tasks(
    resumer: McpTaskResumerView,
    descriptor: ToolTaskDescriptorView,
    handle: McpTaskHandleView,
    status: ToolTaskStatus,
    error: ErrorView,
)
    ensures
        claimed(resumer, descriptor) is Some <==> descriptor.backend == "mcp"@ && (
        descriptor.server_key is None || resumer.server_key is None || descriptor.server_key
            == resumer.server_key),
        claimed(resumer, descriptor) matches Some(back) ==> {
            &&& back.task_id == descriptor.task_id && back.tool_name == descriptor.tool_name
            &&& back.created_at == descriptor.created_at && back.ttl_ms == descriptor.ttl_ms
            &&& back.immediate_response == descriptor.immediate_response
            &&& back.request_timeout == resumer.request_timeout
            &&& back.server_key == resumer.server_key
            &&& back.elicitation_available == resumer.elicitation_available
        },
        settled(handle, Ok(status)) == Ok::<Option<McpTaskHandleView>, ErrorView>(Some(handle)),
        error.kind is NotFound ==> settled(handle, Err(error)) == Ok::<
            Option<McpTaskHandleView>,
            ErrorView,
        >(None),
        !(error.kind is NotFound) ==> settled(handle, Err(error)) == Err::<
            Option<McpTaskHandleView>,
            ErrorView,
        >(error),
{
}

} // verus!

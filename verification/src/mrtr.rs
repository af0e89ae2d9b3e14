//! Tool calls that need input from the client before they can complete, round by round.

use vstd::prelude::*;
use vstd::string::*;

use crate::client::{registered, takes_requests, waited_for, watchers, McpClientState};
use crate::content::{final_result, mcp_call_result, result_output};
use crate::deferred::{DeferredToolDriver, DeferredToolState, DeferredToolStateView, InputResponses};
use crate::duplicate::Duplicate;
use crate::duration::Duration;
use crate::error::{
    final_error, plain_error, ErrorCauseView, ErrorView, ToolErrorKind, ToolExecutionError,
};
use crate::expiry::{task_expiry, task_expiry_unix_ms};
use crate::json::{Json, JsonMap};
use crate::meta::{meta_of_trace, request_meta_from_trace};
use crate::model::{
    result_view, CallToolRequest, CallToolRequestView, CallToolResponse, CallToolResponseView,
    CallToolResultView, CreateTaskResultView, InputRequestEntry, InputRequestEntryView,
    InputRequiredResult, InputRequiredResultView, ServiceError, ServiceErrorView,
};
use crate::requests::{
    application_requests, responses_by_request, rig_input_requests, rmcp_input_responses,
};
use crate::result::{ToolContext, ToolContextView};
use crate::service_error::{mcp_service_error, service_failure};
use crate::string_map::{lists_exactly, StringMap};
use crate::task_driver::{
    client_refused, context_with_published, new_driver, nothing_published,
    publish_mcp_deferred_context, unretryable, McpPublishedContext, McpPublishedContextView,
    McpTaskDriver, McpTaskDriverView,
};
use crate::text::{decimal, decimal_text, mentions, parts_are_mentioned};

verus! {

/// A deferred execution that goes through input rounds.
#[derive(Debug)]
pub struct McpMrtrDriver {
    /// The tool.
    tool_name: String,
    /// The arguments of the call.
    arguments: Option<Json>,
    /// Limit of the input rounds.
    max_rounds: usize,
    /// Time limit of every request.
    request_timeout: Option<Duration>,
    /// Trace entries of the original call.
    trace_meta: JsonMap,
    /// The last request for input.
    current: InputRequiredResult,
    /// The present input round.
    round: usize,
    /// The final state, once it is known.
    terminal: Option<DeferredToolState>,
    /// The task that the call became, once it did.
    task_driver: Option<McpTaskDriver>,
    /// What is published of the answers.
    published: McpPublishedContext,
}

/// The model of a [`McpMrtrDriver`].
#[verifier::ext_equal]
pub struct McpMrtrDriverView {
    /// The tool.
    pub tool_name: Seq<char>,
    /// The arguments of the call.
    pub arguments: Option<Seq<char>>,
    /// Limit of the input rounds.
    pub max_rounds: usize,
    /// Time limit of every request.
    pub request_timeout: Option<nat>,
    /// Trace entries of the original call.
    pub trace_meta: Map<Seq<char>, Seq<char>>,
    /// The last request for input.
    pub current: InputRequiredResultView,
    /// The present input round.
    pub round: usize,
    /// The final state, once it is known.
    pub terminal: Option<DeferredToolStateView>,
    /// The task that the call became, once it did.
    pub task_driver: Option<McpTaskDriverView>,
    /// What is published of the answers.
    pub published: McpPublishedContextView,
}

impl DeepView for McpMrtrDriver {
    type V = McpMrtrDriverView;

    closed spec fn deep_view(&self) -> McpMrtrDriverView {
        McpMrtrDriverView {
            tool_name: self.tool_name.deep_view(),
            arguments: self.arguments.deep_view(),
            max_rounds: self.max_rounds,
            request_timeout: self.request_timeout.deep_view(),
            trace_meta: self.trace_meta.deep_view(),
            current: self.current.deep_view(),
            round: self.round,
            terminal: self.terminal.deep_view(),
            task_driver: self.task_driver.deep_view(),
            published: self.published.deep_view(),
        }
    }
}

impl Duplicate for McpMrtrDriver {
    fn duplicate(&self) -> (copy: Self) {
        McpMrtrDriver {
            tool_name: self.tool_name.duplicate(),
            arguments: self.arguments.duplicate(),
            max_rounds: self.max_rounds,
            request_timeout: self.request_timeout.duplicate(),
            trace_meta: self.trace_meta.duplicate(),
            current: self.current.duplicate(),
            round: self.round,
            terminal: self.terminal.duplicate(),
            task_driver: self.task_driver.duplicate(),
            published: self.published.duplicate(),
        }
    }
}

impl Clone for McpMrtrDriver {
    fn clone(&self) -> (copy: Self)
        ensures
            copy.deep_view() == self.deep_view(),
    {
        self.duplicate()
    }
}

/// What an execution needs next.
#[derive(Debug)]
pub enum MrtrStep {
    /// What the task driver says: the call became a task.
    Delegate,
    /// Nothing: the state is known.
    Ready(DeferredToolState),
    /// Nothing: what was submitted cannot be used.
    Refuse(ToolExecutionError),
    /// The answer to this tool call.
    Call {
        /// The call.
        request: CallToolRequest,
        /// The input round that begins if the answer asks for input again.
        next_round: usize,
    },
}

/// The model of a [`MrtrStep`].
#[verifier::ext_equal]
pub enum MrtrStepView {
    /// What the task driver says: the call became a task.
    Delegate,
    /// Nothing: the state is known.
    Ready(DeferredToolStateView),
    /// Nothing: what was submitted cannot be used.
    Refuse(ErrorView),
    /// The answer to this tool call.
    Call {
        /// The call.
        request: CallToolRequestView,
        /// The input round that begins if the answer asks for input again.
        next_round: usize,
    },
}

impl DeepView for MrtrStep {
    type V = MrtrStepView;

    open spec fn deep_view(&self) -> MrtrStepView {
        match self {
            MrtrStep::Delegate => MrtrStepView::Delegate,
            MrtrStep::Ready(value) => MrtrStepView::Ready(value.deep_view()),
            MrtrStep::Refuse(value) => MrtrStepView::Refuse(value.deep_view()),
            MrtrStep::Call { request, next_round } => MrtrStepView::Call {
                request: request.deep_view(),
                next_round: *next_round,
            },
        }
    }
}

/// What the answer to a tool call means.
#[derive(Debug)]
pub enum MrtrEnd {
    /// The execution is now in this state. See [`read_again`].
    State(DeferredToolState),
    /// The call became a task; its state is polled at once.
    PollTask,
}

/// The model of a [`MrtrEnd`].
#[verifier::ext_equal]
pub enum MrtrEndView {
    /// The execution is now in this state. See [`read_again`].
    State(DeferredToolStateView),
    /// The call became a task; its state is polled at once.
    PollTask,
}

impl DeepView for MrtrEnd {
    type V = MrtrEndView;

    open spec fn deep_view(&self) -> MrtrEndView {
        match self {
            MrtrEnd::State(value) => MrtrEndView::State(value.deep_view()),
            MrtrEnd::PollTask => MrtrEndView::PollTask,
        }
    }
}

/// Whether an execution is read again after a call that left it in `state`: one that works on waits
/// for nothing, so that the next call tells more.
pub fn read_again(state: &DeferredToolState) -> (again: bool)
    ensures
        again == (state.deep_view() is Working),
{
    match state {
        DeferredToolState::Working => true,
        _ => false,
    }
}

/// The requests that wait for an answer.
pub open spec fn outstanding(current: InputRequiredResultView) -> Map<
    Seq<char>,
    InputRequestEntryView,
> {
    match current.input_requests {
        Some(requests) => requests,
        None => Map::empty(),
    }
}

/// A driver at the start of a round.
pub open spec fn new_mrtr(
    tool_name: Seq<char>,
    arguments: Option<Seq<char>>,
    max_rounds: usize,
    request_timeout: Option<nat>,
    trace_meta: Map<Seq<char>, Seq<char>>,
    current: InputRequiredResultView,
    round: usize,
) -> McpMrtrDriverView {
    McpMrtrDriverView {
        tool_name,
        arguments,
        max_rounds,
        request_timeout,
        trace_meta,
        current,
        round,
        terminal: None,
        task_driver: None,
        published: nothing_published(),
    }
}

/// The failure of an execution that went through too many rounds.
pub open spec fn rounds_exceeded(driver: McpMrtrDriverView) -> ErrorView {
    final_error(
        ToolErrorKind::Provider,
        "MCP tool '"@ + driver.tool_name + "' exceeded the configured MRTR limit of "@ + decimal(
            driver.max_rounds as nat,
        ) + " rounds"@,
        "mcp_mrtr_rounds_exceeded"@,
    )
}

/// The next tool call of an execution.
pub open spec fn retry_request(
    driver: McpMrtrDriverView,
    responses: Map<Seq<char>, Seq<char>>,
) -> CallToolRequestView {
    CallToolRequestView {
        name: driver.tool_name,
        arguments: driver.arguments,
        input_responses: Some(responses),
        request_state: driver.current.request_state,
        meta: meta_of_trace(driver.trace_meta),
    }
}

/// How a retry begins: a final state is final, too many rounds are a failure, and anything else is
/// the next tool call.
pub open spec fn retry_begun(
    driver: McpMrtrDriverView,
    responses: Map<Seq<char>, Seq<char>>,
) -> (McpMrtrDriverView, MrtrStepView) {
    match driver.terminal {
        Some(state) => (driver, MrtrStepView::Ready(state)),
        None => if driver.round >= driver.max_rounds {
            let failed = DeferredToolStateView::Failed(rounds_exceeded(driver));
            (
                McpMrtrDriverView { terminal: Some(failed), ..driver },
                MrtrStepView::Ready(failed),
            )
        } else {
            (
                driver,
                MrtrStepView::Call {
                    request: retry_request(driver, responses),
                    next_round: (driver.round + 1) as usize,
                },
            )
        },
    }
}

/// How the state of an execution is read: by the task that it became, from what is known, or by
/// the next tool call where the server waits for nothing.
pub open spec fn state_read(driver: McpMrtrDriverView) -> (McpMrtrDriverView, MrtrStepView) {
    if driver.task_driver is Some {
        (driver, MrtrStepView::Delegate)
    } else if driver.terminal is Some {
        (driver, MrtrStepView::Ready(driver.terminal->0))
    } else if outstanding(driver.current) != Map::<Seq<char>, InputRequestEntryView>::empty() {
        (
            driver,
            MrtrStepView::Ready(
                DeferredToolStateView::InputRequired(
                    application_requests(outstanding(driver.current)),
                ),
            ),
        )
    } else {
        retry_begun(driver, Map::empty())
    }
}

/// The failure of responses that do not match the requests.
pub open spec fn mismatched_responses() -> ErrorView {
    plain_error(
        ToolErrorKind::InvalidArgs,
        "MRTR responses must exactly match the outstanding input request identifiers"@,
    )
}

/// How responses are submitted: to the task that the execution became, or with the next tool call
/// where they answer exactly the outstanding requests.
pub open spec fn input_submitted(
    driver: McpMrtrDriverView,
    responses: Map<Seq<char>, Seq<char>>,
) -> (McpMrtrDriverView, MrtrStepView) {
    if driver.task_driver is Some {
        (driver, MrtrStepView::Delegate)
    } else if outstanding(driver.current).dom() != responses.dom() {
        (driver, MrtrStepView::Refuse(mismatched_responses()))
    } else {
        retry_begun(driver, responses)
    }
}

/// How an execution is cancelled.
pub open spec fn cancellation(driver: McpMrtrDriverView) -> (McpMrtrDriverView, MrtrStepView) {
    if driver.task_driver is Some {
        (driver, MrtrStepView::Delegate)
    } else {
        match driver.terminal {
            Some(state) => (driver, MrtrStepView::Ready(state)),
            None => (
                McpMrtrDriverView {
                    terminal: Some(DeferredToolStateView::Cancelled),
                    ..driver
                },
                MrtrStepView::Ready(DeferredToolStateView::Cancelled),
            ),
        }
    }
}

/// What an execution tells after an answer that means `state`: a final state that is already known
/// stays.
pub open spec fn told_state(
    driver: McpMrtrDriverView,
    state: DeferredToolStateView,
) -> MrtrEndView {
    MrtrEndView::State(
        match driver.terminal {
            Some(known) => known,
            None => state,
        },
    )
}

/// What the answer to a tool call makes of an execution. `takes_requests` tells whether the client
/// can still take requests. A final state that came to be known during the call stays, and the
/// execution does not become a task any more.
pub open spec fn retry_answered(
    driver: McpMrtrDriverView,
    response: Result<CallToolResponseView, ServiceErrorView>,
    next_round: usize,
    takes_requests: bool,
    now: nat,
) -> (McpMrtrDriverView, Result<MrtrEndView, ErrorView>) {
    match response {
        Err(error) => (driver, Err(service_failure("tools/call MRTR retry"@, error))),
        Ok(CallToolResponseView::Complete(result)) => match final_result(
            result,
            Some(driver.tool_name),
        ) {
            Err(error) => (driver, Err(error)),
            Ok(shown) => (
                McpMrtrDriverView {
                    terminal: match driver.terminal {
                        Some(known) => Some(known),
                        None => Some(DeferredToolStateView::Completed(shown)),
                    },
                    published: McpPublishedContextView {
                        call_result: Some(result),
                        ..driver.published
                    },
                    ..driver
                },
                Ok(told_state(driver, DeferredToolStateView::Completed(shown))),
            ),
        },
        Ok(CallToolResponseView::InputRequired(result)) => (
            McpMrtrDriverView {
                current: result,
                round: next_round,
                published: McpPublishedContextView {
                    input_required: Some(result),
                    ..driver.published
                },
                ..driver
            },
            Ok(
                told_state(
                    driver,
                    match result.input_requests {
                        Some(requests) => DeferredToolStateView::InputRequired(
                            application_requests(requests),
                        ),
                        None => DeferredToolStateView::Working,
                    },
                ),
            ),
        ),
        Ok(CallToolResponseView::Task(created)) => match task_expiry(created.task) {
            Err(error) => (driver, Err(error)),
            Ok(expires_at) => if driver.terminal is Some {
                (driver, Ok(MrtrEndView::State(driver.terminal->0)))
            } else if takes_requests {
                (
                    McpMrtrDriverView {
                        task_driver: Some(
                            new_driver(
                                created.task.task_id,
                                expires_at,
                                created.task.poll_interval_ms,
                                driver.request_timeout,
                                driver.trace_meta,
                                now,
                            ),
                        ),
                        ..driver
                    },
                    Ok(MrtrEndView::PollTask),
                )
            } else {
                (driver, Err(client_refused()))
            },
        },
        Ok(CallToolResponseView::Unsupported) => (driver, Err(unsupported_response())),
    }
}

/// The failure of a tool call with an answer of no known kind.
pub open spec fn unsupported_response() -> ErrorView {
    unretryable(
        ToolErrorKind::Provider,
        "MCP tools/call returned an unsupported result type"@,
    )
}

/// The failure of a tool call with an answer of no known kind.
pub(crate) fn unsupported_response_error() -> (error: ToolExecutionError)
    ensures
        error.deep_view() == unsupported_response(),
{
    ToolExecutionError::provider(
        "MCP tools/call returned an unsupported result type".to_owned(),
    ).with_retryable(false)
}

/// Whether two maps have the same keys.
fn same_keys(requests: &StringMap<InputRequestEntry>, responses: &JsonMap) -> (result: bool)
    ensures
        result == (requests.deep_view().dom() == responses.deep_view().dom()),
{
    assert(requests.deep_view().dom() =~= requests@.dom());
    assert(responses.deep_view().dom() =~= responses@.dom());
    let count: usize = requests.len();
    if count != responses.len() {
        return false;
    }
    let keys = requests.key_list();
    let mut i: usize = 0;
    while i < keys.len()
        invariant
            i <= keys.len(),
            lists_exactly(keys.deep_view(), requests@.dom()),
            requests.deep_view().dom() == requests@.dom(),
            responses.deep_view().dom() == responses@.dom(),
            forall|j: int| 0 <= j < i ==> responses@.contains_key(#[trigger] keys.deep_view()[j]),
        decreases keys.len() - i,
    {
        if !responses.contains_key(keys[i].as_str()) {
            proof {
                assert(keys.deep_view().contains(keys.deep_view()[i as int]));
                assert(requests@.dom().contains(keys.deep_view()[i as int]));
            }
            return false;
        }
        i = i + 1;
    }
    proof {
        assert forall|key: Seq<char>| requests@.dom().contains(key) implies responses@.dom().contains(
            key,
        ) by {
            assert(keys.deep_view().contains(key));
            let j = choose|j: int| 0 <= j < keys.deep_view().len() && keys.deep_view()[j] == key;
            assert(responses@.contains_key(keys.deep_view()[j]));
        }
        assert(requests@.dom().subset_of(responses@.dom()));
        vstd::set_lib::lemma_subset_equality(requests@.dom(), responses@.dom());
    }
    true
}

impl McpMrtrDriver {
    /// A driver at the start of a round.
    pub fn new(
        tool_name: String,
        arguments: Option<Json>,
        max_rounds: usize,
        request_timeout: Option<Duration>,
        trace_meta: JsonMap,
        current: InputRequiredResult,
        round: usize,
    ) -> (driver: McpMrtrDriver)
        ensures
            driver.deep_view() == new_mrtr(
                tool_name@,
                arguments.deep_view(),
                max_rounds,
                request_timeout.deep_view(),
                trace_meta.deep_view(),
                current.deep_view(),
                round,
            ),
    {
        McpMrtrDriver {
            tool_name,
            arguments,
            max_rounds,
            request_timeout,
            trace_meta,
            current,
            round,
            terminal: None,
            task_driver: None,
            published: McpPublishedContext::default(),
        }
    }

    /// Time limit of every request.
    pub fn request_timeout(&self) -> (timeout: Option<Duration>)
        ensures
            timeout.deep_view() == self.deep_view().request_timeout,
    {
        self.request_timeout
    }

    /// The task that the call became, once it did.
    pub fn current_task_driver(&self) -> (driver: Option<&McpTaskDriver>)
        ensures
            match driver {
                Some(driver) => self.deep_view().task_driver == Some(driver.deep_view()),
                None => self.deep_view().task_driver is None,
            },
    {
        match &self.task_driver {
            Some(driver) => Some(driver),
            None => None,
        }
    }

    /// Puts a task driver back that went on elsewhere.
    pub fn set_task_driver(&mut self, driver: McpTaskDriver)
        ensures
            final(self).deep_view() == (McpMrtrDriverView {
                task_driver: Some(driver.deep_view()),
                ..old(self).deep_view()
            }),
    {
        self.task_driver = Some(driver);
    }

    /// Begins the next tool call with `responses`.
    pub fn retry(&mut self, responses: JsonMap) -> (step: MrtrStep)
        ensures
            (final(self).deep_view(), step.deep_view()) == retry_begun(
                old(self).deep_view(),
                responses.deep_view(),
            ),
    {
        match &self.terminal {
            Some(state) => {
                return MrtrStep::Ready(state.duplicate());
            },
            None => {},
        }
        if self.round >= self.max_rounds {
            let mut text = "MCP tool '".to_owned();
            text.append(self.tool_name.as_str());
            text.append("' exceeded the configured MRTR limit of ");
            text.append(decimal_text(self.max_rounds as u64).as_str());
            text.append(" rounds");
            let failed = DeferredToolState::Failed(
                ToolExecutionError::provider(text).with_code(
                    "mcp_mrtr_rounds_exceeded",
                ).with_retryable(false),
            );
            self.terminal = Some(failed.duplicate());
            return MrtrStep::Ready(failed);
        }
        let request = CallToolRequest {
            name: self.tool_name.clone(),
            arguments: self.arguments.duplicate(),
            input_responses: Some(responses),
            request_state: self.current.request_state.duplicate(),
            meta: request_meta_from_trace(&self.trace_meta),
        };
        MrtrStep::Call { request, next_round: self.round + 1 }
    }

    /// Reads the state.
    pub fn state(&mut self) -> (step: MrtrStep)
        ensures
            (final(self).deep_view(), step.deep_view()) == state_read(old(self).deep_view()),
    {
        if self.task_driver.is_some() {
            return MrtrStep::Delegate;
        }
        match &self.terminal {
            Some(state) => {
                return MrtrStep::Ready(state.duplicate());
            },
            None => {},
        }
        match &self.current.input_requests {
            Some(requests) => {
                if !requests.is_empty() {
                    proof {
                        nonempty_stays_nonempty(requests);
                    }
                    return MrtrStep::Ready(
                        DeferredToolState::InputRequired(rig_input_requests(requests)),
                    );
                }
                assert(requests.deep_view() =~= Map::<Seq<char>, InputRequestEntryView>::empty());
            },
            None => {},
        }
        let none: JsonMap = StringMap::new();
        assert(none.deep_view() =~= Map::<Seq<char>, Seq<char>>::empty());
        self.retry(none)
    }

    /// Submits the application's responses.
    pub fn submit_input(&mut self, responses: &InputResponses) -> (step: MrtrStep)
        ensures
            (final(self).deep_view(), step.deep_view()) == input_submitted(
                old(self).deep_view(),
                responses_by_request(responses.deep_view()),
            ),
    {
        if self.task_driver.is_some() {
            return MrtrStep::Delegate;
        }
        let responses = rmcp_input_responses(responses.duplicate());
        let matching = match &self.current.input_requests {
            Some(requests) => same_keys(requests, &responses),
            None => {
                let none = responses.is_empty();
                proof {
                    assert(responses.deep_view().dom() =~= responses@.dom());
                    assert(responses@ == Map::<Seq<char>, Json>::empty() ==> responses@.dom()
                        =~= Set::<Seq<char>>::empty());
                    if responses@.dom() == Set::<Seq<char>>::empty() {
                        assert(responses@ =~= Map::<Seq<char>, Json>::empty());
                    }
                    assert(Map::<Seq<char>, InputRequestEntryView>::empty().dom() =~= Set::<
                        Seq<char>,
                    >::empty());
                }
                none
            },
        };
        if !matching {
            return MrtrStep::Refuse(
                ToolExecutionError::invalid_args(
                    "MRTR responses must exactly match the outstanding input request identifiers".to_owned(),
                ),
            );
        }
        self.retry(responses)
    }

    /// Cancels the execution.
    pub fn cancel(&mut self) -> (step: MrtrStep)
        ensures
            (final(self).deep_view(), step.deep_view()) == cancellation(old(self).deep_view()),
    {
        if self.task_driver.is_some() {
            return MrtrStep::Delegate;
        }
        match &self.terminal {
            Some(state) => {
                return MrtrStep::Ready(state.duplicate());
            },
            None => {},
        }
        self.terminal = Some(DeferredToolState::Cancelled);
        MrtrStep::Ready(DeferredToolState::Cancelled)
    }

    /// Takes the answer to a tool call into account. A call that became a task is watched by
    /// `client` from now on.
    pub fn answered(
        &mut self,
        response: Result<CallToolResponse, ServiceError>,
        next_round: usize,
        client: &mut McpClientState,
        now: Duration,
    ) -> (end: Result<MrtrEnd, ToolExecutionError>)
        requires
            response matches Ok(CallToolResponse::Task(created)) ==> {
                &&& watchers(
                    old(client).task_notifications.deep_view(),
                    created.task.task_id@,
                ) < usize::MAX
                &&& old(client).task_notifications.deep_view().revision < u64::MAX
            },
        ensures
            (final(self).deep_view(), result_view(end)) == retry_answered(
                old(self).deep_view(),
                result_view(response),
                next_round,
                takes_requests(old(client)),
                now@,
            ),
            end matches Ok(MrtrEnd::PollTask) ==> {
                let id = response->Ok_0->Task_0.task.task_id@;
                &&& final(client).task_notifications.deep_view() == registered(
                    waited_for(old(client).task_notifications.deep_view(), id),
                    id,
                )
                &&& *final(client) == (McpClientState {
                    task_notifications: final(client).task_notifications,
                    ..*old(client)
                })
            },
            !(end matches Ok(MrtrEnd::PollTask)) ==> *final(client) == *old(client),
    {
        match response {
            Err(error) => Err(mcp_service_error("tools/call MRTR retry", error)),
            Ok(CallToolResponse::Complete(result)) => {
                match mcp_call_result(&result, Some(self.tool_name.as_str())) {
                    Err(error) => Err(error),
                    Ok(shown) => {
                        self.published.call_result = Some(result);
                        match &self.terminal {
                            Some(known) => {
                                return Ok(MrtrEnd::State(known.duplicate()));
                            },
                            None => {},
                        }
                        let state = DeferredToolState::Completed(shown);
                        self.terminal = Some(state.duplicate());
                        Ok(MrtrEnd::State(state))
                    },
                }
            },
            Ok(CallToolResponse::InputRequired(result)) => {
                self.published.input_required = Some(result.duplicate());
                let state = match &result.input_requests {
                    Some(requests) => {
                        DeferredToolState::InputRequired(rig_input_requests(requests))
                    },
                    None => DeferredToolState::Working,
                };
                self.current = result;
                self.round = next_round;
                match &self.terminal {
                    Some(known) => Ok(MrtrEnd::State(known.duplicate())),
                    None => Ok(MrtrEnd::State(state)),
                }
            },
            Ok(CallToolResponse::Task(created)) => {
                let expires_at_unix_ms = match task_expiry_unix_ms(&created.task) {
                    Ok(expires_at_unix_ms) => expires_at_unix_ms,
                    Err(error) => {
                        return Err(error);
                    },
                };
                match &self.terminal {
                    Some(known) => {
                        return Ok(MrtrEnd::State(known.duplicate()));
                    },
                    None => {},
                }
                match McpTaskDriver::new(
                    client,
                    created.task.task_id,
                    expires_at_unix_ms,
                    created.task.poll_interval_ms,
                    self.request_timeout,
                    self.trace_meta.duplicate(),
                    now,
                ) {
                    Ok(driver) => {
                        self.task_driver = Some(driver);
                        Ok(MrtrEnd::PollTask)
                    },
                    Err(error) => Err(error),
                }
            },
            Ok(CallToolResponse::Unsupported) => Err(unsupported_response_error()),
        }
    }
}

/// A map with an entry has one in its model.
proof fn nonempty_stays_nonempty(requests: &StringMap<InputRequestEntry>)
    requires
        requests@ != Map::<Seq<char>, InputRequestEntry>::empty(),
    ensures
        requests.deep_view() != Map::<Seq<char>, InputRequestEntryView>::empty(),
{
    if requests.deep_view() == Map::<Seq<char>, InputRequestEntryView>::empty() {
        assert forall|key: Seq<char>| !requests@.contains_key(key) by {
            assert(requests.deep_view().contains_key(key) == requests@.contains_key(key));
        }
        assert(requests@ =~= Map::<Seq<char>, InputRequestEntry>::empty());
    }
}

impl DeferredToolDriver for McpMrtrDriver {
    closed spec fn published(&self, context: ToolContextView) -> ToolContextView {
        published_by(self.deep_view(), context)
    }

    fn publish_result_context(&self, context: &mut ToolContext)
        ensures
            final(context).deep_view() == published_by(self.deep_view(), old(context).deep_view()),
    {
        publish_mcp_deferred_context(&self.published, context);
        match &self.task_driver {
            Some(driver) => driver.publish_result_context(context),
            None => {},
        }
    }
}

/// A context after an execution published into it, the task that it became last.
pub open spec fn published_by(driver: McpMrtrDriverView, context: ToolContextView) ->
    ToolContextView {
    let own = context_with_published(driver.published, context);
    match driver.task_driver {
        Some(task) => context_with_published(task.published, own),
        None => own,
    }
}

/// A final state is final for everything that an execution can be asked, as long as it has not
/// become a task, and no answer to a call that is still under way changes it. The one exception are
/// responses that match no outstanding request: they are refused.
pub proof fn final_rounds_are_final(
    driver: McpMrtrDriverView,
    responses: Map<Seq<char>, Seq<char>>,
    response: Result<CallToolResponseView, ServiceErrorView>,
    next_round: usize,
    takes_requests: bool,
    now: nat,
)
    requires
        driver.terminal is Some,
        driver.task_driver is None,
    ensures
        state_read(driver) == (driver, MrtrStepView::Ready(driver.terminal->0)),
        retry_begun(driver, responses) == (driver, MrtrStepView::Ready(driver.terminal->0)),
        cancellation(driver) == (driver, MrtrStepView::Ready(driver.terminal->0)),
        input_submitted(driver, responses).0 == driver,
        input_submitted(driver, responses).1 is Ready ==> input_submitted(driver, responses).1
            == MrtrStepView::Ready(driver.terminal->0),
        ({
            let (after, end) = retry_answered(driver, response, next_round, takes_requests, now);
            &&& after.terminal == driver.terminal
            &&& after.task_driver is None
            &&& end matches Ok(told) ==> told == MrtrEndView::State(driver.terminal->0)
        }),
{
}

/// A tool call is made only within the limit of rounds, and each round that ends in another request
/// for input counts.
pub proof fn rounds_are_bounded(
    driver: McpMrtrDriverView,
    responses: Map<Seq<char>, Seq<char>>,
    result: InputRequiredResultView,
    takes_requests: bool,
    now: nat,
)
    ensures
        retry_begun(driver, responses).1 matches MrtrStepView::Call { next_round, .. } ==> {
            let next = retry_answered(
                driver,
                Ok(CallToolResponseView::InputRequired(result)),
                next_round,
                takes_requests,
                now,
            ).0;
            &&& next_round == driver.round + 1
            &&& next_round <= driver.max_rounds
            &&& next.round == next_round
            &&& next.max_rounds == driver.max_rounds
            &&& next.max_rounds - next.round < driver.max_rounds - driver.round
        },
        driver.terminal is None && driver.round >= driver.max_rounds ==> retry_begun(
            driver,
            responses,
        ).1 == MrtrStepView::Ready(DeferredToolStateView::Failed(rounds_exceeded(driver))),
{
}

/// An execution after a number of input rounds, each answered with another request for input; none
/// where some call is not made any more.
pub open spec fn after_rounds(
    driver: McpMrtrDriverView,
    responses: Seq<Map<Seq<char>, Seq<char>>>,
    answers: Seq<InputRequiredResultView>,
) -> Option<McpMrtrDriverView>
    decreases answers.len(),
{
    if answers.len() == 0 {
        Some(driver)
    } else {
        match retry_begun(driver, responses[0]).1 {
            MrtrStepView::Call { next_round, .. } => after_rounds(
                retry_answered(
                    driver,
                    Ok(CallToolResponseView::InputRequired(answers[0])),
                    next_round,
                    true,
                    0,
                ).0,
                responses.drop_first(),
                answers.drop_first(),
            ),
            _ => None,
        }
    }
}

/// However long a server keeps asking for input, the calls end: no execution goes through more
/// rounds than its limit leaves.
pub proof fn input_rounds_end(
    driver: McpMrtrDriverView,
    responses: Seq<Map<Seq<char>, Seq<char>>>,
    answers: Seq<InputRequiredResultView>,
)
    requires
        driver.round <= driver.max_rounds,
        after_rounds(driver, responses, answers) is Some,
    ensures
        answers.len() <= driver.max_rounds - driver.round,
        after_rounds(driver, responses, answers)->0.round == driver.round + answers.len(),
    decreases answers.len(),
{
    if answers.len() > 0 {
        rounds_are_bounded(driver, responses[0], answers[0], true, 0);
        let next_round = retry_begun(driver, responses[0]).1->Call_next_round;
        input_rounds_end(
            retry_answered(
                driver,
                Ok(CallToolResponseView::InputRequired(answers[0])),
                next_round,
                true,
                0,
            ).0,
            responses.drop_first(),
            answers.drop_first(),
        );
    }
}

/// Every tool call of an execution is the original one: the same tool, arguments and trace entries,
/// with the state that the server asked to get back and exactly the submitted responses.
pub proof fn retries_repeat_the_call(
    driver: McpMrtrDriverView,
    responses: Map<Seq<char>, Seq<char>>,
)
    ensures
        input_submitted(driver, responses).1 matches MrtrStepView::Call { request, .. } ==> {
            &&& request.name == driver.tool_name
            &&& request.arguments == driver.arguments
            &&& request.request_state == driver.current.request_state
            &&& request.meta == meta_of_trace(driver.trace_meta)
            &&& request.input_responses == Some(responses)
            &&& responses.dom() == outstanding(driver.current).dom()
        },
{
}

/// A driver begins with what it was given, knows no end and has become no task.
pub proof fn rounds_begin_with_what_was_given(
    tool_name: Seq<char>,
    arguments: Option<Seq<char>>,
    max_rounds: usize,
    request_timeout: Option<nat>,
    trace_meta: Map<Seq<char>, Seq<char>>,
    current: InputRequiredResultView,
    round: usize,
)
    ensures
        ({
            let driver = new_mrtr(
                tool_name,
                arguments,
                max_rounds,
                request_timeout,
                trace_meta,
                current,
                round,
            );
            &&& driver.tool_name == tool_name && driver.arguments == arguments
            &&& driver.max_rounds == max_rounds && driver.round == round
            &&& driver.request_timeout == request_timeout && driver.trace_meta == trace_meta
            &&& driver.current == current
            &&& driver.terminal is None && driver.task_driver is None
            &&& driver.published.call_result is None && driver.published.task_result is None
            &&& driver.published.input_required is None
        }),
        current.input_requests matches Some(requests) ==> outstanding(current) == requests,
        current.input_requests is None ==> outstanding(current) == Map::<
            Seq<char>,
            InputRequestEntryView,
        >::empty(),
{
}

/// Reading the state shows what the server asks for where it asks for anything, and calls the tool
/// again with no responses where it does not; it changes nothing unless the rounds are used up.
pub proof fn reading_shows_what_is_asked(driver: McpMrtrDriverView)
    requires
        driver.terminal is None,
    ensures
        driver.task_driver is Some ==> state_read(driver) == (driver, MrtrStepView::Delegate),
        driver.task_driver is None && outstanding(driver.current) != Map::<
            Seq<char>,
            InputRequestEntryView,
        >::empty() ==> state_read(driver) == (
            driver,
            MrtrStepView::Ready(
                DeferredToolStateView::InputRequired(
                    application_requests(outstanding(driver.current)),
                ),
            ),
        ),
        driver.task_driver is None && outstanding(driver.current) == Map::<
            Seq<char>,
            InputRequestEntryView,
        >::empty() && driver.round < driver.max_rounds ==> state_read(driver).0 == driver && (
        state_read(driver).1 matches MrtrStepView::Call { request, next_round } && {
            &&& next_round == driver.round + 1
            &&& request.name == driver.tool_name && request.arguments == driver.arguments
            &&& request.request_state == driver.current.request_state
            &&& request.input_responses == Some(Map::<Seq<char>, Seq<char>>::empty())
            &&& request.meta is Some <==> driver.trace_meta != Map::<Seq<char>, Seq<char>>::empty()
            &&& request.meta matches Some(entries) ==> entries == driver.trace_meta
        }),
        driver.task_driver is None && outstanding(driver.current) == Map::<
            Seq<char>,
            InputRequestEntryView,
        >::empty() && driver.round >= driver.max_rounds ==> (state_read(driver).1 matches
            MrtrStepView::Ready(DeferredToolStateView::Failed(error)) && state_read(
            driver,
        ).0.terminal == Some(DeferredToolStateView::Failed(error))),
{
}

/// Responses are taken exactly where they answer the outstanding requests, each of them and no
/// other; then the tool is called again with them, within the limit of rounds. Any others are
/// refused as arguments that cannot be used, and change nothing.
pub proof fn responses_answer_exactly_the_requests(
    driver: McpMrtrDriverView,
    responses: Map<Seq<char>, Seq<char>>,
)
    requires
        driver.terminal is None,
        driver.task_driver is None,
    ensures
        ({
            let (next, step) = input_submitted(driver, responses);
            let matching = forall|id: Seq<char>|
                #![trigger responses.contains_key(id)]
                #![trigger outstanding(driver.current).contains_key(id)]
                responses.contains_key(id) <==> outstanding(driver.current).contains_key(id);
            &&& !matching ==> next == driver && (step matches MrtrStepView::Refuse(error)
                && error.kind is InvalidArgs && error.code is None)
            &&& matching && driver.round < driver.max_rounds ==> next == driver && (step matches
                MrtrStepView::Call { request, next_round } && {
                &&& next_round == driver.round + 1
                &&& request.name == driver.tool_name && request.arguments == driver.arguments
                &&& request.request_state == driver.current.request_state
                &&& request.input_responses == Some(responses)
                &&& request.meta is Some <==> driver.trace_meta != Map::<
                    Seq<char>,
                    Seq<char>,
                >::empty()
                &&& request.meta matches Some(entries) ==> entries == driver.trace_meta
            })
            &&& matching && driver.round >= driver.max_rounds ==> (step matches
                MrtrStepView::Ready(DeferredToolStateView::Failed(error)) && next.terminal == Some(
                DeferredToolStateView::Failed(error),
            ))
        }),
{
    let asked = outstanding(driver.current);
    if forall|id: Seq<char>|
        #![trigger responses.contains_key(id)]
        #![trigger asked.contains_key(id)]
        responses.contains_key(id) <==> asked.contains_key(id) {
        assert(asked.dom() =~= responses.dom()) by {
            assert forall|id: Seq<char>| asked.dom().contains(id) <==> responses.dom().contains(
                id,
            ) by {
                assert(responses.contains_key(id) <==> asked.contains_key(id));
            }
        }
    } else {
        let id = choose|id: Seq<char>|
            #![trigger responses.contains_key(id)]
            responses.contains_key(id) != asked.contains_key(id);
        assert(asked.dom().contains(id) != responses.dom().contains(id));
    }
}

/// An execution that used up its rounds fails for good as the server's fault, by the tool and the
/// limit.
pub proof fn used_up_rounds_fail_for_good(
    driver: McpMrtrDriverView,
    responses: Map<Seq<char>, Seq<char>>,
)
    requires
        driver.terminal is None,
        driver.round >= driver.max_rounds,
    ensures
        ({
            let (next, step) = retry_begun(driver, responses);
            &&& step matches MrtrStepView::Ready(DeferredToolStateView::Failed(error)) && {
                &&& error.kind is Provider
                &&& error.code == Some("mcp_mrtr_rounds_exceeded"@)
                &&& error.retryable == Some(false) && error.cause is None
                &&& mentions(error.message, driver.tool_name)
                &&& mentions(error.message, decimal(driver.max_rounds as nat))
                &&& next.terminal == Some(DeferredToolStateView::Failed(error))
            }
            &&& next == (McpMrtrDriverView { terminal: next.terminal, ..driver })
        }),
{
    let a = "MCP tool '"@;
    let b = "' exceeded the configured MRTR limit of "@;
    let c = " rounds"@;
    let name = driver.tool_name;
    let limit = decimal(driver.max_rounds as nat);
    parts_are_mentioned(a, name, b + limit + c);
    assert(a + name + (b + limit + c) =~= rounds_exceeded(driver).message);
    parts_are_mentioned(a + name + b, limit, c);
    assert(a + name + b + limit + c =~= rounds_exceeded(driver).message);
}

/// A cancellation ends an execution that has neither ended nor become a task, and changes nothing
/// else. The task that an execution became is cancelled, answered and read in its place.
pub proof fn cancelled_rounds_are_over(
    driver: McpMrtrDriverView,
    responses: Map<Seq<char>, Seq<char>>,
)
    ensures
        driver.task_driver is Some ==> cancellation(driver) == (driver, MrtrStepView::Delegate),
        driver.task_driver is Some ==> input_submitted(driver, responses) == (
            driver,
            MrtrStepView::Delegate,
        ),
        driver.task_driver is Some ==> state_read(driver) == (driver, MrtrStepView::Delegate),
        driver.task_driver is None && driver.terminal is None ==> cancellation(driver) == (
            McpMrtrDriverView { terminal: Some(DeferredToolStateView::Cancelled), ..driver },
            MrtrStepView::Ready(DeferredToolStateView::Cancelled),
        ),
{
}

/// A complete answer ends the execution with the result that it shows, which fails exactly where the
/// tool reports an error, and is published. A request for input is what is outstanding from then on,
/// in the next round, and is shown. A task is driven from then on, with the time limit and the trace
/// of the call.
pub proof fn answers_to_a_round_are_taken_over(
    driver: McpMrtrDriverView,
    result: CallToolResultView,
    required: InputRequiredResultView,
    created: CreateTaskResultView,
    next_round: usize,
    takes_requests: bool,
    now: nat,
)
    requires
        driver.terminal is None,
    ensures
        ({
            let (next, end) = retry_answered(
                driver,
                Ok(CallToolResponseView::Complete(result)),
                next_round,
                takes_requests,
                now,
            );
            &&& result_output(result) matches Err(error) ==> next == driver && end == Err::<
                MrtrEndView,
                ErrorView,
            >(error)
            &&& result_output(result) matches Ok(output) ==> (end matches Ok(
                MrtrEndView::State(DeferredToolStateView::Completed(shown)),
            ) && {
                &&& shown.output == output
                &&& shown.error is Some <==> result.is_error == Some(true)
                &&& next == (McpMrtrDriverView {
                    terminal: Some(DeferredToolStateView::Completed(shown)),
                    published: next.published,
                    ..driver
                })
                &&& next.published.call_result == Some(result)
                &&& next.published.task_result == driver.published.task_result
                &&& next.published.input_required == driver.published.input_required
            })
        }),
        ({
            let (next, end) = retry_answered(
                driver,
                Ok(CallToolResponseView::InputRequired(required)),
                next_round,
                takes_requests,
                now,
            );
            &&& next.current == required && next.round == next_round
            &&& next.published.input_required == Some(required)
            &&& next.published.call_result == driver.published.call_result
            &&& next.published.task_result == driver.published.task_result
            &&& next.terminal is None && next.task_driver == driver.task_driver
            &&& next.tool_name == driver.tool_name && next.arguments == driver.arguments
            &&& next.max_rounds == driver.max_rounds && next.trace_meta == driver.trace_meta
            &&& next.request_timeout == driver.request_timeout
            &&& required.input_requests matches Some(requests) ==> end == Ok::<
                MrtrEndView,
                ErrorView,
            >(
                MrtrEndView::State(
                    DeferredToolStateView::InputRequired(application_requests(requests)),
                ),
            )
            &&& required.input_requests is None ==> end == Ok::<MrtrEndView, ErrorView>(
                MrtrEndView::State(DeferredToolStateView::Working),
            )
        }),
        ({
            let (next, end) = retry_answered(
                driver,
                Ok(CallToolResponseView::Task(created)),
                next_round,
                takes_requests,
                now,
            );
            &&& end is Ok <==> task_expiry(created.task) is Ok && takes_requests
            &&& end is Err ==> next == driver
            &&& end is Ok ==> end->Ok_0 is PollTask && next == (McpMrtrDriverView {
                task_driver: next.task_driver,
                ..driver
            }) && (next.task_driver matches Some(task) && {
                &&& task.task_id == created.task.task_id
                &&& task_expiry(created.task) == Ok::<Option<i64>, ErrorView>(
                    task.expires_at_unix_ms,
                )
                &&& created.task.poll_interval_ms matches Some(ms) ==> task.poll_interval
                    == ms * 1_000_000
                &&& task.request_timeout == driver.request_timeout
                &&& task.trace_meta == driver.trace_meta
                &&& task.terminal is None && !task.polled_once && task.polled_at == now
            })
        }),
{
}

/// An answer that cannot be used changes nothing and is told by what is wrong with it: the request
/// that failed, or an answer of no known kind, which is the server's fault and final.
pub proof fn unusable_answers_to_a_round_change_nothing(
    driver: McpMrtrDriverView,
    error: ServiceErrorView,
    next_round: usize,
    takes_requests: bool,
    now: nat,
)
    ensures
        ({
            let (next, end) = retry_answered(driver, Err(error), next_round, takes_requests, now);
            &&& next == driver
            &&& end matches Err(failure) && failure.cause == Some(ErrorCauseView::Service(error))
        }),
        ({
            let (next, end) = retry_answered(
                driver,
                Ok(CallToolResponseView::Unsupported),
                next_round,
                takes_requests,
                now,
            );
            &&& next == driver
            &&& end matches Err(failure) && failure.kind is Provider && failure.retryable == Some(
                false,
            )
        }),
{
}

/// What an execution publishes reaches the context, and what the task that it became publishes
/// reaches it last.
pub proof fn rounds_publish_before_their_task(driver: McpMrtrDriverView, context: ToolContextView)
    ensures
        driver.task_driver is None ==> published_by(driver, context) == context_with_published(
            driver.published,
            context,
        ),
        driver.task_driver matches Some(task) ==> published_by(driver, context)
            == context_with_published(
            task.published,
            context_with_published(driver.published, context),
        ),
{
}

} // verus!

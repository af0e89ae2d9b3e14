//! Requests to a live MCP client: arguments, input rounds and answers.

use vstd::prelude::*;
use vstd::string::*;

use crate::deferred::{
    InputRequest, InputRequestView, InputRequests, InputResponseView, InputResponses,
};
use crate::duplicate::Duplicate;
use crate::json::{read_json, serde_json_reading, Json, JsonKind, JsonMap};
use crate::model::{
    result_view, CallToolResponse, CallToolResponseView, GetTaskResult, GetTaskResultView,
    InputCategory, InputRequestEntry, InputRequestEntryView, ServerReply, ServerReplyView,
    ServiceError, ServiceErrorView,
};
use crate::string_map::{finite_sets_are_listed, sorted_keys, StringMap};
use crate::text::{
    is_white_space, precedes, trim, trimmed, trimming_cuts_white_space_only,
};

verus! {

/// Why arguments cannot be sent to a tool.
#[derive(Debug)]
pub enum McpArgumentError {
    /// Malformed JSON.
    Json(String),
    /// Valid JSON that is neither an object nor null.
    NonObject(JsonKind),
}

/// The model of a [`McpArgumentError`].
#[verifier::ext_equal]
pub enum McpArgumentErrorView {
    /// Malformed JSON.
    Json(Seq<char>),
    /// Valid JSON that is neither an object nor null.
    NonObject(JsonKind),
}

impl DeepView for McpArgumentError {
    type V = McpArgumentErrorView;

    open spec fn deep_view(&self) -> McpArgumentErrorView {
        match self {
            McpArgumentError::Json(message) => McpArgumentErrorView::Json(message@),
            McpArgumentError::NonObject(kind) => McpArgumentErrorView::NonObject(*kind),
        }
    }
}

impl Duplicate for McpArgumentError {
    fn duplicate(&self) -> (copy: Self) {
        match self {
            McpArgumentError::Json(message) => McpArgumentError::Json(message.clone()),
            McpArgumentError::NonObject(kind) => McpArgumentError::NonObject(*kind),
        }
    }
}

impl Clone for McpArgumentError {
    fn clone(&self) -> (copy: Self)
        ensures
            copy.deep_view() == self.deep_view(),
    {
        self.duplicate()
    }
}

/// The name of a kind of JSON value.
pub open spec fn kind_name(kind: JsonKind) -> Seq<char> {
    match kind {
        JsonKind::Null => "null"@,
        JsonKind::Bool => "boolean"@,
        JsonKind::Number => "number"@,
        JsonKind::String => "string"@,
        JsonKind::Array => "array"@,
        JsonKind::Object => "object"@,
    }
}

/// The name of a kind of JSON value.
pub fn json_value_kind(kind: JsonKind) -> (name: &'static str)
    ensures
        name@ == kind_name(kind),
{
    match kind {
        JsonKind::Null => "null",
        JsonKind::Bool => "boolean",
        JsonKind::Number => "number",
        JsonKind::String => "string",
        JsonKind::Array => "array",
        JsonKind::Object => "object",
    }
}

/// What is wrong with arguments, in words.
pub open spec fn argument_error_text(error: McpArgumentErrorView) -> Seq<char> {
    match error {
        McpArgumentErrorView::Json(message) => "invalid JSON: "@ + message,
        McpArgumentErrorView::NonObject(kind) => "expected a JSON object or null, got "@
            + kind_name(kind),
    }
}

impl McpArgumentError {
    /// What is wrong with the arguments, in words.
    pub fn to_string(&self) -> (text: String)
        ensures
            text@ == argument_error_text(self.deep_view()),
    {
        match self {
            McpArgumentError::Json(message) => {
                let mut text = "invalid JSON: ".to_owned();
                text.append(message.as_str());
                text
            },
            McpArgumentError::NonObject(kind) => {
                let mut text = "expected a JSON object or null, got ".to_owned();
                text.append(json_value_kind(*kind));
                text
            },
        }
    }
}

/// The arguments that a text becomes that reads as `reading`: nothing for `null`, the object for an
/// object, and an error for anything else.
pub open spec fn arguments_of_reading(reading: Result<(JsonKind, Seq<char>), Seq<char>>) -> Result<
    Option<Seq<char>>,
    McpArgumentErrorView,
> {
    match reading {
        Ok((JsonKind::Null, _)) => Ok(None),
        Ok((JsonKind::Object, rendering)) => Ok(Some(rendering)),
        Ok((kind, _)) => Err(McpArgumentErrorView::NonObject(kind)),
        Err(message) => Err(McpArgumentErrorView::Json(message)),
    }
}

/// Takes the arguments out of what a text reads as.
pub fn arguments_from(reading: Result<(JsonKind, String), String>) -> (arguments: Result<
    Option<Json>,
    McpArgumentError,
>)
    ensures
        result_view(arguments) == arguments_of_reading(
            match reading {
                Ok((kind, rendering)) => Ok((kind, rendering@)),
                Err(message) => Err(message@),
            },
        ),
{
    match reading {
        Ok((kind, rendering)) => match kind {
            JsonKind::Null => Ok(None),
            JsonKind::Object => Ok(Some(Json { text: rendering })),
            _ => Err(McpArgumentError::NonObject(kind)),
        },
        Err(message) => Err(McpArgumentError::Json(message)),
    }
}

/// What the arguments of a call read as. A blank text counts as `null`.
pub open spec fn argument_reading(args: Seq<char>) -> Result<(JsonKind, Seq<char>), Seq<char>> {
    if trimmed(args).len() == 0 {
        Ok((JsonKind::Null, "null"@))
    } else {
        serde_json_reading(trimmed(args))
    }
}

/// Reads the arguments of a call. A blank text and `null` are no arguments; anything but an object
/// is refused, since a call without arguments may do something else than was asked for.
pub fn parse_mcp_arguments(args: &str) -> (arguments: Result<Option<Json>, McpArgumentError>)
    ensures
        result_view(arguments) == arguments_of_reading(argument_reading(args@)),
{
    let trimmed = trim(args);
    if trimmed.is_empty() {
        return Ok(None);
    }
    arguments_from(read_json(trimmed))
}

/// The category of an input request, by name.
pub open spec fn category_name(category: InputCategory) -> Seq<char> {
    match category {
        InputCategory::Sampling => "sampling"@,
        InputCategory::Elicitation => "elicitation"@,
        InputCategory::Roots => "roots"@,
        InputCategory::Unsupported => "unsupported"@,
    }
}

/// The category of an input request, by name.
fn category_text(category: InputCategory) -> (name: &'static str)
    ensures
        name@ == category_name(category),
{
    match category {
        InputCategory::Sampling => "sampling",
        InputCategory::Elicitation => "elicitation",
        InputCategory::Roots => "roots",
        InputCategory::Unsupported => "unsupported",
    }
}

/// A server's input request as the application sees it.
pub open spec fn application_request(id: Seq<char>, entry: InputRequestEntryView) ->
    InputRequestView {
    InputRequestView {
        id,
        kind: category_name(entry.category),
        prompt: None,
        schema: entry.value,
        metadata: Map::empty(),
    }
}

/// A server's input requests as the application sees them, in the order of their keys.
pub open spec fn application_requests(entries: Map<Seq<char>, InputRequestEntryView>) -> Seq<
    InputRequestView,
> {
    let keys = sorted_keys(entries.dom());
    Seq::new(keys.len(), |i: int| application_request(keys[i], entries[keys[i]]))
}

/// Shows a server's input requests to the application, in the order of their keys.
pub fn rig_input_requests(requests: &StringMap<InputRequestEntry>) -> (shown: InputRequests)
    ensures
        shown.deep_view() == application_requests(requests.deep_view()),
{
    let mut shown: Vec<InputRequest> = Vec::new();
    let count: usize = requests.len();
    assert(requests.deep_view().dom() =~= requests@.dom());
    let mut i: usize = 0;
    while i < count
        invariant
            i <= count,
            count == requests.keys().len(),
            requests.keys() == sorted_keys(requests.deep_view().dom()),
            shown.len() == i,
            forall|j: int|
                0 <= j < i ==> (#[trigger] shown@[j]).deep_view() == application_requests(
                    requests.deep_view(),
                )[j],
        decreases count - i,
    {
        let id = requests.key_at(i);
        let entry = requests.value_at(i);
        let metadata: JsonMap = StringMap::new();
        assert(metadata.deep_view() =~= Map::<Seq<char>, Seq<char>>::empty());
        shown.push(
            InputRequest {
                id: id.clone(),
                kind: category_text(entry.category).to_owned(),
                prompt: None,
                schema: entry.value.duplicate(),
                metadata,
            },
        );
        i = i + 1;
    }
    let shown = InputRequests(shown);
    assert(shown.deep_view() =~= application_requests(requests.deep_view()));
    shown
}

/// Responses by the request that they answer; the last one counts.
pub open spec fn responses_by_request(responses: Seq<InputResponseView>) -> Map<
    Seq<char>,
    Seq<char>,
>
    decreases responses.len(),
{
    if responses.len() == 0 {
        Map::empty()
    } else {
        responses_by_request(responses.drop_last()).insert(
            responses.last().request_id,
            responses.last().value,
        )
    }
}

/// Orders the application's responses by the request that they answer.
pub fn rmcp_input_responses(responses: InputResponses) -> (by_request: JsonMap)
    ensures
        by_request.deep_view() == responses_by_request(responses.deep_view()),
{
    let mut by_request: JsonMap = StringMap::new();
    assert(by_request.deep_view() =~= Map::<Seq<char>, Seq<char>>::empty());
    let mut i: usize = 0;
    while i < responses.0.len()
        invariant
            i <= responses.0.len(),
            by_request.deep_view() == responses_by_request(
                responses.deep_view().take(i as int),
            ),
        decreases responses.0.len() - i,
    {
        let response = &responses.0[i];
        by_request.put(response.request_id.clone(), response.value.duplicate());
        proof {
            let next = responses.deep_view().take(i + 1);
            assert(next.drop_last() =~= responses.deep_view().take(i as int));
            assert(next.last() == responses.0@[i as int].deep_view());
        }
        i = i + 1;
    }
    assert(responses.deep_view().take(i as int) =~= responses.deep_view());
    by_request
}

/// The answer to a tool call.
pub open spec fn tool_response(reply: Result<ServerReplyView, ServiceErrorView>) -> Result<
    CallToolResponseView,
    ServiceErrorView,
> {
    match reply {
        Ok(ServerReplyView::CallTool(result)) => Ok(CallToolResponseView::Complete(result)),
        Ok(ServerReplyView::InputRequired(result)) => Ok(
            CallToolResponseView::InputRequired(result),
        ),
        Ok(ServerReplyView::CreateTask(result)) => Ok(CallToolResponseView::Task(result)),
        Ok(_) => Err(ServiceErrorView::UnexpectedResponse),
        Err(error) => Err(error),
    }
}

/// Takes the answer to a tool call out of a server's answer.
pub fn call_mcp_tool(reply: Result<ServerReply, ServiceError>) -> (response: Result<
    CallToolResponse,
    ServiceError,
>)
    ensures
        result_view(response) == tool_response(result_view(reply)),
{
    match reply {
        Ok(ServerReply::CallTool(result)) => Ok(CallToolResponse::Complete(result)),
        Ok(ServerReply::InputRequired(result)) => Ok(CallToolResponse::InputRequired(result)),
        Ok(ServerReply::CreateTask(result)) => Ok(CallToolResponse::Task(result)),
        Ok(_) => Err(ServiceError::UnexpectedResponse),
        Err(error) => Err(error),
    }
}

/// The answer to `tasks/get`.
pub open spec fn task_state(reply: Result<ServerReplyView, ServiceErrorView>) -> Result<
    GetTaskResultView,
    ServiceErrorView,
> {
    match reply {
        Ok(ServerReplyView::GetTask(result)) => Ok(result),
        Ok(_) => Err(ServiceErrorView::UnexpectedResponse),
        Err(error) => Err(error),
    }
}

/// Takes the answer to `tasks/get` out of a server's answer.
pub fn get_mcp_task(reply: Result<ServerReply, ServiceError>) -> (result: Result<
    GetTaskResult,
    ServiceError,
>)
    ensures
        result_view(result) == task_state(result_view(reply)),
{
    match reply {
        Ok(ServerReply::GetTask(result)) => Ok(result),
        Ok(_) => Err(ServiceError::UnexpectedResponse),
        Err(error) => Err(error),
    }
}

/// What is wrong with the answer to `tasks/update` or `tasks/cancel`, if anything: only an
/// acknowledgement or an empty result will do.
pub open spec fn unacknowledged(reply: Result<ServerReplyView, ServiceErrorView>) -> Option<
    ServiceErrorView,
> {
    match reply {
        Ok(ServerReplyView::TaskAck) | Ok(ServerReplyView::Empty) => None,
        Ok(_) => Some(ServiceErrorView::UnexpectedResponse),
        Err(error) => Some(error),
    }
}

/// Checks the answer to `tasks/update` or `tasks/cancel`.
fn acknowledged(reply: Result<ServerReply, ServiceError>) -> (result: Result<(), ServiceError>)
    ensures
        match unacknowledged(result_view(reply)) {
            None => result is Ok,
            Some(error) => result matches Err(e) && e.deep_view() == error,
        },
{
    match reply {
        Ok(ServerReply::TaskAck) => Ok(()),
        Ok(ServerReply::Empty) => Ok(()),
        Ok(_) => Err(ServiceError::UnexpectedResponse),
        Err(error) => Err(error),
    }
}

/// Checks the answer to `tasks/update`.
pub fn update_mcp_task(reply: Result<ServerReply, ServiceError>) -> (result: Result<
    (),
    ServiceError,
>)
    ensures
        match unacknowledged(result_view(reply)) {
            None => result is Ok,
            Some(error) => result matches Err(e) && e.deep_view() == error,
        },
{
    acknowledged(reply)
}

/// Checks the answer to `tasks/cancel`.
pub fn cancel_mcp_task(reply: Result<ServerReply, ServiceError>) -> (result: Result<
    (),
    ServiceError,
>)
    ensures
        match unacknowledged(result_view(reply)) {
            None => result is Ok,
            Some(error) => result matches Err(e) && e.deep_view() == error,
        },
{
    acknowledged(reply)
}

/// Every response is sent under the request that it answers, and nothing else is sent.
pub proof fn responses_keep_their_requests(responses: Seq<InputResponseView>, id: Seq<char>)
    ensures
        responses_by_request(responses).contains_key(id) <==> exists|i: int|
            0 <= i < responses.len() && #[trigger] responses[i].request_id == id,
    decreases responses.len(),
{
    if responses.len() > 0 {
        let before = responses.drop_last();
        responses_keep_their_requests(before, id);
        if exists|i: int| 0 <= i < before.len() && #[trigger] before[i].request_id == id {
            let i = choose|i: int| 0 <= i < before.len() && #[trigger] before[i].request_id == id;
            assert(responses[i].request_id == id);
        }
        if exists|i: int| 0 <= i < responses.len() && #[trigger] responses[i].request_id == id {
            let i = choose|i: int|
                0 <= i < responses.len() && #[trigger] responses[i].request_id == id;
            if i < before.len() {
                assert(before[i].request_id == id);
            }
        }
        if responses.last().request_id == id {
            assert(responses[responses.len() - 1].request_id == id);
        }
    }
}

/// The application is shown exactly one request for each outstanding identifier, in the order of
/// the identifiers, and each carries the server's own request: where that can be rendered as JSON,
/// the rendering is what the application is shown, and its category is named.
pub proof fn applications_see_what_the_server_asks(entries: Map<Seq<char>, InputRequestEntryView>)
    requires
        entries.dom().finite(),
    ensures
        ({
            let shown = application_requests(entries);
            &&& shown.len() == entries.dom().len()
            &&& forall|i: int|
                0 <= i < shown.len() ==> {
                    let request = #[trigger] shown[i];
                    let asked = entries[request.id];
                    &&& entries.contains_key(request.id)
                    &&& request.schema == asked.value
                    &&& asked.category is Sampling ==> request.kind == "sampling"@
                    &&& asked.category is Elicitation ==> request.kind == "elicitation"@
                    &&& asked.category is Roots ==> request.kind == "roots"@
                    &&& asked.category is Unsupported ==> request.kind == "unsupported"@
                    &&& request.prompt is None
                    &&& request.metadata == Map::<Seq<char>, Seq<char>>::empty()
                }
            &&& forall|i: int, j: int|
                0 <= i < j < shown.len() ==> precedes(
                    (#[trigger] shown[i]).id,
                    (#[trigger] shown[j]).id,
                )
            &&& forall|id: Seq<char>| #[trigger]
                entries.contains_key(id) ==> exists|i: int|
                    0 <= i < shown.len() && (#[trigger] shown[i]).id == id
        }),
{
    let keys = sorted_keys(entries.dom());
    let shown = application_requests(entries);
    finite_sets_are_listed(entries.dom());
    assert forall|i: int| 0 <= i < shown.len() implies entries.contains_key(
        (#[trigger] shown[i]).id,
    ) by {
        assert(keys.contains(keys[i]));
    }
    assert forall|id: Seq<char>| #[trigger] entries.contains_key(id) implies exists|i: int|
        0 <= i < shown.len() && (#[trigger] shown[i]).id == id by {
        assert(keys.contains(id));
        let i = choose|i: int| 0 <= i < keys.len() && keys[i] == id;
        assert(shown[i].id == id);
    }
}

/// What is submitted for an identifier is exactly what the application responded to it; where it
/// responded more than once, the last response counts.
pub proof fn responses_are_submitted_unchanged(responses: Seq<InputResponseView>, i: int)
    requires
        0 <= i < responses.len(),
        forall|j: int| i < j < responses.len() ==> (#[trigger] responses[j]).request_id
            != responses[i].request_id,
    ensures
        responses_by_request(responses).contains_key(responses[i].request_id),
        responses_by_request(responses)[responses[i].request_id] == responses[i].value,
    decreases responses.len(),
{
    let front = responses.drop_last();
    if i < responses.len() - 1 {
        assert(front[i] == responses[i]);
        assert forall|j: int| i < j < front.len() implies (#[trigger] front[j]).request_id
            != front[i].request_id by {
            assert(front[j] == responses[j]);
        }
        responses_are_submitted_unchanged(front, i);
        assert(responses.last() == responses[responses.len() - 1]);
    }
}

/// A reply is taken for what it is. A tool call is answered by a result, a request for input or a
/// task, each handed on unchanged; a task is told by the answer to a request for it; and an update
/// or a cancellation is acknowledged by an acknowledgement or nothing. Any other reply is
/// unexpected, and a failure stays the failure that it was.
pub proof fn replies_are_taken_for_what_they_are(reply: Result<ServerReplyView, ServiceErrorView>)
    ensures
        reply matches Err(error) ==> {
            &&& tool_response(reply) == Err::<CallToolResponseView, ServiceErrorView>(error)
            &&& task_state(reply) == Err::<GetTaskResultView, ServiceErrorView>(error)
            &&& unacknowledged(reply) == Some(error)
        },
        reply matches Ok(answer) ==> {
            &&& answer matches ServerReplyView::CallTool(result) ==> tool_response(reply) == Ok::<
                CallToolResponseView,
                ServiceErrorView,
            >(CallToolResponseView::Complete(result))
            &&& answer matches ServerReplyView::InputRequired(result) ==> tool_response(reply)
                == Ok::<CallToolResponseView, ServiceErrorView>(
                CallToolResponseView::InputRequired(result),
            )
            &&& answer matches ServerReplyView::CreateTask(result) ==> tool_response(reply) == Ok::<
                CallToolResponseView,
                ServiceErrorView,
            >(CallToolResponseView::Task(result))
            &&& !(answer is CallTool) && !(answer is InputRequired) && !(answer is CreateTask)
                ==> tool_response(reply) == Err::<CallToolResponseView, ServiceErrorView>(
                ServiceErrorView::UnexpectedResponse,
            )
            &&& answer matches ServerReplyView::GetTask(result) ==> task_state(reply) == Ok::<
                GetTaskResultView,
                ServiceErrorView,
            >(result)
            &&& !(answer is GetTask) ==> task_state(reply) == Err::<
                GetTaskResultView,
                ServiceErrorView,
            >(ServiceErrorView::UnexpectedResponse)
            &&& unacknowledged(reply) is None <==> answer is TaskAck || answer is Empty
            &&& unacknowledged(reply) matches Some(error) ==> error is UnexpectedResponse
        },
{
}

/// A call without arguments is made exactly for a blank text or `null`, an object is sent as it is,
/// and anything else is refused with what is wrong.
pub proof fn only_objects_are_sent(args: Seq<char>)
    ensures
        (forall|i: int| 0 <= i < args.len() ==> is_white_space(#[trigger] args[i]))
            ==> arguments_of_reading(argument_reading(args)) == Ok::<
            Option<Seq<char>>,
            McpArgumentErrorView,
        >(None),
        !(forall|i: int| 0 <= i < args.len() ==> is_white_space(#[trigger] args[i])) ==> {
            let sent = arguments_of_reading(argument_reading(args));
            match serde_json_reading(trimmed(args)) {
                Ok((kind, rendering)) => {
                    &&& kind is Null ==> sent == Ok::<Option<Seq<char>>, McpArgumentErrorView>(None)
                    &&& kind is Object ==> sent == Ok::<Option<Seq<char>>, McpArgumentErrorView>(
                        Some(rendering),
                    )
                    &&& !(kind is Null) && !(kind is Object) ==> sent == Err::<
                        Option<Seq<char>>,
                        McpArgumentErrorView,
                    >(McpArgumentErrorView::NonObject(kind))
                },
                Err(message) => sent == Err::<Option<Seq<char>>, McpArgumentErrorView>(
                    McpArgumentErrorView::Json(message),
                ),
            }
        },
{
    trimming_cuts_white_space_only(args);
}

/// What is wrong with arguments is told with the reader's complaint, or with the kind of value that
/// was found in place of an object.
pub proof fn argument_errors_tell_what_was_found(message: Seq<char>, kind: JsonKind)
    ensures
        argument_error_text(McpArgumentErrorView::Json(message)) == "invalid JSON: "@ + message,
        ({
            let text = argument_error_text(McpArgumentErrorView::NonObject(kind));
            let before = "expected a JSON object or null, got "@;
            &&& kind is Null ==> text == before + "null"@
            &&& kind is Bool ==> text == before + "boolean"@
            &&& kind is Number ==> text == before + "number"@
            &&& kind is String ==> text == before + "string"@
            &&& kind is Array ==> text == before + "array"@
            &&& kind is Object ==> text == before + "object"@
        }),
{
}

} // verus!

//! Tools for deterministic tests.

use vstd::prelude::*;
use vstd::string::*;

use crate::catalog::{ToolDefinition, ToolDefinitionView};
use crate::descriptor::{ToolTaskDescriptor, ToolTaskDescriptorView};
use crate::duplicate::Duplicate;
use crate::duration::Duration;
use crate::error::{plain_error, ToolErrorKind, ToolExecutionError};
use crate::json::Json;
use crate::output::{ContentView, ToolOutput};
use crate::result::{failed_result, success_result, ToolResult, ToolResultView};
use crate::status::ToolTaskStatus;
use crate::string_map::StringMap;
use crate::task::{TaskResumer, ToolDispatch, ToolTaskHandle};
use crate::text::same;

verus! {

/// The tools of an agent, by name.
#[derive(Debug)]
pub struct ToolSet {
    tools: StringMap<ToolDefinition>,
}

impl DeepView for ToolSet {
    type V = Map<Seq<char>, ToolDefinitionView>;

    closed spec fn deep_view(&self) -> Map<Seq<char>, ToolDefinitionView> {
        self.tools.deep_view()
    }
}

impl ToolSet {
    /// A set without tools.
    pub fn new() -> (set: ToolSet)
        ensures
            set.deep_view() == Map::<Seq<char>, ToolDefinitionView>::empty(),
    {
        let set = ToolSet { tools: StringMap::new() };
        assert(set.tools.deep_view() =~= Map::<Seq<char>, ToolDefinitionView>::empty());
        set
    }

    /// Adds a tool under its name; one that had the name gives way.
    pub fn add_tool(&mut self, tool: ToolDefinition)
        ensures
            final(self).deep_view() == old(self).deep_view().insert(tool.name@, tool.deep_view()),
    {
        self.tools.put(tool.name.clone(), tool);
    }

    /// Whether there is a tool of this name.
    pub fn contains(&self, name: &str) -> (present: bool)
        ensures
            present == self.deep_view().contains_key(name@),
    {
        self.tools.contains_key(name)
    }

    /// How many tools there are.
    pub fn len(&self) -> (count: usize)
        ensures
            count == self.deep_view().dom().len(),
    {
        assert(self.tools.deep_view().dom() =~= self.tools@.dom());
        self.tools.len()
    }
}

/// Shared error type for mock tools.
#[derive(Debug)]
pub struct MockToolError;

impl MockToolError {
    /// The rendering of the error.
    pub fn to_string(&self) -> (text: String)
        ensures
            text@ == "Mock tool error"@,
    {
        "Mock tool error".to_owned()
    }
}

/// Arguments for arithmetic mock tools.
#[derive(Debug, Clone, Copy)]
pub struct MockOperationArgs {
    /// The left operand.
    pub x: i32,
    /// The right operand.
    pub y: i32,
}

/// The model of [`MockAddTool`] as a set holds it.
pub open spec fn add_definition() -> ToolDefinitionView {
    ToolDefinitionView {
        name: MockAddTool::NAME@,
        description: Some("Add x and y together"@),
        parameters: "{\"properties\":{\"x\":{\"description\":\"The first number to add\",\"type\":\"number\"},\"y\":{\"description\":\"The second number to add\",\"type\":\"number\"}},\"required\":[\"x\",\"y\"],\"type\":\"object\"}"@,
    }
}

/// A mock tool that adds `x` and `y`.
#[derive(Debug)]
pub struct MockAddTool;

impl MockAddTool {
    /// The name of the tool.
    pub const NAME: &'static str = "add";

    /// What the tool does.
    pub fn description(&self) -> (text: String)
        ensures
            text@ == "Add x and y together"@,
    {
        "Add x and y together".to_owned()
    }

    /// The JSON schema of the arguments.
    pub fn parameters(&self) -> (schema: Json)
        ensures
            schema.deep_view() == "{\"properties\":{\"x\":{\"description\":\"The first number to add\",\"type\":\"number\"},\"y\":{\"description\":\"The second number to add\",\"type\":\"number\"}},\"required\":[\"x\",\"y\"],\"type\":\"object\"}"@,
    {
        Json::from_compact("{\"properties\":{\"x\":{\"description\":\"The first number to add\",\"type\":\"number\"},\"y\":{\"description\":\"The second number to add\",\"type\":\"number\"}},\"required\":[\"x\",\"y\"],\"type\":\"object\"}".to_owned())
    }

    /// Runs the tool. The sum must fit in 32 bits.
    pub fn call(&self, args: MockOperationArgs) -> (output: Result<i32, MockToolError>)
        requires
            i32::MIN <= args.x + args.y <= i32::MAX,
        ensures
            output == Ok::<i32, MockToolError>((args.x + args.y) as i32),
    {
        Ok(args.x + args.y)
    }

    /// The tool as a set holds it.
    pub fn definition(&self) -> (definition: ToolDefinition)
        ensures
            definition.deep_view() == add_definition(),
    {
        ToolDefinition {
            name: Self::NAME.to_owned(),
            description: Some(self.description()),
            parameters: self.parameters(),
        }
    }
}

/// The model of [`MockSubtractTool`] as a set holds it.
pub open spec fn subtract_definition() -> ToolDefinitionView {
    ToolDefinitionView {
        name: MockSubtractTool::NAME@,
        description: Some("Subtract y from x"@),
        parameters: "{\"properties\":{\"x\":{\"description\":\"The number to subtract from\",\"type\":\"number\"},\"y\":{\"description\":\"The number to subtract\",\"type\":\"number\"}},\"required\":[\"x\",\"y\"],\"type\":\"object\"}"@,
    }
}

/// A mock tool that subtracts `y` from `x`.
#[derive(Debug)]
pub struct MockSubtractTool;

impl MockSubtractTool {
    /// The name of the tool.
    pub const NAME: &'static str = "subtract";

    /// What the tool does.
    pub fn description(&self) -> (text: String)
        ensures
            text@ == "Subtract y from x"@,
    {
        "Subtract y from x".to_owned()
    }

    /// The JSON schema of the arguments.
    pub fn parameters(&self) -> (schema: Json)
        ensures
            schema.deep_view() == "{\"properties\":{\"x\":{\"description\":\"The number to subtract from\",\"type\":\"number\"},\"y\":{\"description\":\"The number to subtract\",\"type\":\"number\"}},\"required\":[\"x\",\"y\"],\"type\":\"object\"}"@,
    {
        Json::from_compact("{\"properties\":{\"x\":{\"description\":\"The number to subtract from\",\"type\":\"number\"},\"y\":{\"description\":\"The number to subtract\",\"type\":\"number\"}},\"required\":[\"x\",\"y\"],\"type\":\"object\"}".to_owned())
    }

    /// Runs the tool. The difference must fit in 32 bits.
    pub fn call(&self, args: MockOperationArgs) -> (output: Result<i32, MockToolError>)
        requires
            i32::MIN <= args.x - args.y <= i32::MAX,
        ensures
            output == Ok::<i32, MockToolError>((args.x - args.y) as i32),
    {
        Ok(args.x - args.y)
    }

    /// The tool as a set holds it.
    pub fn definition(&self) -> (definition: ToolDefinition)
        ensures
            definition.deep_view() == subtract_definition(),
    {
        ToolDefinition {
            name: Self::NAME.to_owned(),
            description: Some(self.description()),
            parameters: self.parameters(),
        }
    }
}

/// A set of [`MockAddTool`] and [`MockSubtractTool`].
pub fn mock_math_toolset() -> (set: ToolSet)
    ensures
        set.deep_view() == Map::empty().insert(MockAddTool::NAME@, add_definition()).insert(
            MockSubtractTool::NAME@,
            subtract_definition(),
        ),
{
    let mut set = ToolSet::new();
    set.add_tool(MockAddTool.definition());
    set.add_tool(MockSubtractTool.definition());
    set
}

/// A caller-injected context value, like a session id or auth token.
#[derive(Debug, Clone)]
pub struct SessionId(pub String);

/// A mock tool that records whatever it observed in the context of its calls, in the order of the calls. A call without a context records `call-no-context`, which no dispatched call may show.
#[derive(Debug)]
pub struct MockExtensionsProbeTool {
    seen: Vec<String>,
}

impl DeepView for MockExtensionsProbeTool {
    type V = Seq<Seq<char>>;

    closed spec fn deep_view(&self) -> Seq<Seq<char>> {
        self.seen.deep_view()
    }
}

/// What a call with this session observes.
pub open spec fn session_text(session: Option<&SessionId>) -> Seq<char> {
    match session {
        Some(session) => "session:"@ + session.0@,
        None => "no-session"@,
    }
}

impl Default for MockExtensionsProbeTool {
    fn default() -> (tool: Self)
        ensures
            tool.deep_view() == Seq::<Seq<char>>::empty(),
    {
        MockExtensionsProbeTool::new()
    }
}

impl MockExtensionsProbeTool {
    /// The name of the tool.
    pub const NAME: &'static str = "context_probe";

    /// What the tool does.
    pub fn description(&self) -> (text: String)
        ensures
            text@ == "Records the SessionId observed in its call context"@,
    {
        "Records the SessionId observed in its call context".to_owned()
    }

    /// The JSON schema of the arguments.
    pub fn parameters(&self) -> (schema: Json)
        ensures
            schema.deep_view() == "{\"properties\":{},\"type\":\"object\"}"@,
    {
        Json::from_compact("{\"properties\":{},\"type\":\"object\"}".to_owned())
    }

    /// A tool that has not been called.
    pub fn new() -> (tool: MockExtensionsProbeTool)
        ensures
            tool.deep_view() == Seq::<Seq<char>>::empty(),
    {
        let tool = MockExtensionsProbeTool { seen: Vec::new() };
        assert(tool.seen.deep_view() =~= Seq::<Seq<char>>::empty());
        tool
    }

    /// What the tool observed on its most recent call, if it has been called.
    pub fn observed(&self) -> (last: Option<String>)
        ensures
            last.deep_view() == if self.deep_view().len() == 0 {
                None
            } else {
                Some(self.deep_view().last())
            },
    {
        let count: usize = self.seen.len();
        if count == 0 {
            None
        } else {
            assert(self.seen.deep_view().last() == self.seen@[count - 1]@);
            Some(self.seen[count - 1].clone())
        }
    }

    /// Everything the tool observed, one entry per call in call order.
    pub fn observations(&self) -> (all: Vec<String>)
        ensures
            all.deep_view() == self.deep_view(),
    {
        self.seen.duplicate()
    }

    /// Records an observation.
    fn record(&mut self, text: String)
        ensures
            final(self).deep_view() == old(self).deep_view().push(text@),
    {
        let ghost before = self.seen.deep_view();
        let ghost added = text@;
        self.seen.push(text);
        assert(self.seen.deep_view() =~= before.push(added));
    }

    /// Runs the tool without a context.
    pub fn call(&mut self) -> (output: Result<String, MockToolError>)
        ensures
            output matches Ok(text) && text@ == "call-no-context"@,
            final(self).deep_view() == old(self).deep_view().push("call-no-context"@),
    {
        self.record("call-no-context".to_owned());
        Ok("call-no-context".to_owned())
    }

    /// Runs the tool with the session that its context holds, if any.
    pub fn call_with_extensions(&mut self, session: Option<&SessionId>) -> (output: Result<
        String,
        MockToolError,
    >)
        ensures
            output matches Ok(text) && text@ == session_text(session) && final(self).deep_view()
                == old(self).deep_view().push(text@),
    {
        let observed = match session {
            Some(session) => {
                let mut text = "session:".to_owned();
                text.append(session.0.as_str());
                text
            },
            None => "no-session".to_owned(),
        };
        self.record(observed.clone());
        Ok(observed)
    }
}

/// A mock tool that returns a multiline string.
#[derive(Debug)]
pub struct MockStringOutputTool;

impl MockStringOutputTool {
    /// The name of the tool.
    pub const NAME: &'static str = "string_output";

    /// What the tool does.
    pub fn description(&self) -> (text: String)
        ensures
            text@ == "Returns a multiline string"@,
    {
        "Returns a multiline string".to_owned()
    }

    /// The JSON schema of the arguments.
    pub fn parameters(&self) -> (schema: Json)
        ensures
            schema.deep_view() == "{\"properties\":{},\"type\":\"object\"}"@,
    {
        Json::from_compact("{\"properties\":{},\"type\":\"object\"}".to_owned())
    }

    /// Runs the tool.
    pub fn call(&self) -> (output: Result<String, MockToolError>)
        ensures
            output matches Ok(text) && text@ == "Hello\nWorld"@,
    {
        Ok("Hello\nWorld".to_owned())
    }
}

/// A mock tool that returns image JSON as a string.
#[derive(Debug)]
pub struct MockImageOutputTool;

impl MockImageOutputTool {
    /// The name of the tool.
    pub const NAME: &'static str = "image_output";

    /// What the tool does.
    pub fn description(&self) -> (text: String)
        ensures
            text@ == "Returns image JSON"@,
    {
        "Returns image JSON".to_owned()
    }

    /// The JSON schema of the arguments.
    pub fn parameters(&self) -> (schema: Json)
        ensures
            schema.deep_view() == "{\"properties\":{},\"type\":\"object\"}"@,
    {
        Json::from_compact("{\"properties\":{},\"type\":\"object\"}".to_owned())
    }

    /// Runs the tool.
    pub fn call(&self) -> (output: Result<String, MockToolError>)
        ensures
            output matches Ok(text) && text@ == "{\"data\":\"base64data==\",\"mimeType\":\"image/png\",\"type\":\"image\"}"@,
    {
        Ok("{\"data\":\"base64data==\",\"mimeType\":\"image/png\",\"type\":\"image\"}".to_owned())
    }
}

/// A mock tool that returns a 1x1 red PNG image payload.
#[derive(Debug)]
pub struct MockImageGeneratorTool;

impl MockImageGeneratorTool {
    /// The name of the tool.
    pub const NAME: &'static str = "generate_test_image";

    /// What the tool does.
    pub fn description(&self) -> (text: String)
        ensures
            text@ == "Generates a small test image (a 1x1 red pixel). Call this tool when asked to generate or show an image."@,
    {
        "Generates a small test image (a 1x1 red pixel). Call this tool when asked to generate or show an image.".to_owned()
    }

    /// The JSON schema of the arguments.
    pub fn parameters(&self) -> (schema: Json)
        ensures
            schema.deep_view() == "{\"properties\":{},\"required\":[],\"type\":\"object\"}"@,
    {
        Json::from_compact("{\"properties\":{},\"required\":[],\"type\":\"object\"}".to_owned())
    }

    /// Runs the tool.
    pub fn call(&self) -> (output: Result<String, MockToolError>)
        ensures
            output matches Ok(text) && text@ == "{\"data\":\"iVBORw0KGgoAAAANSUhEUgAAAAEAAAABCAYAAAAfFcSJAAAADUlEQVR42mP8z8DwHwAFBQIAX8jx0gAAAABJRU5ErkJggg==\",\"mimeType\":\"image/png\",\"type\":\"image\"}"@,
    {
        Ok("{\"data\":\"iVBORw0KGgoAAAANSUhEUgAAAAEAAAABCAYAAAAfFcSJAAAADUlEQVR42mP8z8DwHwAFBQIAX8jx0gAAAABJRU5ErkJggg==\",\"mimeType\":\"image/png\",\"type\":\"image\"}".to_owned())
    }
}

/// A mock tool that returns a JSON object.
#[derive(Debug)]
pub struct MockObjectOutputTool;

impl MockObjectOutputTool {
    /// The name of the tool.
    pub const NAME: &'static str = "object_output";

    /// What the tool does.
    pub fn description(&self) -> (text: String)
        ensures
            text@ == "Returns an object"@,
    {
        "Returns an object".to_owned()
    }

    /// The JSON schema of the arguments.
    pub fn parameters(&self) -> (schema: Json)
        ensures
            schema.deep_view() == "{\"properties\":{},\"type\":\"object\"}"@,
    {
        Json::from_compact("{\"properties\":{},\"type\":\"object\"}".to_owned())
    }

    /// Runs the tool.
    pub fn call(&self) -> (output: Result<Json, MockToolError>)
        ensures
            output matches Ok(value) && value.deep_view() == "{\"count\":42,\"status\":\"ok\"}"@,
    {
        Ok(Json::from_compact("{\"count\":42,\"status\":\"ok\"}".to_owned()))
    }
}

/// A mock tool that returns `"Example answer"`.
#[derive(Debug)]
pub struct MockExampleTool;

impl MockExampleTool {
    /// The name of the tool.
    pub const NAME: &'static str = "example_tool";

    /// What the tool does.
    pub fn description(&self) -> (text: String)
        ensures
            text@ == "A tool that returns some example text."@,
    {
        "A tool that returns some example text.".to_owned()
    }

    /// The JSON schema of the arguments.
    pub fn parameters(&self) -> (schema: Json)
        ensures
            schema.deep_view() == "{\"properties\":{},\"required\":[],\"type\":\"object\"}"@,
    {
        Json::from_compact("{\"properties\":{},\"required\":[],\"type\":\"object\"}".to_owned())
    }

    /// Runs the tool.
    pub fn call(&self) -> (output: Result<String, MockToolError>)
        ensures
            output matches Ok(text) && text@ == "Example answer"@,
    {
        Ok("Example answer".to_owned())
    }
}

/// A tool index that returns a predefined list of tool ids.
#[derive(Debug)]
pub struct MockToolIndex {
    tool_ids: Vec<String>,
}

impl DeepView for MockToolIndex {
    type V = Seq<Seq<char>>;

    closed spec fn deep_view(&self) -> Seq<Seq<char>> {
        self.tool_ids.deep_view()
    }
}

impl MockToolIndex {
    /// An index that returns the given ids in order.
    pub fn new(tool_ids: Vec<String>) -> (index: MockToolIndex)
        ensures
            index.deep_view() == tool_ids.deep_view(),
    {
        MockToolIndex { tool_ids }
    }

    /// The ids, best first; the score of each falls with its place.
    pub fn top_n_ids(&self) -> (ids: Vec<String>)
        ensures
            ids.deep_view() == self.deep_view(),
    {
        self.tool_ids.duplicate()
    }
}

/// A classified failure that may carry an HTTP status.
#[derive(Debug)]
pub struct ToolFailure {
    /// The kind of failure.
    pub kind: ToolErrorKind,
    /// What went wrong.
    pub message: String,
    /// The HTTP status behind it.
    pub http_status: Option<u16>,
}

/// What a tool says about its own run.
#[derive(Debug)]
pub enum ToolOutcome {
    /// It succeeded.
    Success,
    /// It failed, but has something to show.
    Failed(ToolFailure),
    /// It denied the call.
    Denied,
}

/// What a tool returns: something to show, how it went, and a value for hooks.
#[derive(Debug)]
pub struct ToolReturn {
    /// What the model is shown.
    pub output: String,
    /// How it went.
    pub outcome: ToolOutcome,
    /// A value for hooks, never sent to the model.
    pub request_id: Option<MockRequestId>,
}

/// Error type for [`MockFailingTool`], carrying a fixed message.
#[derive(Debug)]
pub struct MockFailure;

impl MockFailure {
    /// The rendering of the error.
    pub fn to_string(&self) -> (text: String)
        ensures
            text@ == "mock tool call failed"@,
    {
        "mock tool call failed".to_owned()
    }
}

/// A tool that always fails, with a configured kind of failure.
#[derive(Debug, Clone)]
pub struct MockFailingTool {
    /// The kind of failure.
    pub kind: ToolErrorKind,
}

impl MockFailingTool {
    /// The name of the tool.
    pub const NAME: &'static str = "flaky_tool";

    /// What the tool does.
    pub fn description(&self) -> (text: String)
        ensures
            text@ == "A tool that always fails"@,
    {
        "A tool that always fails".to_owned()
    }

    /// The JSON schema of the arguments.
    pub fn parameters(&self) -> (schema: Json)
        ensures
            schema.deep_view() == "{\"properties\":{},\"type\":\"object\"}"@,
    {
        Json::from_compact("{\"properties\":{},\"type\":\"object\"}".to_owned())
    }

    /// A tool that fails in this way every call.
    pub fn new(kind: ToolErrorKind) -> (tool: MockFailingTool)
        ensures
            tool.kind == kind,
    {
        MockFailingTool { kind }
    }

    /// Runs the tool.
    pub fn call(&self) -> (output: Result<String, MockFailure>)
        ensures
            output == Err::<String, MockFailure>(MockFailure),
    {
        Err(MockFailure)
    }

    /// Classifies the failure of a call.
    pub fn classify_error(&self, error: &MockFailure) -> (failure: ToolFailure)
        ensures
            failure.kind == self.kind,
            failure.message@ == "mock tool call failed"@,
            failure.http_status == match self.kind {
                ToolErrorKind::NotFound => Some(404u16),
                ToolErrorKind::RateLimited => Some(429u16),
                _ => None,
            },
    {
        let http_status = match self.kind {
            ToolErrorKind::NotFound => Some(404u16),
            ToolErrorKind::RateLimited => Some(429u16),
            _ => None,
        };
        ToolFailure { kind: self.kind, message: error.to_string(), http_status }
    }
}

/// A tool that reports a handled failure: the call succeeds, the outcome is a failure, and the model still gets useful output.
#[derive(Debug, Clone)]
pub struct MockHandledFailureTool;

impl MockHandledFailureTool {
    /// The name of the tool.
    pub const NAME: &'static str = "lookup";

    /// What the tool does.
    pub fn description(&self) -> (text: String)
        ensures
            text@ == "Looks up a record"@,
    {
        "Looks up a record".to_owned()
    }

    /// The JSON schema of the arguments.
    pub fn parameters(&self) -> (schema: Json)
        ensures
            schema.deep_view() == "{\"properties\":{},\"type\":\"object\"}"@,
    {
        Json::from_compact("{\"properties\":{},\"type\":\"object\"}".to_owned())
    }

    /// Runs the tool.
    pub fn call(&self) -> (output: Result<String, MockToolError>)
        ensures
            output matches Ok(text) && text@ == "no record found for id 42"@,
    {
        Ok("no record found for id 42".to_owned())
    }

    /// Runs the tool and tells how it went.
    pub fn call_structured(&self) -> (output: Result<ToolReturn, MockToolError>)
        ensures
            output matches Ok(returned) && {
                &&& returned.output@ == "no record found for id 42; try a different id"@
                &&& returned.outcome matches ToolOutcome::Failed(failure) && failure.kind is NotFound
                    && failure.message@ == "record id 42 is missing"@ && failure.http_status
                    == Some(404u16)
                &&& returned.request_id is None
            },
    {
        Ok(
            ToolReturn {
                output: "no record found for id 42; try a different id".to_owned(),
                outcome: ToolOutcome::Failed(
                    ToolFailure {
                        kind: ToolErrorKind::NotFound,
                        message: "record id 42 is missing".to_owned(),
                        http_status: Some(404u16),
                    },
                ),
                request_id: None,
            },
        )
    }
}

/// A tool that declares the call denied.
#[derive(Debug, Clone)]
pub struct MockDeniedTool;

impl MockDeniedTool {
    /// The name of the tool.
    pub const NAME: &'static str = "guarded";

    /// What the tool does.
    pub fn description(&self) -> (text: String)
        ensures
            text@ == "A tool with an internal authorization check"@,
    {
        "A tool with an internal authorization check".to_owned()
    }

    /// The JSON schema of the arguments.
    pub fn parameters(&self) -> (schema: Json)
        ensures
            schema.deep_view() == "{\"properties\":{},\"type\":\"object\"}"@,
    {
        Json::from_compact("{\"properties\":{},\"type\":\"object\"}".to_owned())
    }

    /// Runs the tool.
    pub fn call(&self) -> (output: Result<String, MockToolError>)
        ensures
            output matches Ok(text) && text@ == "ok"@,
    {
        Ok("ok".to_owned())
    }

    /// Runs the tool and tells how it went.
    pub fn call_structured(&self) -> (output: Result<ToolReturn, MockToolError>)
        ensures
            output matches Ok(returned) && {
                &&& returned.output@ == "access to this resource is not permitted"@
                &&& returned.outcome is Denied
                &&& returned.request_id is None
            },
    {
        Ok(
            ToolReturn {
                output: "access to this resource is not permitted".to_owned(),
                outcome: ToolOutcome::Denied,
                request_id: None,
            },
        )
    }
}

/// A value that [`MockMetadataTool`] attaches to its result.
#[derive(Debug, Clone, PartialEq, Eq)]
pub struct MockRequestId(pub String);

/// A tool whose success carries a [`MockRequestId`].
#[derive(Debug, Clone)]
pub struct MockMetadataTool;

impl MockMetadataTool {
    /// The name of the tool.
    pub const NAME: &'static str = "with_meta";

    /// What the tool does.
    pub fn description(&self) -> (text: String)
        ensures
            text@ == "Succeeds and attaches request metadata"@,
    {
        "Succeeds and attaches request metadata".to_owned()
    }

    /// The JSON schema of the arguments.
    pub fn parameters(&self) -> (schema: Json)
        ensures
            schema.deep_view() == "{\"properties\":{},\"type\":\"object\"}"@,
    {
        Json::from_compact("{\"properties\":{},\"type\":\"object\"}".to_owned())
    }

    /// Runs the tool.
    pub fn call(&self) -> (output: Result<String, MockToolError>)
        ensures
            output matches Ok(text) && text@ == "done"@,
    {
        Ok("done".to_owned())
    }

    /// Runs the tool and tells how it went.
    pub fn call_structured(&self) -> (output: Result<ToolReturn, MockToolError>)
        ensures
            output matches Ok(returned) && {
                &&& returned.output@ == "done"@
                &&& returned.outcome is Success
                &&& returned.request_id matches Some(id) && id.0@ == "req-7"@
            },
    {
        Ok(
            ToolReturn {
                output: "done".to_owned(),
                outcome: ToolOutcome::Success,
                request_id: Some(MockRequestId("req-7".to_owned())),
            },
        )
    }
}

/// The script of a mock task.
#[derive(Debug)]
pub struct MockTaskState {
    /// The statuses that are reported, front to back; the last one repeats.
    pub statuses: Vec<ToolTaskStatus>,
    /// The output of the task once it is over.
    pub output: String,
    /// How often the task was cancelled.
    pub cancels: u32,
}

/// The model of a [`MockTaskState`].
#[verifier::ext_equal]
pub struct MockTaskStateView {
    /// The statuses that are reported, front to back; the last one repeats.
    pub statuses: Seq<ToolTaskStatus>,
    /// The output of the task once it is over.
    pub output: Seq<char>,
    /// How often the task was cancelled.
    pub cancels: u32,
}

impl DeepView for MockTaskState {
    type V = MockTaskStateView;

    open spec fn deep_view(&self) -> MockTaskStateView {
        MockTaskStateView {
            statuses: self.statuses.deep_view(),
            output: self.output.deep_view(),
            cancels: self.cancels,
        }
    }
}

/// The status that a script reports next, and what is left of the script.
pub open spec fn next_status(statuses: Seq<ToolTaskStatus>) -> (ToolTaskStatus, Seq<ToolTaskStatus>) {
    if statuses.len() == 0 {
        (ToolTaskStatus::Working, statuses)
    } else if statuses.len() == 1 {
        (statuses[0], statuses)
    } else {
        (statuses[0], statuses.drop_first())
    }
}

/// The result of a mock task in this status; none while it runs.
pub open spec fn mock_result(status: ToolTaskStatus, output: Seq<char>) -> Option<ToolResultView> {
    if !status.terminal() {
        None
    } else if status is Completed {
        Some(success_result(seq![ContentView::Text(output)]))
    } else {
        Some(failed_result(plain_error(ToolErrorKind::Other, output)))
    }
}

impl Default for MockTaskState {
    fn default() -> (state: Self)
        ensures
            state.deep_view() == (MockTaskStateView {
                statuses: Seq::empty(),
                output: Seq::empty(),
                cancels: 0,
            }),
    {
        MockTaskState::new()
    }
}

impl MockTaskState {
    /// A script that says nothing, of a task that keeps working.
    pub fn new() -> (state: MockTaskState)
        ensures
            state.deep_view() == (MockTaskStateView {
                statuses: Seq::empty(),
                output: Seq::empty(),
                cancels: 0,
            }),
    {
        let state = MockTaskState { statuses: Vec::new(), output: String::new(), cancels: 0 };
        assert(state.statuses.deep_view() =~= Seq::<ToolTaskStatus>::empty());
        state
    }

    /// Replaces the scripted statuses.
    pub fn set_statuses(&mut self, statuses: Vec<ToolTaskStatus>)
        ensures
            final(self).deep_view() == (MockTaskStateView {
                statuses: statuses.deep_view(),
                ..old(self).deep_view()
            }),
    {
        self.statuses = statuses;
    }

    /// Completes the task with `output`.
    pub fn complete(&mut self, output: String)
        ensures
            final(self).deep_view() == (MockTaskStateView {
                statuses: seq![ToolTaskStatus::Completed],
                output: output@,
                ..old(self).deep_view()
            }),
    {
        self.output = output;
        self.statuses = vec![ToolTaskStatus::Completed];
        assert(self.statuses.deep_view() =~= seq![ToolTaskStatus::Completed]);
    }

    /// How often the task was cancelled.
    pub fn cancel_count(&self) -> (count: u32)
        ensures
            count == self.deep_view().cancels,
    {
        self.cancels
    }

    /// The status that the script reports next.
    pub fn current_status(&mut self) -> (status: ToolTaskStatus)
        ensures
            (status, final(self).deep_view().statuses) == next_status(
                old(self).deep_view().statuses,
            ),
            final(self).deep_view() == (MockTaskStateView {
                statuses: final(self).deep_view().statuses,
                ..old(self).deep_view()
            }),
    {
        let ghost before = self.statuses.deep_view();
        let count: usize = self.statuses.len();
        if count > 1 {
            let status = self.statuses.remove(0);
            assert(self.statuses.deep_view() =~= before.drop_first());
            status
        } else if count == 1 {
            self.statuses[0]
        } else {
            ToolTaskStatus::Working
        }
    }
}

/// A handle to a mock task, whose script is kept elsewhere.
#[derive(Debug)]
pub struct MockTaskHandle {
    /// The task id.
    pub task_id: String,
    /// What the model is to be told at once.
    pub immediate_response: Option<String>,
}

/// The model of a [`MockTaskHandle`].
#[verifier::ext_equal]
pub struct MockTaskHandleView {
    /// The task id.
    pub task_id: Seq<char>,
    /// What the model is to be told at once.
    pub immediate_response: Option<Seq<char>>,
}

impl DeepView for MockTaskHandle {
    type V = MockTaskHandleView;

    open spec fn deep_view(&self) -> MockTaskHandleView {
        MockTaskHandleView {
            task_id: self.task_id.deep_view(),
            immediate_response: self.immediate_response.deep_view(),
        }
    }
}

/// The description of a mock task.
pub open spec fn mock_description(handle: MockTaskHandleView) -> ToolTaskDescriptorView {
    ToolTaskDescriptorView {
        backend: "mock"@,
        task_id: handle.task_id,
        tool_name: MockTaskTool::NAME@,
        server_key: None,
        created_at: None,
        ttl_ms: None,
        poll_interval_ms: None,
        immediate_response: handle.immediate_response,
    }
}

impl MockTaskHandle {
    /// The status that the script reports next.
    pub fn status(&self, state: &mut MockTaskState) -> (status: Result<
        ToolTaskStatus,
        ToolExecutionError,
    >)
        ensures
            status matches Ok(reported) && (reported, final(state).deep_view().statuses)
                == next_status(old(state).deep_view().statuses),
            final(state).deep_view() == (MockTaskStateView {
                statuses: final(state).deep_view().statuses,
                ..old(state).deep_view()
            }),
    {
        Ok(state.current_status())
    }

    /// The result of the task once the script has come to a terminal status; until then the script
    /// has to advance.
    pub fn wait(&self, state: &mut MockTaskState) -> (result: Option<ToolResult>)
        ensures
            result.deep_view() == mock_result(
                next_status(old(state).deep_view().statuses).0,
                old(state).deep_view().output,
            ),
            final(state).deep_view() == (MockTaskStateView {
                statuses: next_status(old(state).deep_view().statuses).1,
                ..old(state).deep_view()
            }),
    {
        let status = state.current_status();
        if !status.is_terminal() {
            return None;
        }
        let output = state.output.clone();
        if status == ToolTaskStatus::Completed {
            Some(ToolResult::success(ToolOutput::text(output)))
        } else {
            Some(ToolResult::failed(ToolExecutionError::other(output)))
        }
    }

    /// Cancels the task.
    pub fn cancel(&self, state: &mut MockTaskState) -> (outcome: Result<(), ToolExecutionError>)
        requires
            old(state).deep_view().cancels < u32::MAX,
        ensures
            outcome is Ok,
            final(state).deep_view() == (MockTaskStateView {
                statuses: seq![ToolTaskStatus::Cancelled],
                cancels: (old(state).deep_view().cancels + 1) as u32,
                ..old(state).deep_view()
            }),
    {
        state.cancels = state.cancels + 1;
        state.statuses = vec![ToolTaskStatus::Cancelled];
        assert(state.statuses.deep_view() =~= seq![ToolTaskStatus::Cancelled]);
        Ok(())
    }
}

impl ToolTaskHandle for MockTaskHandle {
    open spec fn described(&self) -> ToolTaskDescriptorView {
        mock_description(self.deep_view())
    }

    fn task_id(&self) -> (id: &str) {
        self.task_id.as_str()
    }

    fn poll_hint(&self) -> (interval: Option<Duration>)
        ensures
            interval.deep_view() == Some(20_000_000nat),
    {
        Some(Duration::from_millis(20))
    }

    fn descriptor(&self) -> (descriptor: ToolTaskDescriptor) {
        let mut descriptor = ToolTaskDescriptor::new(
            "mock".to_owned(),
            self.task_id.clone(),
            MockTaskTool::NAME.to_owned(),
        );
        descriptor.immediate_response = self.immediate_response.duplicate();
        descriptor
    }

    fn immediate_response(&self) -> (text: Option<&str>) {
        match &self.immediate_response {
            Some(text) => Some(text.as_str()),
            None => None,
        }
    }
}

/// A tool whose dispatch always defers behind a [`MockTaskHandle`].
#[derive(Debug)]
pub struct MockTaskTool {
    /// The task id of launched tasks.
    pub task_id: String,
    /// What the model is to be told at once.
    pub immediate_response: Option<String>,
}

/// The model of a [`MockTaskTool`].
#[verifier::ext_equal]
pub struct MockTaskToolView {
    /// The task id of launched tasks.
    pub task_id: Seq<char>,
    /// What the model is to be told at once.
    pub immediate_response: Option<Seq<char>>,
}

impl DeepView for MockTaskTool {
    type V = MockTaskToolView;

    open spec fn deep_view(&self) -> MockTaskToolView {
        MockTaskToolView {
            task_id: self.task_id.deep_view(),
            immediate_response: self.immediate_response.deep_view(),
        }
    }
}

impl Clone for MockTaskTool {
    fn clone(&self) -> (copy: Self)
        ensures
            copy.deep_view() == self.deep_view(),
    {
        MockTaskTool {
            task_id: self.task_id.clone(),
            immediate_response: self.immediate_response.duplicate(),
        }
    }
}

impl MockTaskTool {
    /// The name of the tool.
    pub const NAME: &'static str = "mock_task";

    /// A deferring tool.
    pub fn new(task_id: String) -> (tool: MockTaskTool)
        ensures
            tool.deep_view() == (MockTaskToolView { task_id: task_id@, immediate_response: None }),
    {
        MockTaskTool { task_id, immediate_response: None }
    }

    /// The same tool with something to tell the model at once.
    pub fn with_immediate_response(self, response: String) -> (tool: MockTaskTool)
        ensures
            tool.deep_view() == (MockTaskToolView {
                immediate_response: Some(response@),
                ..self.deep_view()
            }),
    {
        MockTaskTool { task_id: self.task_id, immediate_response: Some(response) }
    }

    /// What the tool does.
    pub fn description(&self) -> (text: String)
        ensures
            text@ == "Test tool that defers behind a task"@,
    {
        "Test tool that defers behind a task".to_owned()
    }

    /// The JSON schema of the arguments.
    pub fn parameters(&self) -> (schema: Json)
        ensures
            schema.deep_view() == "{\"properties\":{},\"type\":\"object\"}"@,
    {
        Json::from_compact("{\"properties\":{},\"type\":\"object\"}".to_owned())
    }

    /// The tool cannot be called directly.
    pub fn call(&self) -> (output: Result<String, ToolExecutionError>)
        ensures
            output matches Err(error) && error.deep_view() == plain_error(
                ToolErrorKind::Other,
                "MockTaskTool only supports the dispatch path"@,
            ),
    {
        Err(
            ToolExecutionError::other(
                "MockTaskTool only supports the dispatch path".to_owned(),
            ),
        )
    }

    /// Dispatches a call.
    pub fn dispatch_structured(&self) -> (dispatch: ToolDispatch<MockTaskHandle>)
        ensures
            dispatch matches ToolDispatch::Deferred(handle) && handle.deep_view() == (
            MockTaskHandleView {
                task_id: self.deep_view().task_id,
                immediate_response: self.deep_view().immediate_response,
            }),
    {
        ToolDispatch::Deferred(
            MockTaskHandle {
                task_id: self.task_id.clone(),
                immediate_response: self.immediate_response.duplicate(),
            },
        )
    }
}

/// A resumer that records the descriptions it is asked about and brings back mock tasks.
#[derive(Debug)]
pub struct MockTaskResumer {
    /// The script that resumed tasks are driven by.
    pub state: MockTaskState,
    /// Every description that this resumer was asked about.
    pub seen: Vec<ToolTaskDescriptor>,
}

impl MockTaskResumer {
    /// A resumer over the given script that was asked about nothing yet.
    pub fn new(state: MockTaskState) -> (resumer: MockTaskResumer)
        ensures
            resumer.state == state,
            resumer.seen.deep_view() == Seq::<ToolTaskDescriptorView>::empty(),
    {
        let resumer = MockTaskResumer { state, seen: Vec::new() };
        assert(resumer.seen.deep_view() =~= Seq::<ToolTaskDescriptorView>::empty());
        resumer
    }
}

impl TaskResumer for MockTaskResumer {
    type Handle = MockTaskHandle;

    fn resume(&mut self, descriptor: &ToolTaskDescriptor) -> (handle: Result<
        Option<MockTaskHandle>,
        ToolExecutionError,
    >)
        ensures
            final(self).state == old(self).state,
            final(self).seen.deep_view() == old(self).seen.deep_view().push(
                descriptor.deep_view(),
            ),
            handle matches Ok(found) && found.deep_view() == if descriptor.backend@ == "mock"@ {
                Some(
                    MockTaskHandleView {
                        task_id: descriptor.deep_view().task_id,
                        immediate_response: descriptor.deep_view().immediate_response,
                    },
                )
            } else {
                None
            },
    {
        let ghost before = self.seen.deep_view();
        self.seen.push(descriptor.duplicate());
        assert(self.seen.deep_view() =~= before.push(descriptor.deep_view()));
        if !same(descriptor.backend.as_str(), "mock") {
            return Ok(None);
        }
        Ok(
            Some(
                MockTaskHandle {
                    task_id: descriptor.task_id.clone(),
                    immediate_response: descriptor.immediate_response.duplicate(),
                },
            ),
        )
    }
}

/// A cancelled mock task reports that it was cancelled from then on, and its result is a failure.
pub proof fn cancelled_mock_tasks_stay_cancelled(statuses: Seq<ToolTaskStatus>, output: Seq<char>)
    requires
        statuses == seq![ToolTaskStatus::Cancelled],
    ensures
        next_status(statuses) == (ToolTaskStatus::Cancelled, statuses),
        mock_result(ToolTaskStatus::Cancelled, output) is Some,
        mock_result(ToolTaskStatus::Cancelled, output)->0.error is Some,
{
}

/// A script is told front to back, and its last word is repeated; without a word the task works.
pub proof fn scripts_are_told_front_to_back(statuses: Seq<ToolTaskStatus>)
    ensures
        statuses.len() == 0 ==> next_status(statuses).0 is Working && next_status(statuses).1.len()
            == 0,
        statuses.len() > 0 ==> next_status(statuses).0 == statuses[0],
        statuses.len() == 1 ==> next_status(statuses).1 == statuses,
        statuses.len() > 1 ==> {
            &&& next_status(statuses).1.len() == statuses.len() - 1
            &&& forall|i: int|
                0 < i < statuses.len() ==> next_status(statuses).1[i - 1] == #[trigger] statuses[i]
        },
{
}

/// A mock task has a result exactly when it is over: its output, as a success where it completed and
/// as a failure with that message where it did not.
pub proof fn mock_results_come_at_the_end(status: ToolTaskStatus, output: Seq<char>)
    ensures
        mock_result(status, output) is Some <==> status is Completed || status is Failed || status
            is Cancelled,
        mock_result(status, output) matches Some(result) ==> {
            &&& result.output == seq![ContentView::Text(output)]
            &&& result.error is None <==> status is Completed
            &&& result.error matches Some(error) ==> error.kind is Other && error.message == output
        },
{
}

/// A mock task is described by its own id and response, as a task of the mock backend and tool.
pub proof fn mock_tasks_are_described(handle: MockTaskHandleView)
    ensures
        mock_description(handle).task_id == handle.task_id,
        mock_description(handle).immediate_response == handle.immediate_response,
        mock_description(handle).backend == "mock"@,
        mock_description(handle).tool_name == "mock_task"@,
        mock_description(handle).server_key is None && mock_description(handle).created_at is None,
        mock_description(handle).ttl_ms is None && mock_description(handle).poll_interval_ms is None,
{
}

/// A probe tells the session that it saw, or that it saw none.
pub proof fn probes_tell_the_session(session: &SessionId)
    ensures
        session_text(Some(session)) == "session:"@ + session.0@,
        session_text(None) == "no-session"@,
{
}

} // verus!
